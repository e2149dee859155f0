//! Output capture: an append-only byte buffer the native engine's output
//! callbacks write into. The embedder wraps it in its own lock and only
//! extracts the bytes after the engine's thread has been joined; this
//! module holds the buffer discipline itself.

use vstd::prelude::*;

verus! {

/// An append-only byte buffer for one output stream of the engine.
pub struct CaptureBuffer {
    buf: Vec<u8>,
}

impl View for CaptureBuffer {
    type V = Seq<u8>;

    closed spec fn view(&self) -> Seq<u8> {
        self.buf@
    }
}

impl CaptureBuffer {
    /// An empty buffer.
    pub fn new() -> (r: CaptureBuffer)
        ensures
            r@ == Seq::<u8>::empty(),
    {
        CaptureBuffer { buf: Vec::new() }
    }

    /// Extract the accumulated bytes, consuming the buffer.
    pub fn into_inner(self) -> (r: Vec<u8>)
        ensures
            r@ == self@,
    {
        self.buf
    }

    /// Number of bytes accumulated so far.
    pub fn len(&self) -> (n: usize)
        ensures
            n == self@.len(),
    {
        self.buf.len()
    }
}

/// One output callback delivery: append `data` to the buffer and report
/// how many bytes were accepted — all of them, or zero for a degenerate
/// empty delivery, which leaves the buffer untouched.
#[verifier::loop_isolation(false)]
pub fn capture_write(target: &mut CaptureBuffer, data: &[u8]) -> (r: i32)
    requires
        data@.len() <= i32::MAX,
        old(target)@.len() + data@.len() <= usize::MAX,
    ensures
        data@.len() == 0 ==> final(target)@ == old(target)@ && r == 0,
        data@.len() > 0 ==> final(target)@ == old(target)@ + data@ && r == data@.len(),
{
    if data.len() == 0 {
        return 0;
    }
    let n = data.len();
    let mut i: usize = 0;
    proof {
        assert(target.buf@ =~= old(target)@ + data@.subrange(0, 0));
    }
    while i < n
        invariant
            i <= n,
            target.buf@ == old(target)@ + data@.subrange(0, i as int),
        decreases n - i,
    {
        let b = data[i];
        target.buf.push(b);
        proof {
            assert(target.buf@ =~= old(target)@ + data@.subrange(0, i + 1));
        }
        i += 1;
    }
    proof {
        assert(data@.subrange(0, n as int) =~= data@);
    }
    n as i32
}

} // verus!
