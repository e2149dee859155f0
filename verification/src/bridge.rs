//! Decision logic of the four-operation stream protocol the native engine
//! drives: validation of read requests, mapping of read outcomes to the
//! engine's return convention, and the whence arithmetic of `seek`.
//!
//! The functions here are pure: the embedding side performs the actual
//! stream I/O and hands the observed values in as plain arguments.

use vstd::prelude::*;

verus! {

use vstd::string::StrSliceExecFns;

use crate::num::all_digits;
use crate::num::dec_val;
use crate::num::parse_u64;
use crate::registry::Registry;
use crate::registry::URL_PREFIX;
use crate::text::find_from;
use crate::text::lemma_find_from_some;
use crate::text::lemma_find_is;
use crate::text::lemma_find_is_none;
use crate::text::lemma_find_shift;
use crate::text::match_at;
use crate::text::spec_find;

/// The characters separating a URL's scheme from the rest.
pub open spec fn scheme_sep() -> Seq<char> {
    seq![':', '/', '/']
}

/// A single slash, the separator before an ignored trailing path.
pub open spec fn slash() -> Seq<char> {
    seq!['/']
}

/// The identity embedded in a synthetic URL: everything after the first
/// scheme separator (or the whole string if there is none), cut off at
/// the first slash, read as a decimal number. `None` when that piece is
/// not a number that fits.
pub open spec fn spec_parse_id(s: Seq<char>) -> Option<u64> {
    let rest = match spec_find(s, scheme_sep()) {
        Some(j) => s.subrange(j + 3, s.len() as int),
        None => s,
    };
    let idpart = match spec_find(rest, slash()) {
        Some(k) => rest.subrange(0, k),
        None => rest,
    };
    if idpart.len() > 0 && all_digits(idpart) && dec_val(idpart) <= u64::MAX {
        Some(dec_val(idpart) as u64)
    } else {
        None
    }
}

/// Extract the numeric identity out of a synthetic URL; see
/// [`spec_parse_id`].
pub fn parse_id(uri: &str) -> (r: Option<u64>)
    ensures
        r == spec_parse_id(uri@),
{
    let n = uri.unicode_len();
    let sep = "://";
    proof {
        reveal_strlit("://");
        assert(sep@ =~= scheme_sep());
    }
    let rest_start: usize = match find_from(uri, sep, 0) {
        Some(j) => {
            proof {
                lemma_find_from_some(uri@, sep@, 0, j as int);
            }
            j + 3
        },
        None => 0,
    };
    let ghost rest = match spec_find(uri@, scheme_sep()) {
        Some(j) => uri@.subrange(j + 3, n as int),
        None => uri@,
    };
    proof {
        assert(rest =~= uri@.subrange(rest_start as int, n as int));
    }
    let sl = "/";
    proof {
        reveal_strlit("/");
        assert(sl@ =~= slash());
    }
    let id_end: usize = match find_from(uri, sl, rest_start) {
        Some(k) => {
            proof {
                lemma_find_from_some(uri@, sl@, rest_start as int, k as int);
                lemma_find_shift(uri@, sl@, rest_start as int, 0);
            }
            k
        },
        None => {
            proof {
                lemma_find_shift(uri@, sl@, rest_start as int, 0);
            }
            n
        },
    };
    let ghost idpart = match spec_find(rest, slash()) {
        Some(k) => rest.subrange(0, k),
        None => rest,
    };
    proof {
        assert(idpart =~= uri@.subrange(rest_start as int, id_end as int));
    }
    let piece = uri.substring_char(rest_start, id_end);
    parse_u64(piece)
}

/// The arithmetic the four whence cases owe, over any size and observed
/// position: seeking to zero from the start lands at zero, a relative
/// seek moves by exactly the offset from the observed position, an
/// end-relative seek lands at the size plus the offset — and the
/// size-report sentinel is answered by [`plan_seek`] before any of this,
/// independently of the position.
pub proof fn lemma_seek_whence_arithmetic(size: int, cur: int, k: int)
    ensures
        spec_seek_target(size, cur, 0, SEEK_WHENCE_START as int) == Some(0int),
        spec_seek_target(size, cur, k, SEEK_WHENCE_CURRENT as int) == Some(cur + k),
        spec_seek_target(size, cur, k, SEEK_WHENCE_END as int) == Some(size + k),
{
}

/// A synthetic URL parses back to the identity it was rendered from:
/// for any string of the shape the registry's handles produce — the
/// scheme prefix followed by at least one digit — the parsed identity is
/// the value of those digits.
pub proof fn lemma_url_round_trip(u: Seq<char>, id: u64)
    requires
        u.len() > URL_PREFIX@.len(),
        u.subrange(0, URL_PREFIX@.len() as int) == URL_PREFIX@,
        all_digits(u.skip(URL_PREFIX@.len() as int)),
        dec_val(u.skip(URL_PREFIX@.len() as int)) == id,
    ensures
        spec_parse_id(u) == Some(id),
{
    reveal_strlit("myproto://");
    let plen = URL_PREFIX@.len() as int;
    assert(plen == 10);
    let digits = u.skip(plen);
    assert forall|i: int| 0 <= i < plen implies u[i] == URL_PREFIX@[i] by {
        assert(u.subrange(0, plen)[i] == URL_PREFIX@[i]);
    }
    assert(u[7] == ':' && u[8] == '/' && u[9] == '/');
    assert(u.subrange(7, 10) =~= scheme_sep());
    assert(match_at(u, scheme_sep(), 7));
    assert forall|k: int| 0 <= k < 7 implies !match_at(u, scheme_sep(), k) by {
        if match_at(u, scheme_sep(), k) {
            assert(u.subrange(k, k + 3)[0] == ':');
        }
    }
    lemma_find_is(u, scheme_sep(), 7);
    let rest = u.subrange(10, u.len() as int);
    assert(rest =~= digits);
    assert forall|k: int| !match_at(rest, slash(), k) by {
        if match_at(rest, slash(), k) {
            assert(rest.subrange(k, k + 1)[0] == '/');
            assert(rest[k] == '/');
            assert(crate::num::is_digit(digits[k]));
        }
    }
    lemma_find_is_none(rest, slash());
    assert(digits.len() > 0);
}

/// Releasing a handle removes exactly its entry: the handle's own URL
/// still parses back to its identity but no longer resolves — so an open
/// through it falls back to the default source — while every other entry
/// is untouched.
///
/// The first hypothesis is what [`crate::registry::SourceHandle::release`]
/// ensures; the rest is the URL shape that
/// [`crate::registry::SourceHandle::url`] ensures.
pub proof fn lemma_release_then_fallback<S>(
    r0: Registry<S>,
    r1: Registry<S>,
    id: u64,
    u: Seq<char>,
)
    requires
        r1@ == r0@.remove(id),
        u.len() > URL_PREFIX@.len(),
        u.subrange(0, URL_PREFIX@.len() as int) == URL_PREFIX@,
        all_digits(u.skip(URL_PREFIX@.len() as int)),
        dec_val(u.skip(URL_PREFIX@.len() as int)) == id,
    ensures
        spec_parse_id(u) == Some(id),
        !r1@.dom().contains(id),
        forall|k: u64|
            k != id && r0@.dom().contains(k) ==> r1@.dom().contains(k) && r1@[k] == r0@[k],
{
    lemma_url_round_trip(u, id);
}

/// Resolve a synthetic URL against the registry: parse the identity out
/// of it and look the entry up. `None` — for an unparsable URL as much as
/// for an identity without a live entry — tells the caller to apply its
/// fallback policy.
pub fn resolve_source<'a, S>(reg: &'a Registry<S>, uri: &str) -> (r: Option<&'a S>)
    ensures
        match r {
            Some(s) => spec_parse_id(uri@) matches Some(id) && reg@.dom().contains(id) && *s
                == reg@[id],
            None => spec_parse_id(uri@) matches Some(id) ==> !reg@.dom().contains(id),
        },
{
    match parse_id(uri) {
        Some(id) => reg.lookup(id),
        None => None,
    }
}

/// Sentinel `whence` value by which the engine asks for the total size of
/// the stream instead of an actual repositioning.
pub const SEEK_WHENCE_SIZE: i32 = 0x10000;

/// `whence` selecting an absolute position, counted from the start.
pub const SEEK_WHENCE_START: i32 = 0;

/// `whence` selecting a position relative to the current one.
pub const SEEK_WHENCE_CURRENT: i32 = 1;

/// `whence` selecting a position relative to the end of the stream.
pub const SEEK_WHENCE_END: i32 = 2;

/// What a `seek` call asks the bridge to do, after the whence arithmetic
/// has been carried out.
#[derive(Debug, PartialEq, Eq, Structural, Clone, Copy)]
pub enum SeekPlan {
    /// Answer the size-report sentinel with the cached size; the stream is
    /// not repositioned.
    ReportSize { size: i64 },
    /// Reposition the underlying stream to this absolute offset.
    SeekTo { target: u64 },
    /// The request is invalid (unknown whence, or a negative computed
    /// position); answer with the error sentinel.
    Reject,
}

/// The target position a `(pos, whence)` pair denotes, given the cached
/// stream size and the position observed just before the call; `None` for
/// an unknown whence.
pub open spec fn spec_seek_target(size: int, cur: int, pos: int, whence: int) -> Option<int> {
    if whence == SEEK_WHENCE_START {
        Some(pos)
    } else if whence == SEEK_WHENCE_CURRENT {
        Some(cur + pos)
    } else if whence == SEEK_WHENCE_END {
        Some(size + pos)
    } else {
        None
    }
}

/// Carry out the whence arithmetic of a `seek` request.
///
/// `size` is the size captured when the stream was opened (`-1` when
/// unknown), `cur` the stream position observed immediately before the
/// call (only consulted for the relative-to-current case), `pos` and
/// `whence` the request itself. The size-report sentinel is answered
/// first, regardless of `pos`; a computed negative position is rejected,
/// never clamped.
pub fn plan_seek(size: i64, cur: i64, pos: i64, whence: i32) -> (p: SeekPlan)
    ensures
        whence == SEEK_WHENCE_SIZE ==> p == (SeekPlan::ReportSize { size }),
        whence != SEEK_WHENCE_SIZE ==> match spec_seek_target(
            size as int,
            cur as int,
            pos as int,
            whence as int,
        ) {
            Some(t) => if t < 0 {
                p == SeekPlan::Reject
            } else {
                p == (SeekPlan::SeekTo { target: t as u64 })
            },
            None => p == SeekPlan::Reject,
        },
{
    if whence == SEEK_WHENCE_SIZE {
        return SeekPlan::ReportSize { size };
    }
    let target: i128 = if whence == SEEK_WHENCE_START {
        pos as i128
    } else if whence == SEEK_WHENCE_CURRENT {
        cur as i128 + pos as i128
    } else if whence == SEEK_WHENCE_END {
        size as i128 + pos as i128
    } else {
        return SeekPlan::Reject;
    };
    if target < 0 {
        return SeekPlan::Reject;
    }
    SeekPlan::SeekTo { target: target as u64 }
}

/// What a `read` call asks the bridge to do once the request has been
/// validated.
#[derive(Debug, PartialEq, Eq, Structural, Clone, Copy)]
pub enum ReadPlan {
    /// Read up to this many bytes from the underlying stream.
    Read { len: usize },
    /// The request is invalid (missing context or buffer, or a
    /// non-positive length); answer with the error sentinel.
    Reject,
}

/// Validate a `read` request: the context and the destination buffer must
/// both be present and the requested length positive; anything else is
/// answered with the error sentinel rather than reaching the stream.
pub fn plan_read(ctx_present: bool, buf_present: bool, req: i32) -> (p: ReadPlan)
    ensures
        (ctx_present && buf_present && req > 0) ==> p == (ReadPlan::Read { len: req as usize }),
        !(ctx_present && buf_present && req > 0) ==> p == ReadPlan::Reject,
{
    if ctx_present && buf_present && req > 0 {
        ReadPlan::Read { len: req as usize }
    } else {
        ReadPlan::Reject
    }
}

/// Map the outcome of the underlying stream read onto the engine's return
/// convention: the byte count on success (`0` thus signalling end of
/// stream), `-1` on failure.
pub fn read_return(outcome: Option<usize>) -> (r: i32)
    requires
        outcome matches Some(n) ==> n <= i32::MAX,
    ensures
        match outcome {
            Some(n) => r == n as i32,
            None => r == -1,
        },
{
    match outcome {
        Some(n) => n as i32,
        None => -1,
    }
}

/// The size value encoded into an open stream context: the resolved size
/// when the source reported one, and the `-1` sentinel when it is unknown.
pub fn effective_size(size: Option<i64>) -> (r: i64)
    ensures
        match size {
            Some(s) => r == s,
            None => r == -1,
        },
{
    match size {
        Some(s) => s,
        None => -1,
    }
}

} // verus!
