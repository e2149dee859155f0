//! The source registry: a table that assigns each registered byte source
//! a unique numeric identity, hands out an ownership token for the entry,
//! and serves identity lookups from the stream protocol.
//!
//! Identities start at 1, grow strictly, and are never reassigned within
//! the registry's lifetime, even after an entry has been removed; removal
//! happens exactly once, through the owning [`SourceHandle`].

use vstd::prelude::*;

verus! {

use std::collections::HashMap;
use vstd::string::StringExecFns;

use crate::num::all_digits;
use crate::num::dec_val;
use crate::num::digit_val;
use crate::num::u64_to_dec;

broadcast use vstd::std_specs::hash::group_hash_axioms;

/// A byte source as the registry sees it. The embedder supplies the
/// stream I/O itself; the registry only needs to know whether random
/// seeking must be disabled for the source, and how to pass a best-effort
/// cancellation request on to it.
pub trait Source {
    /// True disables random seeking in the consuming engine.
    fn is_streamed(&self) -> bool {
        false
    }

    /// Best-effort cancellation request; the default does nothing.
    fn cancel(&self) {
    }
}

/// A local-file byte source, identified by its path. The embedder opens
/// the file and reports its size; the registry carries the description.
pub struct FileSource {
    path: String,
}

impl FileSource {
    /// Describe the file at `path` as a byte source.
    pub fn new(path: String) -> (r: FileSource)
        ensures
            r.path_spec() == path@,
    {
        FileSource { path }
    }

    /// The path this source reads from.
    pub fn path(&self) -> (r: &str)
        ensures
            r@ == self.path_spec(),
    {
        self.path.as_str()
    }

    /// The path as a character sequence.
    pub closed spec fn path_spec(&self) -> Seq<char> {
        self.path@
    }
}

impl Source for FileSource {

}

/// The scheme prefix of a synthetic URL, up to and including the double
/// slash.
pub const URL_PREFIX: &'static str = "myproto://";

/// The registry: source entries keyed by identity, plus the next identity
/// to assign.
pub struct Registry<S> {
    next_id: u64,
    sources: HashMap<u64, S>,
}

impl<S> View for Registry<S> {
    type V = Map<u64, S>;

    closed spec fn view(&self) -> Map<u64, S> {
        self.sources@
    }
}

impl<S> Registry<S> {
    /// The identity the next registration will receive.
    pub closed spec fn next_id_spec(&self) -> u64 {
        self.next_id
    }

    /// Registry well-formedness: identities start at 1 and every stored
    /// entry's identity is below the next one to assign, so an identity
    /// is never reassigned.
    pub open spec fn wf(&self) -> bool {
        &&& 1 <= self.next_id_spec()
        &&& forall|k: u64| self@.dom().contains(k) ==> k < self.next_id_spec()
    }

    /// An empty registry; the first registration will receive identity 1.
    pub fn new() -> (r: Registry<S>)
        ensures
            r.wf(),
            r@ == Map::<u64, S>::empty(),
            r.next_id_spec() == 1,
    {
        Registry { next_id: 1, sources: HashMap::new() }
    }

    /// The entry registered under `id`, if it is still present. The
    /// reference is handed out without any lock being held by this type;
    /// the embedder scopes its own locking around the call.
    pub fn lookup(&self, id: u64) -> (r: Option<&S>)
        ensures
            match r {
                Some(s) => self@.dom().contains(id) && *s == self@[id],
                None => !self@.dom().contains(id),
            },
    {
        self.sources.get(&id)
    }

    /// Number of live entries.
    pub fn len(&self) -> (n: usize)
        ensures
            n == self@.dom().len(),
    {
        self.sources.len()
    }
}

/// Ownership token for one registry entry: it knows the entry's identity,
/// renders the synthetic URL that carries it, and is the sole removal
/// path for the entry.
pub struct SourceHandle {
    id: u64,
}

impl SourceHandle {
    /// The identity of the entry this handle owns.
    pub closed spec fn id_spec(&self) -> u64 {
        self.id
    }

    /// The identity as a value, for embedders that key their own state by
    /// it.
    pub fn id(&self) -> (r: u64)
        ensures
            r == self.id_spec(),
    {
        self.id
    }

    /// The synthetic URL for this entry: the scheme prefix followed by
    /// the identity in canonical decimal.
    pub fn url(&self) -> (r: String)
        ensures
            r@.len() > URL_PREFIX@.len(),
            r@.subrange(0, URL_PREFIX@.len() as int) == URL_PREFIX@,
            all_digits(r@.skip(URL_PREFIX@.len() as int)),
            dec_val(r@.skip(URL_PREFIX@.len() as int)) == self.id_spec(),
            r@.len() > URL_PREFIX@.len() + 1 ==> digit_val(r@[URL_PREFIX@.len() as int]) != 0,
    {
        let mut r = String::from_str(URL_PREFIX);
        let digits = u64_to_dec(self.id);
        r.append(digits.as_str());
        proof {
            assert(r@.subrange(0, URL_PREFIX@.len() as int) =~= URL_PREFIX@);
            assert(r@.skip(URL_PREFIX@.len() as int) =~= digits@);
        }
        r
    }

    /// Ask the registered source to cancel, best-effort; a no-op when the
    /// entry is already gone.
    pub fn cancel<S: Source>(&self, reg: &Registry<S>) {
        cancel_source(reg, self.id);
    }

    /// A weak cancellation capability for the same entry; it can outlive
    /// this handle.
    pub fn cancel_handle(&self) -> (c: CancelHandle)
        ensures
            c.source_id_spec() == self.id_spec(),
    {
        CancelHandle { source_id: self.id }
    }

    /// Give the handle up and remove its entry from the registry: the
    /// sole removal path. The next identity to assign is untouched, so
    /// the removed identity is never handed out again.
    pub fn release<S>(self, reg: &mut Registry<S>)
        requires
            old(reg).wf(),
        ensures
            final(reg).wf(),
            final(reg)@ == old(reg)@.remove(self.id_spec()),
            final(reg).next_id_spec() == old(reg).next_id_spec(),
    {
        reg.sources.remove(&self.id);
        proof {
            assert(vstd::std_specs::hash::obeys_key_model::<u64>());
            assert(reg.sources@ == old(reg).sources@.remove(self.id));
            assert forall|k: u64| reg@.dom().contains(k) implies k < reg.next_id_spec() by {
                assert(old(reg)@.dom().contains(k));
            }
        }
    }
}

/// Register a source: assign it the next identity, store it, and return
/// the owning handle. Identities are assigned strictly increasingly, so
/// every registration gets a fresh one.
pub fn register_source<S>(reg: &mut Registry<S>, source: S) -> (h: SourceHandle)
    requires
        old(reg).wf(),
        old(reg).next_id_spec() < u64::MAX,
    ensures
        final(reg).wf(),
        h.id_spec() == old(reg).next_id_spec(),
        !old(reg)@.dom().contains(h.id_spec()),
        final(reg)@ == old(reg)@.insert(h.id_spec(), source),
        final(reg).next_id_spec() == old(reg).next_id_spec() + 1,
{
    let id = reg.next_id;
    reg.next_id = reg.next_id + 1;
    reg.sources.insert(id, source);
    proof {
        assert forall|k: u64| reg@.dom().contains(k) implies k < reg.next_id_spec() by {
            if k != id {
                assert(old(reg)@.dom().contains(k));
            }
        }
    }
    SourceHandle { id }
}

/// Pass a best-effort cancellation request on to the source registered
/// under `id`, if it is still present; otherwise do nothing.
pub fn cancel_source<S: Source>(reg: &Registry<S>, id: u64) {
    match reg.lookup(id) {
        Some(source) => source.cancel(),
        None => (),
    }
}

/// Distinct registrations receive distinct, strictly increasing
/// identities, and removing either entry never touches the other's.
///
/// The hypotheses are exactly what [`register_source`] ensures for two
/// registrations in sequence, stated over the registry's map view and
/// next-identity counter.
pub proof fn lemma_registration_ids_unique<S>(
    r0: Registry<S>,
    r1: Registry<S>,
    r2: Registry<S>,
    id1: u64,
    id2: u64,
    s1: S,
    s2: S,
)
    requires
        r0.wf(),
        id1 == r0.next_id_spec(),
        r1@ == r0@.insert(id1, s1),
        r1.next_id_spec() == id1 + 1,
        id2 == r1.next_id_spec(),
        r2@ == r1@.insert(id2, s2),
        r2.next_id_spec() == id2 + 1,
    ensures
        id2 > id1,
        !r0@.dom().contains(id1),
        !r1@.dom().contains(id2),
        r2@.remove(id1).dom().contains(id2) && r2@.remove(id1)[id2] == s2,
        r2@.remove(id2).dom().contains(id1) && r2@.remove(id2)[id1] == s1,
{
}

/// A weak, cloneable cancellation capability: it carries the identity of
/// a registered source and can request cancellation without owning the
/// entry's lifecycle.
#[derive(Clone, Copy)]
pub struct CancelHandle {
    source_id: u64,
}

impl CancelHandle {
    /// The identity this capability points at.
    pub closed spec fn source_id_spec(&self) -> u64 {
        self.source_id
    }

    /// Ask the source this capability points at to cancel, best-effort;
    /// a no-op when the entry is already gone.
    pub fn cancel<S: Source>(&self, reg: &Registry<S>) {
        cancel_source(reg, self.source_id);
    }
}

} // verus!
