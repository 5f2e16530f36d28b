//! The registry of running downloads: which ids are active, and which of them
//! have been asked to stop.

use vstd::hash_map::StringHashMap;
use vstd::prelude::*;

verus! {

/// The set of active downloads. Each active id carries a cancellation flag,
/// which only `request_cancel` raises and only a new `begin` lowers.
pub struct DownloadState {
    active_downloads: StringHashMap<bool>,
}

impl View for DownloadState {
    type V = Map<Seq<char>, bool>;

    /// The active ids, each with its cancellation flag.
    closed spec fn view(&self) -> Map<Seq<char>, bool> {
        self.active_downloads@
    }
}

/// Whether `id` is active in `registry` with its cancellation flag raised.
pub open spec fn cancelled_in(registry: Map<Seq<char>, bool>, id: Seq<char>) -> bool {
    registry.contains_key(id) && registry[id]
}

/// The registry after a cancellation request for `id`: the flag of an active
/// id is raised, and nothing changes for an id that is not active.
pub open spec fn after_cancel(registry: Map<Seq<char>, bool>, id: Seq<char>) -> Map<
    Seq<char>,
    bool,
> {
    if registry.contains_key(id) {
        registry.insert(id, true)
    } else {
        registry
    }
}

impl DownloadState {
    /// A registry with no active download.
    pub fn new() -> (state: DownloadState)
        ensures
            state@ == Map::<Seq<char>, bool>::empty(),
    {
        DownloadState { active_downloads: StringHashMap::new() }
    }

    /// Registers `id` as active and not cancelled. An id that is already
    /// active starts over with its flag lowered.
    pub fn begin(&mut self, id: &str)
        ensures
            final(self)@ == old(self)@.insert(id@, false),
    {
        self.active_downloads.insert(id.to_owned(), false);
    }

    /// Raises the cancellation flag of `id` if it is active; otherwise does
    /// nothing.
    pub fn request_cancel(&mut self, id: &str)
        ensures
            final(self)@ == after_cancel(old(self)@, id@),
    {
        if self.active_downloads.contains_key(id) {
            self.active_downloads.insert(id.to_owned(), true);
        }
    }

    /// Whether `id` is active and has been asked to stop.
    pub fn is_cancelled(&self, id: &str) -> (cancelled: bool)
        ensures
            cancelled == cancelled_in(self@, id@),
    {
        match self.active_downloads.get(id) {
            Some(flag) => *flag,
            None => false,
        }
    }

    /// Whether `id` is active.
    pub fn is_active(&self, id: &str) -> (active: bool)
        ensures
            active == self@.contains_key(id@),
    {
        self.active_downloads.contains_key(id)
    }

    /// The number of active downloads.
    pub fn active_count(&self) -> (count: usize)
        ensures
            count == self@.len(),
    {
        self.active_downloads.len()
    }

    /// Removes `id` from the active set, whether or not it was there.
    pub fn end(&mut self, id: &str)
        ensures
            final(self)@ == old(self)@.remove(id@),
    {
        self.active_downloads.remove(id);
    }
}

impl Default for DownloadState {
    fn default() -> (state: DownloadState)
        ensures
            state@ == Map::<Seq<char>, bool>::empty(),
    {
        DownloadState::new()
    }
}

/// Asks the download `id` to stop. The request is accepted whether or not
/// `id` is active: the result is always `Ok`.
pub fn cancel_download(state: &mut DownloadState, id: &str) -> (result: Result<(), String>)
    ensures
        result is Ok,
        final(state)@ == after_cancel(old(state)@, id@),
{
    state.request_cancel(id);
    Ok(())
}

/// A download that is cancelled right after it began is seen as cancelled by
/// the next look at its flag, whatever the registry held before.
pub proof fn lemma_cancel_after_begin_is_observed(registry: Map<Seq<char>, bool>, id: Seq<char>)
    ensures
        cancelled_in(after_cancel(registry.insert(id, false), id), id),
{
}

/// A raised flag stays raised under further cancellation requests, for any
/// id, and the set of active ids does not change.
pub proof fn lemma_cancel_is_monotonic(
    registry: Map<Seq<char>, bool>,
    id: Seq<char>,
    other: Seq<char>,
)
    ensures
        cancelled_in(registry, id) ==> cancelled_in(after_cancel(registry, other), id),
        after_cancel(registry, other).dom() == registry.dom(),
{
    assert(after_cancel(registry, other).dom() =~= registry.dom());
}

/// A finished download leaves no entry behind, and beginning again under the
/// same id starts a lifecycle that is not cancelled.
pub proof fn lemma_end_then_begin_is_fresh(registry: Map<Seq<char>, bool>, id: Seq<char>)
    ensures
        !registry.remove(id).contains_key(id),
        !cancelled_in(registry.remove(id), id),
        !cancelled_in(registry.remove(id).insert(id, false), id),
        !cancelled_in(registry.insert(id, false), id),
{
}

/// Requests and removals for one id leave every other id as it was.
pub proof fn lemma_ids_are_independent(
    registry: Map<Seq<char>, bool>,
    id: Seq<char>,
    other: Seq<char>,
)
    requires
        id != other,
    ensures
        cancelled_in(after_cancel(registry, other), id) == cancelled_in(registry, id),
        cancelled_in(registry.remove(other), id) == cancelled_in(registry, id),
        cancelled_in(registry.insert(other, false), id) == cancelled_in(registry, id),
        registry.remove(other).contains_key(id) == registry.contains_key(id),
{
}

} // verus!
