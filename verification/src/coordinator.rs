//! The owner of the single in-flight fetch. Spawning, awaiting and
//! cancelling the background task are the surrounding application's work;
//! what is decided here — which fetch is current, and whether a completed
//! fetch may write its results — is verified.
//!
//! Every fetch the coordinator issues carries a fresh generation number.
//! A completion is applied to the store only while its generation is the
//! active one; stopping (or starting a replacement fetch) retires the
//! active generation, so a late result of a cancelled or superseded fetch
//! can never write.

use vstd::prelude::*;

use crate::item::ResultItem;
use crate::store::{ResultStore, StoreModel};

verus! {

/// Why a fetch produced no results.
#[derive(Debug, PartialEq)]
pub enum FetchError {
    /// The search call failed: network, HTTP or a malformed response.
    Provider { message: String },
    /// The fetch was cancelled; a normal outcome of a superseded search.
    Cancelled,
}

/// What the application must spawn: one search for `query`, reporting back
/// under `generation`.
#[derive(Debug, PartialEq)]
pub struct FetchRequest {
    pub generation: u64,
    pub query: Vec<char>,
}

/// Mathematical model of a [`SearchCoordinator`]: the generation of the
/// in-flight fetch, if one is out, and the next generation to issue.
#[verifier::ext_equal]
pub struct CoordModel {
    pub active: Option<int>,
    pub next_gen: int,
}

impl CoordModel {
    /// Issued generations stay below the counter, so a fresh generation
    /// never collides with the active one.
    pub open spec fn wf(self) -> bool {
        self.active matches Some(g) ==> 0 <= g < self.next_gen
    }
}

/// The coordinator after starting a fetch, and the generation it carries.
pub open spec fn spec_start(c: CoordModel) -> (CoordModel, int) {
    ((CoordModel { active: Some(c.next_gen), next_gen: c.next_gen + 1 }), c.next_gen)
}

/// The coordinator after stopping: no fetch is active.
pub open spec fn spec_stop(c: CoordModel) -> CoordModel {
    CoordModel { active: None, next_gen: c.next_gen }
}

/// The coordinator and store after a fetch reports back, and whether the
/// results were applied. A completion counts only while its generation is
/// the active one; a successful current fetch replaces the store's items
/// and clears the selection, a failed one leaves the stale results
/// visible, and a stale generation changes nothing.
pub open spec fn spec_completed(
    c: CoordModel,
    gen: int,
    ok: bool,
    items: Seq<ResultItem>,
    s: StoreModel,
) -> (CoordModel, StoreModel, bool) {
    if c.active == Some(gen) {
        let idle = CoordModel { active: None, next_gen: c.next_gen };
        if ok {
            (idle, (StoreModel { items, sel: None }), true)
        } else {
            (idle, s, false)
        }
    } else {
        (c, s, false)
    }
}

/// Owns at most one in-flight fetch and decides whether a completed fetch
/// may publish its results.
pub struct SearchCoordinator {
    active: Option<u64>,
    next_generation: u64,
}

impl View for SearchCoordinator {
    type V = CoordModel;

    closed spec fn view(&self) -> CoordModel {
        CoordModel {
            active: match self.active {
                Some(g) => Some(g as int),
                None => None,
            },
            next_gen: self.next_generation as int,
        }
    }
}

impl SearchCoordinator {
    pub fn new() -> (r: Self)
        ensures
            r@.wf(),
            r@.active is None,
            r@.next_gen == 0,
    {
        SearchCoordinator { active: None, next_generation: 0 }
    }

    /// The generation the next fetch will carry. `start` needs this to
    /// stay below `u64::MAX`; callers outside verified code can check.
    pub fn next_generation(&self) -> (r: u64)
        ensures
            r as int == self@.next_gen,
    {
        self.next_generation
    }

    /// Whether a fetch is out.
    pub fn busy(&self) -> (r: bool)
        ensures
            r == (self@.active is Some),
    {
        self.active.is_some()
    }

    /// Starts a fetch for `query`. Any fetch still out is superseded on
    /// the spot: its generation stops being the active one, so its result
    /// will never be applied. The caller spawns the returned request and
    /// cancels the superseded task.
    pub fn start(&mut self, query: Vec<char>) -> (r: FetchRequest)
        requires
            old(self)@.wf(),
            old(self)@.next_gen < u64::MAX,
        ensures
            final(self)@.wf(),
            r.query@ == query@,
            (final(self)@, r.generation as int) == spec_start(old(self)@),
            old(self)@.active matches Some(g) ==> g != r.generation as int,
    {
        let generation = self.next_generation;
        self.active = Some(generation);
        self.next_generation = generation + 1;
        FetchRequest { generation, query }
    }

    /// Retires the active fetch, if any, and returns its generation so the
    /// caller can cancel and join the task. Idempotent: with no fetch out
    /// it returns `None` and changes nothing. The store is not touched;
    /// whatever results were on show stay on show.
    pub fn stop(&mut self) -> (r: Option<u64>)
        ensures
            final(self)@ == spec_stop(old(self)@),
            match old(self)@.active {
                Some(g) => r matches Some(rg) && rg as int == g,
                None => r is None,
            },
    {
        let r = self.active;
        self.active = None;
        r
    }

    /// Takes a fetch's report. The results are written to `store` only if
    /// `generation` is still the active one and the fetch succeeded;
    /// otherwise the store keeps what it had. Returns whether the store
    /// was written.
    pub fn on_fetch_completed(
        &mut self,
        generation: u64,
        outcome: Result<Vec<ResultItem>, FetchError>,
        store: &mut ResultStore,
    ) -> (applied: bool)
        requires
            old(self)@.wf(),
            old(store).wf(),
        ensures
            final(self)@.wf(),
            final(store).wf(),
            match outcome {
                Ok(items) => (final(self)@, final(store)@, applied) == spec_completed(
                    old(self)@,
                    generation as int,
                    true,
                    items@,
                    old(store)@,
                ),
                Err(_) => (final(self)@, final(store)@, applied) == spec_completed(
                    old(self)@,
                    generation as int,
                    false,
                    Seq::<ResultItem>::empty(),
                    old(store)@,
                ),
            },
    {
        let current = match self.active {
            Some(g) => g == generation,
            None => false,
        };
        if !current {
            return false;
        }
        self.active = None;
        match outcome {
            Ok(items) => {
                store.replace(items);
                true
            },
            Err(_) => false,
        }
    }
}

/// Starting twice without stopping issues two distinct generations, and
/// only the later one is live: the first fetch's results are never
/// applied, while the second's are. At most one in-flight fetch ever
/// publishes.
pub proof fn lemma_single_inflight_fetch(c: CoordModel, s: StoreModel, items: Seq<ResultItem>)
    requires
        c.wf(),
    ensures
        ({
            let (c1, g1) = spec_start(c);
            let (c2, g2) = spec_start(c1);
            &&& g1 != g2
            &&& spec_completed(c2, g1, true, items, s) == (c2, s, false)
            &&& spec_completed(c2, g2, true, items, s).2
        }),
{
}

/// Stopping before a fetch reports back means its results are never
/// written: after `stop`, a completion under any generation leaves the
/// store exactly as it was.
pub proof fn lemma_cancelled_fetch_never_writes(
    c: CoordModel,
    s: StoreModel,
    gen: int,
    ok: bool,
    items: Seq<ResultItem>,
)
    ensures
        spec_completed(spec_stop(c), gen, ok, items, s).1 == s,
        !spec_completed(spec_stop(c), gen, ok, items, s).2,
        spec_stop(spec_stop(c)) == spec_stop(c),
{
}

} // verus!
