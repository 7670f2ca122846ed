//! The mode oracle: a cached answer to "is the focused page element a text
//! input?".
//!
//! The authoritative answer lives inside the content surface and can only be
//! obtained by an asynchronous script round-trip, so dispatch never blocks on
//! it: every keystroke issues a fresh query and reads whatever the cache
//! currently holds. Completions can arrive out of order; a monotonically
//! increasing generation counter tags each query, and a completion is applied
//! only when it carries the latest issued generation, so an old, slow answer
//! can never overwrite a newer one. A failed query is simply never reported
//! back, which leaves the cache at its last known value.

use vstd::prelude::*;

verus! {

/// Whether the page currently accepts free-text typing.
#[derive(Clone, Copy, PartialEq, Eq, Structural, Debug)]
pub enum Mode {
    /// The focused element does not accept text: command keys are active.
    Normal,
    /// The focused element accepts text: bare keys must reach the page.
    Insert,
}

/// The cached mode and the generation counter guarding its refreshes.
#[derive(Clone, Copy, PartialEq, Eq, Structural, Debug)]
pub struct ModeOracle {
    /// Last known answer; `false` (Normal) until a query first resolves, so an
    /// unresolved cache fails toward the stricter command interpretation.
    pub insert: bool,
    /// Generation of the most recently issued query; zero before any query.
    pub latest_gen: u64,
}

/// The mode the cache currently reports.
pub open spec fn spec_current_mode(o: ModeOracle) -> Mode {
    if o.insert {
        Mode::Insert
    } else {
        Mode::Normal
    }
}

/// The oracle after issuing one more query: only the generation moves.
pub open spec fn spec_issue(o: ModeOracle) -> ModeOracle
    recommends
        o.latest_gen < u64::MAX,
{
    ModeOracle { insert: o.insert, latest_gen: (o.latest_gen + 1) as u64 }
}

/// The oracle after a completion for generation `gen` reports `insert`: the
/// answer is applied only when `gen` is the latest issued generation.
pub open spec fn spec_apply(o: ModeOracle, gen: u64, insert: bool) -> ModeOracle {
    if gen == o.latest_gen {
        ModeOracle { insert, latest_gen: o.latest_gen }
    } else {
        o
    }
}

impl ModeOracle {
    /// A fresh oracle: Normal mode, no query issued yet.
    pub fn new() -> (o: ModeOracle)
        ensures
            o == (ModeOracle { insert: false, latest_gen: 0 }),
    {
        ModeOracle { insert: false, latest_gen: 0 }
    }

    /// The last cached answer, synchronously and without blocking.
    pub fn current_mode(&self) -> (m: Mode)
        ensures
            m == spec_current_mode(*self),
    {
        if self.insert {
            Mode::Insert
        } else {
            Mode::Normal
        }
    }

    /// Record that one more query was sent into the content surface, and
    /// return the generation tag its completion must carry.
    pub fn issue_query(&mut self) -> (gen: u64)
        requires
            old(self).latest_gen < u64::MAX,
        ensures
            *final(self) == spec_issue(*old(self)),
            gen == final(self).latest_gen,
    {
        self.latest_gen = self.latest_gen + 1;
        self.latest_gen
    }

    /// A query completion arrived: apply it only if it is the latest issued
    /// one, so an out-of-order completion never overwrites a newer answer.
    pub fn on_query_result(&mut self, gen: u64, insert: bool)
        ensures
            *final(self) == spec_apply(*old(self), gen, insert),
    {
        if gen == self.latest_gen {
            self.insert = insert;
        }
    }
}

/// The generation guard protects against out-of-order completions: when a
/// second query is issued after a first and its answer arrives first, the
/// late answer of the first query is discarded and the cache keeps the second
/// query's answer.
pub proof fn lemma_generation_guard(o: ModeOracle, first: bool, second: bool)
    requires
        o.latest_gen + 2 <= u64::MAX,
    ensures
        ({
            let o1 = spec_issue(o);
            let o2 = spec_issue(o1);
            let after = spec_apply(spec_apply(o2, o2.latest_gen, second), o1.latest_gen, first);
            after.insert == second && after.latest_gen == o2.latest_gen
        }),
{
}

} // verus!
