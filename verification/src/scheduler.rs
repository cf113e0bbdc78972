//! The bounded dispatch of the tasks of a cycle. The scheduler decides which
//! item is handed out next and when to wait; whoever runs the tasks does the
//! work and reports back how each one ended. No more tasks are in flight than
//! the limit allows, no item is handed out twice, and what one task reported
//! is kept whatever the others do.

use vstd::prelude::*;
use crate::errors::{class_of, classify, halts, stops_dispatch, ErrorClass, FailureCause};

verus! {

/// Where an item stands.
#[derive(Debug, Clone, Copy, PartialEq, Eq, Structural)]
pub enum ItemState {
    /// Not handed out yet.
    Waiting,
    /// Handed out, not reported back.
    InFlight,
    /// Reported back as done.
    Succeeded,
    /// Reported back as failed.
    Failed(FailureCause),
}

/// What the scheduler asks for next.
#[derive(Debug, Clone, Copy, PartialEq, Eq, Structural)]
pub enum Step {
    /// Start the task of this item.
    Dispatch(usize),
    /// Wait for a task in flight to report back.
    Wait,
    /// Nothing is in flight and nothing is left to hand out.
    Finished,
}

/// How many of the first `n` items are in flight.
pub open spec fn count_flying(states: Seq<ItemState>, n: int) -> int
    decreases n,
{
    if n <= 0 {
        0
    } else if states[n - 1] == ItemState::InFlight {
        count_flying(states, n - 1) + 1
    } else {
        count_flying(states, n - 1)
    }
}

/// How many items are in flight.
pub open spec fn flying(states: Seq<ItemState>) -> int {
    count_flying(states, states.len() as int)
}

/// An item has reported a failure that stops the dispatch of further items.
pub open spec fn halted(states: Seq<ItemState>) -> bool {
    exists|i: int| 0 <= i < states.len() && (#[trigger] states[i] matches ItemState::Failed(c) && halts(c))
}

/// An item is still waiting to be handed out.
pub open spec fn any_waiting(states: Seq<ItemState>) -> bool {
    exists|i: int| 0 <= i < states.len() && #[trigger] states[i] == ItemState::Waiting
}

/// The count is between zero and `n`.
pub proof fn lemma_count_bounds(states: Seq<ItemState>, n: int)
    requires
        0 <= n <= states.len(),
    ensures
        0 <= count_flying(states, n) <= n,
    decreases n,
{
    if n > 0 {
        lemma_count_bounds(states, n - 1);
    }
}

/// How the count changes when one item changes its state.
pub proof fn lemma_count_update(states: Seq<ItemState>, i: int, to: ItemState, n: int)
    requires
        0 <= i < states.len(),
        0 <= n <= states.len(),
    ensures
        count_flying(states.update(i, to), n) == count_flying(states, n) + (if i < n {
            (if to == ItemState::InFlight {
                1int
            } else {
                0int
            }) - (if states[i] == ItemState::InFlight {
                1int
            } else {
                0int
            })
        } else {
            0int
        }),
    decreases n,
{
    if n > 0 {
        lemma_count_update(states, i, to, n - 1);
    }
}

/// Where nothing is in flight, no item is.
pub proof fn lemma_none_flying(states: Seq<ItemState>, n: int)
    requires
        0 <= n <= states.len(),
        count_flying(states, n) == 0,
    ensures
        forall|k: int| 0 <= k < n ==> states[k] != ItemState::InFlight,
    decreases n,
{
    if n > 0 {
        lemma_count_bounds(states, n - 1);
        lemma_none_flying(states, n - 1);
    }
}

/// A cycle that is finished without a failure of storage has drained its
/// items: every one of them has reported, as done or as failed.
pub proof fn lemma_finished_is_drained(states: Seq<ItemState>)
    requires
        flying(states) == 0,
        !any_waiting(states),
    ensures
        forall|i: int|
            0 <= i < states.len() ==> #[trigger] states[i] == ItemState::Succeeded
                || states[i] is Failed,
        unreported_among(states, states.len() as int).len() == 0,
{
    lemma_none_flying(states, states.len() as int);
    assert forall|i: int| 0 <= i < states.len() implies #[trigger] states[i]
        == ItemState::Succeeded || states[i] is Failed by {
        if states[i] == ItemState::Waiting {
            assert(any_waiting(states));
        }
    }
    lemma_none_unreported(states, states.len() as int);
}

/// Where every item has reported, none is listed as unreported.
proof fn lemma_none_unreported(states: Seq<ItemState>, n: int)
    requires
        0 <= n <= states.len(),
        forall|i: int|
            0 <= i < states.len() ==> #[trigger] states[i] == ItemState::Succeeded
                || states[i] is Failed,
    ensures
        unreported_among(states, n).len() == 0,
    decreases n,
{
    if n > 0 {
        lemma_none_unreported(states, n - 1);
        assert(states[n - 1] == ItemState::Succeeded || states[n - 1] is Failed);
    }
}

/// The dispatch of the tasks of one cycle.
pub struct Scheduler {
    states: Vec<ItemState>,
    next: usize,
    in_flight: usize,
    limit: usize,
    stopped: bool,
}

impl Scheduler {
    #[verifier::type_invariant]
    closed spec fn consistent(&self) -> bool {
        &&& self.next <= self.states@.len()
        &&& forall|i: int| 0 <= i < self.next ==> #[trigger] self.states@[i] != ItemState::Waiting
        &&& forall|i: int|
            self.next <= i < self.states@.len() ==> #[trigger] self.states@[i] == ItemState::Waiting
        &&& self.in_flight == flying(self.states@)
        &&& 1 <= self.limit
        &&& self.in_flight <= self.limit
        &&& self.stopped == halted(self.states@)
    }

    /// Where each item stands.
    pub closed spec fn states(&self) -> Seq<ItemState> {
        self.states@
    }

    /// How many tasks may be in flight at once.
    pub closed spec fn limit(&self) -> int {
        self.limit as int
    }

    /// A scheduler for `total` items, none handed out yet, that lets at most
    /// `limit` tasks be in flight at once. With a limit of zero no task could
    /// ever start, so there is no such scheduler.
    pub fn new(total: usize, limit: usize) -> (r: Option<Scheduler>)
        ensures
            r is Some <==> limit >= 1,
            r matches Some(s) ==> s.limit() == limit && s.states() == Seq::new(
                total as nat,
                |i: int| ItemState::Waiting,
            ),
    {
        if limit == 0 {
            return None;
        }
        let mut states: Vec<ItemState> = Vec::new();
        let mut i: usize = 0;
        while i < total
            invariant
                i <= total,
                states@ == Seq::new(i as nat, |k: int| ItemState::Waiting),
            decreases total - i,
        {
            states.push(ItemState::Waiting);
            assert(states@ =~= Seq::new((i + 1) as nat, |k: int| ItemState::Waiting));
            i += 1;
        }
        proof {
            lemma_all_waiting(states@, states@.len() as int);
        }
        Some(Scheduler { states, next: 0, in_flight: 0, limit, stopped: false })
    }

    /// Does nothing when run. To the verifier it shows what always holds of a
    /// scheduler: no more tasks are in flight than the limit allows.
    pub fn known_bound(&self)
        ensures
            0 <= flying(self.states()) <= self.limit(),
            1 <= self.limit(),
    {
        proof {
            use_type_invariant(self);
            lemma_count_bounds(self.states@, self.states@.len() as int);
        }
    }

    /// The number of items.
    pub fn total(&self) -> (n: usize)
        ensures
            n == self.states().len(),
    {
        self.states.len()
    }

    /// The number of tasks in flight.
    pub fn in_flight(&self) -> (n: usize)
        ensures
            n == flying(self.states()),
    {
        proof {
            use_type_invariant(self);
        }
        self.in_flight
    }

    /// Where the item `item` stands.
    pub fn state_of(&self, item: usize) -> (r: Option<ItemState>)
        ensures
            r == if item < self.states().len() {
                Some(self.states()[item as int])
            } else {
                None
            },
    {
        if item < self.states.len() {
            Some(self.states[item])
        } else {
            None
        }
    }

    /// Decides what happens next. An item is handed out where one is waiting,
    /// fewer tasks are in flight than the limit allows, and no failure of storage
    /// was reported: then it is the first waiting item, and it is in flight from
    /// now on. Else the answer is to wait, where a task is in flight, or that
    /// the cycle is finished.
    pub fn next_step(&mut self) -> (r: Step)
        ensures
            final(self).limit() == old(self).limit(),
            flying(final(self).states()) <= final(self).limit(),
            match r {
                Step::Dispatch(i) => {
                    &&& i < old(self).states().len()
                    &&& old(self).states()[i as int] == ItemState::Waiting
                    &&& forall|k: int| 0 <= k < i ==> old(self).states()[k] != ItemState::Waiting
                    &&& !halted(old(self).states())
                    &&& flying(old(self).states()) < old(self).limit()
                    &&& final(self).states() == old(self).states().update(
                        i as int,
                        ItemState::InFlight,
                    )
                    &&& flying(final(self).states()) == flying(old(self).states()) + 1
                },
                Step::Wait => {
                    &&& final(self).states() == old(self).states()
                    &&& flying(old(self).states()) > 0
                    &&& (halted(old(self).states()) || !any_waiting(old(self).states()) || flying(
                        old(self).states(),
                    ) == old(self).limit())
                },
                Step::Finished => {
                    &&& final(self).states() == old(self).states()
                    &&& flying(old(self).states()) == 0
                    &&& (halted(old(self).states()) || !any_waiting(old(self).states()))
                },
            },
    {
        proof {
            use_type_invariant(&*self);
            lemma_count_bounds(self.states@, self.states@.len() as int);
        }
        let ghost before = self.states@;
        if !self.stopped && self.next < self.states.len() && self.in_flight < self.limit {
            let i = self.next;
            let mut taken = Scheduler {
                states: Vec::new(),
                next: 0,
                in_flight: 0,
                limit: 1,
                stopped: false,
            };
            core::mem::swap(self, &mut taken);
            let Scheduler { states, next, in_flight, limit, stopped } = taken;
            let mut states = states;
            states[i] = ItemState::InFlight;
            proof {
                assert(states@ == before.update(i as int, ItemState::InFlight));
                lemma_count_update(before, i as int, ItemState::InFlight, before.len() as int);
                assert(!halted(states@)) by {
                    if halted(states@) {
                        let k = choose|k: int|
                            0 <= k < states@.len() && (#[trigger] states@[k] matches ItemState::Failed(
                                c,
                            ) && halts(c));
                        assert(before[k] == states@[k]);
                    }
                }
            }
            *self = Scheduler { states, next: next + 1, in_flight: in_flight + 1, limit, stopped };
            Step::Dispatch(i)
        } else {
            proof {
                if self.next == self.states@.len() {
                    assert(!any_waiting(before));
                } else {
                    assert(before[self.next as int] == ItemState::Waiting);
                }
            }
            if self.in_flight > 0 {
                Step::Wait
            } else {
                Step::Finished
            }
        }
    }

    /// Takes in how the task of `item` ended: with a failure, or without one.
    /// A report is taken only for an item that is in flight; any other changes
    /// nothing. What the other items have reported stays as it is.
    pub fn report(&mut self, item: usize, failure: Option<FailureCause>) -> (taken_in: bool)
        ensures
            final(self).limit() == old(self).limit(),
            taken_in == (item < old(self).states().len() && old(self).states()[item as int]
                == ItemState::InFlight),
            taken_in ==> final(self).states() == old(self).states().update(
                item as int,
                match failure {
                    None => ItemState::Succeeded,
                    Some(c) => ItemState::Failed(c),
                },
            ) && flying(final(self).states()) == flying(old(self).states()) - 1,
            !taken_in ==> final(self).states() == old(self).states(),
    {
        proof {
            use_type_invariant(&*self);
            lemma_count_bounds(self.states@, self.states@.len() as int);
        }
        let ghost before = self.states@;
        if item >= self.states.len() {
            return false;
        }
        match self.states[item] {
            ItemState::InFlight => {},
            _ => {
                return false;
            },
        }
        let to = match failure {
            None => ItemState::Succeeded,
            Some(c) => ItemState::Failed(c),
        };
        let stops = match failure {
            None => false,
            Some(c) => stops_dispatch(c),
        };
        let mut taken = Scheduler {
            states: Vec::new(),
            next: 0,
            in_flight: 0,
            limit: 1,
            stopped: false,
        };
        core::mem::swap(self, &mut taken);
        let Scheduler { states, next, in_flight, limit, stopped } = taken;
        let mut states = states;
        states[item] = to;
        proof {
            assert(states@ == before.update(item as int, to));
            lemma_count_update(before, item as int, to, before.len() as int);
            lemma_count_bounds(states@, states@.len() as int);
            assert(item < next);
            assert(halted(states@) == (stopped || stops)) by {
                if halted(states@) {
                    let k = choose|k: int|
                        0 <= k < states@.len() && (#[trigger] states@[k] matches ItemState::Failed(c)
                            && halts(c));
                    if k != item {
                        assert(before[k] == states@[k]);
                    }
                }
                if stopped {
                    let k = choose|k: int|
                        0 <= k < before.len() && (#[trigger] before[k] matches ItemState::Failed(c)
                            && halts(c));
                    assert(states@[k] == before[k]);
                }
                if stops {
                    assert(states@[item as int] matches ItemState::Failed(c) && halts(c));
                }
            }
        }
        *self = Scheduler {
            states,
            next,
            in_flight: in_flight - 1,
            limit,
            stopped: stopped || stops,
        };
        true
    }

    /// What the items have reported so far.
    pub fn aggregate(&self) -> (r: AggregateResult)
        ensures
            r.succeeded@ == succeeded_among(self.states(), self.states().len() as int),
            r.failures@ == failures_among(self.states(), self.states().len() as int),
            r.not_run@ == unreported_among(self.states(), self.states().len() as int),
    {
        let mut succeeded: Vec<usize> = Vec::new();
        let mut failures: Vec<Failure> = Vec::new();
        let mut not_run: Vec<usize> = Vec::new();
        let mut i: usize = 0;
        while i < self.states.len()
            invariant
                i <= self.states@.len(),
                succeeded@ == succeeded_among(self.states@, i as int),
                failures@ == failures_among(self.states@, i as int),
                not_run@ == unreported_among(self.states@, i as int),
            decreases self.states@.len() - i,
        {
            match self.states[i] {
                ItemState::Succeeded => {
                    succeeded.push(i);
                },
                ItemState::Failed(cause) => {
                    failures.push(Failure { item: i, cause, class: classify(cause) });
                },
                _ => {
                    not_run.push(i);
                },
            }
            i += 1;
        }
        AggregateResult { succeeded, failures, not_run }
    }
}

/// Where every item waits, none is in flight and nothing halts.
pub proof fn lemma_all_waiting(states: Seq<ItemState>, n: int)
    requires
        0 <= n <= states.len(),
        forall|i: int| 0 <= i < states.len() ==> states[i] == ItemState::Waiting,
    ensures
        count_flying(states, n) == 0,
        !halted(states),
    decreases n,
{
    if n > 0 {
        lemma_all_waiting(states, n - 1);
    }
}

/// One failure, with its class.
#[derive(Debug, Clone, Copy, PartialEq, Eq, Structural)]
pub struct Failure {
    /// The item that failed.
    pub item: usize,
    /// What went wrong.
    pub cause: FailureCause,
    /// The class of the failure.
    pub class: ErrorClass,
}

/// What the tasks of a cycle reported.
#[derive(Debug, Clone, PartialEq, Eq)]
pub struct AggregateResult {
    /// The items that are done, in their order.
    pub succeeded: Vec<usize>,
    /// Every failure, in the order of the items.
    pub failures: Vec<Failure>,
    /// The items that have not reported: not handed out, or still in flight.
    pub not_run: Vec<usize>,
}

/// The items among the first `n` that are done.
pub open spec fn succeeded_among(states: Seq<ItemState>, n: int) -> Seq<usize>
    decreases n,
{
    if n <= 0 {
        Seq::empty()
    } else if states[n - 1] == ItemState::Succeeded {
        succeeded_among(states, n - 1).push((n - 1) as usize)
    } else {
        succeeded_among(states, n - 1)
    }
}

/// The failures among the first `n` items, each with the class of its cause.
pub open spec fn failures_among(states: Seq<ItemState>, n: int) -> Seq<Failure>
    decreases n,
{
    if n <= 0 {
        Seq::empty()
    } else {
        match states[n - 1] {
            ItemState::Failed(cause) => failures_among(states, n - 1).push(
                Failure { item: (n - 1) as usize, cause, class: class_of(cause) },
            ),
            _ => failures_among(states, n - 1),
        }
    }
}

/// The items among the first `n` that have not reported.
pub open spec fn unreported_among(states: Seq<ItemState>, n: int) -> Seq<usize>
    decreases n,
{
    if n <= 0 {
        Seq::empty()
    } else if states[n - 1] == ItemState::Waiting || states[n - 1] == ItemState::InFlight {
        unreported_among(states, n - 1).push((n - 1) as usize)
    } else {
        unreported_among(states, n - 1)
    }
}

/// The failure that the item `i` reported, with the class of its cause.
pub open spec fn failure_at(states: Seq<ItemState>, i: int) -> Failure {
    match states[i] {
        ItemState::Failed(cause) => Failure { item: i as usize, cause, class: class_of(cause) },
        _ => Failure { item: i as usize, cause: FailureCause::TaskFault, class: ErrorClass::Fatal },
    }
}

/// Every item is accounted for: it is done, failed or has not reported. An
/// item that is done is listed as such whatever the other items reported, and
/// a failure is listed with its cause and the class of that cause.
pub proof fn lemma_aggregate_is_complete(states: Seq<ItemState>, n: int)
    requires
        0 <= n <= states.len(),
    ensures
        succeeded_among(states, n).len() + failures_among(states, n).len() + unreported_among(
            states,
            n,
        ).len() == n,
        forall|i: int|
            0 <= i < n && #[trigger] states[i] == ItemState::Succeeded ==> succeeded_among(
                states,
                n,
            ).contains(i as usize),
        forall|i: int|
            0 <= i < n && #[trigger] states[i] is Failed ==> failures_among(states, n).contains(
                failure_at(states, i),
            ),
    decreases n,
{
    if n > 0 {
        lemma_aggregate_is_complete(states, n - 1);
        let s0 = succeeded_among(states, n - 1);
        let f0 = failures_among(states, n - 1);
        assert forall|i: int| 0 <= i < n && #[trigger] states[i] == ItemState::Succeeded implies succeeded_among(
            states,
            n,
        ).contains(i as usize) by {
            if i < n - 1 {
                let k = s0.index_of(i as usize);
                assert(s0[k] == i as usize);
                assert(succeeded_among(states, n)[k] == i as usize);
            } else {
                assert(succeeded_among(states, n)[s0.len() as int] == i as usize);
            }
        }
        assert forall|i: int| 0 <= i < n && #[trigger] states[i] is Failed implies failures_among(
            states,
            n,
        ).contains(failure_at(states, i)) by {
            let f = failure_at(states, i);
            if i < n - 1 {
                let k = f0.index_of(f);
                assert(f0[k] == f);
                assert(failures_among(states, n)[k] == f);
            } else {
                assert(failures_among(states, n)[f0.len() as int] == f);
            }
        }
    }
}

/// One of the failures stops the cycle of its source: a failure of storage.
pub open spec fn any_halts(failures: Seq<Failure>) -> bool {
    exists|i: int| 0 <= i < failures.len() && halts((#[trigger] failures[i]).cause)
}

/// Whether the cycle has to stop after these failures. Failures of single
/// items do not stop it, whatever their number; a failure of storage does.
pub fn cycle_must_stop(failures: &Vec<Failure>) -> (r: bool)
    ensures
        r == any_halts(failures@),
{
    let mut i: usize = 0;
    while i < failures.len()
        invariant
            i <= failures.len(),
            forall|k: int| 0 <= k < i ==> !halts((#[trigger] failures@[k]).cause),
        decreases failures.len() - i,
    {
        if stops_dispatch(failures[i].cause) {
            return true;
        }
        i += 1;
    }
    false
}

/// The values of the first `n` results that are `Ok`, in their order.
pub open spec fn oks_among<T>(results: Seq<Result<T, FailureCause>>, n: int) -> Seq<T>
    decreases n,
{
    if n <= 0 {
        Seq::empty()
    } else {
        match results[n - 1] {
            Ok(v) => oks_among(results, n - 1).push(v),
            Err(_) => oks_among(results, n - 1),
        }
    }
}

/// The failures of the first `n` results, each with its place and the class
/// of its cause.
pub open spec fn errs_among<T>(results: Seq<Result<T, FailureCause>>, n: int) -> Seq<Failure>
    decreases n,
{
    if n <= 0 {
        Seq::empty()
    } else {
        match results[n - 1] {
            Ok(_) => errs_among(results, n - 1),
            Err(cause) => errs_among(results, n - 1).push(
                Failure { item: (n - 1) as usize, cause, class: class_of(cause) },
            ),
        }
    }
}

/// What came of the tasks of a cycle: the values of those that are done, and
/// every failure.
pub struct Aggregate<T> {
    /// The values of the tasks that are done, in the order of the results.
    pub succeeded: Vec<T>,
    /// Every failure, in the order of the results.
    pub failures: Vec<Failure>,
}

/// Sorts the results of the tasks of a cycle into what is done and what
/// failed. Nothing that is done is lost because something else failed.
pub fn process_results<T>(results: Vec<Result<T, FailureCause>>) -> (r: Aggregate<T>)
    ensures
        r.succeeded@ == oks_among(results@, results@.len() as int),
        r.failures@ == errs_among(results@, results@.len() as int),
        r.succeeded@.len() + r.failures@.len() == results@.len(),
{
    let mut succeeded: Vec<T> = Vec::new();
    let mut failures: Vec<Failure> = Vec::new();
    let ghost all = results@;
    let total = results.len();
    let mut i: usize = 0;
    for item in it: results
        invariant
            it.seq() == all,
            all.len() == total,
            i == it.index(),
            succeeded@ == oks_among(all, i as int),
            failures@ == errs_among(all, i as int),
            succeeded@.len() + failures@.len() == i,
    {
        assert(i < total);
        match item {
            Ok(v) => {
                succeeded.push(v);
            },
            Err(cause) => {
                failures.push(Failure { item: i, cause, class: classify(cause) });
            },
        }
        i += 1;
    }
    Aggregate { succeeded, failures }
}

/// The values of the tasks that are done; the failures are passed over.
pub fn process_results_ok<T>(results: Vec<Result<T, FailureCause>>) -> (r: Vec<T>)
    ensures
        r@ == oks_among(results@, results@.len() as int),
{
    process_results(results).succeeded
}

} // verus!
