//! The owner that turns completed bars into rebalances.
//!
//! The strategy answers each accepted bar with the exposure that it wants; the
//! owner compares it with the exposure that it has.

use vstd::prelude::*;

use crate::decimal::{less_than, Decimal};
use crate::domain::{Side, StrategyError};
use crate::timestamp::Timestamp;

verus! {

/// One completed bar: its times, its prices and what was traded in it.
#[derive(Clone, Copy, Debug)]
pub struct Bar {
    pub open_time: Timestamp,
    pub close_time: Timestamp,
    pub open: Decimal,
    pub high: Decimal,
    pub low: Decimal,
    pub close: Decimal,
    pub volume: Decimal,
}

/// Pure rebalance action derived from one bar-driven target transition.
#[derive(Clone, Copy, Debug)]
pub enum PaperBarAction {
    Hold,
    Rebalance { side: Side, target: Decimal },
}

/// Deterministic paper-owner decision for one completed bar.
#[derive(Clone, Copy, Debug)]
pub struct PaperBarDecision {
    pub bar_index: usize,
    pub decided_at: Timestamp,
    pub target: Decimal,
    pub action: PaperBarAction,
}

/// Minimal bar-owner failures.
#[derive(Debug)]
pub enum PaperBarTaskError {
    InvalidBarSequence,
    Strategy(StrategyError),
}

/// The text of a failure; `cause` is the text of what the strategy said.
pub open spec fn bar_error_text(error: PaperBarTaskError, cause: Seq<char>) -> Seq<char> {
    match error {
        PaperBarTaskError::InvalidBarSequence =>
            "paper bar task requires strictly increasing completed bars"@,
        PaperBarTaskError::Strategy(_) => cause,
    }
}

impl PaperBarTaskError {
    /// The text of the failure; `cause` is the text of what the strategy said.
    pub fn message(&self, cause: &str) -> (r: String)
        ensures
            r@ == bar_error_text(*self, cause@),
    {
        match self {
            PaperBarTaskError::InvalidBarSequence =>
                "paper bar task requires strictly increasing completed bars".to_owned(),
            PaperBarTaskError::Strategy(_) => cause.to_owned(),
        }
    }
}

/// What the strategy is asked with.
#[derive(Debug)]
pub struct BarContext {
    /// The accepted bars, the new one last.
    pub history: Vec<Bar>,
    pub bar_index: usize,
    pub decided_at: Timestamp,
    pub current_target: Decimal,
}

/// The bar opens after the other opened and closed.
pub open spec fn follows(bar: Bar, previous: Bar) -> bool {
    previous.open_time.rank() < bar.open_time.rank() && previous.close_time.rank()
        < bar.open_time.rank()
}

/// Every bar opens after all bars before it opened and closed.
pub open spec fn bars_ascend(history: Seq<Bar>) -> bool {
    forall|i: int, j: int|
        #![trigger history[i], history[j]]
        0 <= i < j < history.len() ==> follows(history[j], history[i])
}

/// The bar may be added to the history.
pub open spec fn continues(history: Seq<Bar>, bar: Bar) -> bool {
    history.len() == 0 || follows(bar, history.last())
}

/// What the move from one target to the next asks for.
pub open spec fn action_between(current: Decimal, next: Decimal) -> PaperBarAction {
    if less_than(current@, next@) {
        PaperBarAction::Rebalance { side: Side::Buy, target: next }
    } else if less_than(next@, current@) {
        PaperBarAction::Rebalance { side: Side::Sell, target: next }
    } else {
        PaperBarAction::Hold
    }
}

/// The history once the bar was handed in: longer by a bar that continues it.
pub open spec fn history_after(history: Seq<Bar>, bar: Bar) -> Seq<Bar> {
    if continues(history, bar) {
        history.push(bar)
    } else {
        history
    }
}

/// The target once the bar was handed in: the strategy's, where it was asked
/// and gave one.
pub open spec fn target_after(
    history: Seq<Bar>,
    target: Decimal,
    bar: Bar,
    answer: Result<Decimal, StrategyError>,
) -> Decimal {
    if continues(history, bar) && answer is Ok {
        answer->Ok_0
    } else {
        target
    }
}

/// The decision on the bar.
pub open spec fn decision_on(
    history: Seq<Bar>,
    target: Decimal,
    bar: Bar,
    answer: Result<Decimal, StrategyError>,
) -> Result<PaperBarDecision, PaperBarTaskError> {
    if !continues(history, bar) {
        Err(PaperBarTaskError::InvalidBarSequence)
    } else {
        match answer {
            Err(error) => Err(PaperBarTaskError::Strategy(error)),
            Ok(next) => Ok(
                PaperBarDecision {
                    bar_index: history.len() as usize,
                    decided_at: bar.close_time,
                    target: next,
                    action: action_between(target, next),
                },
            ),
        }
    }
}

/// The same bars once more.
fn copy_bars(bars: &Vec<Bar>) -> (r: Vec<Bar>)
    ensures
        r@ == bars@,
{
    let mut copied: Vec<Bar> = Vec::new();
    let mut i: usize = 0;
    while i < bars.len()
        invariant
            i <= bars.len(),
            copied@ =~= bars@.take(i as int),
        decreases bars.len() - i,
    {
        copied.push(bars[i]);
        i = i + 1;
    }
    assert(bars@.take(i as int) =~= bars@);
    copied
}

/// Minimal in-memory owner of one pure bar strategy.
#[derive(Debug)]
pub struct PaperBarTask {
    history: Vec<Bar>,
    current_target: Decimal,
}

impl PaperBarTask {
    #[verifier::type_invariant]
    pub closed spec fn is_sound(self) -> bool {
        bars_ascend(self.history@)
    }

    /// The accepted bars.
    pub closed spec fn history_view(self) -> Seq<Bar> {
        self.history@
    }

    /// The exposure that was last decided.
    pub closed spec fn target_view(self) -> Decimal {
        self.current_target
    }

    /// An owner without bars and without exposure.
    pub fn new() -> (r: PaperBarTask)
        ensures
            r.history_view() == Seq::<Bar>::empty(),
            r.target_view()@ == (0i128, 0u32),
    {
        PaperBarTask { history: Vec::new(), current_target: Decimal::zero() }
    }

    /// Takes one completed bar in and says what the strategy is to be asked
    /// with; a bar that does not follow the last one changes nothing.
    pub fn accept_bar(&mut self, bar: Bar) -> (r: Result<BarContext, PaperBarTaskError>)
        ensures
            bars_ascend(final(self).history_view()),
            final(self).target_view() == old(self).target_view(),
            continues(old(self).history_view(), bar) ==> {
                &&& final(self).history_view() == old(self).history_view().push(bar)
                &&& r is Ok
                &&& r->Ok_0.history@ == final(self).history_view()
                &&& r->Ok_0.bar_index == old(self).history_view().len()
                &&& r->Ok_0.decided_at == bar.close_time
                &&& r->Ok_0.current_target == old(self).target_view()
            },
            !continues(old(self).history_view(), bar) ==> {
                &&& final(self).history_view() == old(self).history_view()
                &&& r == Err::<BarContext, _>(PaperBarTaskError::InvalidBarSequence)
            },
    {
        proof {
            use_type_invariant(&*self);
        }
        let bar_index: usize = self.history.len();
        if bar_index > 0 {
            let previous: Bar = self.history[bar_index - 1];
            if !previous.open_time.is_before(bar.open_time) || !previous.close_time.is_before(
                bar.open_time,
            ) {
                return Err(PaperBarTaskError::InvalidBarSequence);
            }
        }
        let mut history: Vec<Bar> = Vec::new();
        std::mem::swap(&mut history, &mut self.history);
        let ghost before = history@;
        history.push(bar);
        proof {
            assert forall|i: int, j: int|
                #![trigger history@[i], history@[j]]
                0 <= i < j < history@.len() implies follows(history@[j], history@[i]) by {
                if j == before.len() {
                    if i < before.len() - 1 {
                        assert(follows(before[before.len() - 1], before[i]));
                    }
                } else {
                    assert(follows(before[j], before[i]));
                }
            }
        }
        let shown: Vec<Bar> = copy_bars(&history);
        self.history = history;
        Ok(
            BarContext {
                history: shown,
                bar_index,
                decided_at: bar.close_time,
                current_target: self.current_target,
            },
        )
    }

    /// Decides on the strategy's answer. A failed strategy leaves the target as
    /// it was.
    pub fn decide(&mut self, context: BarContext, answer: Result<Decimal, StrategyError>) -> (r:
        Result<PaperBarDecision, PaperBarTaskError>)
        ensures
            final(self).history_view() == old(self).history_view(),
            match answer {
                Err(error) => {
                    &&& final(self).target_view() == old(self).target_view()
                    &&& r == Err::<PaperBarDecision, _>(PaperBarTaskError::Strategy(error))
                },
                Ok(next) => {
                    &&& final(self).target_view() == next
                    &&& r == Ok::<PaperBarDecision, PaperBarTaskError>(
                        PaperBarDecision {
                            bar_index: context.bar_index,
                            decided_at: context.decided_at,
                            target: next,
                            action: action_between(old(self).target_view(), next),
                        },
                    )
                },
            },
    {
        proof {
            use_type_invariant(&*self);
        }
        let next: Decimal = match answer {
            Err(error) => {
                return Err(PaperBarTaskError::Strategy(error));
            },
            Ok(next) => next,
        };
        let current: Decimal = self.current_target;
        let action: PaperBarAction = if current.is_less_than(next) {
            PaperBarAction::Rebalance { side: Side::Buy, target: next }
        } else if next.is_less_than(current) {
            PaperBarAction::Rebalance { side: Side::Sell, target: next }
        } else {
            PaperBarAction::Hold
        };
        self.current_target = next;
        Ok(
            PaperBarDecision {
                bar_index: context.bar_index,
                decided_at: context.decided_at,
                target: next,
                action,
            },
        )
    }

    /// Feeds one completed bar and the strategy's answer to it through. The bar
    /// stays in the history where the strategy failed.
    pub fn on_bar(&mut self, bar: Bar, answer: Result<Decimal, StrategyError>) -> (r: Result<
        PaperBarDecision,
        PaperBarTaskError,
    >)
        ensures
            bars_ascend(final(self).history_view()),
            final(self).history_view() == history_after(old(self).history_view(), bar),
            r == decision_on(old(self).history_view(), old(self).target_view(), bar, answer),
            final(self).target_view() == target_after(
                old(self).history_view(),
                old(self).target_view(),
                bar,
                answer,
            ),
    {
        match self.accept_bar(bar) {
            Err(error) => Err(error),
            Ok(context) => self.decide(context, answer),
        }
    }
}

/// The actions that a run of targets asks for, one after the other.
pub open spec fn actions_of(start: Decimal, targets: Seq<Decimal>) -> Seq<PaperBarAction>
    decreases targets.len(),
{
    if targets.len() == 0 {
        Seq::empty()
    } else {
        let current = if targets.len() == 1 {
            start
        } else {
            targets[targets.len() - 2]
        };
        actions_of(start, targets.drop_last()).push(action_between(current, targets.last()))
    }
}

/// A rebalance is asked for exactly where the target moves: a buy where it
/// rises, a sell where it falls, and it names the new target.
pub proof fn law_rebalance_follows_the_target(start: Decimal, targets: Seq<Decimal>, i: int)
    requires
        0 <= i < targets.len(),
    ensures
        actions_of(start, targets).len() == targets.len(),
        ({
            let before = if i == 0 {
                start
            } else {
                targets[i - 1]
            };
            match actions_of(start, targets)[i] {
                PaperBarAction::Hold => !less_than(before@, targets[i]@) && !less_than(
                    targets[i]@,
                    before@,
                ),
                PaperBarAction::Rebalance { side, target } => target == targets[i] && match side {
                    Side::Buy => less_than(before@, targets[i]@),
                    Side::Sell => less_than(targets[i]@, before@),
                },
            }
        }),
    decreases targets.len(),
{
    let shorter = targets.drop_last();
    if i < shorter.len() {
        law_rebalance_follows_the_target(start, shorter, i);
    } else if shorter.len() > 0 {
        law_rebalance_follows_the_target(start, shorter, 0);
    } else {
        assert(actions_of(start, shorter).len() == 0);
    }
}

} // verus!
