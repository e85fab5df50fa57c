//! Procedures: operations that alternate between the database and decisions.

use crate::error::StoreError;
use crate::value::{response_view, Action, ActionView, Response, ResponseView};
use vstd::prelude::*;

verus! {

/// Where a procedure stands: it asks for an action and waits in a state, or it
/// is done.
#[derive(Debug)]
pub enum Step<S, T> {
    /// Perform the action and resume the state with its outcome.
    Ask(Action, S),
    /// The procedure is over.
    Done(Result<T, StoreError>),
}

/// The content of a [`Step`], given those of its state and of its output.
#[verifier::ext_equal]
pub enum StepView<S, T> {
    Ask(ActionView, S),
    Done(Result<T, StoreError>),
}

/// An operation, by what it returns.
pub trait Operation: View + Sized {
    /// What the operation returns.
    type Output;

    /// The content of what the operation returns.
    type OutputView;

    /// The content of an output.
    spec fn output(output: Self::Output) -> Self::OutputView;
}

/// The state of an operation that waits for the database.
pub trait Procedure: Operation {
    /// What the state does with the outcome of the action that it waits for.
    spec fn next(state: Self::V, response: ResponseView) -> StepView<Self::V, Self::OutputView>;

    /// How many more actions may be asked for.
    spec fn rank(state: Self::V) -> nat;

    /// Every outcome brings a procedure closer to its end.
    proof fn rank_decreases(state: Self::V, response: ResponseView)
        ensures
            Self::next(state, response) matches StepView::Ask(_, after) ==> Self::rank(after)
                < Self::rank(state),
    ;

    /// Goes on with the outcome of the action that was asked for.
    fn resume(self, response: Response) -> (step: Step<Self, Self::Output>)
        ensures
            step_view(step) == Self::next(self@, response_view(response)),
    ;
}

/// The content of a step of a procedure.
pub open spec fn step_view<P: Operation>(step: Step<P, P::Output>) -> StepView<
    P::V,
    P::OutputView,
> {
    match step {
        Step::Ask(action, state) => StepView::Ask(action@, state@),
        Step::Done(Ok(output)) => StepView::Done(Ok(P::output(output))),
        Step::Done(Err(error)) => StepView::Done(Err(error)),
    }
}

/// A database at rest: it answers an action in one way.
pub type Database = spec_fn(ActionView) -> ResponseView;

/// The result of a procedure that is driven to its end against a database.
pub open spec fn run<P: Procedure>(
    step: StepView<P::V, P::OutputView>,
    database: Database,
) -> Result<P::OutputView, StoreError>
    decreases
            (match step {
                StepView::Ask(_, state) => P::rank(state) + 1,
                StepView::Done(_) => 0,
            }),
{
    match step {
        StepView::Ask(action, state) => {
            proof {
                P::rank_decreases(state, database(action));
            }
            run::<P>(P::next(state, database(action)), database)
        },
        StepView::Done(result) => result,
    }
}

/// The actions that a procedure asks for when it is driven to its end against a
/// database, in order.
pub open spec fn asked<P: Procedure>(
    step: StepView<P::V, P::OutputView>,
    database: Database,
) -> Seq<ActionView>
    decreases
            (match step {
                StepView::Ask(_, state) => P::rank(state) + 1,
                StepView::Done(_) => 0,
            }),
{
    match step {
        StepView::Ask(action, state) => {
            proof {
                P::rank_decreases(state, database(action));
            }
            seq![action] + asked::<P>(P::next(state, database(action)), database)
        },
        StepView::Done(_) => Seq::empty(),
    }
}

/// The actions that a procedure asks for when its actions have the given
/// outcomes, in order. The last one has no outcome yet if the outcomes end before
/// the procedure does.
pub open spec fn asked_with<P: Procedure>(
    step: StepView<P::V, P::OutputView>,
    outcomes: Seq<ResponseView>,
) -> Seq<ActionView>
    decreases outcomes.len(),
{
    match step {
        StepView::Ask(action, state) => if outcomes.len() == 0 {
            seq![action]
        } else {
            seq![action] + asked_with::<P>(P::next(state, outcomes[0]), outcomes.skip(1))
        },
        StepView::Done(_) => Seq::empty(),
    }
}

/// Where a procedure stands when its actions have had the given outcomes.
pub open spec fn after<P: Procedure>(
    step: StepView<P::V, P::OutputView>,
    outcomes: Seq<ResponseView>,
) -> StepView<P::V, P::OutputView>
    decreases outcomes.len(),
{
    match step {
        StepView::Ask(_, state) => if outcomes.len() == 0 {
            step
        } else {
            after::<P>(P::next(state, outcomes[0]), outcomes.skip(1))
        },
        StepView::Done(_) => step,
    }
}

} // verus!
