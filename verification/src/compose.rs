//! Procedures made of other procedures.

use crate::error::StoreError;
use crate::procedure::{run, step_view, Database, Operation, Procedure, Step, StepView};
use crate::value::{Response, ResponseView};
use vstd::prelude::*;

verus! {

/// What is done with the output of one procedure to go on with another.
pub trait Continuation: View + Sized {
    /// The procedure that comes first.
    type First: Procedure;

    /// The procedure that follows.
    type Second: Procedure;

    /// How the second procedure starts, given the output of the first.
    spec fn after(
        state: Self::V,
        output: <Self::First as Operation>::OutputView,
    ) -> StepView<<Self::Second as View>::V, <Self::Second as Operation>::OutputView>;

    /// A bound on the rank in which the second procedure starts.
    spec fn bound(state: Self::V) -> nat;

    /// The bound holds.
    proof fn after_is_bounded(
        state: Self::V,
        output: <Self::First as Operation>::OutputView,
    )
        ensures
            Self::after(state, output) matches StepView::Ask(_, second) ==> Self::Second::rank(
                second,
            ) <= Self::bound(state),
    ;

    /// Starts the second procedure.
    fn go_on(self, output: <Self::First as Operation>::Output) -> (step: Step<
        Self::Second,
        <Self::Second as Operation>::Output,
    >)
        ensures
            step_view(step) == Self::after(self@, Self::First::output(output)),
    ;
}

/// One procedure and then another, which depends on the output of the first.
pub enum Then<C: Continuation> {
    /// The first one runs.
    First(C::First, C),
    /// The second one runs.
    Second(C::Second),
}

/// The content of a [`Then`].
#[verifier::ext_equal]
pub enum ThenView<A, C, B> {
    First(A, C),
    Second(B),
}

impl<C: Continuation> View for Then<C> {
    type V = ThenView<<C::First as View>::V, C::V, <C::Second as View>::V>;

    open spec fn view(&self) -> Self::V {
        match *self {
            Then::First(first, continuation) => ThenView::First(first@, continuation@),
            Then::Second(second) => ThenView::Second(second@),
        }
    }
}

/// The step of a composed procedure in which the second one takes a step.
pub open spec fn in_second<A, C, B, T>(step: StepView<B, T>) -> StepView<ThenView<A, C, B>, T> {
    match step {
        StepView::Ask(action, second) => StepView::Ask(action, ThenView::Second(second)),
        StepView::Done(result) => StepView::Done(result),
    }
}

/// The step of a composed procedure in which the first one takes a step.
pub open spec fn in_first<C: Continuation>(
    step: StepView<<C::First as View>::V, <C::First as Operation>::OutputView>,
    continuation: C::V,
) -> StepView<<Then<C> as View>::V, <C::Second as Operation>::OutputView> {
    match step {
        StepView::Ask(action, first) => StepView::Ask(
            action,
            ThenView::First(first, continuation),
        ),
        StepView::Done(Ok(output)) => in_second(C::after(continuation, output)),
        StepView::Done(Err(error)) => StepView::Done(Err(error)),
    }
}

impl<C: Continuation> Then<C> {
    /// Goes on with a step of the second procedure.
    pub fn second(step: Step<C::Second, <C::Second as Operation>::Output>) -> (composed: Step<
        Self,
        <C::Second as Operation>::Output,
    >)
        ensures
            step_view(composed) == in_second::<
                <C::First as View>::V,
                C::V,
                <C::Second as View>::V,
                <C::Second as Operation>::OutputView,
            >(step_view(step)),
    {
        match step {
            Step::Ask(action, second) => Step::Ask(action, Then::Second(second)),
            Step::Done(result) => Step::Done(result),
        }
    }

    /// Goes on with a step of the first procedure.
    pub fn first(
        step: Step<C::First, <C::First as Operation>::Output>,
        continuation: C,
    ) -> (composed: Step<Self, <C::Second as Operation>::Output>)
        ensures
            step_view(composed) == in_first::<C>(step_view(step), continuation@),
    {
        match step {
            Step::Ask(action, first) => Step::Ask(action, Then::First(first, continuation)),
            Step::Done(Ok(output)) => Self::second(continuation.go_on(output)),
            Step::Done(Err(error)) => Step::Done(Err(error)),
        }
    }
}

impl<C: Continuation> Operation for Then<C> {
    type Output = <C::Second as Operation>::Output;

    type OutputView = <C::Second as Operation>::OutputView;

    open spec fn output(output: Self::Output) -> Self::OutputView {
        C::Second::output(output)
    }
}

impl<C: Continuation> Procedure for Then<C> {
    open spec fn next(state: Self::V, response: ResponseView) -> StepView<
        Self::V,
        Self::OutputView,
    > {
        match state {
            ThenView::First(first, continuation) => in_first::<C>(
                C::First::next(first, response),
                continuation,
            ),
            ThenView::Second(second) => in_second(C::Second::next(second, response)),
        }
    }

    open spec fn rank(state: Self::V) -> nat {
        match state {
            ThenView::First(first, continuation) => C::First::rank(first) + C::bound(continuation)
                + 1,
            ThenView::Second(second) => C::Second::rank(second),
        }
    }

    proof fn rank_decreases(state: Self::V, response: ResponseView) {
        match state {
            ThenView::First(first, continuation) => {
                C::First::rank_decreases(first, response);
                if let StepView::Done(Ok(output)) = C::First::next(first, response) {
                    C::after_is_bounded(continuation, output);
                }
            },
            ThenView::Second(second) => {
                C::Second::rank_decreases(second, response);
            },
        }
    }

    fn resume(self, response: Response) -> (step: Step<Self, Self::Output>) {
        match self {
            Then::First(first, continuation) => Self::first(first.resume(response), continuation),
            Then::Second(second) => Self::second(second.resume(response)),
        }
    }
}

/// A composed procedure in its second part gives what the second procedure
/// gives.
pub proof fn run_second<C: Continuation>(
    step: StepView<<C::Second as View>::V, <C::Second as Operation>::OutputView>,
    database: Database,
)
    ensures
        run::<Then<C>>(in_second(step), database) == run::<C::Second>(step, database),
    decreases
            (match step {
                StepView::Ask(_, state) => C::Second::rank(state) + 1,
                StepView::Done(_) => 0,
            }),
{
    if let StepView::Ask(action, state) = step {
        C::Second::rank_decreases(state, database(action));
        run_second::<C>(C::Second::next(state, database(action)), database);
    }
}

/// A composed procedure gives what the second procedure gives when it is
/// started with the output of the first, and fails where the first fails.
pub proof fn run_then<C: Continuation>(
    step: StepView<<C::First as View>::V, <C::First as Operation>::OutputView>,
    continuation: C::V,
    database: Database,
)
    ensures
        run::<Then<C>>(in_first::<C>(step, continuation), database) == (match run::<C::First>(
            step,
            database,
        ) {
            Ok(output) => run::<C::Second>(C::after(continuation, output), database),
            Err(error) => Err(error),
        }),
    decreases
            (match step {
                StepView::Ask(_, state) => C::First::rank(state) + 1,
                StepView::Done(_) => 0,
            }),
{
    match step {
        StepView::Ask(action, state) => {
            C::First::rank_decreases(state, database(action));
            run_then::<C>(C::First::next(state, database(action)), continuation, database);
        },
        StepView::Done(Ok(output)) => {
            run_second::<C>(C::after(continuation, output), database);
        },
        StepView::Done(Err(_)) => {},
    }
}

/// What is made of the output of a procedure.
pub trait Conversion: View + Sized {
    /// The procedure that gives what is converted.
    type First: Procedure;

    /// What it is converted to.
    type Converted;

    /// The content of what it is converted to.
    type ConvertedView;

    /// The content of a converted output.
    spec fn converted(converted: Self::Converted) -> Self::ConvertedView;

    /// What an output is converted to, or why it cannot be.
    spec fn conversion(state: Self::V, output: <Self::First as Operation>::OutputView) -> Result<
        Self::ConvertedView,
        StoreError,
    >;

    /// Converts an output.
    fn convert(self, output: <Self::First as Operation>::Output) -> (result: Result<
        Self::Converted,
        StoreError,
    >)
        ensures
            (match result {
                Ok(converted) => Self::conversion(self@, Self::First::output(output)) == Ok::<
                    Self::ConvertedView,
                    StoreError,
                >(Self::converted(converted)),
                Err(error) => Self::conversion(self@, Self::First::output(output)) == Err::<
                    Self::ConvertedView,
                    StoreError,
                >(error),
            }),
    ;
}

/// A procedure whose output is converted.
pub struct Converting<C: Conversion> {
    /// The procedure.
    pub first: C::First,
    /// The conversion.
    pub conversion: C,
}

impl<C: Conversion> View for Converting<C> {
    type V = (<C::First as View>::V, C::V);

    open spec fn view(&self) -> Self::V {
        (self.first@, self.conversion@)
    }
}

/// The step of a converting procedure in which the converted one takes a step.
pub open spec fn in_converted<C: Conversion>(
    step: StepView<<C::First as View>::V, <C::First as Operation>::OutputView>,
    conversion: C::V,
) -> StepView<<Converting<C> as View>::V, C::ConvertedView> {
    match step {
        StepView::Ask(action, first) => StepView::Ask(action, (first, conversion)),
        StepView::Done(Ok(output)) => StepView::Done(C::conversion(conversion, output)),
        StepView::Done(Err(error)) => StepView::Done(Err(error)),
    }
}

impl<C: Conversion> Converting<C> {
    /// Goes on with a step of the converted procedure.
    pub fn first(
        step: Step<C::First, <C::First as Operation>::Output>,
        conversion: C,
    ) -> (converting: Step<Self, C::Converted>)
        ensures
            step_view(converting) == in_converted::<C>(step_view(step), conversion@),
    {
        match step {
            Step::Ask(action, first) => Step::Ask(action, Converting { first, conversion }),
            Step::Done(Ok(output)) => Step::Done(conversion.convert(output)),
            Step::Done(Err(error)) => Step::Done(Err(error)),
        }
    }
}

impl<C: Conversion> Operation for Converting<C> {
    type Output = C::Converted;

    type OutputView = C::ConvertedView;

    open spec fn output(output: Self::Output) -> Self::OutputView {
        C::converted(output)
    }
}

impl<C: Conversion> Procedure for Converting<C> {
    open spec fn next(state: Self::V, response: ResponseView) -> StepView<
        Self::V,
        Self::OutputView,
    > {
        in_converted::<C>(C::First::next(state.0, response), state.1)
    }

    open spec fn rank(state: Self::V) -> nat {
        C::First::rank(state.0)
    }

    proof fn rank_decreases(state: Self::V, response: ResponseView) {
        C::First::rank_decreases(state.0, response);
    }

    fn resume(self, response: Response) -> (step: Step<Self, Self::Output>) {
        Self::first(self.first.resume(response), self.conversion)
    }
}

/// A converting procedure gives what its output is converted to, and fails
/// where the converted procedure fails.
pub proof fn run_converting<C: Conversion>(
    step: StepView<<C::First as View>::V, <C::First as Operation>::OutputView>,
    conversion: C::V,
    database: Database,
)
    ensures
        run::<Converting<C>>(in_converted::<C>(step, conversion), database) == (match run::<
            C::First,
        >(step, database) {
            Ok(output) => C::conversion(conversion, output),
            Err(error) => Err(error),
        }),
    decreases
            (match step {
                StepView::Ask(_, state) => C::First::rank(state) + 1,
                StepView::Done(_) => 0,
            }),
{
    if let StepView::Ask(action, state) = step {
        C::First::rank_decreases(state, database(action));
        run_converting::<C>(C::First::next(state, database(action)), conversion, database);
    }
}

} // verus!
