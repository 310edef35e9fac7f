//! `Range`.

use vstd::prelude::*;

use crate::extn::core_classes::InitAction;

verus! {

/// The `Range` class.
#[derive(Debug, Clone, Copy)]
pub struct Range;

/// One step of initializing `Range`.
#[derive(Clone, Copy, Debug, PartialEq, Eq, Structural)]
pub enum RangeStep {
    /// Define the `Range` class in the interpreter; this cannot fail.
    DefineClass,
    /// Evaluate `range.rb`.
    EvalSource,
}

/// What the driver reports back.
pub enum RangeEvent<E> {
    /// Initialization starts.
    Start,
    /// [`RangeStep::DefineClass`] is done.
    ClassDefined,
    /// The outcome of [`RangeStep::EvalSource`].
    Evaluated(Result<(), E>),
}

/// Where initializing `Range` stands.
#[derive(Clone, Copy, Debug, PartialEq, Eq, Structural)]
pub enum RangeInit {
    /// Not started.
    Start,
    /// Waiting for [`RangeStep::DefineClass`].
    Defining,
    /// Waiting for [`RangeStep::EvalSource`].
    Evaluating,
    /// Over.
    Done,
}

/// Whether `event` is what a driver reports in `state`.
pub open spec fn range_event_fits<E>(state: RangeInit, event: RangeEvent<E>) -> bool {
    match state {
        RangeInit::Start => event is Start,
        RangeInit::Defining => event is ClassDefined,
        RangeInit::Evaluating => event is Evaluated,
        RangeInit::Done => true,
    }
}

/// Initializes `Range`: defines the class, then evaluates its Ruby source,
/// whose failure ends initialization with its error.
pub fn init<E>(state: &mut RangeInit, event: RangeEvent<E>) -> (r: InitAction<RangeStep, E>)
    requires
        range_event_fits(*old(state), event),
    ensures
        match (*old(state), event) {
            (RangeInit::Start, _) => r == InitAction::<RangeStep, E>::Run(RangeStep::DefineClass)
                && *final(state) == RangeInit::Defining,
            (RangeInit::Defining, _) => r == InitAction::<RangeStep, E>::Run(RangeStep::EvalSource)
                && *final(state) == RangeInit::Evaluating,
            (RangeInit::Evaluating, RangeEvent::Evaluated(result)) => r == InitAction::<
                RangeStep,
                E,
            >::Done(result) && *final(state) == RangeInit::Done,
            (_, _) => r == InitAction::<RangeStep, E>::Done(Ok(())) && *final(state)
                == RangeInit::Done,
        },
{
    match *state {
        RangeInit::Start => {
            *state = RangeInit::Defining;
            InitAction::Run(RangeStep::DefineClass)
        },
        RangeInit::Defining => {
            *state = RangeInit::Evaluating;
            InitAction::Run(RangeStep::EvalSource)
        },
        RangeInit::Evaluating => {
            *state = RangeInit::Done;
            match event {
                RangeEvent::Evaluated(result) => InitAction::Done(result),
                _ => InitAction::Done(Ok(())),
            }
        },
        RangeInit::Done => InitAction::Done(Ok(())),
    }
}

} // verus!
