//! `Warning`.

use vstd::prelude::*;

use crate::extn::core_classes::InitAction;

verus! {

/// The `Warning` module.
#[derive(Debug, Clone, Copy)]
pub struct Warning;

/// One step of initializing `Warning`.
#[derive(Clone, Copy, Debug, PartialEq, Eq, Structural)]
pub enum WarningStep {
    /// Ask whether the interpreter already holds a spec for `Warning`.
    CheckDefined,
    /// Define the `Warning` module in the interpreter.
    DefineModule,
    /// Register the module's spec with the interpreter; this cannot fail.
    RegisterSpec,
    /// Evaluate `warning.rb`.
    EvalSource,
}

/// What the driver reports back.
pub enum WarningEvent<E> {
    /// Initialization starts.
    Start,
    /// The answer to [`WarningStep::CheckDefined`].
    Defined(bool),
    /// The outcome of [`WarningStep::DefineModule`].
    ModuleDefined(Result<(), E>),
    /// [`WarningStep::RegisterSpec`] is done.
    Registered,
    /// The outcome of [`WarningStep::EvalSource`].
    Evaluated(Result<(), E>),
}

/// Where initializing `Warning` stands.
#[derive(Clone, Copy, Debug, PartialEq, Eq, Structural)]
pub enum WarningInit {
    /// Not started.
    Start,
    /// Waiting for the answer to [`WarningStep::CheckDefined`].
    Checking,
    /// Waiting for [`WarningStep::DefineModule`].
    Defining,
    /// Waiting for [`WarningStep::RegisterSpec`].
    Registering,
    /// Waiting for [`WarningStep::EvalSource`].
    Evaluating,
    /// Over.
    Done,
}

/// Whether `event` is what a driver reports in `state`.
pub open spec fn warning_event_fits<E>(state: WarningInit, event: WarningEvent<E>) -> bool {
    match state {
        WarningInit::Start => event is Start,
        WarningInit::Checking => event is Defined,
        WarningInit::Defining => event is ModuleDefined,
        WarningInit::Registering => event is Registered,
        WarningInit::Evaluating => event is Evaluated,
        WarningInit::Done => true,
    }
}

/// Initializes `Warning` once: when the interpreter already knows the module
/// nothing else happens; otherwise the module is defined, its spec
/// registered and its Ruby source evaluated, and a failing step ends
/// initialization with its error.
pub fn init<E>(state: &mut WarningInit, event: WarningEvent<E>) -> (r: InitAction<WarningStep, E>)
    requires
        warning_event_fits(*old(state), event),
    ensures
        match (*old(state), event) {
            (WarningInit::Start, _) => r == InitAction::<WarningStep, E>::Run(
                WarningStep::CheckDefined,
            ) && *final(state) == WarningInit::Checking,
            (WarningInit::Checking, WarningEvent::Defined(true)) => r == InitAction::<
                WarningStep,
                E,
            >::Done(Ok(())) && *final(state) == WarningInit::Done,
            (WarningInit::Checking, _) => r == InitAction::<WarningStep, E>::Run(
                WarningStep::DefineModule,
            ) && *final(state) == WarningInit::Defining,
            (WarningInit::Defining, WarningEvent::ModuleDefined(Err(e))) => r == InitAction::<
                WarningStep,
                E,
            >::Done(Err(e)) && *final(state) == WarningInit::Done,
            (WarningInit::Defining, _) => r == InitAction::<WarningStep, E>::Run(
                WarningStep::RegisterSpec,
            ) && *final(state) == WarningInit::Registering,
            (WarningInit::Registering, _) => r == InitAction::<WarningStep, E>::Run(
                WarningStep::EvalSource,
            ) && *final(state) == WarningInit::Evaluating,
            (WarningInit::Evaluating, WarningEvent::Evaluated(result)) => r == InitAction::<
                WarningStep,
                E,
            >::Done(result) && *final(state) == WarningInit::Done,
            (_, _) => r == InitAction::<WarningStep, E>::Done(Ok(())) && *final(state)
                == WarningInit::Done,
        },
{
    match *state {
        WarningInit::Start => {
            *state = WarningInit::Checking;
            InitAction::Run(WarningStep::CheckDefined)
        },
        WarningInit::Checking => {
            match event {
                WarningEvent::Defined(true) => {
                    *state = WarningInit::Done;
                    InitAction::Done(Ok(()))
                },
                _ => {
                    *state = WarningInit::Defining;
                    InitAction::Run(WarningStep::DefineModule)
                },
            }
        },
        WarningInit::Defining => {
            match event {
                WarningEvent::ModuleDefined(Err(e)) => {
                    *state = WarningInit::Done;
                    InitAction::Done(Err(e))
                },
                _ => {
                    *state = WarningInit::Registering;
                    InitAction::Run(WarningStep::RegisterSpec)
                },
            }
        },
        WarningInit::Registering => {
            *state = WarningInit::Evaluating;
            InitAction::Run(WarningStep::EvalSource)
        },
        WarningInit::Evaluating => {
            *state = WarningInit::Done;
            match event {
                WarningEvent::Evaluated(result) => InitAction::Done(result),
                _ => InitAction::Done(Ok(())),
            }
        },
        WarningInit::Done => InitAction::Done(Ok(())),
    }
}

} // verus!
