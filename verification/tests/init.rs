use artichoke_backend::extn::core_classes::range::{self, Range, RangeEvent, RangeInit, RangeStep};
use artichoke_backend::extn::core_classes::warning::{
    self, Warning, WarningEvent, WarningInit, WarningStep,
};
use artichoke_backend::extn::core_classes::{
    core_init_steps, init, CoreClass, CoreFeatures, CoreInit, InitAction,
};

fn no_features() -> CoreFeatures {
    CoreFeatures { env: false, regexp: false, math: false, random: false, time: false }
}

fn all_features() -> CoreFeatures {
    CoreFeatures { env: true, regexp: true, math: true, random: true, time: true }
}

fn run_core(features: CoreFeatures, fail_at: Option<CoreClass>) -> (Vec<CoreClass>, Result<(), String>) {
    let mut state = CoreInit::new(features);
    let mut last: Result<(), String> = Ok(());
    let mut ran = Vec::new();
    loop {
        match init(&mut state, last) {
            InitAction::Run(step) => {
                ran.push(step);
                last = if Some(step) == fail_at { Err(format!("{:?} failed", step)) } else { Ok(()) };
            }
            InitAction::Done(result) => return (ran, result),
        }
    }
}

#[test]
fn core_init_minimal_order() {
    let (ran, result) = run_core(no_features(), None);
    assert_eq!(result, Ok(()));
    assert_eq!(
        ran,
        vec![
            CoreClass::ObjectSource,
            CoreClass::Enumerable,
            CoreClass::Array,
            CoreClass::Module,
            CoreClass::Exception,
            CoreClass::Comparable,
            CoreClass::Symbol,
            CoreClass::Artichoke,
            CoreClass::Enumerator,
            CoreClass::Hash,
            CoreClass::Numeric,
            CoreClass::Integer,
            CoreClass::Float,
            CoreClass::Kernel,
            CoreClass::Method,
            CoreClass::Module,
            CoreClass::Object,
            CoreClass::Proc,
            CoreClass::Range,
            CoreClass::String,
            CoreClass::Thread,
            CoreClass::Warning,
        ]
    );
}

#[test]
fn core_init_with_all_features() {
    let (ran, result) = run_core(all_features(), None);
    assert_eq!(result, Ok(()));
    assert_eq!(ran.len(), 28);
    assert_eq!(ran, core_init_steps(all_features()));
    let pos = |c: CoreClass| ran.iter().position(|&x| x == c).unwrap();
    assert_eq!(pos(CoreClass::Env), 9);
    assert!(pos(CoreClass::Enumerable) < pos(CoreClass::Array));
    assert!(pos(CoreClass::Module) < pos(CoreClass::Exception));
    assert!(pos(CoreClass::Kernel) < pos(CoreClass::MatchData));
    assert!(pos(CoreClass::Range) < pos(CoreClass::Regexp));
    assert_eq!(*ran.last().unwrap(), CoreClass::Warning);
}

#[test]
fn core_init_stops_at_first_error() {
    let (ran, result) = run_core(no_features(), Some(CoreClass::Exception));
    assert_eq!(result, Err("Exception failed".to_string()));
    assert_eq!(ran.len(), 5);
    assert_eq!(*ran.last().unwrap(), CoreClass::Exception);
}

#[test]
fn core_init_after_done_stays_done() {
    let mut state = CoreInit::new(no_features());
    let first: InitAction<CoreClass, ()> = init(&mut state, Err(()));
    assert!(matches!(first, InitAction::Done(Err(()))));
    let again: InitAction<CoreClass, ()> = init(&mut state, Ok(()));
    assert!(matches!(again, InitAction::Done(Ok(()))));
}

#[test]
fn range_init_defines_then_evaluates() {
    let _ = Range;
    let mut state = RangeInit::Start;
    let a: InitAction<RangeStep, &str> = range::init(&mut state, RangeEvent::Start);
    assert!(matches!(a, InitAction::Run(RangeStep::DefineClass)));
    let b: InitAction<RangeStep, &str> = range::init(&mut state, RangeEvent::ClassDefined);
    assert!(matches!(b, InitAction::Run(RangeStep::EvalSource)));
    let c: InitAction<RangeStep, &str> = range::init(&mut state, RangeEvent::Evaluated(Ok(())));
    assert!(matches!(c, InitAction::Done(Ok(()))));
    assert_eq!(state, RangeInit::Done);
}

#[test]
fn range_init_eval_error() {
    let mut state = RangeInit::Start;
    let _: InitAction<RangeStep, &str> = range::init(&mut state, RangeEvent::Start);
    let _: InitAction<RangeStep, &str> = range::init(&mut state, RangeEvent::ClassDefined);
    let c: InitAction<RangeStep, &str> =
        range::init(&mut state, RangeEvent::Evaluated(Err("syntax error")));
    assert!(matches!(c, InitAction::Done(Err("syntax error"))));
}

#[test]
fn warning_init_when_already_defined_does_nothing() {
    let _ = Warning;
    let mut state = WarningInit::Start;
    let a: InitAction<WarningStep, ()> = warning::init(&mut state, WarningEvent::Start);
    assert!(matches!(a, InitAction::Run(WarningStep::CheckDefined)));
    let b: InitAction<WarningStep, ()> = warning::init(&mut state, WarningEvent::Defined(true));
    assert!(matches!(b, InitAction::Done(Ok(()))));
    assert_eq!(state, WarningInit::Done);
}

#[test]
fn warning_init_full_sequence() {
    let mut state = WarningInit::Start;
    let mut steps = Vec::new();
    let mut event: WarningEvent<String> = WarningEvent::Start;
    loop {
        match warning::init(&mut state, event) {
            InitAction::Run(step) => {
                steps.push(step);
                event = match step {
                    WarningStep::CheckDefined => WarningEvent::Defined(false),
                    WarningStep::DefineModule => WarningEvent::ModuleDefined(Ok(())),
                    WarningStep::RegisterSpec => WarningEvent::Registered,
                    WarningStep::EvalSource => WarningEvent::Evaluated(Ok(())),
                };
            }
            InitAction::Done(result) => {
                assert_eq!(result, Ok(()));
                break;
            }
        }
    }
    assert_eq!(
        steps,
        vec![
            WarningStep::CheckDefined,
            WarningStep::DefineModule,
            WarningStep::RegisterSpec,
            WarningStep::EvalSource
        ]
    );
}

#[test]
fn warning_init_define_error() {
    let mut state = WarningInit::Start;
    let _: InitAction<WarningStep, &str> = warning::init(&mut state, WarningEvent::Start);
    let _: InitAction<WarningStep, &str> = warning::init(&mut state, WarningEvent::Defined(false));
    let c: InitAction<WarningStep, &str> =
        warning::init(&mut state, WarningEvent::ModuleDefined(Err("NotDefined")));
    assert!(matches!(c, InitAction::Done(Err("NotDefined"))));
    assert_eq!(state, WarningInit::Done);
}

#[test]
fn warning_init_eval_error() {
    let mut state = WarningInit::Start;
    let _: InitAction<WarningStep, &str> = warning::init(&mut state, WarningEvent::Start);
    let _: InitAction<WarningStep, &str> = warning::init(&mut state, WarningEvent::Defined(false));
    let _: InitAction<WarningStep, &str> = warning::init(&mut state, WarningEvent::ModuleDefined(Ok(())));
    let d: InitAction<WarningStep, &str> = warning::init(&mut state, WarningEvent::Registered);
    assert!(matches!(d, InitAction::Run(WarningStep::EvalSource)));
    let e: InitAction<WarningStep, &str> =
        warning::init(&mut state, WarningEvent::Evaluated(Err("eval failed")));
    assert!(matches!(e, InitAction::Done(Err("eval failed"))));
}
