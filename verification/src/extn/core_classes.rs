//! Core classes of the interpreter, and the order in which the interpreter
//! initializes them.
//!
//! Initialization alternates work inside the interpreter (defining classes,
//! evaluating Ruby sources) with decisions. The decisions live here as small
//! state machines: each `init` takes the outcome of the step it asked for
//! last and answers with the next step to run, or with the final result.

pub mod array;
pub mod range;
pub mod warning;

use vstd::prelude::*;

verus! {

/// What an initialization protocol asks its driver to do next.
pub enum InitAction<S, E> {
    /// Run this step and report its outcome.
    Run(S),
    /// Initialization is over, with this result.
    Done(Result<(), E>),
}

/// One step of initializing the core classes: evaluating `object.rb`, or
/// initializing one class or module.
#[derive(Clone, Copy, Debug, PartialEq, Eq, Structural)]
pub enum CoreClass {
    ObjectSource,
    Enumerable,
    Array,
    Module,
    Exception,
    Comparable,
    Symbol,
    Artichoke,
    Enumerator,
    Env,
    Hash,
    Numeric,
    Integer,
    Float,
    Kernel,
    MatchData,
    Math,
    Method,
    Object,
    Proc,
    Random,
    Range,
    Regexp,
    String,
    Thread,
    Time,
    Warning,
}

/// The optional parts of the core, each enabled by a crate feature.
#[derive(Clone, Copy, Debug, PartialEq, Eq, Structural)]
pub struct CoreFeatures {
    /// `core-env`: `ENV`.
    pub env: bool,
    /// `core-regexp`: `Regexp` and `MatchData`.
    pub regexp: bool,
    /// `core-math`: `Math`.
    pub math: bool,
    /// `core-random`: `Random`.
    pub random: bool,
    /// `core-time`: `Time`.
    pub time: bool,
}

/// `class` when `enabled`, else nothing.
pub open spec fn optional(enabled: bool, class: CoreClass) -> Seq<CoreClass> {
    if enabled {
        seq![class]
    } else {
        Seq::empty()
    }
}

/// The steps of core initialization, ordered along the dependencies between
/// the core classes; `Module` is initialized twice.
pub open spec fn core_init_order(features: CoreFeatures) -> Seq<CoreClass> {
    seq![
        CoreClass::ObjectSource,
        CoreClass::Enumerable,
        CoreClass::Array,
        CoreClass::Module,
        CoreClass::Exception,
        CoreClass::Comparable,
        CoreClass::Symbol,
        CoreClass::Artichoke,
        CoreClass::Enumerator,
    ] + optional(features.env, CoreClass::Env) + seq![
        CoreClass::Hash,
        CoreClass::Numeric,
        CoreClass::Integer,
        CoreClass::Float,
        CoreClass::Kernel,
    ] + optional(features.regexp, CoreClass::MatchData) + optional(features.math, CoreClass::Math)
        + seq![CoreClass::Method, CoreClass::Module, CoreClass::Object, CoreClass::Proc]
        + optional(features.random, CoreClass::Random) + seq![CoreClass::Range] + optional(
        features.regexp,
        CoreClass::Regexp,
    ) + seq![CoreClass::String, CoreClass::Thread] + optional(features.time, CoreClass::Time)
        + seq![CoreClass::Warning]
}

/// Appends `class` when `enabled`.
fn push_optional(order: &mut Vec<CoreClass>, enabled: bool, class: CoreClass)
    ensures
        final(order)@ == old(order)@ + optional(enabled, class),
{
    if enabled {
        order.push(class);
    }
    assert(order@ =~= old(order)@ + optional(enabled, class));
}

/// A vector of the given steps, in order.
fn steps_of(classes: &[CoreClass]) -> (r: Vec<CoreClass>)
    ensures
        r@ == classes@,
{
    let mut r: Vec<CoreClass> = Vec::new();
    let mut i: usize = 0;
    while i < classes.len()
        invariant
            i <= classes@.len(),
            r@ == classes@.subrange(0, i as int),
        decreases classes@.len() - i,
    {
        r.push(classes[i]);
        i += 1;
        assert(r@ =~= classes@.subrange(0, i as int));
    }
    assert(classes@.subrange(0, classes@.len() as int) =~= classes@);
    r
}

/// Appends the given steps.
fn push_steps(order: &mut Vec<CoreClass>, classes: &[CoreClass])
    ensures
        final(order)@ == old(order)@ + classes@,
{
    let mut more = steps_of(classes);
    order.append(&mut more);
}

/// The steps of core initialization for these features.
pub fn core_init_steps(features: CoreFeatures) -> (r: Vec<CoreClass>)
    ensures
        r@ == core_init_order(features),
{
    let first = [
        CoreClass::ObjectSource,
        CoreClass::Enumerable,
        CoreClass::Array,
        CoreClass::Module,
        CoreClass::Exception,
        CoreClass::Comparable,
        CoreClass::Symbol,
        CoreClass::Artichoke,
        CoreClass::Enumerator,
    ];
    let mut order = steps_of(&first);
    assert(order@ =~= seq![
        CoreClass::ObjectSource,
        CoreClass::Enumerable,
        CoreClass::Array,
        CoreClass::Module,
        CoreClass::Exception,
        CoreClass::Comparable,
        CoreClass::Symbol,
        CoreClass::Artichoke,
        CoreClass::Enumerator,
    ]);
    push_optional(&mut order, features.env, CoreClass::Env);
    let numbers = [
        CoreClass::Hash,
        CoreClass::Numeric,
        CoreClass::Integer,
        CoreClass::Float,
        CoreClass::Kernel,
    ];
    push_steps(&mut order, &numbers);
    assert(numbers@ =~= seq![
        CoreClass::Hash,
        CoreClass::Numeric,
        CoreClass::Integer,
        CoreClass::Float,
        CoreClass::Kernel,
    ]);
    push_optional(&mut order, features.regexp, CoreClass::MatchData);
    push_optional(&mut order, features.math, CoreClass::Math);
    let objects = [CoreClass::Method, CoreClass::Module, CoreClass::Object, CoreClass::Proc];
    push_steps(&mut order, &objects);
    assert(objects@ =~= seq![CoreClass::Method, CoreClass::Module, CoreClass::Object, CoreClass::Proc]);
    push_optional(&mut order, features.random, CoreClass::Random);
    let range = [CoreClass::Range];
    push_steps(&mut order, &range);
    assert(range@ =~= seq![CoreClass::Range]);
    push_optional(&mut order, features.regexp, CoreClass::Regexp);
    let texts = [CoreClass::String, CoreClass::Thread];
    push_steps(&mut order, &texts);
    assert(texts@ =~= seq![CoreClass::String, CoreClass::Thread]);
    push_optional(&mut order, features.time, CoreClass::Time);
    let last = [CoreClass::Warning];
    push_steps(&mut order, &last);
    assert(last@ =~= seq![CoreClass::Warning]);
    order
}


/// Core initialization starts by evaluating `object.rb`, initializes
/// `Enumerable` before `Array` (which depends on it) and `Module` before
/// `Exception` (whose classes use `attr_accessor` from `Module`), and ends with
/// `Warning`, whatever the features.
pub proof fn lemma_core_init_dependencies(features: CoreFeatures)
    ensures
        core_init_order(features)[0] == CoreClass::ObjectSource,
        core_init_order(features)[1] == CoreClass::Enumerable,
        core_init_order(features)[2] == CoreClass::Array,
        core_init_order(features)[3] == CoreClass::Module,
        core_init_order(features)[4] == CoreClass::Exception,
        core_init_order(features).last() == CoreClass::Warning,
        core_init_order(features).len() >= 20,
{
}

/// Whether `features` enable the step `class`: the optional parts need
/// their feature, every other step always runs.
pub open spec fn step_enabled(features: CoreFeatures, class: CoreClass) -> bool {
    match class {
        CoreClass::Env => features.env,
        CoreClass::MatchData => features.regexp,
        CoreClass::Regexp => features.regexp,
        CoreClass::Math => features.math,
        CoreClass::Random => features.random,
        CoreClass::Time => features.time,
        _ => true,
    }
}

/// Whether every step of `steps` is enabled.
pub open spec fn all_enabled(features: CoreFeatures, steps: Seq<CoreClass>) -> bool {
    forall|i: int| 0 <= i < steps.len() ==> step_enabled(features, #[trigger] steps[i])
}

proof fn lemma_all_enabled_concat(features: CoreFeatures, x: Seq<CoreClass>, y: Seq<CoreClass>)
    requires
        all_enabled(features, x),
        all_enabled(features, y),
    ensures
        all_enabled(features, x + y),
{
    assert forall|i: int| 0 <= i < (x + y).len() implies step_enabled(
        features,
        #[trigger] (x + y)[i],
    ) by {
        if i < x.len() {
            assert((x + y)[i] == x[i]);
        } else {
            assert((x + y)[i] == y[i - x.len()]);
        }
    }
}

/// The position of `class` in the order, where it is known.
proof fn lemma_index_witness(steps: Seq<CoreClass>, i: int, class: CoreClass)
    requires
        0 <= i < steps.len(),
        steps[i] == class,
    ensures
        steps.contains(class),
{
}

/// Core initialization runs exactly the steps that the features enable: no
/// step of a disabled optional part runs, and each optional part whose
/// feature is enabled runs.
pub proof fn lemma_optional_classes(features: CoreFeatures)
    ensures
        all_enabled(features, core_init_order(features)),
        core_init_order(features).contains(CoreClass::Env) <==> features.env,
        core_init_order(features).contains(CoreClass::MatchData) <==> features.regexp,
        core_init_order(features).contains(CoreClass::Regexp) <==> features.regexp,
        core_init_order(features).contains(CoreClass::Math) <==> features.math,
        core_init_order(features).contains(CoreClass::Random) <==> features.random,
        core_init_order(features).contains(CoreClass::Time) <==> features.time,
{
    let f = features;
    let p1 = seq![
        CoreClass::ObjectSource,
        CoreClass::Enumerable,
        CoreClass::Array,
        CoreClass::Module,
        CoreClass::Exception,
        CoreClass::Comparable,
        CoreClass::Symbol,
        CoreClass::Artichoke,
        CoreClass::Enumerator,
    ];
    let p2 = seq![
        CoreClass::Hash,
        CoreClass::Numeric,
        CoreClass::Integer,
        CoreClass::Float,
        CoreClass::Kernel,
    ];
    let p3 = seq![CoreClass::Method, CoreClass::Module, CoreClass::Object, CoreClass::Proc];
    let p4 = seq![CoreClass::Range];
    let p5 = seq![CoreClass::String, CoreClass::Thread];
    let p6 = seq![CoreClass::Warning];
    let o_env = optional(f.env, CoreClass::Env);
    let o_md = optional(f.regexp, CoreClass::MatchData);
    let o_math = optional(f.math, CoreClass::Math);
    let o_rand = optional(f.random, CoreClass::Random);
    let o_re = optional(f.regexp, CoreClass::Regexp);
    let o_time = optional(f.time, CoreClass::Time);
    assert(all_enabled(f, p1));
    assert(all_enabled(f, p2));
    assert(all_enabled(f, p3));
    assert(all_enabled(f, p4));
    assert(all_enabled(f, p5));
    assert(all_enabled(f, p6));
    assert(all_enabled(f, o_env));
    assert(all_enabled(f, o_md));
    assert(all_enabled(f, o_math));
    assert(all_enabled(f, o_rand));
    assert(all_enabled(f, o_re));
    assert(all_enabled(f, o_time));
    let s1 = p1 + o_env;
    lemma_all_enabled_concat(f, p1, o_env);
    let s2 = s1 + p2;
    lemma_all_enabled_concat(f, s1, p2);
    let s3 = s2 + o_md;
    lemma_all_enabled_concat(f, s2, o_md);
    let s4 = s3 + o_math;
    lemma_all_enabled_concat(f, s3, o_math);
    let s5 = s4 + p3;
    lemma_all_enabled_concat(f, s4, p3);
    let s6 = s5 + o_rand;
    lemma_all_enabled_concat(f, s5, o_rand);
    let s7 = s6 + p4;
    lemma_all_enabled_concat(f, s6, p4);
    let s8 = s7 + o_re;
    lemma_all_enabled_concat(f, s7, o_re);
    let s9 = s8 + p5;
    lemma_all_enabled_concat(f, s8, p5);
    let s10 = s9 + o_time;
    lemma_all_enabled_concat(f, s9, o_time);
    let order = s10 + p6;
    lemma_all_enabled_concat(f, s10, p6);
    assert(order == core_init_order(f));
    assert forall|c: CoreClass| #[trigger] order.contains(c) implies step_enabled(f, c) by {
        let i = choose|i: int| 0 <= i < order.len() && order[i] == c;
        assert(step_enabled(f, order[i]));
    }
    if f.env {
        lemma_index_witness(order, p1.len() as int, CoreClass::Env);
    }
    if f.regexp {
        lemma_index_witness(order, s2.len() as int, CoreClass::MatchData);
        lemma_index_witness(order, s7.len() as int, CoreClass::Regexp);
    }
    if f.math {
        lemma_index_witness(order, s3.len() as int, CoreClass::Math);
    }
    if f.random {
        lemma_index_witness(order, s5.len() as int, CoreClass::Random);
    }
    if f.time {
        lemma_index_witness(order, s9.len() as int, CoreClass::Time);
    }
}


/// Every step of `x` and of `y` is a step of `x + y`.
proof fn lemma_concat_contains(x: Seq<CoreClass>, y: Seq<CoreClass>)
    ensures
        forall|c: CoreClass| x.contains(c) ==> #[trigger] (x + y).contains(c),
        forall|c: CoreClass| y.contains(c) ==> #[trigger] (x + y).contains(c),
{
    assert forall|c: CoreClass| x.contains(c) implies #[trigger] (x + y).contains(c) by {
        let i = choose|i: int| 0 <= i < x.len() && x[i] == c;
        assert((x + y)[i] == c);
    }
    assert forall|c: CoreClass| y.contains(c) implies #[trigger] (x + y).contains(c) by {
        let i = choose|i: int| 0 <= i < y.len() && y[i] == c;
        assert((x + y)[x.len() + i] == c);
    }
}

/// Core initialization runs every step that the features enable: each core
/// class and module, and `object.rb`, is initialized at least once, and the
/// order has one entry per mandatory step (with `Module` twice) plus one per
/// enabled optional part (two for `regexp`).
pub proof fn lemma_core_init_complete(features: CoreFeatures)
    ensures
        forall|c: CoreClass| step_enabled(features, c) ==> #[trigger] core_init_order(features).contains(c),
        core_init_order(features).len() == 22 + (if features.env { 1int } else { 0 }) + (if features.regexp {
            2int
        } else {
            0
        }) + (if features.math { 1int } else { 0 }) + (if features.random { 1int } else { 0 }) + (
        if features.time {
            1int
        } else {
            0
        }),
{
    let f = features;
    let p1 = seq![CoreClass::ObjectSource, CoreClass::Enumerable, CoreClass::Array, CoreClass::Module, CoreClass::Exception, CoreClass::Comparable, CoreClass::Symbol, CoreClass::Artichoke, CoreClass::Enumerator];
    let p2 = seq![CoreClass::Hash, CoreClass::Numeric, CoreClass::Integer, CoreClass::Float, CoreClass::Kernel];
    let p3 = seq![CoreClass::Method, CoreClass::Module, CoreClass::Object, CoreClass::Proc];
    let p4 = seq![CoreClass::Range];
    let p5 = seq![CoreClass::String, CoreClass::Thread];
    let p6 = seq![CoreClass::Warning];
    let o_env = optional(f.env, CoreClass::Env);
    let o_md = optional(f.regexp, CoreClass::MatchData);
    let o_math = optional(f.math, CoreClass::Math);
    let o_rand = optional(f.random, CoreClass::Random);
    let o_re = optional(f.regexp, CoreClass::Regexp);
    let o_time = optional(f.time, CoreClass::Time);
    let s1 = p1 + o_env;
    let s2 = s1 + p2;
    let s3 = s2 + o_md;
    let s4 = s3 + o_math;
    let s5 = s4 + p3;
    let s6 = s5 + o_rand;
    let s7 = s6 + p4;
    let s8 = s7 + o_re;
    let s9 = s8 + p5;
    let s10 = s9 + o_time;
    let order = s10 + p6;
    assert(order == core_init_order(f));
    lemma_concat_contains(p1, o_env);
    lemma_concat_contains(s1, p2);
    lemma_concat_contains(s2, o_md);
    lemma_concat_contains(s3, o_math);
    lemma_concat_contains(s4, p3);
    lemma_concat_contains(s5, o_rand);
    lemma_concat_contains(s6, p4);
    lemma_concat_contains(s7, o_re);
    lemma_concat_contains(s8, p5);
    lemma_concat_contains(s9, o_time);
    lemma_concat_contains(s10, p6);
    assert forall|c: CoreClass| step_enabled(f, c) implies #[trigger] order.contains(c) by {
        match c {
            CoreClass::ObjectSource => assert(p1[0] == c),
            CoreClass::Enumerable => assert(p1[1] == c),
            CoreClass::Array => assert(p1[2] == c),
            CoreClass::Module => assert(p1[3] == c),
            CoreClass::Exception => assert(p1[4] == c),
            CoreClass::Comparable => assert(p1[5] == c),
            CoreClass::Symbol => assert(p1[6] == c),
            CoreClass::Artichoke => assert(p1[7] == c),
            CoreClass::Enumerator => assert(p1[8] == c),
            CoreClass::Hash => assert(p2[0] == c),
            CoreClass::Numeric => assert(p2[1] == c),
            CoreClass::Integer => assert(p2[2] == c),
            CoreClass::Float => assert(p2[3] == c),
            CoreClass::Kernel => assert(p2[4] == c),
            CoreClass::Method => assert(p3[0] == c),
            CoreClass::Object => assert(p3[2] == c),
            CoreClass::Proc => assert(p3[3] == c),
            CoreClass::Range => assert(p4[0] == c),
            CoreClass::String => assert(p5[0] == c),
            CoreClass::Thread => assert(p5[1] == c),
            CoreClass::Warning => assert(p6[0] == c),
            CoreClass::Env => assert(o_env[0] == c),
            CoreClass::MatchData => assert(o_md[0] == c),
            CoreClass::Math => assert(o_math[0] == c),
            CoreClass::Random => assert(o_rand[0] == c),
            CoreClass::Regexp => assert(o_re[0] == c),
            CoreClass::Time => assert(o_time[0] == c),
        }
    }
}

/// Progress through core initialization: which features are enabled, and how
/// many steps have been handed out.
#[derive(Clone, Copy, Debug)]
pub struct CoreInit {
    /// The enabled optional parts.
    pub features: CoreFeatures,
    /// How many steps of [`core_init_order`] have been handed out.
    pub issued: usize,
}

impl CoreInit {
    /// Core initialization that has not started.
    pub fn new(features: CoreFeatures) -> (r: Self)
        ensures
            r.features == features,
            r.issued == 0,
    {
        CoreInit { features, issued: 0 }
    }
}

/// Hands out the next of `steps`, or ends: with the error of the last step
/// when it failed, with success once every step has run.
fn advance<S: Copy, E>(steps: &Vec<S>, issued: &mut usize, last: Result<(), E>) -> (r: InitAction<
    S,
    E,
>)
    ensures
        match last {
            Err(e) => r == InitAction::<S, E>::Done(Err(e)) && *final(issued) == if *old(issued)
                < steps@.len() {
                steps@.len() as usize
            } else {
                *old(issued)
            },
            Ok(_) => if *old(issued) < steps@.len() {
                r == InitAction::<S, E>::Run(steps@[*old(issued) as int]) && *final(issued) == *old(
                    issued,
                ) + 1
            } else {
                r == InitAction::<S, E>::Done(Ok(())) && *final(issued) == *old(issued)
            },
        },
{
    match last {
        Err(e) => {
            if *issued < steps.len() {
                *issued = steps.len();
            }
            InitAction::Done(Err(e))
        },
        Ok(_) => {
            if *issued < steps.len() {
                let step = steps[*issued];
                *issued = *issued + 1;
                InitAction::Run(step)
            } else {
                InitAction::Done(Ok(()))
            }
        },
    }
}

/// Initializes the core classes in dependency order. The driver starts with
/// `Ok(())` and then reports the outcome of each step it was asked to run:
/// the steps come in the order of [`core_init_order`], and the first failing
/// step ends initialization with its error.
pub fn init<E>(state: &mut CoreInit, last: Result<(), E>) -> (r: InitAction<CoreClass, E>)
    ensures
        final(state).features == old(state).features,
        match last {
            Err(e) => r == InitAction::<CoreClass, E>::Done(Err(e)) && final(state).issued >= core_init_order(
                old(state).features,
            ).len(),
            Ok(_) => if old(state).issued < core_init_order(old(state).features).len() {
                r == InitAction::<CoreClass, E>::Run(
                    core_init_order(old(state).features)[old(state).issued as int],
                ) && final(state).issued == old(state).issued + 1
            } else {
                r == InitAction::<CoreClass, E>::Done(Ok(())) && final(state).issued == old(
                    state,
                ).issued
            },
        },
{
    let steps = core_init_steps(state.features);
    advance(&steps, &mut state.issued, last)
}

} // verus!
