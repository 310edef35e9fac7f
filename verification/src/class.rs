//! The decisions behind defining a Ruby class from its spec and looking the
//! class up in the interpreter.
//!
//! Both alternate calls into the interpreter with decisions. The decisions
//! live here as state machines: the driver reports what the interpreter
//! answered and runs the step it is asked for next, holding the interpreter's
//! class handles itself.

use vstd::prelude::*;
use vstd::std_specs::cmp::PartialEqSpecImpl;
use vstd::string::StringExecFns;

use crate::extn::core_classes::InitAction;

verus! {


/// The spec of a Ruby class that Rust code defines: its name, its super
/// class, whether its instances hold Rust data, and whether its data type
/// has a free function.
#[derive(Debug)]
pub struct Spec {
    /// The class's name.
    pub name: String,
    /// Whether the class's data type has a free function.
    pub has_free_func: bool,
    /// The super class's spec, if any.
    pub super_class: Option<Box<Spec>>,
    /// Whether the class's instances hold Rust data (`MRB_TT_DATA`).
    pub is_mrb_tt_data: bool,
}

impl Spec {
    /// A spec named `name`, without a super class, whose instances are not
    /// marked as holding Rust data. The name becomes a C string, which
    /// cannot hold a NUL character, so such names are excluded.
    pub fn new(name: String, has_free_func: bool) -> (r: Self)
        requires
            !name@.contains('\0'),
        ensures
            r.name == name,
            r.has_free_func == has_free_func,
            r.super_class is None,
            !r.is_mrb_tt_data,
    {
        Spec { name, has_free_func, super_class: None, is_mrb_tt_data: false }
    }

    /// The class's name.
    pub fn name(&self) -> (r: &str)
        ensures
            r@ == self.name@,
    {
        self.name.as_str()
    }

    /// Marks (or unmarks) the class's instances as holding Rust data.
    pub fn mrb_value_is_rust_backed(&mut self, is_mrb_tt_data: bool)
        ensures
            final(self).is_mrb_tt_data == is_mrb_tt_data,
            final(self).name == old(self).name,
            final(self).has_free_func == old(self).has_free_func,
            final(self).super_class == old(self).super_class,
    {
        self.is_mrb_tt_data = is_mrb_tt_data;
    }

    /// Sets the super class to a copy of `super_class`, or to none.
    pub fn with_super_class(&mut self, super_class: Option<&Spec>)
        ensures
            final(self).super_class == match super_class {
                Some(spec) => Some(Box::new(*spec)),
                None => None::<Box<Spec>>,
            },
            final(self).name == old(self).name,
            final(self).has_free_func == old(self).has_free_func,
            final(self).is_mrb_tt_data == old(self).is_mrb_tt_data,
    {
        self.super_class = match super_class {
            Some(spec) => Some(Box::new(spec.clone())),
            None => None,
        };
    }

    /// The text that `Display` shows for the spec of the class with this
    /// fully qualified name.
    pub fn display_text(&self, fqname: &str) -> (r: String)
        ensures
            r@ == "artichoke class spec -- "@ + fqname@,
    {
        let mut text = String::from_str("artichoke class spec -- ");
        text.append(fqname);
        text
    }

    /// The text that `Debug` shows: the `Display` text, followed by
    /// ` -- with free func` when the data type has a free function.
    pub fn debug_text(&self, fqname: &str) -> (r: String)
        ensures
            r@ == "artichoke class spec -- "@ + fqname@ + if self.has_free_func {
                " -- with free func"@
            } else {
                Seq::<char>::empty()
            },
    {
        let mut text = self.display_text(fqname);
        if self.has_free_func {
            text.append(" -- with free func");
        } else {
            assert(text@ =~= text@ + Seq::<char>::empty());
        }
        text
    }
}

impl Clone for Spec {
    /// A copy of the spec, with a copy of its super class's spec.
    fn clone(&self) -> (r: Self)
        ensures
            r == *self,
        decreases self,
    {
        let super_class = match &self.super_class {
            Some(spec) => Some(Box::new((**spec).clone())),
            None => None,
        };
        Spec {
            name: self.name.clone(),
            has_free_func: self.has_free_func,
            super_class,
            is_mrb_tt_data: self.is_mrb_tt_data,
        }
    }
}

impl PartialEq for Spec {
    /// Specs are equal when their names are.
    fn eq(&self, other: &Self) -> (r: bool) {
        self.name == other.name
    }
}

impl PartialEqSpecImpl for Spec {
    open spec fn obeys_eq_spec() -> bool {
        true
    }

    open spec fn eq_spec(&self, other: &Self) -> bool {
        self.name@ == other.name@
    }
}

/// One step of looking a class up by name.
#[derive(Clone, Copy, Debug, PartialEq, Eq, Structural)]
pub enum LookupStep {
    /// Look up the enclosing scope's class or module.
    ResolveScope,
    /// Ask whether the class is defined under the enclosing scope.
    ClassDefinedUnder,
    /// Fetch the class from under the enclosing scope.
    ClassGetUnder,
    /// Ask whether the class is defined at the root.
    ClassDefined,
    /// Fetch the class from the root.
    ClassGet,
}

/// What the driver reports back during a lookup.
#[derive(Clone, Copy, Debug, PartialEq, Eq, Structural)]
pub enum LookupEvent {
    /// The lookup starts.
    Start,
    /// The answer to a step that resolves or asks: whether it was found.
    Answer(bool),
    /// A fetch step is done; the driver holds the class.
    Fetched,
}

/// What a lookup asks its driver to do next.
#[derive(Clone, Copy, Debug, PartialEq, Eq, Structural)]
pub enum LookupAction {
    /// Run this step and report its outcome.
    Run(LookupStep),
    /// The class is the one fetched last.
    Found,
    /// The class is not defined (or its enclosing scope is not).
    Missing,
}

/// Where a lookup stands.
#[derive(Clone, Copy, Debug, PartialEq, Eq, Structural)]
pub enum LookupStage {
    /// Not started.
    Start,
    /// Waiting for [`LookupStep::ResolveScope`].
    ResolvingScope,
    /// Waiting for [`LookupStep::ClassDefinedUnder`].
    CheckingUnder,
    /// Waiting for [`LookupStep::ClassGetUnder`].
    FetchingUnder,
    /// Waiting for [`LookupStep::ClassDefined`].
    CheckingRoot,
    /// Waiting for [`LookupStep::ClassGet`].
    FetchingRoot,
    /// Over.
    Done,
}

/// A lookup of a class, nested in an enclosing scope or at the root.
#[derive(Clone, Copy, Debug, PartialEq, Eq, Structural)]
pub struct RClassLookup {
    /// Whether the class's spec names an enclosing scope.
    pub has_scope: bool,
    /// Where the lookup stands.
    pub stage: LookupStage,
}

impl RClassLookup {
    /// A lookup that has not started.
    pub fn new(has_scope: bool) -> (r: Self)
        ensures
            r.has_scope == has_scope,
            r.stage == LookupStage::Start,
    {
        RClassLookup { has_scope, stage: LookupStage::Start }
    }
}

/// Whether `event` is what a driver reports when a lookup is at `stage`.
pub open spec fn lookup_event_fits(stage: LookupStage, event: LookupEvent) -> bool {
    match stage {
        LookupStage::Start => event is Start,
        LookupStage::ResolvingScope | LookupStage::CheckingUnder | LookupStage::CheckingRoot => event is Answer,
        LookupStage::FetchingUnder | LookupStage::FetchingRoot => event is Fetched,
        LookupStage::Done => false,
    }
}

/// The next stage and action of a lookup. A nested class is looked up under
/// its enclosing scope, which must resolve first; any other class at the
/// root. A class is fetched only once the interpreter says it is defined.
pub open spec fn lookup_next(state: RClassLookup, event: LookupEvent) -> (RClassLookup, LookupAction) {
    let at = |stage: LookupStage| RClassLookup { has_scope: state.has_scope, stage };
    match (state.stage, event) {
        (LookupStage::Start, _) => if state.has_scope {
            (at(LookupStage::ResolvingScope), LookupAction::Run(LookupStep::ResolveScope))
        } else {
            (at(LookupStage::CheckingRoot), LookupAction::Run(LookupStep::ClassDefined))
        },
        (LookupStage::ResolvingScope, LookupEvent::Answer(true)) => (
            at(LookupStage::CheckingUnder),
            LookupAction::Run(LookupStep::ClassDefinedUnder),
        ),
        (LookupStage::CheckingUnder, LookupEvent::Answer(true)) => (
            at(LookupStage::FetchingUnder),
            LookupAction::Run(LookupStep::ClassGetUnder),
        ),
        (LookupStage::CheckingRoot, LookupEvent::Answer(true)) => (
            at(LookupStage::FetchingRoot),
            LookupAction::Run(LookupStep::ClassGet),
        ),
        (LookupStage::FetchingUnder, _) => (at(LookupStage::Done), LookupAction::Found),
        (LookupStage::FetchingRoot, _) => (at(LookupStage::Done), LookupAction::Found),
        (_, _) => (at(LookupStage::Done), LookupAction::Missing),
    }
}

/// Whether a lookup's stage agrees with where its class lives: a nested
/// class is only ever checked and fetched under its enclosing scope, any
/// other class only at the root.
pub open spec fn lookup_wf(state: RClassLookup) -> bool {
    if state.has_scope {
        state.stage != LookupStage::CheckingRoot && state.stage != LookupStage::FetchingRoot
    } else {
        state.stage != LookupStage::ResolvingScope && state.stage != LookupStage::CheckingUnder
            && state.stage != LookupStage::FetchingUnder
    }
}

/// What a lookup step does, said directly: a nested class is resolved,
/// checked and fetched under its enclosing scope and never at the root, any
/// other class at the root and never under a scope; a class that the
/// interpreter has is fetched from where it was checked, and a negative
/// answer ends the lookup as missing.
pub open spec fn lookup_step_law(
    old_state: RClassLookup,
    event: LookupEvent,
    new_state: RClassLookup,
    action: LookupAction,
) -> bool {
    &&& lookup_wf(old_state) ==> lookup_wf(new_state)
    &&& new_state.has_scope == old_state.has_scope
    &&& lookup_wf(old_state) && old_state.has_scope ==> action != LookupAction::Run(
        LookupStep::ClassGet,
    ) && action != LookupAction::Run(LookupStep::ClassDefined)
    &&& lookup_wf(old_state) && !old_state.has_scope ==> action != LookupAction::Run(
        LookupStep::ResolveScope,
    ) && action != LookupAction::Run(LookupStep::ClassDefinedUnder) && action
        != LookupAction::Run(LookupStep::ClassGetUnder)
    &&& old_state.stage == LookupStage::Start && old_state.has_scope ==> action
        == LookupAction::Run(LookupStep::ResolveScope)
    &&& old_state.stage == LookupStage::Start && !old_state.has_scope ==> action
        == LookupAction::Run(LookupStep::ClassDefined)
    &&& old_state.stage == LookupStage::ResolvingScope && event == LookupEvent::Answer(true)
        ==> action == LookupAction::Run(LookupStep::ClassDefinedUnder)
    &&& old_state.stage == LookupStage::CheckingUnder && event == LookupEvent::Answer(true)
        ==> action == LookupAction::Run(LookupStep::ClassGetUnder)
    &&& old_state.stage == LookupStage::CheckingRoot && event == LookupEvent::Answer(true)
        ==> action == LookupAction::Run(LookupStep::ClassGet)
    &&& old_state.stage != LookupStage::Start && event == LookupEvent::Answer(false) ==> action
        == LookupAction::Missing
    &&& (old_state.stage == LookupStage::FetchingUnder || old_state.stage
        == LookupStage::FetchingRoot) ==> action == LookupAction::Found
}

/// Every lookup step obeys [`lookup_step_law`].
pub proof fn lemma_lookup_steps(state: RClassLookup, event: LookupEvent)
    requires
        lookup_event_fits(state.stage, event),
    ensures
        lookup_step_law(state, event, lookup_next(state, event).0, lookup_next(state, event).1),
{
}

/// Looks up the class of a spec (`Spec::rclass`), one step at a time.
pub fn rclass(state: &mut RClassLookup, event: LookupEvent) -> (r: LookupAction)
    requires
        lookup_event_fits(old(state).stage, event),
    ensures
        (*final(state), r) == lookup_next(*old(state), event),
        lookup_step_law(*old(state), event, *final(state), r),
{
    proof {
        lemma_lookup_steps(*old(state), event);
    }
    let has_scope = state.has_scope;
    let (stage, action) = match (state.stage, event) {
        (LookupStage::Start, _) => {
            if has_scope {
                (LookupStage::ResolvingScope, LookupAction::Run(LookupStep::ResolveScope))
            } else {
                (LookupStage::CheckingRoot, LookupAction::Run(LookupStep::ClassDefined))
            }
        },
        (LookupStage::ResolvingScope, LookupEvent::Answer(true)) => (
            LookupStage::CheckingUnder,
            LookupAction::Run(LookupStep::ClassDefinedUnder),
        ),
        (LookupStage::CheckingUnder, LookupEvent::Answer(true)) => (
            LookupStage::FetchingUnder,
            LookupAction::Run(LookupStep::ClassGetUnder),
        ),
        (LookupStage::CheckingRoot, LookupEvent::Answer(true)) => (
            LookupStage::FetchingRoot,
            LookupAction::Run(LookupStep::ClassGet),
        ),
        (LookupStage::FetchingUnder, _) => (LookupStage::Done, LookupAction::Found),
        (LookupStage::FetchingRoot, _) => (LookupStage::Done, LookupAction::Found),
        (_, _) => (LookupStage::Done, LookupAction::Missing),
    };
    *state = RClassLookup { has_scope, stage };
    action
}


/// The answer a driver reports for a lookup `step` when the enclosing scope
/// is defined exactly when `scope_defined` and the class exactly when
/// `class_defined`.
pub open spec fn lookup_answer(step: LookupStep, scope_defined: bool, class_defined: bool) -> LookupEvent {
    match step {
        LookupStep::ResolveScope => LookupEvent::Answer(scope_defined),
        LookupStep::ClassDefinedUnder => LookupEvent::Answer(class_defined),
        LookupStep::ClassDefined => LookupEvent::Answer(class_defined),
        _ => LookupEvent::Fetched,
    }
}

/// Runs a lookup from `event` for at most `fuel` steps, answering each step
/// with [`lookup_answer`]: whether the class was found (`None` when the fuel
/// runs out first).
pub open spec fn run_lookup(
    state: RClassLookup,
    event: LookupEvent,
    scope_defined: bool,
    class_defined: bool,
    fuel: nat,
) -> Option<bool>
    decreases fuel,
{
    if fuel == 0 {
        None
    } else {
        let (next, action) = lookup_next(state, event);
        match action {
            LookupAction::Run(step) => run_lookup(
                next,
                lookup_answer(step, scope_defined, class_defined),
                scope_defined,
                class_defined,
                (fuel - 1) as nat,
            ),
            LookupAction::Found => Some(true),
            LookupAction::Missing => Some(false),
        }
    }
}

/// A lookup finds the class exactly when the class is defined and, for a
/// nested class, its enclosing scope is defined too; it ends within four
/// answers.
pub proof fn lemma_lookup_outcome(has_scope: bool, scope_defined: bool, class_defined: bool)
    ensures
        run_lookup(
            RClassLookup { has_scope, stage: LookupStage::Start },
            LookupEvent::Start,
            scope_defined,
            class_defined,
            4,
        ) == Some((!has_scope || scope_defined) && class_defined),
{
    reveal_with_fuel(run_lookup, 5);
}

/// One step of defining a class from its spec.
#[derive(Clone, Copy, Debug, PartialEq, Eq, Structural)]
pub enum DefineStep {
    /// Look up the super class's class.
    ResolveSuperClass,
    /// Look up the class itself, which may be defined already.
    ResolveClass,
    /// Look up the enclosing scope's class or module.
    ResolveScope,
    /// Define the class under the enclosing scope, with this super class.
    DefineClassUnder(SuperClass),
    /// Define the class at the root, with this super class.
    DefineClass(SuperClass),
    /// Define the method with this index on the class.
    DefineMethod(usize),
    /// Mark the class's instances as holding Rust data (`MRB_TT_DATA`).
    MarkData,
}

/// Which super class a new class gets.
#[derive(Clone, Copy, Debug, PartialEq, Eq, Structural)]
pub enum SuperClass {
    /// The super class that the spec names, as [`DefineStep::ResolveSuperClass`]
    /// resolved it.
    Resolved,
    /// `Object`, when the spec names no super class.
    Object,
}

/// The super class that a definition gives its class.
pub open spec fn super_class_of(def: ClassDefinition) -> SuperClass {
    if def.super_class is Some {
        SuperClass::Resolved
    } else {
        SuperClass::Object
    }
}

/// What the driver reports back while a class is defined.
pub enum DefineEvent<E> {
    /// Definition starts.
    Start,
    /// The answer to a resolve step: whether it was found.
    Found(bool),
    /// A class-defining step is done; this cannot fail.
    ClassDefined,
    /// The outcome of defining a method.
    MethodDefined(Result<(), E>),
    /// [`DefineStep::MarkData`] is done.
    Marked,
}

/// Why defining a class failed.
#[derive(Clone, Debug, PartialEq, Eq)]
pub enum DefineError<E> {
    /// A class or module with this fully qualified name is not defined.
    NotDefined(String),
    /// Defining a method failed.
    Method(E),
}

/// Where defining a class stands.
#[derive(Clone, Copy, Debug, PartialEq, Eq, Structural)]
pub enum DefineStage {
    /// Not started.
    Start,
    /// Waiting for [`DefineStep::ResolveSuperClass`].
    ResolvingSuperClass,
    /// Waiting for [`DefineStep::ResolveClass`].
    ResolvingClass,
    /// Waiting for [`DefineStep::ResolveScope`].
    ResolvingScope,
    /// Waiting for [`DefineStep::DefineClassUnder`] or
    /// [`DefineStep::DefineClass`].
    DefiningClass,
    /// Waiting for the method with this index.
    DefiningMethod(usize),
    /// Waiting for [`DefineStep::MarkData`].
    Marking,
    /// Over.
    Done,
}

/// Defining a class from its spec.
#[derive(Clone, Debug, PartialEq, Eq)]
pub struct ClassDefinition {
    /// The fully qualified name of the spec's super class, if it names one.
    pub super_class: Option<String>,
    /// The fully qualified name of the spec's enclosing scope, if it names one.
    pub scope: Option<String>,
    /// How many methods the spec holds.
    pub methods: usize,
    /// Whether the class's instances hold Rust data.
    pub is_mrb_tt_data: bool,
    /// Where the definition stands.
    pub stage: DefineStage,
}

impl ClassDefinition {
    /// A definition that has not started.
    pub fn new(
        super_class: Option<String>,
        scope: Option<String>,
        methods: usize,
        is_mrb_tt_data: bool,
    ) -> (r: Self)
        ensures
            r.super_class == super_class,
            r.scope == scope,
            r.methods == methods,
            r.is_mrb_tt_data == is_mrb_tt_data,
            r.stage == DefineStage::Start,
        definition_wf(r),
    {
        ClassDefinition { super_class, scope, methods, is_mrb_tt_data, stage: DefineStage::Start }
    }

    /// The same definition at another stage.
    pub open spec fn at(self, stage: DefineStage) -> Self {
        ClassDefinition { stage, ..self }
    }
}

/// Whether a definition's stage agrees with its spec: the super class and
/// the scope are resolved only when the spec names them, and only methods
/// that the spec holds are defined.
pub open spec fn definition_wf(def: ClassDefinition) -> bool {
    match def.stage {
        DefineStage::ResolvingSuperClass => def.super_class is Some,
        DefineStage::ResolvingScope => def.scope is Some,
        DefineStage::DefiningMethod(index) => index < def.methods,
        _ => true,
    }
}

/// Whether `event` is what a driver reports when a definition is at `stage`.
pub open spec fn define_event_fits<E>(stage: DefineStage, event: DefineEvent<E>) -> bool {
    match stage {
        DefineStage::Start => event is Start,
        DefineStage::ResolvingSuperClass | DefineStage::ResolvingClass
        | DefineStage::ResolvingScope => event is Found,
        DefineStage::DefiningClass => event is ClassDefined,
        DefineStage::DefiningMethod(_) => event is MethodDefined,
        DefineStage::Marking => event is Marked,
        DefineStage::Done => false,
    }
}

/// What follows once the class is there: its methods from the first one on,
/// then the data mark when flagged, then success.
pub open spec fn after_class<E>(def: ClassDefinition, next_method: int) -> (
    ClassDefinition,
    InitAction<DefineStep, DefineError<E>>,
) {
    if next_method < def.methods {
        (
            def.at(DefineStage::DefiningMethod(next_method as usize)),
            InitAction::Run(DefineStep::DefineMethod(next_method as usize)),
        )
    } else if def.is_mrb_tt_data {
        (def.at(DefineStage::Marking), InitAction::Run(DefineStep::MarkData))
    } else {
        (def.at(DefineStage::Done), InitAction::Done(Ok(())))
    }
}

/// The next stage and action of a definition (`Spec::define`). The super
/// class must resolve, else `NotDefined` with its name; a class that is
/// already defined is reused; otherwise the enclosing scope must resolve,
/// else `NotDefined` with its name, and the class is defined under it, or at
/// the root when there is no scope. Then every method is defined in turn,
/// the first failure ending the definition with its error, and finally the
/// class is marked as holding Rust data when the spec says so.
pub open spec fn define_next<E>(def: ClassDefinition, event: DefineEvent<E>) -> (
    ClassDefinition,
    InitAction<DefineStep, DefineError<E>>,
) {
    match (def.stage, event) {
        (DefineStage::Start, _) => if def.super_class is Some {
            (def.at(DefineStage::ResolvingSuperClass), InitAction::Run(DefineStep::ResolveSuperClass))
        } else {
            (def.at(DefineStage::ResolvingClass), InitAction::Run(DefineStep::ResolveClass))
        },
        (DefineStage::ResolvingSuperClass, DefineEvent::Found(true)) => (
            def.at(DefineStage::ResolvingClass),
            InitAction::Run(DefineStep::ResolveClass),
        ),
        (DefineStage::ResolvingSuperClass, _) => (
            def.at(DefineStage::Done),
            InitAction::Done(Err(DefineError::NotDefined(def.super_class.unwrap()))),
        ),
        (DefineStage::ResolvingClass, DefineEvent::Found(true)) => after_class(def, 0),
        (DefineStage::ResolvingClass, _) => if def.scope is Some {
            (def.at(DefineStage::ResolvingScope), InitAction::Run(DefineStep::ResolveScope))
        } else {
            (
                def.at(DefineStage::DefiningClass),
                InitAction::Run(DefineStep::DefineClass(super_class_of(def))),
            )
        },
        (DefineStage::ResolvingScope, DefineEvent::Found(true)) => (
            def.at(DefineStage::DefiningClass),
            InitAction::Run(DefineStep::DefineClassUnder(super_class_of(def))),
        ),
        (DefineStage::ResolvingScope, _) => (
            def.at(DefineStage::Done),
            InitAction::Done(Err(DefineError::NotDefined(def.scope.unwrap()))),
        ),
        (DefineStage::DefiningClass, _) => after_class(def, 0),
        (DefineStage::DefiningMethod(_), DefineEvent::MethodDefined(Err(e))) => (
            def.at(DefineStage::Done),
            InitAction::Done(Err(DefineError::Method(e))),
        ),
        (DefineStage::DefiningMethod(index), _) => after_class(def, index + 1),
        (_, _) => (def.at(DefineStage::Done), InitAction::Done(Ok(()))),
    }
}

/// The super class that `def` gives its class.
fn chosen_super_class(def: &ClassDefinition) -> (r: SuperClass)
    ensures
        r == super_class_of(*def),
{
    if def.super_class.is_some() {
        SuperClass::Resolved
    } else {
        SuperClass::Object
    }
}

/// The steps after the class is there, from method `next_method` on.
fn continue_after_class<E>(def: &mut ClassDefinition, next_method: usize) -> (r: InitAction<
    DefineStep,
    DefineError<E>,
>)
    ensures
        (*final(def), r) == after_class::<E>(*old(def), next_method as int),
        definition_wf(*final(def)),
{
    if next_method < def.methods {
        def.stage = DefineStage::DefiningMethod(next_method);
        InitAction::Run(DefineStep::DefineMethod(next_method))
    } else if def.is_mrb_tt_data {
        def.stage = DefineStage::Marking;
        InitAction::Run(DefineStep::MarkData)
    } else {
        def.stage = DefineStage::Done;
        InitAction::Done(Ok(()))
    }
}

/// What a definition step does about the class itself, said directly: a
/// class-defining step gives the class the resolved super class exactly when
/// the spec names one, whatever the scope; it defines the class under its
/// enclosing scope exactly when the spec names one; and it only comes after
/// the class was looked up and not found.
pub open spec fn define_step_law<E>(
    old_def: ClassDefinition,
    event: DefineEvent<E>,
    action: InitAction<DefineStep, DefineError<E>>,
) -> bool {
    &&& forall|c: SuperClass|
        action == InitAction::<DefineStep, DefineError<E>>::Run(DefineStep::DefineClass(c)) ==> ((c
            == SuperClass::Resolved) == (old_def.super_class is Some) && old_def.scope is None
            && old_def.stage == DefineStage::ResolvingClass && event is Found && !event->Found_0)
    &&& forall|c: SuperClass|
        action == InitAction::<DefineStep, DefineError<E>>::Run(DefineStep::DefineClassUnder(c))
            ==> ((c == SuperClass::Resolved) == (old_def.super_class is Some)
            && old_def.scope is Some && old_def.stage == DefineStage::ResolvingScope)
}

/// Every definition step obeys [`define_step_law`].
pub proof fn lemma_define_steps<E>(def: ClassDefinition, event: DefineEvent<E>)
    requires
        definition_wf(def),
        define_event_fits(def.stage, event),
    ensures
        define_step_law(def, event, define_next(def, event).1),
{
}

/// Defines a class from its spec (`Spec::define`), one step at a time; see
/// [`define_next`].
pub fn define<E>(def: &mut ClassDefinition, event: DefineEvent<E>) -> (r: InitAction<
    DefineStep,
    DefineError<E>,
>)
    requires
        definition_wf(*old(def)),
        define_event_fits(old(def).stage, event),
    ensures
        (*final(def), r) == define_next(*old(def), event),
        definition_wf(*final(def)),
        define_step_law(*old(def), event, r),
{
    proof {
        lemma_define_steps(*old(def), event);
    }
    match def.stage {
        DefineStage::Start => {
            if def.super_class.is_some() {
                def.stage = DefineStage::ResolvingSuperClass;
                InitAction::Run(DefineStep::ResolveSuperClass)
            } else {
                def.stage = DefineStage::ResolvingClass;
                InitAction::Run(DefineStep::ResolveClass)
            }
        },
        DefineStage::ResolvingSuperClass => {
            if let DefineEvent::Found(true) = event {
                def.stage = DefineStage::ResolvingClass;
                InitAction::Run(DefineStep::ResolveClass)
            } else {
                def.stage = DefineStage::Done;
                let name = match &def.super_class {
                    Some(name) => name.clone(),
                    None => String::new(),
                };
                InitAction::Done(Err(DefineError::NotDefined(name)))
            }
        },
        DefineStage::ResolvingClass => {
            if let DefineEvent::Found(true) = event {
                continue_after_class(def, 0)
            } else if def.scope.is_some() {
                def.stage = DefineStage::ResolvingScope;
                InitAction::Run(DefineStep::ResolveScope)
            } else {
                def.stage = DefineStage::DefiningClass;
                InitAction::Run(DefineStep::DefineClass(chosen_super_class(def)))
            }
        },
        DefineStage::ResolvingScope => {
            if let DefineEvent::Found(true) = event {
                def.stage = DefineStage::DefiningClass;
                InitAction::Run(DefineStep::DefineClassUnder(chosen_super_class(def)))
            } else {
                def.stage = DefineStage::Done;
                let name = match &def.scope {
                    Some(name) => name.clone(),
                    None => String::new(),
                };
                InitAction::Done(Err(DefineError::NotDefined(name)))
            }
        },
        DefineStage::DefiningClass => continue_after_class(def, 0),
        DefineStage::DefiningMethod(index) => {
            match event {
                DefineEvent::MethodDefined(Err(e)) => {
                    def.stage = DefineStage::Done;
                    InitAction::Done(Err(DefineError::Method(e)))
                },
                _ => continue_after_class(def, index + 1),
            }
        },
        _ => {
            def.stage = DefineStage::Done;
            InitAction::Done(Ok(()))
        },
    }
}


/// The event a driver reports for `step` when every lookup finds what it
/// looks for, except that the class itself resolves exactly when
/// `class_exists`, and every method definition succeeds.
pub open spec fn favourable_event<E>(step: DefineStep, class_exists: bool) -> DefineEvent<E> {
    match step {
        DefineStep::ResolveClass => DefineEvent::Found(class_exists),
        DefineStep::ResolveSuperClass => DefineEvent::Found(true),
        DefineStep::ResolveScope => DefineEvent::Found(true),
        DefineStep::DefineClassUnder(_) => DefineEvent::ClassDefined,
        DefineStep::DefineClass(_) => DefineEvent::ClassDefined,
        DefineStep::DefineMethod(_) => DefineEvent::MethodDefined(Ok(())),
        DefineStep::MarkData => DefineEvent::Marked,
    }
}

/// Runs a definition from `event` for at most `fuel` steps, answering each
/// step with [`favourable_event`]: the steps it asks for, and its result
/// (`None` when the fuel runs out first).
pub open spec fn run_define<E>(
    def: ClassDefinition,
    event: DefineEvent<E>,
    class_exists: bool,
    fuel: nat,
) -> (Seq<DefineStep>, Option<Result<(), DefineError<E>>>)
    decreases fuel,
{
    if fuel == 0 {
        (Seq::empty(), None)
    } else {
        let (next, action) = define_next(def, event);
        match action {
            InitAction::Run(step) => {
                let (rest, outcome) = run_define(
                    next,
                    favourable_event::<E>(step, class_exists),
                    class_exists,
                    (fuel - 1) as nat,
                );
                (seq![step] + rest, outcome)
            },
            InitAction::Done(result) => (Seq::empty(), Some(result)),
        }
    }
}

/// Defining the methods with indices `from..to`, in order.
pub open spec fn method_steps(from: int, to: int) -> Seq<DefineStep> {
    Seq::new((to - from) as nat, |i: int| DefineStep::DefineMethod((from + i) as usize))
}

/// The data mark, when the definition asks for it.
pub open spec fn mark_steps(def: ClassDefinition) -> Seq<DefineStep> {
    if def.is_mrb_tt_data {
        seq![DefineStep::MarkData]
    } else {
        Seq::empty()
    }
}

/// The lookups before a definition knows whether its class exists.
pub open spec fn lookup_steps(def: ClassDefinition) -> Seq<DefineStep> {
    if def.super_class is Some {
        seq![DefineStep::ResolveSuperClass, DefineStep::ResolveClass]
    } else {
        seq![DefineStep::ResolveClass]
    }
}

/// Once the class is there, a favourable run defines the methods from
/// `next_method` on, then marks the data when asked, and succeeds.
proof fn lemma_run_after_class<E>(
    def: ClassDefinition,
    event: DefineEvent<E>,
    next_method: int,
    class_exists: bool,
    fuel: nat,
)
    requires
        0 <= next_method <= def.methods,
        fuel >= def.methods - next_method + 2,
        define_next(def, event) == after_class::<E>(def, next_method),
    ensures
        run_define(def, event, class_exists, fuel) == (
            method_steps(next_method, def.methods as int) + mark_steps(def),
            Some(Ok::<(), DefineError<E>>(())),
        ),
    decreases def.methods - next_method,
{
    let (next, action) = after_class::<E>(def, next_method);
    if next_method < def.methods {
        let step = DefineStep::DefineMethod(next_method as usize);
        lemma_run_after_class(
            next,
            favourable_event::<E>(step, class_exists),
            next_method + 1,
            class_exists,
            (fuel - 1) as nat,
        );
        assert(seq![step] + (method_steps(next_method + 1, def.methods as int) + mark_steps(def))
            =~= method_steps(next_method, def.methods as int) + mark_steps(def));
    } else if def.is_mrb_tt_data {
        assert(run_define(next, DefineEvent::<E>::Marked, class_exists, (fuel - 1) as nat) == (
            Seq::<DefineStep>::empty(),
            Some(Ok::<(), DefineError<E>>(())),
        ));
        assert(method_steps(next_method, def.methods as int) + mark_steps(def) =~= seq![
            DefineStep::MarkData,
        ]);
    } else {
        assert(method_steps(next_method, def.methods as int) + mark_steps(def) =~= Seq::<
            DefineStep,
        >::empty());
    }
}

/// Defining a class that already exists reuses it: when every lookup finds
/// what it looks for and every method definition succeeds, the definition
/// asks for no class-defining step, defines every method in order, marks the
/// data when the spec says so, and succeeds.
pub proof fn lemma_define_reuses_existing_class<E>(def: ClassDefinition, fuel: nat)
    requires
        def.stage == DefineStage::Start,
        fuel >= def.methods + 4,
    ensures
        run_define(def, DefineEvent::<E>::Start, true, fuel) == (
            lookup_steps(def) + method_steps(0, def.methods as int) + mark_steps(def),
            Some(Ok::<(), DefineError<E>>(())),
        ),
{
    let tail = method_steps(0, def.methods as int) + mark_steps(def);
    let ok = Some(Ok::<(), DefineError<E>>(()));
    let at_class = def.at(DefineStage::ResolvingClass);
    assert(define_next(at_class, DefineEvent::<E>::Found(true)) == after_class::<E>(at_class, 0));
    if def.super_class is Some {
        let at_super = def.at(DefineStage::ResolvingSuperClass);
        lemma_run_after_class(at_class, DefineEvent::<E>::Found(true), 0, true, (fuel - 2) as nat);
        assert(at_super.at(DefineStage::ResolvingClass) == at_class);
        assert(run_define(at_super, DefineEvent::<E>::Found(true), true, (fuel - 1) as nat) == (
            seq![DefineStep::ResolveClass] + tail,
            ok,
        ));
        assert(run_define(def, DefineEvent::<E>::Start, true, fuel) == (
            seq![DefineStep::ResolveSuperClass] + (seq![DefineStep::ResolveClass] + tail),
            ok,
        ));
        assert(seq![DefineStep::ResolveSuperClass] + (seq![DefineStep::ResolveClass] + tail)
            =~= lookup_steps(def) + tail);
    } else {
        lemma_run_after_class(at_class, DefineEvent::<E>::Found(true), 0, true, (fuel - 1) as nat);
        assert(run_define(def, DefineEvent::<E>::Start, true, fuel) == (
            seq![DefineStep::ResolveClass] + tail,
            ok,
        ));
        assert(seq![DefineStep::ResolveClass] + tail =~= lookup_steps(def) + tail);
    }
}

/// Defining a class that does not exist yet defines it once, under its
/// enclosing scope when the spec names one and at the root otherwise, with
/// the resolved super class or `Object`; then, as for an existing class,
/// every method is defined in order, the data is marked when the spec says
/// so, and the definition succeeds.
pub proof fn lemma_define_new_class<E>(def: ClassDefinition, fuel: nat)
    requires
        def.stage == DefineStage::Start,
        fuel >= def.methods + 6,
    ensures
        run_define(def, DefineEvent::<E>::Start, false, fuel) == (
            lookup_steps(def) + (if def.scope is Some {
                seq![
                    DefineStep::ResolveScope,
                    DefineStep::DefineClassUnder(super_class_of(def)),
                ]
            } else {
                seq![DefineStep::DefineClass(super_class_of(def))]
            }) + method_steps(0, def.methods as int) + mark_steps(def),
            Some(Ok::<(), DefineError<E>>(())),
        ),
{
    let tail = method_steps(0, def.methods as int) + mark_steps(def);
    let ok = Some(Ok::<(), DefineError<E>>(()));
    let sup = super_class_of(def);
    let creation = if def.scope is Some {
        seq![DefineStep::ResolveScope, DefineStep::DefineClassUnder(sup)]
    } else {
        seq![DefineStep::DefineClass(sup)]
    };
    let first: int = if def.super_class is Some { 1 } else { 0 };
    let at_class = def.at(DefineStage::ResolvingClass);
    let defining = def.at(DefineStage::DefiningClass);
    assert(define_next(defining, DefineEvent::<E>::ClassDefined) == after_class::<E>(defining, 0));
    if def.scope is Some {
        let at_scope = def.at(DefineStage::ResolvingScope);
        lemma_run_after_class(
            defining,
            DefineEvent::<E>::ClassDefined,
            0,
            false,
            (fuel - first - 3) as nat,
        );
        assert(run_define(at_scope, DefineEvent::<E>::Found(true), false, (fuel - first - 2) as nat)
            == (seq![DefineStep::DefineClassUnder(sup)] + tail, ok));
        assert(run_define(at_class, DefineEvent::<E>::Found(false), false, (fuel - first - 1) as nat)
            == (seq![DefineStep::ResolveScope] + (seq![DefineStep::DefineClassUnder(sup)] + tail), ok));
        assert(seq![DefineStep::ResolveScope] + (seq![DefineStep::DefineClassUnder(sup)] + tail)
            =~= creation + tail);
    } else {
        lemma_run_after_class(
            defining,
            DefineEvent::<E>::ClassDefined,
            0,
            false,
            (fuel - first - 2) as nat,
        );
        assert(run_define(at_class, DefineEvent::<E>::Found(false), false, (fuel - first - 1) as nat)
            == (seq![DefineStep::DefineClass(sup)] + tail, ok));
        assert(seq![DefineStep::DefineClass(sup)] + tail =~= creation + tail);
    }
    assert(run_define(at_class, DefineEvent::<E>::Found(false), false, (fuel - first - 1) as nat)
        == (creation + tail, ok));
    if def.super_class is Some {
        let at_super = def.at(DefineStage::ResolvingSuperClass);
        assert(at_super.at(DefineStage::ResolvingClass) == at_class);
        assert(run_define(at_super, DefineEvent::<E>::Found(true), false, (fuel - 1) as nat) == (
            seq![DefineStep::ResolveClass] + (creation + tail),
            ok,
        ));
        assert(run_define(def, DefineEvent::<E>::Start, false, fuel) == (
            seq![DefineStep::ResolveSuperClass] + (seq![DefineStep::ResolveClass] + (creation
                + tail)),
            ok,
        ));
        assert(seq![DefineStep::ResolveSuperClass] + (seq![DefineStep::ResolveClass] + (creation
            + tail)) =~= lookup_steps(def) + creation + tail);
    } else {
        assert(run_define(def, DefineEvent::<E>::Start, false, fuel) == (
            seq![DefineStep::ResolveClass] + (creation + tail),
            ok,
        ));
        assert(seq![DefineStep::ResolveClass] + (creation + tail) =~= lookup_steps(def) + creation
            + tail);
    }
}

} // verus!
