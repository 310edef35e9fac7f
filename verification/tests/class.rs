use std::collections::HashMap;

use artichoke_backend::class::{
    define, rclass, ClassDefinition, DefineError, DefineEvent, DefineStep, LookupAction,
    LookupEvent, LookupStep, RClassLookup, Spec, SuperClass,
};
use artichoke_backend::extn::core_classes::InitAction;

/// A stand-in for the interpreter's class table: fully qualified names of
/// the defined classes (with their super classes) and modules.
#[derive(Default)]
struct Interp {
    classes: HashMap<String, Option<String>>,
    modules: Vec<String>,
}

impl Interp {
    fn interpreter() -> Self {
        let mut interp = Interp::default();
        interp.classes.insert("Object".to_string(), None);
        interp.classes.insert("StandardError".to_string(), Some("Object".to_string()));
        interp.modules.push("Kernel".to_string());
        interp
    }

    fn scope_defined(&self, scope: &str) -> bool {
        self.classes.contains_key(scope) || self.modules.iter().any(|m| m == scope)
    }

    fn qualified(name: &str, scope: Option<&str>) -> String {
        match scope {
            Some(scope) => format!("{}::{}", scope, name),
            None => name.to_string(),
        }
    }

    /// Runs the lookup protocol for `name` under `scope`; `true` when found.
    fn rclass(&self, name: &str, scope: Option<&str>) -> bool {
        let mut state = RClassLookup::new(scope.is_some());
        let mut event = LookupEvent::Start;
        loop {
            match rclass(&mut state, event) {
                LookupAction::Run(step) => {
                    event = match step {
                        LookupStep::ResolveScope => LookupEvent::Answer(self.scope_defined(scope.unwrap())),
                        LookupStep::ClassDefinedUnder | LookupStep::ClassDefined => {
                            LookupEvent::Answer(self.classes.contains_key(&Self::qualified(name, scope)))
                        }
                        LookupStep::ClassGetUnder | LookupStep::ClassGet => LookupEvent::Fetched,
                    }
                }
                LookupAction::Found => return true,
                LookupAction::Missing => return false,
            }
        }
    }

    /// Runs the definition protocol for a class without methods.
    fn define(
        &mut self,
        name: &str,
        super_class: Option<&str>,
        scope: Option<&str>,
    ) -> Result<(), DefineError<()>> {
        let mut def = ClassDefinition::new(
            super_class.map(str::to_string),
            scope.map(str::to_string),
            0,
            false,
        );
        let mut event = DefineEvent::Start;
        loop {
            match define(&mut def, event) {
                InitAction::Run(step) => {
                    event = match step {
                        DefineStep::ResolveSuperClass => {
                            DefineEvent::Found(self.rclass(super_class.unwrap(), None))
                        }
                        DefineStep::ResolveClass => DefineEvent::Found(self.rclass(name, scope)),
                        DefineStep::ResolveScope => {
                            DefineEvent::Found(self.scope_defined(scope.unwrap()))
                        }
                        DefineStep::DefineClass(choice) | DefineStep::DefineClassUnder(choice) => {
                            let parent = match choice {
                                SuperClass::Resolved => super_class.unwrap().to_string(),
                                SuperClass::Object => "Object".to_string(),
                            };
                            self.classes.insert(Self::qualified(name, scope), Some(parent));
                            DefineEvent::ClassDefined
                        }
                        DefineStep::DefineMethod(_) => DefineEvent::MethodDefined(Ok(())),
                        DefineStep::MarkData => DefineEvent::Marked,
                    }
                }
                InitAction::Done(result) => return result,
            }
        }
    }

    /// `class.new.is_a?(ancestor)`.
    fn instance_is_a(&self, class: &str, ancestor: &str) -> bool {
        class == ancestor || self.inherits_from(class, ancestor)
    }

    /// `class < ancestor`.
    fn inherits_from(&self, class: &str, ancestor: &str) -> bool {
        let mut current = self.classes.get(class).cloned().flatten();
        while let Some(parent) = current {
            if parent == ancestor {
                return true;
            }
            current = self.classes.get(&parent).cloned().flatten();
        }
        false
    }
}

#[test]
fn super_class() {
    let mut interp = Interp::interpreter();
    interp.define("RustError", Some("StandardError"), None).expect("class install");
    assert!(
        interp.instance_is_a("RustError", "StandardError"),
        "RustError instances are instance of StandardError"
    );
    assert!(interp.inherits_from("RustError", "StandardError"), "RustError inherits from StandardError");
}

#[test]
fn refcell_allows_mutable_class_specs_after_attached_as_enclosing_scope() {
    let mut interp = Interp::interpreter();
    interp.define("BaseClass", None, None).expect("def class");
    interp.define("SubClass", Some("BaseClass"), None).expect("def class");
}

#[test]
fn rclass_for_undef_root_class() {
    let interp = Interp::interpreter();
    assert!(!interp.rclass("Foo", None));
}

#[test]
fn rclass_for_undef_nested_class() {
    let interp = Interp::interpreter();
    assert!(!interp.rclass("Foo", Some("Kernel")));
}

#[test]
fn rclass_for_root_class() {
    let interp = Interp::interpreter();
    assert!(interp.rclass("StandardError", None));
}

#[test]
fn rclass_for_nested_class() {
    let mut interp = Interp::interpreter();
    interp.modules.push("Foo".to_string());
    interp.classes.insert("Foo::Bar".to_string(), Some("Object".to_string()));
    assert!(interp.rclass("Bar", Some("Foo")));
}

#[test]
fn rclass_for_nested_class_under_class() {
    let mut interp = Interp::interpreter();
    interp.classes.insert("Foo".to_string(), Some("Object".to_string()));
    interp.classes.insert("Foo::Bar".to_string(), Some("Object".to_string()));
    assert!(interp.rclass("Bar", Some("Foo")));
}

#[test]
fn define_with_missing_super_class_is_not_defined() {
    let mut interp = Interp::interpreter();
    let err = interp.define("Child", Some("Missing"), None).unwrap_err();
    assert_eq!(err, DefineError::NotDefined("Missing".to_string()));
    assert!(!interp.classes.contains_key("Child"));
}

#[test]
fn define_with_missing_scope_is_not_defined() {
    let mut interp = Interp::interpreter();
    let err = interp.define("Inner", None, Some("Outer")).unwrap_err();
    assert_eq!(err, DefineError::NotDefined("Outer".to_string()));
}

#[test]
fn define_under_scope_and_reuse() {
    let mut interp = Interp::interpreter();
    interp.define("Inner", None, Some("Kernel")).unwrap();
    assert!(interp.classes.contains_key("Kernel::Inner"));
    interp.classes.insert("Kernel::Inner".to_string(), Some("StandardError".to_string()));
    interp.define("Inner", None, Some("Kernel")).unwrap();
    assert_eq!(interp.classes["Kernel::Inner"], Some("StandardError".to_string()));
}

#[test]
fn define_runs_methods_then_marks_data() {
    let mut def = ClassDefinition::new(None, None, 2, true);
    let mut steps = Vec::new();
    let mut event: DefineEvent<&str> = DefineEvent::Start;
    loop {
        match define(&mut def, event) {
            InitAction::Run(step) => {
                steps.push(step);
                event = match step {
                    DefineStep::ResolveClass => DefineEvent::Found(false),
                    DefineStep::DefineClass(SuperClass::Object) => DefineEvent::ClassDefined,
                    DefineStep::DefineMethod(_) => DefineEvent::MethodDefined(Ok(())),
                    DefineStep::MarkData => DefineEvent::Marked,
                    _ => panic!("unexpected step"),
                };
            }
            InitAction::Done(result) => {
                assert_eq!(result, Ok(()));
                break;
            }
        }
    }
    assert_eq!(
        steps,
        vec![
            DefineStep::ResolveClass,
            DefineStep::DefineClass(SuperClass::Object),
            DefineStep::DefineMethod(0),
            DefineStep::DefineMethod(1),
            DefineStep::MarkData
        ]
    );
}

#[test]
fn define_stops_at_failing_method() {
    let mut def = ClassDefinition::new(None, None, 3, true);
    let a: InitAction<DefineStep, DefineError<&str>> = define(&mut def, DefineEvent::Start);
    assert!(matches!(a, InitAction::Run(DefineStep::ResolveClass)));
    let b: InitAction<DefineStep, DefineError<&str>> = define(&mut def, DefineEvent::Found(true));
    assert!(matches!(b, InitAction::Run(DefineStep::DefineMethod(0))));
    let c = define(&mut def, DefineEvent::MethodDefined(Err("bad method")));
    assert!(matches!(c, InitAction::Done(Err(DefineError::Method("bad method")))));
}

#[test]
fn define_gives_named_super_class() {
    let mut def = ClassDefinition::new(Some("StandardError".to_string()), None, 0, false);
    let a: InitAction<DefineStep, DefineError<()>> = define(&mut def, DefineEvent::Start);
    assert!(matches!(a, InitAction::Run(DefineStep::ResolveSuperClass)));
    let b: InitAction<DefineStep, DefineError<()>> = define(&mut def, DefineEvent::Found(true));
    assert!(matches!(b, InitAction::Run(DefineStep::ResolveClass)));
    let c: InitAction<DefineStep, DefineError<()>> = define(&mut def, DefineEvent::Found(false));
    assert!(matches!(c, InitAction::Run(DefineStep::DefineClass(SuperClass::Resolved))));
}

#[test]
fn defining_twice_reuses_the_class() {
    let mut interp = Interp::interpreter();
    interp.define("Twice", Some("StandardError"), None).unwrap();
    interp.define("Twice", None, None).unwrap();
    assert_eq!(interp.classes["Twice"], Some("StandardError".to_string()));
}

#[test]
fn spec_setters_and_equality() {
    let mut spec = Spec::new("Foo".to_string(), false);
    assert_eq!(spec.name(), "Foo");
    assert!(!spec.is_mrb_tt_data);
    spec.mrb_value_is_rust_backed(true);
    assert!(spec.is_mrb_tt_data);
    let parent = Spec::new("StandardError".to_string(), true);
    spec.with_super_class(Some(&parent));
    assert_eq!(spec.super_class.as_ref().unwrap().name(), "StandardError");
    spec.with_super_class(None);
    assert!(spec.super_class.is_none());
    assert!(spec == Spec::new("Foo".to_string(), true));
    assert!(spec != parent);
}

#[test]
fn spec_texts() {
    let plain = Spec::new("Foo".to_string(), false);
    assert_eq!(plain.display_text("Kernel::Foo"), "artichoke class spec -- Kernel::Foo");
    assert_eq!(plain.debug_text("Foo"), "artichoke class spec -- Foo");
    let freed = Spec::new("Bar".to_string(), true);
    assert_eq!(freed.debug_text("Bar"), "artichoke class spec -- Bar -- with free func");
}
