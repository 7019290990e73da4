use atom_shield::shield::{
    combine_modules, next_step, DocumentEvent, DocumentShield, InjectionAction, InjectionPhase,
};

#[test]
fn modules_are_combined_in_order() {
    let modules = vec!["core();".to_string(), "mock();".to_string(), "css();".to_string()];
    assert_eq!(combine_modules(&modules), "core();\nmock();\ncss();\n");
    assert_eq!(combine_modules(&Vec::new()), "");
}

#[test]
fn creation_installs_early_once() {
    let mut d = DocumentShield::new(3);
    assert_eq!(d.phase, InjectionPhase::Unloaded);
    assert_eq!(d.applied, vec![false, false, false]);
    assert_eq!(d.handle(DocumentEvent::Created), InjectionAction::InstallEarly);
    assert_eq!(d.phase, InjectionPhase::EarlyInjected);
    assert_eq!(d.applied, vec![true, true, true]);
    assert_eq!(d.handle(DocumentEvent::Created), InjectionAction::Nothing);
    assert_eq!(d.phase, InjectionPhase::EarlyInjected);
}

#[test]
fn every_load_runs_the_modules_again() {
    let mut d = DocumentShield::new(2);
    d.handle(DocumentEvent::Created);
    assert_eq!(d.handle(DocumentEvent::LoadCompleted), InjectionAction::RunModules);
    assert_eq!(d.phase, InjectionPhase::Loaded);
    assert_eq!(d.handle(DocumentEvent::LoadCompleted), InjectionAction::RunModules);
    assert_eq!(d.phase, InjectionPhase::Loaded);
}

#[test]
fn running_the_shield_twice_equals_running_it_once() {
    let mut once = DocumentShield::new(8);
    once.handle(DocumentEvent::LoadCompleted);
    let mut twice = DocumentShield::new(8);
    twice.handle(DocumentEvent::LoadCompleted);
    twice.handle(DocumentEvent::LoadCompleted);
    assert_eq!(once.phase, twice.phase);
    assert_eq!(once.applied, twice.applied);
}

#[test]
fn transitions() {
    assert_eq!(
        next_step(InjectionPhase::Loaded, DocumentEvent::Created),
        (InjectionPhase::Loaded, InjectionAction::Nothing)
    );
    assert_eq!(
        next_step(InjectionPhase::Unloaded, DocumentEvent::LoadCompleted),
        (InjectionPhase::Loaded, InjectionAction::RunModules)
    );
}
