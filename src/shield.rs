//! The shield injection pipeline.
//!
//! The shield is an ordered set of script modules; the first defines the utilities the
//! others use. Each document gets the whole set twice over: once through the host's
//! hook that runs before any page script, as one combined script, and again after
//! every completed load, module by module, which also covers in-page navigations the
//! early hook does not see. Every module checks before it acts, so running the set
//! again leaves the document as one run left it.

use vstd::prelude::*;

verus! {

/// The combined script of `modules`: each module in order, each followed by a newline.
pub open spec fn combined(modules: Seq<Seq<char>>) -> Seq<char>
    decreases modules.len(),
{
    if modules.len() == 0 {
        Seq::empty()
    } else {
        combined(modules.drop_last()) + modules.last() + seq!['\n']
    }
}

/// The one script installed through the early hook.
pub fn combine_modules(modules: &Vec<String>) -> (r: String)
    ensures
        r@ == combined(modules@.map_values(|m: String| m@)),
{
    let ghost views = modules@.map_values(|m: String| m@);
    let mut out = String::new();
    let mut i: usize = 0;
    while i < modules.len()
        invariant
            i <= modules@.len(),
            views == modules@.map_values(|m: String| m@),
            out@ == combined(views.subrange(0, i as int)),
        decreases modules.len() - i,
    {
        out.append(modules[i].as_str());
        out.append("\n");
        proof {
            reveal_strlit("\n");
            let next = views.subrange(0, i + 1);
            assert(next.drop_last() == views.subrange(0, i as int));
            assert(next.last() == modules@[i as int]@);
        }
        i += 1;
    }
    assert(views.subrange(0, modules@.len() as int) == views);
    out
}

/// Where a document stands with respect to its shield.
#[derive(Clone, Copy, Debug, PartialEq, Eq, Structural)]
pub enum InjectionPhase {
    /// Created, nothing installed yet.
    Unloaded,
    /// The shield is installed through the early hook.
    EarlyInjected,
    /// A load completed and the shield was run again.
    Loaded,
}

/// What the host reports about a document.
#[derive(Clone, Copy, Debug, PartialEq, Eq, Structural)]
pub enum DocumentEvent {
    /// The document was created and has not started loading.
    Created,
    /// A load of the document completed.
    LoadCompleted,
}

/// What the host is to do with the shield for a document.
#[derive(Clone, Copy, Debug, PartialEq, Eq, Structural)]
pub enum InjectionAction {
    /// Register the combined script with the early hook.
    InstallEarly,
    /// Run every module, in order, in the loaded document.
    RunModules,
    /// Nothing.
    Nothing,
}

/// The shield state of one document: its phase and which modules have run in it.
pub struct DocumentShield {
    pub phase: InjectionPhase,
    pub applied: Vec<bool>,
}

/// The phase and action that follow `event` in `phase`.
pub open spec fn step_spec(phase: InjectionPhase, event: DocumentEvent) -> (InjectionPhase, InjectionAction) {
    match event {
        DocumentEvent::Created => match phase {
            InjectionPhase::Unloaded => (InjectionPhase::EarlyInjected, InjectionAction::InstallEarly),
            _ => (phase, InjectionAction::Nothing),
        },
        DocumentEvent::LoadCompleted => (InjectionPhase::Loaded, InjectionAction::RunModules),
    }
}

/// The modules that have run after `action`, starting from `applied`.
pub open spec fn applied_after(applied: Seq<bool>, action: InjectionAction) -> Seq<bool> {
    match action {
        InjectionAction::Nothing => applied,
        _ => Seq::new(applied.len(), |i: int| true),
    }
}

/// The phase and action that follow `event` in `phase`.
pub fn next_step(phase: InjectionPhase, event: DocumentEvent) -> (r: (InjectionPhase, InjectionAction))
    ensures
        r == step_spec(phase, event),
{
    match event {
        DocumentEvent::Created => match phase {
            InjectionPhase::Unloaded => (InjectionPhase::EarlyInjected, InjectionAction::InstallEarly),
            _ => (phase, InjectionAction::Nothing),
        },
        DocumentEvent::LoadCompleted => (InjectionPhase::Loaded, InjectionAction::RunModules),
    }
}

impl DocumentShield {
    /// A new document for a shield of `modules` modules: nothing has run.
    pub fn new(modules: usize) -> (r: Self)
        ensures
            r.phase == InjectionPhase::Unloaded,
            r.applied@ == Seq::new(modules as nat, |i: int| false),
    {
        let mut applied: Vec<bool> = Vec::new();
        let mut i: usize = 0;
        while i < modules
            invariant
                i <= modules,
                applied@ == Seq::new(i as nat, |j: int| false),
            decreases modules - i,
        {
            applied.push(false);
            i += 1;
            assert(applied@ =~= Seq::new(i as nat, |j: int| false));
        }
        DocumentShield { phase: InjectionPhase::Unloaded, applied }
    }

    /// Takes `event` and returns what the host is to do; records the modules as run
    /// where the action runs them.
    pub fn handle(&mut self, event: DocumentEvent) -> (r: InjectionAction)
        ensures
            (final(self).phase, r) == step_spec(old(self).phase, event),
            final(self).applied@ == applied_after(old(self).applied@, r),
    {
        let (phase, action) = next_step(self.phase, event);
        self.phase = phase;
        match action {
            InjectionAction::Nothing => {},
            _ => {
                let n = self.applied.len();
                let mut i: usize = 0;
                while i < n
                    invariant
                        n == self.applied@.len(),
                        n == old(self).applied@.len(),
                        self.phase == phase,
                        i <= n,
                        forall|j: int| 0 <= j < i ==> self.applied@[j],
                    decreases n - i,
                {
                    self.applied.set(i, true);
                    i += 1;
                }
                assert(self.applied@ =~= Seq::new(n as nat, |j: int| true));
            },
        }
        action
    }
}

/// Running the shield a second time on a document leaves it as one run left it.
pub proof fn shield_rerun_is_idempotent(applied: Seq<bool>, action: InjectionAction)
    ensures
        applied_after(applied_after(applied, action), action) == applied_after(applied, action),
{
    assert(applied_after(applied_after(applied, action), action) =~= applied_after(applied, action));
}

/// A second completed load changes nothing that the first one did not.
pub proof fn second_load_changes_nothing(phase: InjectionPhase, applied: Seq<bool>)
    ensures
        ({
            let (p1, a1) = step_spec(phase, DocumentEvent::LoadCompleted);
            let (p2, a2) = step_spec(p1, DocumentEvent::LoadCompleted);
            p2 == p1 && applied_after(applied_after(applied, a1), a2) == applied_after(applied, a1)
        }),
{
    let (p1, a1) = step_spec(phase, DocumentEvent::LoadCompleted);
    shield_rerun_is_idempotent(applied, a1);
}

} // verus!
