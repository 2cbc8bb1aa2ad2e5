use wsg::config::WingConfig;
use wsg::coordinator::{BuildAction, BuildCoordinator, BuildEvent, BuildFailure, BuildPhase};

fn config_with_scripts(pre: &[&str], post: &[&str]) -> WingConfig {
    let mut c = WingConfig::default();
    c.pre_scripts = pre.iter().map(|s| s.to_string()).collect();
    c.post_scripts = post.iter().map(|s| s.to_string()).collect();
    c
}

fn script(a: BuildAction) -> String {
    match a {
        BuildAction::RunScript(s) => s,
        other => panic!("expected a script, got {:?}", other),
    }
}

#[test]
fn existing_output_without_force_is_refused() {
    let mut b = BuildCoordinator::new(&config_with_scripts(&["pre"], &[]), false);
    let a = b.step(BuildEvent::Begin { output_exists: true });
    assert!(matches!(a, BuildAction::Abort(BuildFailure::PreexistingOutput)));
    assert_eq!(b.phase(), BuildPhase::Failed);
    assert!(matches!(b.step(BuildEvent::ScriptExited { success: true }), BuildAction::Ignore));
    assert!(matches!(b.step(BuildEvent::Indexed { success: true }), BuildAction::Ignore));
    assert_eq!(b.phase(), BuildPhase::Failed);
}

#[test]
fn first_build_runs_every_stage_but_reconciliation() {
    let mut b = BuildCoordinator::new(&config_with_scripts(&["one", "two"], &["three"]), false);
    assert_eq!(script(b.step(BuildEvent::Begin { output_exists: false })), "one");
    assert_eq!(b.phase(), BuildPhase::PreScripts);
    assert_eq!(script(b.step(BuildEvent::ScriptExited { success: true })), "two");
    assert!(matches!(b.step(BuildEvent::ScriptExited { success: true }), BuildAction::IndexContent));
    assert_eq!(b.phase(), BuildPhase::Indexing);
    assert!(matches!(b.step(BuildEvent::Indexed { success: true }), BuildAction::RenderAll));
    assert_eq!(b.phase(), BuildPhase::Rendering);
    let a = b.step(BuildEvent::Rendered { templates_loaded: true, failures: 1 });
    assert_eq!(script(a), "three");
    assert_eq!(b.phase(), BuildPhase::PostScripts);
    assert!(matches!(b.step(BuildEvent::ScriptExited { success: true }), BuildAction::Report { failures: 1 }));
    assert_eq!(b.phase(), BuildPhase::Done);
    assert_eq!(b.failures(), 1);
}

#[test]
fn forced_rebuild_reconciles_after_render() {
    let mut b = BuildCoordinator::new(&WingConfig::default(), true);
    assert!(matches!(b.step(BuildEvent::Begin { output_exists: true }), BuildAction::IndexContent));
    assert!(b.previous_output());
    assert!(matches!(b.step(BuildEvent::Reconciled), BuildAction::Ignore));
    assert!(matches!(b.step(BuildEvent::Indexed { success: true }), BuildAction::RenderAll));
    assert!(matches!(b.step(BuildEvent::Rendered { templates_loaded: true, failures: 0 }), BuildAction::Reconcile));
    assert_eq!(b.phase(), BuildPhase::Reconciling);
    assert!(matches!(b.step(BuildEvent::Reconciled), BuildAction::Report { failures: 0 }));
    assert_eq!(b.phase(), BuildPhase::Done);
}

#[test]
fn failing_pre_script_stops_the_build() {
    let mut b = BuildCoordinator::new(&config_with_scripts(&["bad", "never"], &[]), false);
    assert_eq!(script(b.step(BuildEvent::Begin { output_exists: false })), "bad");
    assert!(matches!(b.step(BuildEvent::ScriptExited { success: false }), BuildAction::Abort(BuildFailure::Script)));
    assert_eq!(b.phase(), BuildPhase::Failed);
}

#[test]
fn failing_post_script_stops_the_build() {
    let mut b = BuildCoordinator::new(&config_with_scripts(&[], &["bad"]), false);
    b.step(BuildEvent::Begin { output_exists: false });
    b.step(BuildEvent::Indexed { success: true });
    assert_eq!(script(b.step(BuildEvent::Rendered { templates_loaded: true, failures: 0 })), "bad");
    assert!(matches!(b.step(BuildEvent::ScriptExited { success: false }), BuildAction::Abort(BuildFailure::Script)));
}

#[test]
fn missing_content_root_is_fatal() {
    let mut b = BuildCoordinator::new(&WingConfig::default(), false);
    b.step(BuildEvent::Begin { output_exists: false });
    assert!(matches!(b.step(BuildEvent::Indexed { success: false }), BuildAction::Abort(BuildFailure::ContentRoot)));
}

#[test]
fn unloadable_templates_are_fatal() {
    let mut b = BuildCoordinator::new(&WingConfig::default(), false);
    b.step(BuildEvent::Begin { output_exists: false });
    b.step(BuildEvent::Indexed { success: true });
    assert!(matches!(
        b.step(BuildEvent::Rendered { templates_loaded: false, failures: 0 }),
        BuildAction::Abort(BuildFailure::Templates)
    ));
}
