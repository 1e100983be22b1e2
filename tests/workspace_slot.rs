use bootstrap::workspace::{cleanup_plan, slot_for, Cleanup, WorkspaceRegistry};

#[test]
fn unset_slot_cleanup_is_a_no_op_exit() {
    let reg = WorkspaceRegistry::new();
    assert_eq!(reg.get(), None);
    assert_eq!(reg.cleanup(), Cleanup { remove: None, exit_code: 0 });
}

#[test]
fn set_slot_cleanup_removes_the_workspace() {
    let reg = WorkspaceRegistry::new();
    reg.set("/tmp/secrets.abc123".to_string());
    assert_eq!(reg.get(), Some("/tmp/secrets.abc123".to_string()));
    assert_eq!(
        reg.cleanup(),
        Cleanup { remove: Some("/tmp/secrets.abc123".to_string()), exit_code: 0 }
    );
}

#[test]
fn later_set_replaces_and_clear_unsets() {
    let reg = WorkspaceRegistry::new();
    reg.set("/tmp/a".to_string());
    reg.set("/tmp/b".to_string());
    assert_eq!(reg.get(), Some("/tmp/b".to_string()));
    reg.clear();
    assert_eq!(reg.cleanup(), Cleanup { remove: None, exit_code: 0 });
}

#[test]
fn empty_path_names_no_workspace() {
    let reg = WorkspaceRegistry::new();
    reg.set("/tmp/a".to_string());
    reg.set(String::new());
    assert_eq!(reg.get(), None);
    assert_eq!(slot_for(String::new()), None);
    assert_eq!(slot_for("x".to_string()), Some("x".to_string()));
}

#[test]
fn cleanup_plan_follows_the_slot() {
    assert_eq!(cleanup_plan(None), Cleanup { remove: None, exit_code: 0 });
    assert_eq!(
        cleanup_plan(Some("/w".to_string())),
        Cleanup { remove: Some("/w".to_string()), exit_code: 0 }
    );
}
