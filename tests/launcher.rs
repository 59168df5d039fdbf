use steam_deck_tools::catalog::ToolDescriptor;
use steam_deck_tools::launcher::{App, InstallStatus};

fn tools(n: usize) -> Vec<ToolDescriptor> {
    (0..n)
        .map(|i| ToolDescriptor {
            title: format!("tool{}", i),
            description: String::new(),
            repository_url: String::new(),
            needs_elevated_privileges: false,
            install_script: "ls".to_string(),
        })
        .collect()
}

#[test]
fn new_app_has_nothing_invoked() {
    let app = App::new(tools(3));
    assert!(app.enable_install);
    assert_eq!(app.tools.len(), 3);
    for i in 0..3 {
        assert_eq!(app.status(i), InstallStatus::NotInvoked);
    }
    assert_eq!(app.install_tools(false), vec![0, 1, 2]);
    assert_eq!(app.install_tools(true), vec![0, 1, 2]);
}

#[test]
fn started_install_is_in_progress() {
    let mut app = App::new(tools(3));
    app.record_spawn(1, true);
    assert_eq!(app.status(1), InstallStatus::InProgress);
    assert_eq!(app.install_tools(false), vec![0, 2]);
    assert_eq!(app.install_tools(true), vec![0, 1, 2]);
    app.record_exit(1, true);
    assert_eq!(app.status(1), InstallStatus::Completed);
}

#[test]
fn failed_start_is_contained() {
    let mut app = App::new(tools(2));
    app.record_spawn(0, false);
    assert_eq!(app.status(0), InstallStatus::Failed);
    assert_eq!(app.status(1), InstallStatus::NotInvoked);
    app.record_spawn(1, true);
    app.record_exit(1, false);
    assert_eq!(app.status(1), InstallStatus::Failed);
}

#[test]
fn exit_of_idle_tool_changes_nothing() {
    let mut app = App::new(tools(1));
    app.record_exit(0, true);
    assert_eq!(app.status(0), InstallStatus::NotInvoked);
}

#[test]
fn disabled_installs_pick_nothing() {
    let mut app = App::new(tools(2));
    app.enable_install = false;
    assert_eq!(app.install_tools(true), Vec::<usize>::new());
    let empty = App::new(vec![]);
    assert_eq!(empty.install_tools(true), Vec::<usize>::new());
}
