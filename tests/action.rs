use steam_deck_tools::action::{split_words, InstallAction, InvokeError, LaunchPlan};
use steam_deck_tools::catalog::ToolDescriptor;

fn tool(script: &str) -> ToolDescriptor {
    ToolDescriptor {
        title: "Rwfus".to_string(),
        description: "...".to_string(),
        repository_url: "https://github.com/ValShaped/rwfus".to_string(),
        needs_elevated_privileges: false,
        install_script: script.to_string(),
    }
}

fn strings(v: &[&str]) -> Vec<String> {
    v.iter().map(|s| s.to_string()).collect()
}

#[test]
fn words_split_on_blanks() {
    assert_eq!(split_words("  cd ~/x\t&&  ls -la\n"), strings(&["cd", "~/x", "&&", "ls", "-la"]));
    assert_eq!(split_words(""), Vec::<String>::new());
    assert_eq!(split_words(" \t\n"), Vec::<String>::new());
    assert_eq!(split_words("ls"), strings(&["ls"]));
}

#[test]
fn plain_command_is_run_command() {
    assert_eq!(
        InstallAction::from_script("sh install.sh --yes"),
        Some(InstallAction::RunCommand {
            program: "sh".to_string(),
            args: strings(&["install.sh", "--yes"]),
        })
    );
    assert_eq!(InstallAction::from_script("   "), None);
}

#[test]
fn cd_prefix_is_change_dir_then_run() {
    assert_eq!(
        InstallAction::from_script("cd /opt && ./setup a"),
        Some(InstallAction::ChangeDirThenRun {
            dir: "/opt".to_string(),
            program: "./setup".to_string(),
            args: strings(&["a"]),
        })
    );
    // Without a command after `&&` it is an ordinary command.
    assert_eq!(
        InstallAction::from_script("cd /opt &&"),
        Some(InstallAction::RunCommand { program: "cd".to_string(), args: strings(&["/opt", "&&"]) })
    );
}

#[test]
fn ls_script_launches_ls() {
    let plan = tool("ls").launch_plan(&None).unwrap();
    assert_eq!(plan, LaunchPlan { dir: None, program: "ls".to_string(), args: vec![] });
}

#[test]
fn home_relative_dir_is_expanded() {
    let t = tool("cd ~/.local/share/ && ls");
    let plan = t.launch_plan(&Some("/home/deck".to_string())).unwrap();
    assert_eq!(
        plan,
        LaunchPlan {
            dir: Some("/home/deck/.local/share/".to_string()),
            program: "ls".to_string(),
            args: vec![],
        }
    );
    let plan = tool("cd ~ && ls").launch_plan(&Some("/home/deck".to_string())).unwrap();
    assert_eq!(plan.dir, Some("/home/deck".to_string()));
    let plan = tool("cd ~other && ls").launch_plan(&Some("/home/deck".to_string())).unwrap();
    assert_eq!(plan.dir, Some("~other".to_string()));
}

#[test]
fn home_relative_dir_without_home_fails() {
    assert_eq!(tool("cd ~/.local/share/ && ls").launch_plan(&None), Err(InvokeError::NoHome));
    assert_eq!(
        tool("cd /tmp && ls").launch_plan(&None).unwrap().dir,
        Some("/tmp".to_string())
    );
}

#[test]
fn empty_script_fails() {
    assert_eq!(tool("").launch_plan(&None), Err(InvokeError::EmptyScript));
}
