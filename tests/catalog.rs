use steam_deck_tools::catalog::{load_catalog_from, parse_catalog, LoadError, ToolDescriptor};

const RWFUS: &str = "- title: Rwfus
  description: \"...\"
  repo: https://github.com/ValShaped/rwfus
  needs_root: false
  install_script: ls
";

const THREE: &str = "- title: Rwfus
  description: Covers /usr
  repo: https://github.com/ValShaped/rwfus
  needs_root: false
  install_script: cd ~/.local/share/ && ls
- title: CryoUtilities
  description: |
    Scripts and utilities.
    Current Functionality:
     - Swap File Resizer
  repo: https://github.com/CryoByte33/steam-deck-utilities
  needs_root: True
  install_script: ./install.sh
- title: Emudeck
  description: Emulators
  repo: https://github.com/dragoonDorise/EmuDeck
  needs_root: FALSE
  install_script: sh emudeck.sh
  homepage: https://www.emudeck.com
";

#[test]
fn single_entry_catalog_loads() {
    let tools = parse_catalog(RWFUS.as_bytes()).unwrap();
    assert_eq!(tools.len(), 1);
    assert_eq!(tools[0].title, "Rwfus");
    assert_eq!(
        tools[0],
        ToolDescriptor {
            title: "Rwfus".to_string(),
            description: "...".to_string(),
            repository_url: "https://github.com/ValShaped/rwfus".to_string(),
            needs_elevated_privileges: false,
            install_script: "ls".to_string(),
        }
    );
}

#[test]
fn empty_catalog_loads_empty() {
    assert_eq!(parse_catalog(b"[]"), Ok(vec![]));
}

#[test]
fn entries_keep_file_order_and_fields() {
    let tools = parse_catalog(THREE.as_bytes()).unwrap();
    let titles: Vec<&str> = tools.iter().map(|t| t.title.as_str()).collect();
    assert_eq!(titles, vec!["Rwfus", "CryoUtilities", "Emudeck"]);
    assert_eq!(
        tools[1].description,
        "Scripts and utilities.\nCurrent Functionality:\n - Swap File Resizer\n"
    );
    assert!(tools[1].needs_elevated_privileges);
    assert!(!tools[2].needs_elevated_privileges);
    assert_eq!(tools[0].install_script, "cd ~/.local/share/ && ls");
    assert_eq!(tools[2].repository_url, "https://github.com/dragoonDorise/EmuDeck");
}

#[test]
fn missing_title_is_a_parse_error() {
    let text = "- title: A
  description: d
  repo: r
  needs_root: false
  install_script: ls
- description: d
  repo: r
  needs_root: false
  install_script: ls
";
    assert_eq!(
        parse_catalog(text.as_bytes()),
        Err(LoadError::Parse("missing field `title`".to_string()))
    );
}

#[test]
fn missing_install_script_is_a_parse_error() {
    let text = "- title: A\n  description: d\n  repo: r\n  needs_root: true\n";
    assert_eq!(
        parse_catalog(text.as_bytes()),
        Err(LoadError::Parse("missing field `install_script`".to_string()))
    );
}

#[test]
fn non_boolean_needs_root_is_a_parse_error() {
    let text = "- title: A\n  description: d\n  repo: r\n  needs_root: maybe\n  install_script: ls\n";
    assert_eq!(
        parse_catalog(text.as_bytes()),
        Err(LoadError::Parse(
            "invalid value for field `needs_root`, expected a boolean".to_string()
        ))
    );
}

#[test]
fn malformed_yaml_is_a_parse_error() {
    let r = parse_catalog(b"- title: [unclosed\n");
    assert!(matches!(r, Err(LoadError::Parse(ref m)) if !m.is_empty()));
    let r = parse_catalog(b"title: not a list\n");
    assert!(matches!(r, Err(LoadError::Parse(_))));
}

#[test]
fn unreadable_file_is_an_io_error() {
    let r = load_catalog_from(Err("No such file or directory (os error 2)".to_string()));
    assert_eq!(
        r,
        Err(LoadError::Io("No such file or directory (os error 2)".to_string()))
    );
}

#[test]
fn read_contents_are_parsed() {
    let r = load_catalog_from(Ok(RWFUS.as_bytes().to_vec())).unwrap();
    assert_eq!(r[0].title, "Rwfus");
    let bad = load_catalog_from(Ok(b"- repo: r\n".to_vec()));
    assert!(matches!(bad, Err(LoadError::Parse(_))));
}

#[test]
fn loading_twice_gives_equal_catalogs() {
    let first = parse_catalog(THREE.as_bytes());
    let second = parse_catalog(THREE.as_bytes());
    assert!(first.is_ok());
    assert_eq!(first, second);
}
