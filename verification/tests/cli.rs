use gdsetup::get_basecommand;
use gdsetup::InitArgs;

#[test]
fn basecommand_matches_platform_shell() {
    let win = get_basecommand(true);
    assert_eq!(win.0, "cmd");
    assert_eq!(win.1, "/C");
    let unix = get_basecommand(false);
    assert_eq!(unix.0, "sh");
    assert_eq!(unix.1, "-c");
}

#[test]
fn shorthand_path_wins_over_flag() {
    let both = InitArgs {
        path: Some("short".to_string()),
        path2: Some("flag".to_string()),
        nobuild: false,
    };
    assert_eq!(both.chosen_path().as_deref(), Some("short"));
    let flag_only = InitArgs { path: None, path2: Some("flag".to_string()), nobuild: false };
    assert_eq!(flag_only.chosen_path().as_deref(), Some("flag"));
    let neither = InitArgs { path: None, path2: None, nobuild: true };
    assert_eq!(neither.chosen_path(), None);
}
