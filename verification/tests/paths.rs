use workspace_bridge::paths::{confine_components, normalize_path_text, resolve_path, validate_path, workspace_prefix_of, PathPart};

fn ok(r: Result<String, String>) -> String {
    match r {
        Ok(s) => s,
        Err(e) => panic!("refused: {}", e),
    }
}

fn err(r: Result<String, String>) -> String {
    match r {
        Ok(s) => panic!("accepted: {}", s),
        Err(e) => e,
    }
}

#[test]
fn relative_path_resolves_under_workspace() {
    assert_eq!(ok(validate_path("/home/user/ws", "src/main.rs")), "/home/user/ws/src/main.rs");
}

#[test]
fn leading_slashes_are_taken_as_relative() {
    assert_eq!(ok(validate_path("/home/user/ws", "/src/main.rs")), "/home/user/ws/src/main.rs");
    assert_eq!(ok(validate_path("/home/user/ws", "//\\src")), "/home/user/ws/src");
}

#[test]
fn parent_components_are_resolved() {
    assert_eq!(ok(validate_path("/ws", "a/../b/./c")), "/ws/b/c");
}

#[test]
fn empty_path_is_the_workspace_itself() {
    assert_eq!(ok(validate_path("/ws", "")), "/ws");
    assert_eq!(ok(validate_path("/ws/", ".")), "/ws");
}

#[test]
fn escaping_the_workspace_is_refused() {
    assert_eq!(
        err(validate_path("/home/user/ws", "../etc/passwd")),
        "Access denied: Path '/home/user/etc/passwd' is outside workspace prefix '/home/user/ws/'"
    );
}

#[test]
fn sibling_folder_with_common_prefix_is_refused() {
    assert_eq!(
        err(validate_path("/ws", "../wsx/secret")),
        "Access denied: Path '/wsx/secret' is outside workspace prefix '/ws/'"
    );
}

#[test]
fn too_many_parents_stop_at_the_root() {
    assert_eq!(
        err(validate_path("/ws", "../../../..")),
        "Access denied: Path '/' is outside workspace prefix '/ws/'"
    );
}

#[test]
fn comparison_ignores_case_and_message_is_lower_case() {
    assert_eq!(ok(validate_path("/Data/WS", "Notes.TXT")), "/Data/WS/Notes.TXT");
    assert_eq!(
        err(validate_path("/Data/WS", "../Other")),
        "Access denied: Path '/data/other' is outside workspace prefix '/data/ws/'"
    );
}

#[test]
fn drive_letter_path_is_taken_as_it_is() {
    let e = err(validate_path("/ws", "C:/x"));
    assert!(e.starts_with("Access denied: Path 'c:"), "{}", e);
    assert!(e.ends_with("' is outside workspace prefix '/ws/'"), "{}", e);
}

#[test]
fn unc_path_is_taken_as_it_is() {
    let e = err(validate_path("/ws", "\\\\server\\share"));
    assert!(e.starts_with("Access denied: Path '//server/share"), "{}", e);
}

#[test]
fn workspace_prefix_is_normalised() {
    assert_eq!(workspace_prefix_of("C:\\Users\\Me"), "c:/users/me/");
    assert_eq!(workspace_prefix_of("/ws/"), "/ws/");
    assert_eq!(normalize_path_text("A\\B/C"), "a/b/c");
}

#[test]
fn resolution_drops_dot_and_dot_dot() {
    let parts = vec![
        PathPart::Root,
        PathPart::Normal("a".to_string()),
        PathPart::Current,
        PathPart::Normal("b".to_string()),
        PathPart::Parent,
        PathPart::Parent,
        PathPart::Parent,
        PathPart::Normal("c".to_string()),
    ];
    let r = resolve_path(&parts);
    assert_eq!(r.len(), 2);
    assert!(matches!(r[0], PathPart::Root));
    assert!(matches!(&r[1], PathPart::Normal(n) if n == "c"));
}

#[test]
fn resolution_keeps_a_prefix_under_a_root() {
    let parts = vec![
        PathPart::Prefix("C:".to_string()),
        PathPart::Normal("x".to_string()),
        PathPart::Root,
        PathPart::Normal("y".to_string()),
    ];
    let r = resolve_path(&parts);
    assert_eq!(r.len(), 3);
    assert!(matches!(&r[0], PathPart::Prefix(p) if p == "C:"));
    assert!(matches!(r[1], PathPart::Root));
    assert_eq!(ok(confine_components("c:\\", &parts)), format!("C:{}y", std::path::MAIN_SEPARATOR));
}

#[test]
fn resolution_is_idempotent_on_an_example() {
    let parts = vec![
        PathPart::Normal("a".to_string()),
        PathPart::Parent,
        PathPart::Parent,
        PathPart::Normal("b".to_string()),
    ];
    let once = resolve_path(&parts);
    let twice = resolve_path(&once);
    assert_eq!(format!("{:?}", once), format!("{:?}", twice));
    assert!(matches!(&once[0], PathPart::Normal(n) if n == "b"));
}

#[test]
fn names_are_joined_by_the_platform_separator() {
    let parts = vec![
        PathPart::Prefix("\\\\?\\C:".to_string()),
        PathPart::Root,
        PathPart::Normal("ws".to_string()),
        PathPart::Normal("a/b".to_string()),
    ];
    assert_eq!(
        ok(confine_components("\\\\?\\C:\\ws", &parts)),
        format!("\\\\?\\C:{0}ws{0}a/b", std::path::MAIN_SEPARATOR)
    );
}

#[test]
fn platform_separator_is_the_main_separator() {
    assert_eq!(workspace_bridge::paths::main_separator(), std::path::MAIN_SEPARATOR);
}
