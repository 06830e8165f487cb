use komo::domain::workspace::Workspace;

#[test]
fn allows_paths_inside_root_and_blocks_escapes() {
    let ws = Workspace::new(vec!["/home/user/project".to_string()]);

    assert!(ws.contains("/home/user/project/src/main.rs"));
    assert!(ws.contains("notes.txt")); // relative → anchored to root
    assert!(ws.contains("/home/user/project/a/../b.txt"));

    assert!(!ws.contains("/etc/passwd"));
    assert!(!ws.contains("/home/user/project/../secret")); // escape
    assert!(!ws.contains("../../etc/passwd"));
    assert!(!ws.contains("/home/user/project-evil/x")); // sibling prefix
}

#[test]
fn a_workspace_without_roots_holds_nothing() {
    let ws = Workspace::new(Vec::new());
    assert!(!ws.contains("/"));
    assert!(!ws.contains("a"));
    assert!(ws.roots().is_empty());
}

#[test]
fn dots_and_doubled_slashes_do_not_matter() {
    let ws = Workspace::new(vec!["/a/b".to_string(), "/c".to_string()]);
    assert!(ws.contains("/a/./b//x"));
    assert!(ws.contains("/c"));
    assert!(ws.contains("./x/../y"));
    assert!(!ws.contains("/a"));
}
