use pushscribe::focus::{get_focused_window_app_id, FocusNode};

fn leaf(focused: bool, app_id: Option<&str>) -> FocusNode {
    FocusNode { focused, app_id: app_id.map(|s| s.to_string()), nodes: Vec::new() }
}

fn branch(nodes: Vec<FocusNode>) -> FocusNode {
    FocusNode { focused: false, app_id: None, nodes }
}

#[test]
fn focused_root_returns_its_id() {
    let root = leaf(true, Some("kitty"));
    assert_eq!(get_focused_window_app_id(root), Some("kitty".to_string()));
}

#[test]
fn no_focused_node_gives_none() {
    let root = branch(vec![leaf(false, Some("a")), branch(vec![leaf(false, Some("b"))])]);
    assert_eq!(get_focused_window_app_id(root), None);
}

#[test]
fn deep_focused_node_is_found() {
    let root = branch(vec![
        leaf(false, Some("a")),
        branch(vec![branch(vec![leaf(false, Some("b")), leaf(true, Some("firefox"))])]),
    ]);
    assert_eq!(get_focused_window_app_id(root), Some("firefox".to_string()));
}

#[test]
fn first_focused_in_document_order_wins() {
    let root = branch(vec![
        branch(vec![leaf(true, Some("first"))]),
        leaf(true, Some("second")),
    ]);
    assert_eq!(get_focused_window_app_id(root), Some("first".to_string()));
}

#[test]
fn first_focused_without_id_gives_none() {
    let root = branch(vec![leaf(true, None), leaf(true, Some("later"))]);
    assert_eq!(get_focused_window_app_id(root), None);
}
