use tree_demo::{Message, TreeDemo};

#[test]
fn test_toggle_at_reports_whether_path_exists() {
    let mut demo = TreeDemo::new();

    assert!(demo.toggle_at(&[0]));
    assert!(!demo.toggle_at(&[99]));
    assert!(!demo.toggle_at(&[]));
}

#[test]
fn test_toggle_invalid_path_is_noop() {
    let mut demo = TreeDemo::new();

    demo.update(Message::Toggle(vec![99]));
    demo.update(Message::Toggle(vec![0, 7]));
    demo.update(Message::Toggle(vec![]));

    assert!(demo.roots[0].open);
    assert!(demo.roots[1].open);
    assert!(!demo.roots[0].children[0].open);
}

#[test]
fn test_set_label_at_reports_whether_path_exists() {
    let mut demo = TreeDemo::new();

    assert!(demo.set_label_at(&[1, 1], "Renamed".to_string()));
    assert_eq!(demo.get_node(&[1, 1]).unwrap().label, "Renamed");

    assert!(!demo.set_label_at(&[1, 9], "Lost".to_string()));
    assert_eq!(demo.get_node(&[1, 1]).unwrap().label, "Renamed");
}

#[test]
fn test_add_child_at_invalid_path_is_noop() {
    let mut demo = TreeDemo::new();

    assert!(!demo.add_child_at(&[4]));
    assert!(!demo.add_child_at(&[]));

    assert_eq!(demo.roots[0].children.len(), 2);
    assert_eq!(demo.roots[1].children.len(), 2);
}

#[test]
fn test_remove_child_at_reports_whether_a_child_is_named() {
    let mut demo = TreeDemo::new();

    // Too short: a root is not a child of anything.
    assert!(!demo.remove_child_at(&[0]));
    // Parent exists, index does not.
    assert!(!demo.remove_child_at(&[0, 5]));
    // A real child.
    assert!(demo.remove_child_at(&[0, 1]));
    assert_eq!(demo.roots[0].children.len(), 1);
}

#[test]
fn test_remove_child_keeps_order_of_remaining_children() {
    let mut demo = TreeDemo::new();

    // Removing the first branch of the first root shifts the second one down.
    demo.update(Message::RemoveChild(vec![0, 0]));

    assert_eq!(demo.roots[0].children.len(), 1);
    assert_eq!(demo.get_node(&[0, 0]).unwrap().label, "Branch 1.2");
}

#[test]
fn test_start_edit_invalid_path_is_noop() {
    let mut demo = TreeDemo::new();

    demo.update(Message::StartEdit(vec![5, 5]));

    assert_eq!(demo.editing_path, None);
    assert_eq!(demo.edit_value, "");
}

#[test]
fn test_edit_label_overwrites_previous_value() {
    let mut demo = TreeDemo::new();

    demo.update(Message::EditLabel("First".to_string()));
    demo.update(Message::EditLabel("Second".to_string()));

    assert_eq!(demo.edit_value, "Second");
}

#[test]
fn test_finish_edit_with_stale_path_still_clears_state() {
    let mut demo = TreeDemo::new();

    // An edit target that no longer exists in the forest.
    demo.editing_path = Some(vec![9, 9]);
    demo.edit_value = "Orphan".to_string();

    demo.update(Message::FinishEdit);

    assert_eq!(demo.editing_path, None);
    assert_eq!(demo.edit_value, "");
    assert_eq!(demo.get_node(&[0]).unwrap().label, "Root 1");
    assert_eq!(demo.get_node(&[1]).unwrap().label, "Root 2");
}

#[test]
fn test_toggle_leaves_other_subtrees_alone() {
    let mut demo = TreeDemo::new();

    demo.update(Message::Toggle(vec![0, 0]));

    assert!(demo.get_node(&[0, 0]).unwrap().open);
    assert!(!demo.get_node(&[0, 1]).unwrap().open);
    assert!(!demo.get_node(&[1, 0]).unwrap().open);
    assert_eq!(demo.get_node(&[0, 0, 0]).unwrap().label, "Leaf 1.1.1");
}
