use cmux_linux::split_engine::{FocusDirection, Orientation, SplitEngine, SplitNode, SplitNodeData};

#[test]
fn split_node_data_leaf_has_surface_uuid() {
    let id = uuid::Uuid::new_v4().as_u128();
    let data = SplitNodeData::Leaf {
        pane_id: 42,
        surface_uuid: id,
        shell: "/bin/bash".to_string(),
        cwd: "/home/user".to_string(),
    };
    if let SplitNodeData::Leaf { surface_uuid, pane_id, .. } = data {
        assert_eq!(surface_uuid, id);
        assert_eq!(pane_id, 42);
    } else {
        panic!("Expected SplitNodeData::Leaf");
    }
}

fn pane_ids(e: &SplitEngine) -> Vec<u64> {
    let mut out = Vec::new();
    e.root.collect_pane_ids(&mut out);
    out
}

fn engine_with_surface() -> SplitEngine {
    let mut e = SplitEngine::new(1000);
    e.set_initial_surface(1000, 11);
    e
}

#[test]
fn new_engine_has_one_pane() {
    let e = SplitEngine::new(5000);
    assert_eq!(e.active_pane_id, 5000);
    assert_eq!(e.next_pane_id, 5001);
    assert_eq!(pane_ids(&e), vec![5000]);
    assert_eq!(e.root.find_surface_for_pane(5000), Some(0));
    assert!(e.root.is_leaf_with_id(5000));
}

#[test]
fn split_without_surface_changes_nothing_but_counter() {
    let mut e = SplitEngine::new(1000);
    let r = e.split_right(&Vec::new());
    assert_eq!(r, None);
    assert_eq!(pane_ids(&e), vec![1000]);
    assert_eq!(e.next_pane_id, 1002);
    assert_eq!(e.active_pane_id, 1000);
}

#[test]
fn split_uses_registry_surface() {
    let mut e = SplitEngine::new(1000);
    let registry = vec![(99usize, 1000u64)];
    assert_eq!(e.find_surface(1000, &registry), Some(99));
    assert_eq!(e.split_down(&registry), Some(1001));
}

#[test]
fn split_inserts_new_pane_after_active_and_marks_it() {
    let mut e = engine_with_surface();
    assert_eq!(e.split_right(&Vec::new()), Some(1001));
    assert_eq!(e.active_pane_id, 1001);
    assert_eq!(pane_ids(&e), vec![1000, 1001]);
    assert_eq!(e.root.find_active_pane_id(), Some(1001));
    e.update_surface(1001, 12);
    e.focus_next_in_direction(FocusDirection::Left);
    assert_eq!(e.active_pane_id, 1000);
    assert_eq!(e.split_down(&Vec::new()), Some(1002));
    assert_eq!(pane_ids(&e), vec![1000, 1002, 1001]);
    match &e.root {
        SplitNode::Split { orientation, .. } => assert_eq!(*orientation, Orientation::Horizontal),
        _ => panic!("root must be a split"),
    }
}

#[test]
fn close_undoes_split() {
    let mut e = engine_with_surface();
    e.split_right(&Vec::new());
    e.update_surface(1001, 12);
    assert_eq!(e.close_active(), Some(1000));
    assert_eq!(pane_ids(&e), vec![1000]);
    assert_eq!(e.active_pane_id, 1000);
    assert!(e.root.is_leaf_with_id(1000));
    assert_eq!(e.root.find_surface_for_pane(1000), Some(11));
}

#[test]
fn closing_the_only_pane_is_refused() {
    let mut e = engine_with_surface();
    assert_eq!(e.close_active(), None);
    assert_eq!(pane_ids(&e), vec![1000]);
}

#[test]
fn closing_a_pane_without_surface_still_closes_it() {
    let mut e = engine_with_surface();
    e.split_right(&Vec::new());
    assert_eq!(e.close_active(), Some(1000));
    assert_eq!(pane_ids(&e), vec![1000]);
    assert_eq!(e.active_pane_id, 1000);
}

#[test]
fn focus_moves_in_tree_order_and_stops_at_ends() {
    let mut e = engine_with_surface();
    e.split_right(&Vec::new());
    e.update_surface(1001, 12);
    e.split_down(&Vec::new());
    assert_eq!(pane_ids(&e), vec![1000, 1001, 1002]);
    assert!(!e.focus_next_in_direction(FocusDirection::Right));
    assert!(!e.focus_next_in_direction(FocusDirection::Down));
    assert!(e.focus_next_in_direction(FocusDirection::Up));
    assert_eq!(e.active_pane_id, 1001);
    assert!(e.focus_next_in_direction(FocusDirection::Left));
    assert_eq!(e.active_pane_id, 1000);
    assert!(!e.focus_next_in_direction(FocusDirection::Left));
    assert!(e.focus_next_in_direction(FocusDirection::Right));
    assert_eq!(e.active_pane_id, 1001);
    assert_eq!(e.root.find_active_pane_id(), Some(1001));
}

#[test]
fn snapshot_names_orientations_and_keeps_panes() {
    let mut e = engine_with_surface();
    e.split_down(&Vec::new());
    match e.root.to_data() {
        SplitNodeData::Split { orientation, start, end } => {
            assert_eq!(orientation, "vertical");
            assert!(matches!(*start, SplitNodeData::Leaf { pane_id: 1000, .. }));
            assert!(matches!(*end, SplitNodeData::Leaf { pane_id: 1001, .. }));
        }
        _ => panic!("expected a split"),
    }
}

#[test]
fn collect_surfaces_in_order() {
    let mut e = engine_with_surface();
    e.split_right(&Vec::new());
    e.update_surface(1001, 12);
    let mut out = Vec::new();
    e.root.collect_surfaces(&mut out);
    assert_eq!(out, vec![11, 12]);
}

fn leaf_uuids(d: &SplitNodeData, out: &mut Vec<u128>) {
    match d {
        SplitNodeData::Leaf { surface_uuid, .. } => out.push(*surface_uuid),
        SplitNodeData::Split { start, end, .. } => {
            leaf_uuids(start, out);
            leaf_uuids(end, out);
        }
    }
}

#[test]
fn pane_uuids_are_version_4() {
    let mut e = engine_with_surface();
    e.split_right(&Vec::new());
    e.update_surface(1001, 12);
    e.split_down(&Vec::new());
    let mut uuids = Vec::new();
    leaf_uuids(&e.root.to_data(), &mut uuids);
    assert_eq!(uuids.len(), 3);
    for u in uuids {
        assert_eq!((u >> 76) & 0xf, 4);
        assert_eq!((u >> 62) & 0x3, 2);
    }
}
