use altere_workbench::hierarchy::{visible_row_indices, HierarchyProjectionRow, IdSet};
use altere_workbench::invocation::{
    annotation_acknowledgement_invocation, annotation_departure_invocation, current_invocation,
    hierarchy_invocation, priority_invocation, proposal_invocation,
    proposal_resolution_invocation, queue_invocation, runtime_invocation, set_parent_invocation,
};
use altere_workbench::priority_queue::stepped_priority;
use altere_workbench::reparent::optimistic_reparent;
use altere_workbench::selection::move_selection;

fn rows() -> Vec<HierarchyProjectionRow> {
    [
        ("a", None, 0),
        ("b", Some("a"), 1),
        ("c", Some("b"), 2),
        ("d", Some("b"), 2),
        ("e", Some("a"), 1),
        ("f", None, 0),
        ("g", Some("f"), 1),
    ]
    .into_iter()
    .map(|(id, parent, depth)| HierarchyProjectionRow {
        id: id.to_string(),
        path: format!("{id}.md"),
        name: id.to_string(),
        parent_id: parent.map(str::to_string),
        depth,
        has_children: ["a", "b", "f"].contains(&id),
    })
    .collect()
}

fn is_forest(rows: &[HierarchyProjectionRow]) -> bool {
    rows.iter().enumerate().all(|(index, row)| {
        let above = rows[..index].iter().rev().find(|above| above.depth < row.depth);
        let attached = match (&row.parent_id, above) {
            (None, None) => row.depth == 0,
            (Some(parent), Some(above)) => {
                *parent == above.id && above.depth + 1 == row.depth
            }
            _ => false,
        };
        let named = rows.iter().any(|other| other.parent_id.as_ref() == Some(&row.id));
        let single = rows.iter().filter(|other| other.id == row.id).count() == 1;
        attached && single && named == row.has_children
    })
}

#[test]
fn every_possible_move_leaves_a_forest() {
    let rows = rows();
    assert!(is_forest(&rows));
    let mut made = 0;
    for source in 0..rows.len() {
        for parent in 0..=rows.len() {
            let parent_id = rows.get(parent).map(|row| row.id.as_str());
            if let Some(moved) = optimistic_reparent(&rows, &rows[source].id, parent_id) {
                made += 1;
                assert!(is_forest(&moved));
                assert_eq!(moved.len(), rows.len());
                let again = optimistic_reparent(&moved, &rows[source].id, parent_id).unwrap();
                assert!(again.iter().zip(&moved).all(|(again, moved)| {
                    (&again.id, &again.parent_id, again.depth, again.has_children)
                        == (&moved.id, &moved.parent_id, moved.depth, moved.has_children)
                }));
                let at = moved.iter().position(|row| row.id == rows[source].id).unwrap();
                assert_eq!(moved[at].parent_id.as_deref(), parent_id);
                let below = |rows: &[HierarchyProjectionRow], at: usize| {
                    rows[at + 1..]
                        .iter()
                        .take_while(|row| row.depth > rows[at].depth)
                        .map(|row| (row.id.clone(), row.depth - rows[at].depth))
                        .collect::<Vec<_>>()
                };
                assert_eq!(below(&moved, at), below(&rows, source));
            } else {
                let parent = parent_id.expect("a move to the roots can always be made");
                let place = rows.iter().position(|row| row.id == parent).unwrap();
                assert!(place >= source);
            }
        }
    }
    assert_eq!(made, 42);
}

#[test]
fn a_move_mends_the_marks_of_children() {
    let mut rows = rows();
    for row in &mut rows {
        row.has_children = !row.has_children;
    }
    assert!(!is_forest(&rows));
    assert!(is_forest(&optimistic_reparent(&rows, "e", Some("c")).unwrap()));
}

#[test]
fn what_is_collapsed_hides_its_descendants_and_nothing_else() {
    let rows = rows();
    assert_eq!(visible_row_indices(&rows, &IdSet::new()), [0, 1, 2, 3, 4, 5, 6]);
    let mut collapsed = IdSet::new();
    assert!(collapsed.insert("b".to_string()));
    assert!(!collapsed.insert("b".to_string()));
    assert_eq!(visible_row_indices(&rows, &collapsed), [0, 1, 4, 5, 6]);
    collapsed.insert("a".to_string());
    collapsed.insert("missing".to_string());
    collapsed.insert("f".to_string());
    assert_eq!(visible_row_indices(&rows, &collapsed), [0, 5]);
    assert!(collapsed.remove("a"));
    assert!(!collapsed.remove("a"));
    assert_eq!(visible_row_indices(&rows, &collapsed), [0, 1, 4, 5]);
}

#[test]
fn steps_are_undone_by_opposite_steps() {
    for index in 0..10usize {
        for delta in -9isize..=9 {
            let moved = move_selection(index, 10, delta);
            assert!(moved < 10);
            if (0..10).contains(&(index as isize + delta)) {
                assert_eq!(move_selection(moved, 10, -delta), index);
            }
        }
    }
    for priority in 1..=100i32 {
        for delta in [-5, 5] {
            let stepped = stepped_priority(priority, delta);
            assert!((1..=100).contains(&stepped));
            if (1..=100).contains(&(priority + delta)) {
                assert_eq!(i32::from(stepped_priority(stepped.into(), -delta)), priority);
            }
        }
    }
}

#[test]
fn commands_name_the_runtime_and_its_collection() {
    let queries: [Vec<String>; 4] = [
        current_invocation("r", "c").to_vec(),
        queue_invocation("r", "c").to_vec(),
        hierarchy_invocation("r", "c").to_vec(),
        proposal_invocation("r", "c", "current").to_vec(),
    ];
    let changes: [Vec<String>; 6] = [
        runtime_invocation("r", "c", "queue").to_vec(),
        annotation_departure_invocation("r", "c", "proposal").to_vec(),
        annotation_acknowledgement_invocation("r", "c", "a", "t").to_vec(),
        set_parent_invocation("r", "c", "tree", None),
        priority_invocation("r", "c", "s", 5, "f").to_vec(),
        proposal_resolution_invocation("r", "c", "p", "current").to_vec(),
    ];
    for command in queries.iter().chain(&changes) {
        assert_eq!((command[0].as_str(), command[3].as_str()), ("r", "--collection"));
        assert_eq!(command[4], "c");
    }
    for query in &queries {
        for change in &changes {
            assert_ne!(query[1..3], change[1..3]);
        }
    }
    assert_ne!(
        set_parent_invocation("r", "c", "s", None),
        set_parent_invocation("r", "c", "s", Some(""))
    );
    assert_ne!(
        priority_invocation("r", "c", "s", 1, "0"),
        priority_invocation("r", "c", "s", 10, "0")
    );
}
