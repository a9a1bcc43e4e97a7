//! Filter and sort projections: concrete scenarios, idempotence, stability,
//! and comment preservation.

use shop_inventory::comment::Comment;
use shop_inventory::magazine::{
    get_filtered_by_tool_category, get_sorted_by_degree, get_sorted_by_slot,
    get_sorted_by_tool_diameter, MagazineSlot,
};
use shop_inventory::resources::{Color, ToolState};
use shop_inventory::tool::{Drill, Mill, Tool, ToolCategory, TrigonInsert};

fn drill(name: &str, diameter: u64) -> Tool {
    Tool::Drill(Drill {
        name: name.to_owned(),
        diameter,
        color: Color::red(),
    })
}

fn mill(name: &str, diameter: u64) -> Tool {
    Tool::Mill(Mill {
        name: name.to_owned(),
        diameter,
        color: Color::blue(),
    })
}

fn insert(name: &str, degree: u64) -> Tool {
    Tool::TrigonInsert(TrigonInsert {
        name: name.to_owned(),
        degree,
        color: Color::green(),
    })
}

fn slot(index: usize, tool: Option<Tool>) -> MagazineSlot {
    MagazineSlot {
        index,
        tool,
        holder: None,
        adapter: None,
        comment: Comment::default(),
    }
}

#[test]
fn diameter_sort_scenario() {
    // Three slots: empty, a 5 mm drill, a 10 mm mill. The diameter projection
    // keeps the two rotating tools ascending and drops the empty slot.
    let contents = vec![
        slot(0, None),
        slot(1, Some(drill("d", 5))),
        slot(2, Some(mill("m", 10))),
    ];
    let r = get_sorted_by_tool_diameter(&contents);
    assert_eq!(r.len(), 2);
    assert_eq!(r[0].index, 1);
    assert!(matches!(&r[0].tool, Some(Tool::Drill(d)) if d.diameter == 5));
    assert_eq!(r[1].index, 2);
    assert!(matches!(&r[1].tool, Some(Tool::Mill(m)) if m.diameter == 10));
}

#[test]
fn diameter_sort_reorders_descending_input() {
    let contents = vec![
        slot(0, Some(mill("m", 30))),
        slot(1, Some(drill("d", 5))),
        slot(2, Some(drill("e", 12))),
    ];
    let r = get_sorted_by_tool_diameter(&contents);
    let diameters: Vec<u64> = r
        .iter()
        .map(|s| match &s.tool {
            Some(t) => t.get_diameter(),
            None => 0,
        })
        .collect();
    assert_eq!(diameters, vec![5, 12, 30]);
    assert_eq!(r[0].index, 1);
    assert_eq!(r[1].index, 2);
    assert_eq!(r[2].index, 0);
}

#[test]
fn diameter_sort_only_returns_rotating() {
    let contents = vec![
        slot(0, Some(insert("t", 35))),
        slot(1, Some(drill("d", 5))),
        slot(2, None),
        slot(3, Some(insert("u", 55))),
    ];
    let r = get_sorted_by_tool_diameter(&contents);
    assert_eq!(r.len(), 1);
    for s in &r {
        assert_eq!(s.tool.as_ref().unwrap().get_category(), ToolCategory::Rotating);
    }
}

#[test]
fn diameter_sort_is_stable_on_ties() {
    // Two drills of equal diameter keep their relative order.
    let contents = vec![
        slot(0, Some(drill("first", 8))),
        slot(1, Some(drill("second", 8))),
        slot(2, Some(drill("small", 3))),
    ];
    let r = get_sorted_by_tool_diameter(&contents);
    assert_eq!(r.len(), 3);
    assert_eq!(r[0].index, 2);
    assert!(matches!(&r[1].tool, Some(Tool::Drill(d)) if d.name == "first"));
    assert!(matches!(&r[2].tool, Some(Tool::Drill(d)) if d.name == "second"));
}

#[test]
fn degree_sort_scenario() {
    let contents = vec![
        slot(0, Some(insert("b", 80))),
        slot(1, Some(drill("d", 5))),
        slot(2, Some(insert("a", 35))),
    ];
    let r = get_sorted_by_degree(&contents);
    assert_eq!(r.len(), 2);
    assert_eq!(r[0].index, 2);
    assert_eq!(r[1].index, 0);
    for s in &r {
        assert_eq!(s.tool.as_ref().unwrap().get_category(), ToolCategory::LatheInsert);
    }
}

#[test]
fn filter_by_category_is_idempotent() {
    let contents = vec![
        slot(0, Some(insert("t", 35))),
        slot(1, Some(drill("d", 5))),
        slot(2, None),
        slot(3, Some(mill("m", 10))),
    ];
    let once = get_filtered_by_tool_category(&contents, ToolCategory::Rotating);
    let twice = get_filtered_by_tool_category(&once, ToolCategory::Rotating);
    assert_eq!(once, twice);
    assert_eq!(once.len(), 2);
    assert_eq!(once[0].index, 1);
    assert_eq!(once[1].index, 3);
}

#[test]
fn filter_does_not_mutate_the_source() {
    let contents = vec![slot(0, Some(drill("d", 5))), slot(1, None)];
    let _ = get_filtered_by_tool_category(&contents, ToolCategory::Rotating);
    assert_eq!(contents.len(), 2);
    assert_eq!(contents[1].index, 1);
}

#[test]
fn slot_sort_is_idempotent_and_preserves_sorted_input() {
    let contents = vec![
        slot(3, Some(drill("d", 5))),
        slot(0, None),
        slot(2, Some(mill("m", 10))),
        slot(1, None),
    ];
    let once = get_sorted_by_slot(&contents, None);
    let indices: Vec<usize> = once.iter().map(|s| s.index).collect();
    assert_eq!(indices, vec![0, 1, 2, 3]);
    let twice = get_sorted_by_slot(&once, None);
    assert_eq!(once, twice);
}

#[test]
fn slot_sort_applies_the_requested_filter() {
    let contents = vec![
        slot(2, Some(insert("t", 35))),
        slot(0, Some(drill("d", 5))),
        slot(1, Some(mill("m", 10))),
    ];
    let rotating = get_sorted_by_slot(&contents, Some(ToolState::Rotating));
    let indices: Vec<usize> = rotating.iter().map(|s| s.index).collect();
    assert_eq!(indices, vec![0, 1]);
    let inserts = get_sorted_by_slot(&contents, Some(ToolState::Insert));
    assert_eq!(inserts.len(), 1);
    assert_eq!(inserts[0].index, 2);
}

#[test]
fn projections_of_empty_contents_are_empty() {
    let contents: Vec<MagazineSlot> = Vec::new();
    assert!(get_sorted_by_slot(&contents, None).is_empty());
    assert!(get_sorted_by_tool_diameter(&contents).is_empty());
    assert!(get_sorted_by_degree(&contents).is_empty());
    assert!(get_filtered_by_tool_category(&contents, ToolCategory::Rotating).is_empty());
}

#[test]
fn comments_are_carried_through_projections_verbatim() {
    let mut s1 = slot(1, Some(drill("d", 5)));
    s1.comment = Comment {
        comment: "chipped insert".to_owned(),
    };
    let contents = vec![slot(0, Some(mill("m", 10))), s1];
    let sorted = get_sorted_by_tool_diameter(&contents);
    assert_eq!(sorted[0].comment.comment, "chipped insert");
    let filtered = get_filtered_by_tool_category(&contents, ToolCategory::Rotating);
    assert_eq!(filtered[1].comment.comment, "chipped insert");
    let by_slot = get_sorted_by_slot(&contents, None);
    assert_eq!(by_slot[1].comment.comment, "chipped insert");
}

#[test]
fn large_magazine_sorts_by_slot() {
    // The largest size the add-machine form offers.
    let mut contents: Vec<MagazineSlot> = Vec::new();
    for i in (0..100).rev() {
        contents.push(slot(i, if i % 2 == 0 { Some(drill("d", i as u64)) } else { None }));
    }
    let r = get_sorted_by_slot(&contents, None);
    assert_eq!(r.len(), 100);
    for (i, s) in r.iter().enumerate() {
        assert_eq!(s.index, i);
    }
}
