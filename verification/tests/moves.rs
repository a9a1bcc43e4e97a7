//! The move engine: ownership exclusivity, round trips, swaps, no-ops, and
//! comment edits, driven through the application state as the shell would.

use shop_inventory::adapter::{Adapter, Hydraulic};
use shop_inventory::app::ManagingApp;
use shop_inventory::comment::Comment;
use shop_inventory::holder::{Collet, Holder};
use shop_inventory::library::{
    move_adapter_to_library, move_adapter_to_magazine, move_holder_to_library,
    move_holder_to_magazine, move_tool_to_library, move_tool_to_magazine,
    select_tool_from_library,
};
use shop_inventory::machine::{add_machine, select_machine};
use shop_inventory::magazine::{edit_comment, select_slot_for_move};
use shop_inventory::resources::{Color, MoveStates};
use shop_inventory::tool::{Drill, Tool};

fn drill(name: &str, diameter: u64) -> Tool {
    Tool::Drill(Drill {
        name: name.to_owned(),
        diameter,
        color: Color::red(),
    })
}

/// An application with one machine of one magazine with `slots` empty slots,
/// selected and current.
fn app_with_magazine(slots: usize) -> ManagingApp {
    let mut app = ManagingApp::default();
    app.gui_singletons.machine.number_of_magazines = 1;
    app.gui_singletons.machine.magazine_size = slots;
    add_machine(&mut app);
    select_machine(&mut app, 0);
    app
}

fn magazine_slot_tool(app: &ManagingApp, slot: usize) -> Option<Tool> {
    app.machines[0].magazines[0].contents[slot].tool.clone()
}

#[test]
fn move_tool_to_empty_slot() {
    // Library pool [DrillA]; moving it to the empty slot 1 empties the pool
    // and fills the slot.
    let mut app = app_with_magazine(3);
    let drill_a = drill("DrillA", 7);
    app.library.tools.push(drill_a.clone());
    select_slot_for_move(&mut app, 1, MoveStates::ToolToMagazine);
    select_tool_from_library(&mut app, 0);
    move_tool_to_magazine(&mut app);
    assert!(app.library.tools.is_empty());
    assert_eq!(magazine_slot_tool(&app, 1), Some(drill_a));
    assert_eq!(magazine_slot_tool(&app, 0), None);
    assert_eq!(magazine_slot_tool(&app, 2), None);
}

#[test]
fn completed_move_clears_transient_state() {
    let mut app = app_with_magazine(2);
    app.library.tools.push(drill("DrillA", 7));
    select_tool_from_library(&mut app, 0);
    app.move_selections.selected_tool_index_magazine = Some(0);
    move_tool_to_magazine(&mut app);
    assert_eq!(app.move_selections.selected_tool_index_library, None);
    assert_eq!(app.move_selections.selected_tool_index_magazine, None);
    assert_eq!(app.app_states.move_state, None);
}

#[test]
fn slot_clicks_record_endpoint_and_move_state() {
    let mut app = app_with_magazine(3);
    select_slot_for_move(&mut app, 2, MoveStates::ToolToMagazine);
    assert_eq!(app.move_selections.selected_tool_index_magazine, Some(2));
    assert_eq!(app.app_states.move_state, Some(MoveStates::ToolToMagazine));
    select_slot_for_move(&mut app, 1, MoveStates::HolderToLibrary);
    assert_eq!(app.move_selections.selected_holder_index_magazine, Some(1));
    assert_eq!(app.app_states.move_state, Some(MoveStates::HolderToLibrary));
    // The earlier tool endpoint is untouched by a holder click.
    assert_eq!(app.move_selections.selected_tool_index_magazine, Some(2));
    select_slot_for_move(&mut app, 0, MoveStates::AdapterToMagazine);
    assert_eq!(app.move_selections.selected_adapter_index_magazine, Some(0));
    select_slot_for_move(&mut app, 1, MoveStates::EditComment);
    assert_eq!(app.move_selections.selected_comment_index_magazine, Some(1));
    assert_eq!(app.app_states.move_state, Some(MoveStates::EditComment));
}

#[test]
fn moves_without_any_selection_are_no_ops() {
    // With no machine, magazine or endpoint selected at all, every move and
    // the comment edit leave the state untouched.
    let mut app = ManagingApp::default();
    let before = ManagingApp::default();
    move_tool_to_magazine(&mut app);
    move_tool_to_library(&mut app);
    move_holder_to_magazine(&mut app);
    move_holder_to_library(&mut app);
    move_adapter_to_magazine(&mut app);
    move_adapter_to_library(&mut app);
    edit_comment(&mut app, "ignored".to_owned());
    assert_eq!(app, before);
}

#[test]
fn move_without_selection_changes_nothing() {
    let mut app = app_with_magazine(2);
    app.library.tools.push(drill("DrillA", 7));
    // Only the magazine endpoint is selected: the move is a no-op that even
    // keeps the transient state (the dialog is still open).
    app.move_selections.selected_tool_index_magazine = Some(0);
    let before_tools = app.library.tools.clone();
    move_tool_to_magazine(&mut app);
    assert_eq!(app.library.tools, before_tools);
    assert_eq!(magazine_slot_tool(&app, 0), None);
    assert_eq!(app.move_selections.selected_tool_index_magazine, Some(0));
}

#[test]
fn move_round_trip_returns_equal_tool_appended() {
    // Move the pool's first tool out and back: the pool holds an entity equal
    // in all fields to the original, appended at the end.
    let mut app = app_with_magazine(2);
    let drill_a = drill("DrillA", 7);
    let drill_b = drill("DrillB", 9);
    app.library.tools.push(drill_a.clone());
    app.library.tools.push(drill_b.clone());
    select_tool_from_library(&mut app, 0);
    app.move_selections.selected_tool_index_magazine = Some(1);
    move_tool_to_magazine(&mut app);
    assert_eq!(app.library.tools, vec![drill_b.clone()]);
    app.move_selections.selected_tool_index_magazine = Some(1);
    move_tool_to_library(&mut app);
    assert_eq!(app.library.tools, vec![drill_b, drill_a]);
    assert_eq!(magazine_slot_tool(&app, 1), None);
}

#[test]
fn move_into_occupied_slot_swaps() {
    // Slot 0 holds B; moving A in puts A in the slot and appends B to the
    // pool, with A gone from its original position.
    let mut app = app_with_magazine(2);
    let a = drill("A", 3);
    let b = drill("B", 4);
    let c = drill("C", 5);
    app.library.tools.push(b.clone());
    select_tool_from_library(&mut app, 0);
    app.move_selections.selected_tool_index_magazine = Some(0);
    move_tool_to_magazine(&mut app);
    assert_eq!(magazine_slot_tool(&app, 0), Some(b.clone()));
    // Pool is now [A, C]; move A (index 0) into the occupied slot.
    app.library.tools.push(a.clone());
    app.library.tools.push(c.clone());
    select_tool_from_library(&mut app, 0);
    app.move_selections.selected_tool_index_magazine = Some(0);
    move_tool_to_magazine(&mut app);
    assert_eq!(magazine_slot_tool(&app, 0), Some(a));
    assert_eq!(app.library.tools, vec![c, b]);
}

#[test]
fn ownership_is_exclusive_after_moves() {
    // After each completed move the tool sits in exactly one of pool or slot.
    let mut app = app_with_magazine(1);
    let a = drill("A", 3);
    app.library.tools.push(a.clone());
    select_tool_from_library(&mut app, 0);
    app.move_selections.selected_tool_index_magazine = Some(0);
    move_tool_to_magazine(&mut app);
    let in_pool = app.library.tools.iter().filter(|t| **t == a).count();
    let in_slot = if magazine_slot_tool(&app, 0) == Some(a.clone()) { 1 } else { 0 };
    assert_eq!(in_pool + in_slot, 1);
    app.move_selections.selected_tool_index_magazine = Some(0);
    move_tool_to_library(&mut app);
    let in_pool = app.library.tools.iter().filter(|t| **t == a).count();
    let in_slot = if magazine_slot_tool(&app, 0) == Some(a.clone()) { 1 } else { 0 };
    assert_eq!(in_pool + in_slot, 1);
}

#[test]
fn move_from_empty_slot_only_clears_state() {
    let mut app = app_with_magazine(2);
    app.move_selections.selected_tool_index_magazine = Some(1);
    app.app_states.move_state = Some(shop_inventory::resources::MoveStates::ToolToLibrary);
    move_tool_to_library(&mut app);
    assert!(app.library.tools.is_empty());
    assert_eq!(magazine_slot_tool(&app, 1), None);
    assert_eq!(app.move_selections.selected_tool_index_magazine, None);
    assert_eq!(app.app_states.move_state, None);
}

#[test]
fn holder_moves_mirror_tool_moves() {
    let mut app = app_with_magazine(2);
    let collet = Holder::Collet(Collet {
        name: "C1".to_owned(),
        color: Color::light_blue(),
    });
    app.library.holders.push(collet.clone());
    app.move_selections.selected_holder_index_library = Some(0);
    app.move_selections.selected_holder_index_magazine = Some(1);
    move_holder_to_magazine(&mut app);
    assert!(app.library.holders.is_empty());
    assert_eq!(
        app.machines[0].magazines[0].contents[1].holder,
        Some(collet.clone())
    );
    app.move_selections.selected_holder_index_magazine = Some(1);
    move_holder_to_library(&mut app);
    assert_eq!(app.library.holders, vec![collet]);
    assert_eq!(app.machines[0].magazines[0].contents[1].holder, None);
}

#[test]
fn adapter_moves_mirror_tool_moves() {
    let mut app = app_with_magazine(2);
    let hydraulic = Adapter::Hydraulic(Hydraulic {
        name: "H1".to_owned(),
        color: Color::green(),
    });
    app.library.adapters.push(hydraulic.clone());
    app.move_selections.selected_adapter_index_library = Some(0);
    app.move_selections.selected_adapter_index_magazine = Some(0);
    move_adapter_to_magazine(&mut app);
    assert!(app.library.adapters.is_empty());
    assert_eq!(
        app.machines[0].magazines[0].contents[0].adapter,
        Some(hydraulic.clone())
    );
    app.move_selections.selected_adapter_index_magazine = Some(0);
    move_adapter_to_library(&mut app);
    assert_eq!(app.library.adapters, vec![hydraulic]);
    assert_eq!(app.machines[0].magazines[0].contents[0].adapter, None);
}

#[test]
fn moves_leave_other_slots_and_kinds_untouched() {
    let mut app = app_with_magazine(3);
    let collet = Holder::Collet(Collet {
        name: "C1".to_owned(),
        color: Color::light_blue(),
    });
    app.library.holders.push(collet.clone());
    app.library.tools.push(drill("A", 3));
    select_tool_from_library(&mut app, 0);
    app.move_selections.selected_tool_index_magazine = Some(2);
    move_tool_to_magazine(&mut app);
    // The holder pool and the other slots are untouched by a tool move.
    assert_eq!(app.library.holders, vec![collet]);
    assert_eq!(app.machines[0].magazines[0].contents[2].holder, None);
    assert_eq!(magazine_slot_tool(&app, 0), None);
    assert_eq!(magazine_slot_tool(&app, 1), None);
}

#[test]
fn edit_comment_writes_the_slot_and_resets() {
    let mut app = app_with_magazine(3);
    app.move_selections.selected_comment_index_magazine = Some(2);
    edit_comment(&mut app, "chipped insert".to_owned());
    assert_eq!(
        app.machines[0].magazines[0].contents[2].comment,
        Comment {
            comment: "chipped insert".to_owned()
        }
    );
    // The other slots keep the placeholder text.
    assert_eq!(app.machines[0].magazines[0].contents[0].comment.comment, "__");
    assert_eq!(app.move_selections.selected_comment_index_magazine, None);
}

#[test]
fn edit_comment_without_selection_is_a_no_op() {
    let mut app = app_with_magazine(1);
    let before = app.machines[0].magazines[0].contents[0].comment.clone();
    edit_comment(&mut app, "ignored".to_owned());
    assert_eq!(app.machines[0].magazines[0].contents[0].comment, before);
}
