//! Entity accessors, defaults, the add forms, machine creation, selector
//! state, the on-demand display projection, and color propagation.

use shop_inventory::adapter::{add_standard_adapter, Adapter, AdapterCategory, Hydraulic};
use shop_inventory::app::{
    apply_colors, apply_colors_to_contents, display_projection, filter_by_tool_category,
    reset_states, sort_by, ManagingApp,
};
use shop_inventory::comment::Comment;
use shop_inventory::holder::{add_standard_holder, Collet, Holder, HolderCategory};
use shop_inventory::library::select_tool_from_library;
use shop_inventory::machine::{add_machine, select_machine};
use shop_inventory::magazine::{select_magazine, MagazineSlot};
use shop_inventory::resources::{AppState, Color, MagazineContentType, SortBy, ToolState};
use shop_inventory::tool::{
    add_insert_tool, add_rotating_tool, Drill, Mill, Tool, ToolCategory, TrigonInsert,
};

fn app_with_machine(magazines: usize, slots: usize) -> ManagingApp {
    let mut app = ManagingApp::default();
    app.gui_singletons.machine.number_of_magazines = magazines;
    app.gui_singletons.machine.magazine_size = slots;
    add_machine(&mut app);
    select_machine(&mut app, 0);
    app
}

#[test]
fn entity_accessors() {
    let mut tool = Tool::Drill(Drill {
        name: "D1".to_owned(),
        diameter: 12,
        color: Color::red(),
    });
    assert_eq!(tool.get_name(), "D1");
    assert_eq!(tool.get_type(), "Drill");
    assert_eq!(tool.get_category(), ToolCategory::Rotating);
    assert_eq!(tool.get_diameter(), 12);
    assert_eq!(tool.get_degree(), 0);
    tool.set_color(Color::blue());
    assert_eq!(tool.get_color(), Color::blue());

    let mill = Tool::Mill(Mill {
        name: "M1".to_owned(),
        diameter: 4,
        color: Color::blue(),
    });
    assert_eq!(mill.get_type(), "Mill");
    assert_eq!(mill.get_category(), ToolCategory::Rotating);
    assert_eq!(mill.get_diameter(), 4);

    let insert = Tool::TrigonInsert(TrigonInsert {
        name: "T1".to_owned(),
        degree: 55,
        color: Color::green(),
    });
    assert_eq!(insert.get_type(), "Trigon");
    assert_eq!(insert.get_category(), ToolCategory::LatheInsert);
    assert_eq!(insert.get_degree(), 55);
    assert_eq!(insert.get_diameter(), 0);

    let holder = Holder::Collet(Collet {
        name: "C1".to_owned(),
        color: Color::light_blue(),
    });
    assert_eq!(holder.get_name(), "C1");
    assert_eq!(holder.get_type(), "Collet");
    assert_eq!(holder.get_category(), HolderCategory::MillingHolder);

    let adapter = Adapter::Hydraulic(Hydraulic {
        name: "H1".to_owned(),
        color: Color::green(),
    });
    assert_eq!(adapter.get_name(), "H1");
    assert_eq!(adapter.get_type(), "Hydraulic");
    assert_eq!(adapter.get_category(), AdapterCategory::Standard);
}

#[test]
fn stock_defaults() {
    let d = Drill::default();
    assert_eq!(d.name, "Drill");
    assert_eq!(d.diameter, 10);
    assert_eq!(d.color, Color::red());
    let m = Mill::default();
    assert_eq!(m.name, "Mill");
    assert_eq!(m.diameter, 10);
    let t = TrigonInsert::default();
    assert_eq!(t.name, "Trigon insert");
    assert_eq!(t.degree, 35);
    let c = Collet::default();
    assert_eq!(c.name, "Collet");
    assert_eq!(c.color, Color::light_blue());
    let h = Hydraulic::default();
    assert_eq!(h.name, "Hydraulic");
    assert_eq!(h.color, Color::green());
    assert_eq!(Comment::default().comment, "__");
}

#[test]
fn add_machine_builds_named_empty_magazines() {
    let mut app = ManagingApp::default();
    app.gui_singletons.machine.name = "Lathe".to_owned();
    app.gui_singletons.machine.number_of_magazines = 2;
    app.gui_singletons.machine.magazine_size = 3;
    add_machine(&mut app);
    assert_eq!(app.machines.len(), 1);
    let m = &app.machines[0];
    assert_eq!(m.name, "Lathe");
    assert_eq!(m.number_of_magazines, 2);
    assert_eq!(m.magazine_size, 3);
    assert_eq!(m.current_magazine, Some(0));
    assert_eq!(m.magazines.len(), 2);
    assert_eq!(m.magazines[0].name, "Magazine 0");
    assert_eq!(m.magazines[1].name, "Magazine 1");
    for magazine in &m.magazines {
        assert_eq!(magazine.contents.len(), 3);
        for (i, s) in magazine.contents.iter().enumerate() {
            assert_eq!(s.index, i);
            assert_eq!(s.tool, None);
            assert_eq!(s.holder, None);
            assert_eq!(s.adapter, None);
            assert_eq!(s.comment.comment, "__");
        }
    }
    // The add-machine template is reset to its blank state.
    assert_eq!(app.gui_singletons.machine.name, "Machine");
    assert_eq!(app.gui_singletons.machine.number_of_magazines, 1);
    assert_eq!(app.gui_singletons.machine.magazine_size, 1);
    assert_eq!(app.gui_singletons.machine.current_magazine, None);
}

#[test]
fn selectors_record_choices() {
    let mut app = app_with_machine(2, 1);
    assert_eq!(app.selections.machine, Some(0));
    select_magazine(&mut app, 1);
    assert_eq!(app.machines[0].current_magazine, Some(1));
    app.library.tools.push(Tool::Drill(Drill::default()));
    select_tool_from_library(&mut app, 0);
    assert_eq!(app.move_selections.selected_tool_index_library, Some(0));
}

#[test]
fn select_magazine_without_machine_is_a_no_op() {
    let mut app = ManagingApp::default();
    select_magazine(&mut app, 0);
    assert!(app.machines.is_empty());
    assert_eq!(app.selections.machine, None);
}

#[test]
fn reset_states_returns_to_idle() {
    let mut app = ManagingApp::default();
    app.app_states.app_state = AppState::Settings;
    app.app_states.add_tool_state = Some(ToolState::Rotating);
    app.selections.selected_rotating_tool_index = 1;
    app.selections.selected_holder_index = 7;
    app.move_selections.selected_tool_index_magazine = Some(3);
    reset_states(&mut app);
    assert_eq!(app.app_states.app_state, AppState::ShowMagazine);
    assert_eq!(app.app_states.add_tool_state, None);
    assert_eq!(app.app_states.move_state, None);
    assert_eq!(app.selections.selected_rotating_tool_index, 0);
    // The holder template selection is not part of the reset.
    assert_eq!(app.selections.selected_holder_index, 7);
    assert_eq!(app.move_selections.selected_tool_index_magazine, None);
}

#[test]
fn add_forms_append_template_copies() {
    let mut app = ManagingApp::default();
    app.selections.selected_rotating_tool_index = 1;
    add_rotating_tool(&mut app);
    assert_eq!(app.library.tools.len(), 1);
    assert!(matches!(&app.library.tools[0], Tool::Mill(m) if m.name == "Mill"));
    assert_eq!(app.app_states.app_state, AppState::ShowMagazine);
    assert_eq!(app.app_states.add_tool_state, None);
    // The template pool itself still holds its entry.
    assert_eq!(app.gui_singletons.rotating_tools.len(), 2);

    app.selections.selected_insert_tool_index = 0;
    add_insert_tool(&mut app);
    assert_eq!(app.library.tools.len(), 2);
    // The copy carries the registry template's name, which is the kind tag.
    assert!(matches!(
        &app.library.tools[1],
        Tool::TrigonInsert(t) if t.degree == 35 && t.name == "TrigonInsert"
    ));

    add_standard_holder(&mut app);
    assert_eq!(app.library.holders.len(), 1);
    assert!(matches!(&app.library.holders[0], Holder::Collet(c) if c.name == "Collet"));

    add_standard_adapter(&mut app);
    assert_eq!(app.library.adapters.len(), 1);
    assert!(matches!(&app.library.adapters[0], Adapter::Hydraulic(h) if h.name == "Hydraulic"));
}

#[test]
fn sort_selector_couples_filter() {
    let mut app = ManagingApp::default();
    sort_by(&mut app, SortBy::Diameter);
    assert_eq!(app.gui_singletons.sort_by, SortBy::Diameter);
    assert_eq!(app.gui_singletons.tool_filter, Some(ToolState::Rotating));
    sort_by(&mut app, SortBy::Degree);
    assert_eq!(app.gui_singletons.tool_filter, Some(ToolState::Insert));
    sort_by(&mut app, SortBy::Slot);
    // The slot sort respects whatever filter is active.
    assert_eq!(app.gui_singletons.tool_filter, Some(ToolState::Insert));
    filter_by_tool_category(&mut app, None);
    assert_eq!(app.gui_singletons.tool_filter, None);
}

#[test]
fn display_projection_follows_selectors() {
    let mut app = app_with_machine(1, 3);
    let contents = &mut app.machines[0].magazines[0].contents;
    contents[0].tool = Some(Tool::Mill(Mill {
        name: "M".to_owned(),
        diameter: 9,
        color: Color::blue(),
    }));
    contents[2].tool = Some(Tool::Drill(Drill {
        name: "D".to_owned(),
        diameter: 2,
        color: Color::red(),
    }));
    let by_slot = display_projection(&app);
    assert_eq!(by_slot.len(), 3);
    assert_eq!(by_slot[0].index, 0);
    sort_by(&mut app, SortBy::Diameter);
    let by_diameter = display_projection(&app);
    assert_eq!(by_diameter.len(), 2);
    assert_eq!(by_diameter[0].index, 2);
    assert_eq!(by_diameter[1].index, 0);
    filter_by_tool_category(&mut app, Some(ToolState::Insert));
    sort_by(&mut app, SortBy::Slot);
    let inserts = display_projection(&app);
    assert!(inserts.is_empty());
}

#[test]
fn template_registry_holds_stock_entries() {
    let app = ManagingApp::default();
    let g = &app.gui_singletons;
    assert!(matches!(&g.rotating_tools[0], Tool::Drill(d) if d.name == "Drill" && d.diameter == 10));
    assert!(matches!(&g.rotating_tools[1], Tool::Mill(m) if m.name == "Mill" && m.diameter == 10));
    // The registry's insert template is named by its kind tag, not by the
    // stock insert's display name.
    assert!(matches!(
        &g.insert_tools[0],
        Tool::TrigonInsert(t) if t.name == "TrigonInsert" && t.degree == 35
    ));
    assert!(matches!(&g.holders[0], Holder::Collet(c) if c.name == "Collet"));
    assert!(matches!(&g.adapters[0], Adapter::Hydraulic(h) if h.name == "Hydraulic"));
    assert_eq!(g.tool_filter, None);
    assert_eq!(g.sort_by, SortBy::Slot);
    assert_eq!(g.color_settings.index, None);
    assert_eq!(g.color_settings.color, Color::red());
}

#[test]
fn library_view_starts_on_tools() {
    let app = ManagingApp::default();
    assert_eq!(app.library.category, MagazineContentType::Tool);
}

#[test]
fn apply_colors_recolors_matching_occupants() {
    let mut app = app_with_machine(1, 2);
    app.machines[0].magazines[0].contents[0].tool = Some(Tool::Drill(Drill {
        name: "D".to_owned(),
        diameter: 2,
        color: Color::red(),
    }));
    app.machines[0].magazines[0].contents[1].holder = Some(Holder::Collet(Collet {
        name: "C".to_owned(),
        color: Color::light_blue(),
    }));
    // Recolor the drill template, then propagate.
    let purple = Color::from_rgb(128, 0, 128);
    app.gui_singletons.rotating_tools[0].set_color(purple);
    apply_colors(&mut app);
    let contents = &app.machines[0].magazines[0].contents;
    assert_eq!(contents[0].tool.as_ref().unwrap().get_color(), purple);
    // The collet keeps the template color it already had.
    assert_eq!(
        contents[1].holder.as_ref().unwrap().get_color(),
        Color::light_blue()
    );
    // Names and comments are untouched.
    assert!(matches!(&contents[0].tool, Some(Tool::Drill(d)) if d.name == "D"));
    assert_eq!(contents[0].comment.comment, "__");
}

#[test]
fn apply_colors_to_contents_ignores_empty_slots() {
    let mut app = ManagingApp::default();
    let green = Color::green();
    app.gui_singletons.holders[0].set_color(green);
    let mut contents = vec![MagazineSlot {
        index: 0,
        tool: None,
        holder: Some(Holder::Collet(Collet {
            name: "C".to_owned(),
            color: Color::light_blue(),
        })),
        adapter: None,
        comment: Comment::default(),
    }];
    apply_colors_to_contents(&mut contents, &app.gui_singletons);
    assert_eq!(contents[0].tool, None);
    assert_eq!(contents[0].holder.as_ref().unwrap().get_color(), green);
}

#[test]
fn last_matching_template_wins() {
    let mut app = ManagingApp::default();
    // Two drill templates: the second one's color must win.
    let purple = Color::from_rgb(128, 0, 128);
    app.gui_singletons.rotating_tools[0].set_color(Color::green());
    app.gui_singletons.rotating_tools.push(Tool::Drill(Drill {
        name: "Later".to_owned(),
        diameter: 1,
        color: purple,
    }));
    let mut contents = vec![MagazineSlot {
        index: 0,
        tool: Some(Tool::Drill(Drill::default())),
        holder: None,
        adapter: None,
        comment: Comment::default(),
    }];
    apply_colors_to_contents(&mut contents, &app.gui_singletons);
    assert_eq!(contents[0].tool.as_ref().unwrap().get_color(), purple);
}
