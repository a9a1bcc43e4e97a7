//! Shared application-state records: display colors, selection indices,
//! UI-mode enums and the transient move-selection state.

use vstd::prelude::*;

use crate::adapter::{Adapter, Hydraulic};
use crate::holder::{Collet, Holder};
use crate::machine::Machine;
use crate::tool::{Drill, Mill, Tool, TrigonInsert};

verus! {

/// An RGBA display color, the plain-value form of the GUI toolkit's color.
#[derive(Clone, Copy, Debug, PartialEq, Eq, Structural)]
pub struct Color {
    pub r: u8,
    pub g: u8,
    pub b: u8,
    pub a: u8,
}

impl Color {
    /// An opaque color from its red, green and blue components.
    pub fn from_rgb(r: u8, g: u8, b: u8) -> (c: Color)
        ensures
            c == (Color { r, g, b, a: 255u8 }),
    {
        Color { r, g, b, a: 255 }
    }

    /// The default color of a new drill.
    pub fn red() -> (c: Color)
        ensures
            c == (Color { r: 255u8, g: 0u8, b: 0u8, a: 255u8 }),
    {
        Color { r: 255, g: 0, b: 0, a: 255 }
    }

    /// The default color of a new mill.
    pub fn blue() -> (c: Color)
        ensures
            c == (Color { r: 0u8, g: 0u8, b: 255u8, a: 255u8 }),
    {
        Color { r: 0, g: 0, b: 255, a: 255 }
    }

    /// The default color of a new insert or adapter.
    pub fn green() -> (c: Color)
        ensures
            c == (Color { r: 0u8, g: 255u8, b: 0u8, a: 255u8 }),
    {
        Color { r: 0, g: 255, b: 0, a: 255 }
    }

    /// The default color of a new collet.
    pub fn light_blue() -> (c: Color)
        ensures
            c == (Color { r: 173u8, g: 216u8, b: 230u8, a: 255u8 }),
    {
        Color { r: 173, g: 216, b: 230, a: 255 }
    }
}

/// Which tool family an add-tool form or a category filter refers to.
#[derive(Clone, Copy, Debug, PartialEq, Eq, Structural)]
pub enum ToolState {
    Rotating,
    Insert,
}

/// Which holder family an add-holder form refers to.
#[derive(Clone, Copy, Debug, PartialEq, Eq, Structural)]
pub enum HolderState {
    Standard,
}

/// Which adapter family an add-adapter form refers to.
#[derive(Clone, Copy, Debug, PartialEq, Eq, Structural)]
pub enum AdapterState {
    Standard,
}

/// Which of the three entity pools the library view displays.
#[derive(Clone, Copy, Debug, PartialEq, Eq, Structural)]
pub enum MagazineContentType {
    Tool,
    Holder,
    Adapter,
}

/// The sort key selector of the magazine display projection.
#[derive(Clone, Copy, Debug, PartialEq, Eq, Structural)]
pub enum SortBy {
    Slot,
    Diameter,
    Degree,
}

/// Which template pool the color-settings panel edits.
#[derive(Clone, Copy, Debug, PartialEq, Eq, Structural)]
pub enum ColorSettingsState {
    Rotating,
    Insert,
    Holder,
    Adapter,
}

/// Selection inside the color-settings panel: which template (by index in its
/// pool) and which color to apply.
#[derive(Clone, Copy, Debug, PartialEq, Eq, Structural)]
pub struct ColorSettings {
    pub index: Option<usize>,
    pub color: Color,
}

/// Which screen of the application shell is active.
#[derive(Clone, Copy, Debug, PartialEq, Eq, Structural)]
pub enum AppState {
    ShowMagazine,
    AddTool,
    AddHolder,
    AddAdapter,
    AddMachine,
    ShowLibrary,
    Settings,
    Calculations,
}

/// Which move operation is in flight, one per (entity kind, direction) pair,
/// plus the degenerate comment edit.
#[derive(Clone, Copy, Debug, PartialEq, Eq, Structural)]
pub enum MoveStates {
    ToolToMagazine,
    ToolToLibrary,
    HolderToMagazine,
    HolderToLibrary,
    AdapterToMagazine,
    AdapterToLibrary,
    EditComment,
}

/// Persistent selections: which machine is active and which template of each
/// kind the add-entity forms point at.
#[derive(Clone, Copy, Debug, PartialEq, Eq, Structural)]
pub struct Selections {
    pub machine: Option<usize>,
    pub selected_rotating_tool_index: usize,
    pub selected_insert_tool_index: usize,
    pub selected_holder_index: usize,
    pub selected_adapter_index: usize,
}

/// Transient endpoints of a pending move: the magazine slot and library index
/// of each entity kind, plus the slot whose comment is being edited. All are
/// cleared when a move completes or its dialog is dismissed.
#[derive(Clone, Copy, Debug, PartialEq, Eq, Structural)]
pub struct MagazineLibraryMovingSelections {
    pub selected_tool_index_magazine: Option<usize>,
    pub selected_holder_index_magazine: Option<usize>,
    pub selected_adapter_index_magazine: Option<usize>,
    pub selected_comment_index_magazine: Option<usize>,
    pub selected_tool_index_library: Option<usize>,
    pub selected_holder_index_library: Option<usize>,
    pub selected_adapter_index_library: Option<usize>,
}

impl MagazineLibraryMovingSelections {
    /// The idle state: no move endpoint selected.
    pub open spec fn spec_cleared() -> MagazineLibraryMovingSelections {
        MagazineLibraryMovingSelections {
            selected_tool_index_magazine: None,
            selected_holder_index_magazine: None,
            selected_adapter_index_magazine: None,
            selected_comment_index_magazine: None,
            selected_tool_index_library: None,
            selected_holder_index_library: None,
            selected_adapter_index_library: None,
        }
    }

    /// The idle state: no move endpoint selected.
    pub fn cleared() -> (m: MagazineLibraryMovingSelections)
        ensures
            m == MagazineLibraryMovingSelections::spec_cleared(),
    {
        MagazineLibraryMovingSelections {
            selected_tool_index_magazine: None,
            selected_holder_index_magazine: None,
            selected_adapter_index_magazine: None,
            selected_comment_index_magazine: None,
            selected_tool_index_library: None,
            selected_holder_index_library: None,
            selected_adapter_index_library: None,
        }
    }
}

/// The shell's active screen and whichever add/move dialog is open.
#[derive(Clone, Copy, Debug, PartialEq, Eq, Structural)]
pub struct ActiveState {
    pub app_state: AppState,
    pub move_state: Option<MoveStates>,
    pub add_tool_state: Option<ToolState>,
    pub add_holder_state: Option<HolderState>,
    pub add_adapter_state: Option<AdapterState>,
    pub magazine_content_state: Option<MagazineContentType>,
}

/// The template registry: one stock instance per concrete entity kind (the
/// source of defaults and of the colors that `apply_colors` propagates), the
/// add-machine form's template, and the active filter, sort and color-panel
/// selections.
#[derive(Debug, PartialEq)]
pub struct GuiSingletons {
    pub rotating_tools: Vec<Tool>,
    pub insert_tools: Vec<Tool>,
    pub holders: Vec<Holder>,
    pub adapters: Vec<Adapter>,
    pub machine: Machine,
    pub tool_filter: Option<ToolState>,
    pub sort_by: SortBy,
    pub color_settings_state: ColorSettingsState,
    pub color_settings: ColorSettings,
}

impl Default for GuiSingletons {
    /// Stock templates: a drill and a mill in the rotating pool, a trigon
    /// insert in the insert pool, a collet and a hydraulic adapter; the blank
    /// machine template; no filter, slot-order sort, and a red color panel
    /// pointed at the rotating pool.
    fn default() -> (g: GuiSingletons)
        ensures
            g.rotating_tools@.len() == 2,
            g.rotating_tools@[0] matches Tool::Drill(d) && d.spec_is_stock(),
            g.rotating_tools@[1] matches Tool::Mill(m) && m.spec_is_stock(),
            g.insert_tools@.len() == 1,
            g.insert_tools@[0] matches Tool::TrigonInsert(t) && t.spec_is_registry_template(),
            g.holders@.len() == 1,
            g.holders@[0] matches Holder::Collet(c) && c.spec_is_stock(),
            g.adapters@.len() == 1,
            g.adapters@[0] matches Adapter::Hydraulic(h) && h.spec_is_stock(),
            g.machine.spec_is_template(),
            g.tool_filter is None,
            g.sort_by == SortBy::Slot,
            g.color_settings_state == ColorSettingsState::Rotating,
            g.color_settings == (ColorSettings {
                index: None,
                color: Color { r: 255u8, g: 0u8, b: 0u8, a: 255u8 },
            }),
    {
        let mut rotating_tools: Vec<Tool> = Vec::new();
        rotating_tools.push(Tool::Drill(Drill::default()));
        rotating_tools.push(Tool::Mill(Mill::default()));
        let mut insert_tools: Vec<Tool> = Vec::new();
        insert_tools.push(
            Tool::TrigonInsert(
                TrigonInsert { name: "TrigonInsert".to_owned(), degree: 35, color: Color::green() },
            ),
        );
        let mut holders: Vec<Holder> = Vec::new();
        holders.push(Holder::Collet(Collet::default()));
        let mut adapters: Vec<Adapter> = Vec::new();
        adapters.push(Adapter::Hydraulic(Hydraulic::default()));
        GuiSingletons {
            rotating_tools,
            insert_tools,
            holders,
            adapters,
            machine: Machine::template(),
            tool_filter: None,
            sort_by: SortBy::Slot,
            color_settings_state: ColorSettingsState::Rotating,
            color_settings: ColorSettings { index: None, color: Color::red() },
        }
    }
}

impl Default for Selections {
    /// No machine selected; every template index at its first entry.
    fn default() -> (s: Selections)
        ensures
            s == (Selections {
                machine: None,
                selected_rotating_tool_index: 0usize,
                selected_insert_tool_index: 0usize,
                selected_holder_index: 0usize,
                selected_adapter_index: 0usize,
            }),
    {
        Selections {
            machine: None,
            selected_rotating_tool_index: 0,
            selected_insert_tool_index: 0,
            selected_holder_index: 0,
            selected_adapter_index: 0,
        }
    }
}

impl Default for MagazineLibraryMovingSelections {
    /// The idle state: no move endpoint selected.
    fn default() -> (m: MagazineLibraryMovingSelections)
        ensures
            m == MagazineLibraryMovingSelections::spec_cleared(),
    {
        MagazineLibraryMovingSelections::cleared()
    }
}

impl Default for ActiveState {
    /// The magazine view with no dialog open.
    fn default() -> (a: ActiveState)
        ensures
            a == (ActiveState {
                app_state: AppState::ShowMagazine,
                move_state: None::<MoveStates>,
                add_tool_state: None::<ToolState>,
                add_holder_state: None::<HolderState>,
                add_adapter_state: None::<AdapterState>,
                magazine_content_state: None::<MagazineContentType>,
            }),
    {
        ActiveState {
            app_state: AppState::ShowMagazine,
            move_state: None,
            add_tool_state: None,
            add_holder_state: None,
            add_adapter_state: None,
            magazine_content_state: None,
        }
    }
}

} // verus!
