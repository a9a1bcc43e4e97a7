//! Cutting tools: drills and mills (rotating tools, keyed by diameter) and
//! trigon inserts (lathe inserts, keyed by edge angle).
//!
//! Measures are stored as plain integers in the shop's display unit
//! (millimetres for diameters, degrees for insert angles).

use vstd::prelude::*;

use crate::app::ManagingApp;
use crate::resources::{ActiveState, AppState, Color};

verus! {

/// Category classifier of a tool: rotating tools carry a diameter, lathe
/// inserts carry an edge angle. `All` and `Empty` are filter placeholders.
#[derive(Clone, Copy, Debug, PartialEq, Eq, Structural)]
pub enum ToolCategory {
    All,
    Rotating,
    LatheInsert,
    Empty,
}

/// A drill: a rotating tool with a cutting diameter.
#[derive(Debug, PartialEq)]
pub struct Drill {
    pub name: String,
    pub diameter: u64,
    pub color: Color,
}

impl Drill {
    /// The stock drill template: 10 mm, red.
    pub open spec fn spec_is_stock(self) -> bool {
        &&& self.name@ == "Drill"@
        &&& self.diameter == 10u64
        &&& self.color == (Color { r: 255u8, g: 0u8, b: 0u8, a: 255u8 })
    }

    /// Category tag: a drill is a rotating tool.
    pub fn get_category(&self) -> (c: ToolCategory)
        ensures
            c == ToolCategory::Rotating,
    {
        ToolCategory::Rotating
    }

    pub fn get_diameter(&self) -> (d: u64)
        ensures
            d == self.diameter,
    {
        self.diameter
    }

    pub fn get_name(&self) -> (n: String)
        ensures
            n == self.name,
    {
        self.name.clone()
    }

    pub fn set_color(&mut self, color: Color)
        ensures
            *final(self) == (Drill { color, ..*old(self) }),
    {
        self.color = color;
    }

    pub fn get_color(&self) -> (c: Color)
        ensures
            c == self.color,
    {
        self.color
    }

    /// Fixed tag identifying the concrete kind.
    pub fn get_type(&self) -> (t: String)
        ensures
            t@ == "Drill"@,
    {
        "Drill".to_owned()
    }
}

impl Clone for Drill {
    fn clone(&self) -> (c: Self)
        ensures
            c == *self,
    {
        Drill { name: self.name.clone(), diameter: self.diameter, color: self.color }
    }
}

impl Default for Drill {
    /// The stock drill template: 10 mm, red.
    fn default() -> (d: Drill)
        ensures
            d.spec_is_stock(),
    {
        Drill { name: "Drill".to_owned(), diameter: 10, color: Color::red() }
    }
}

/// A mill: a rotating tool with a cutting diameter.
#[derive(Debug, PartialEq)]
pub struct Mill {
    pub name: String,
    pub diameter: u64,
    pub color: Color,
}

impl Mill {
    /// The stock mill template: 10 mm, blue.
    pub open spec fn spec_is_stock(self) -> bool {
        &&& self.name@ == "Mill"@
        &&& self.diameter == 10u64
        &&& self.color == (Color { r: 0u8, g: 0u8, b: 255u8, a: 255u8 })
    }

    /// Category tag: a mill is a rotating tool.
    pub fn get_category(&self) -> (c: ToolCategory)
        ensures
            c == ToolCategory::Rotating,
    {
        ToolCategory::Rotating
    }

    pub fn get_diameter(&self) -> (d: u64)
        ensures
            d == self.diameter,
    {
        self.diameter
    }

    pub fn get_name(&self) -> (n: String)
        ensures
            n == self.name,
    {
        self.name.clone()
    }

    pub fn set_color(&mut self, color: Color)
        ensures
            *final(self) == (Mill { color, ..*old(self) }),
    {
        self.color = color;
    }

    pub fn get_color(&self) -> (c: Color)
        ensures
            c == self.color,
    {
        self.color
    }

    /// Fixed tag identifying the concrete kind.
    pub fn get_type(&self) -> (t: String)
        ensures
            t@ == "Mill"@,
    {
        "Mill".to_owned()
    }
}

impl Clone for Mill {
    fn clone(&self) -> (c: Self)
        ensures
            c == *self,
    {
        Mill { name: self.name.clone(), diameter: self.diameter, color: self.color }
    }
}

impl Default for Mill {
    /// The stock mill template: 10 mm, blue.
    fn default() -> (m: Mill)
        ensures
            m.spec_is_stock(),
    {
        Mill { name: "Mill".to_owned(), diameter: 10, color: Color::blue() }
    }
}

/// A trigon insert: a lathe insert with an edge angle.
#[derive(Debug, PartialEq)]
pub struct TrigonInsert {
    pub name: String,
    pub degree: u64,
    pub color: Color,
}

impl TrigonInsert {
    /// The stock insert: 35 degrees, green, under its default display name.
    pub open spec fn spec_is_stock(self) -> bool {
        &&& self.name@ == "Trigon insert"@
        &&& self.degree == 35u64
        &&& self.color == (Color { r: 0u8, g: 255u8, b: 0u8, a: 255u8 })
    }

    /// The template registry's insert entry: the same stock insert, but named
    /// by its kind tag rather than its default display name.
    pub open spec fn spec_is_registry_template(self) -> bool {
        &&& self.name@ == "TrigonInsert"@
        &&& self.degree == 35u64
        &&& self.color == (Color { r: 0u8, g: 255u8, b: 0u8, a: 255u8 })
    }

    /// Category tag: a trigon insert is a lathe insert.
    pub fn get_category(&self) -> (c: ToolCategory)
        ensures
            c == ToolCategory::LatheInsert,
    {
        ToolCategory::LatheInsert
    }

    pub fn get_degree(&self) -> (d: u64)
        ensures
            d == self.degree,
    {
        self.degree
    }

    pub fn get_name(&self) -> (n: String)
        ensures
            n == self.name,
    {
        self.name.clone()
    }

    pub fn set_color(&mut self, color: Color)
        ensures
            *final(self) == (TrigonInsert { color, ..*old(self) }),
    {
        self.color = color;
    }

    pub fn get_color(&self) -> (c: Color)
        ensures
            c == self.color,
    {
        self.color
    }

    /// Fixed tag identifying the concrete kind.
    pub fn get_type(&self) -> (t: String)
        ensures
            t@ == "Trigon"@,
    {
        "Trigon".to_owned()
    }
}

impl Clone for TrigonInsert {
    fn clone(&self) -> (c: Self)
        ensures
            c == *self,
    {
        TrigonInsert { name: self.name.clone(), degree: self.degree, color: self.color }
    }
}

impl Default for TrigonInsert {
    /// The stock insert template: 35 degrees, green.
    fn default() -> (t: TrigonInsert)
        ensures
            t.spec_is_stock(),
    {
        TrigonInsert { name: "Trigon insert".to_owned(), degree: 35, color: Color::green() }
    }
}

/// A tool is one of the concrete kinds.
#[derive(Debug, PartialEq)]
pub enum Tool {
    Drill(Drill),
    Mill(Mill),
    TrigonInsert(TrigonInsert),
}

impl Tool {
    /// Category of the concrete kind.
    pub open spec fn spec_category(self) -> ToolCategory {
        match self {
            Tool::Drill(_) => ToolCategory::Rotating,
            Tool::Mill(_) => ToolCategory::Rotating,
            Tool::TrigonInsert(_) => ToolCategory::LatheInsert,
        }
    }

    /// Diameter of a rotating tool; zero for an insert.
    pub open spec fn spec_diameter(self) -> u64 {
        match self {
            Tool::Drill(d) => d.diameter,
            Tool::Mill(m) => m.diameter,
            Tool::TrigonInsert(_) => 0u64,
        }
    }

    /// Edge angle of an insert; zero for a rotating tool.
    pub open spec fn spec_degree(self) -> u64 {
        match self {
            Tool::Drill(_) => 0u64,
            Tool::Mill(_) => 0u64,
            Tool::TrigonInsert(t) => t.degree,
        }
    }

    pub open spec fn spec_name(self) -> String {
        match self {
            Tool::Drill(d) => d.name,
            Tool::Mill(m) => m.name,
            Tool::TrigonInsert(t) => t.name,
        }
    }

    pub open spec fn spec_color(self) -> Color {
        match self {
            Tool::Drill(d) => d.color,
            Tool::Mill(m) => m.color,
            Tool::TrigonInsert(t) => t.color,
        }
    }

    /// The same tool with its display color replaced.
    pub open spec fn spec_with_color(self, color: Color) -> Tool {
        match self {
            Tool::Drill(d) => Tool::Drill(Drill { color, ..d }),
            Tool::Mill(m) => Tool::Mill(Mill { color, ..m }),
            Tool::TrigonInsert(t) => Tool::TrigonInsert(TrigonInsert { color, ..t }),
        }
    }

    /// Whether two tools are of the same concrete kind.
    pub open spec fn spec_same_kind(self, other: Tool) -> bool {
        match (self, other) {
            (Tool::Drill(_), Tool::Drill(_)) => true,
            (Tool::Mill(_), Tool::Mill(_)) => true,
            (Tool::TrigonInsert(_), Tool::TrigonInsert(_)) => true,
            _ => false,
        }
    }

    pub fn get_category(&self) -> (c: ToolCategory)
        ensures
            c == self.spec_category(),
    {
        match self {
            Tool::Drill(d) => d.get_category(),
            Tool::Mill(m) => m.get_category(),
            Tool::TrigonInsert(t) => t.get_category(),
        }
    }

    pub fn get_diameter(&self) -> (d: u64)
        ensures
            d == self.spec_diameter(),
    {
        match self {
            Tool::Drill(d) => d.get_diameter(),
            Tool::Mill(m) => m.get_diameter(),
            Tool::TrigonInsert(_) => 0,
        }
    }

    pub fn get_degree(&self) -> (d: u64)
        ensures
            d == self.spec_degree(),
    {
        match self {
            Tool::Drill(_) => 0,
            Tool::Mill(_) => 0,
            Tool::TrigonInsert(t) => t.get_degree(),
        }
    }

    pub fn get_name(&self) -> (n: String)
        ensures
            n == self.spec_name(),
    {
        match self {
            Tool::Drill(d) => d.get_name(),
            Tool::Mill(m) => m.get_name(),
            Tool::TrigonInsert(t) => t.get_name(),
        }
    }

    pub fn set_color(&mut self, color: Color)
        ensures
            *final(self) == old(self).spec_with_color(color),
    {
        match self {
            Tool::Drill(d) => d.set_color(color),
            Tool::Mill(m) => m.set_color(color),
            Tool::TrigonInsert(t) => t.set_color(color),
        }
    }

    pub fn get_color(&self) -> (c: Color)
        ensures
            c == self.spec_color(),
    {
        match self {
            Tool::Drill(d) => d.get_color(),
            Tool::Mill(m) => m.get_color(),
            Tool::TrigonInsert(t) => t.get_color(),
        }
    }

    /// Fixed tag identifying the concrete kind.
    pub fn get_type(&self) -> (t: String)
        ensures
            self is Drill ==> t@ == "Drill"@,
            self is Mill ==> t@ == "Mill"@,
            self is TrigonInsert ==> t@ == "Trigon"@,
    {
        match self {
            Tool::Drill(d) => d.get_type(),
            Tool::Mill(m) => m.get_type(),
            Tool::TrigonInsert(t) => t.get_type(),
        }
    }

    /// Whether the other tool is of the same concrete kind.
    pub fn same_kind(&self, other: &Tool) -> (r: bool)
        ensures
            r == self.spec_same_kind(*other),
    {
        match (self, other) {
            (Tool::Drill(_), Tool::Drill(_)) => true,
            (Tool::Mill(_), Tool::Mill(_)) => true,
            (Tool::TrigonInsert(_), Tool::TrigonInsert(_)) => true,
            _ => false,
        }
    }
}

impl Clone for Tool {
    fn clone(&self) -> (c: Self)
        ensures
            c == *self,
    {
        match self {
            Tool::Drill(d) => Tool::Drill(d.clone()),
            Tool::Mill(m) => Tool::Mill(m.clone()),
            Tool::TrigonInsert(t) => Tool::TrigonInsert(t.clone()),
        }
    }
}

/// Commit the add-rotating-tool form: append a copy of the selected rotating
/// template to the library's tool pool, close the form and return to the
/// magazine view. The template pool itself is unchanged.
pub fn add_rotating_tool(app: &mut ManagingApp)
    requires
        (old(app).selections.selected_rotating_tool_index as int) < old(
            app,
        ).gui_singletons.rotating_tools@.len(),
    ensures
        *final(app) == (ManagingApp {
            library: crate::library::Library {
                tools: final(app).library.tools,
                ..old(app).library
            },
            app_states: ActiveState {
                add_tool_state: None,
                app_state: AppState::ShowMagazine,
                ..old(app).app_states
            },
            ..*old(app)
        }),
        final(app).library.tools@ == old(app).library.tools@.push(
            old(app).gui_singletons.rotating_tools@[old(
                app,
            ).selections.selected_rotating_tool_index as int],
        ),
{
    let i = app.selections.selected_rotating_tool_index;
    let cloned_tool = app.gui_singletons.rotating_tools[i].clone();
    app.library.tools.push(cloned_tool);
    app.app_states.add_tool_state = None;
    app.app_states.app_state = AppState::ShowMagazine;
}

/// Commit the add-insert-tool form: append a copy of the selected insert
/// template to the library's tool pool, close the form and return to the
/// magazine view. The template pool itself is unchanged.
pub fn add_insert_tool(app: &mut ManagingApp)
    requires
        (old(app).selections.selected_insert_tool_index as int) < old(
            app,
        ).gui_singletons.insert_tools@.len(),
    ensures
        *final(app) == (ManagingApp {
            library: crate::library::Library {
                tools: final(app).library.tools,
                ..old(app).library
            },
            app_states: ActiveState {
                add_tool_state: None,
                app_state: AppState::ShowMagazine,
                ..old(app).app_states
            },
            ..*old(app)
        }),
        final(app).library.tools@ == old(app).library.tools@.push(
            old(app).gui_singletons.insert_tools@[old(
                app,
            ).selections.selected_insert_tool_index as int],
        ),
{
    let i = app.selections.selected_insert_tool_index;
    let cloned_tool = app.gui_singletons.insert_tools[i].clone();
    app.library.tools.push(cloned_tool);
    app.app_states.add_tool_state = None;
    app.app_states.app_state = AppState::ShowMagazine;
}

} // verus!
