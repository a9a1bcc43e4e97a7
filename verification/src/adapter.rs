//! Tool adapters. The one concrete kind is the hydraulic adapter.

use vstd::prelude::*;

use crate::app::ManagingApp;
use crate::resources::{ActiveState, AppState, Color};

verus! {

/// Category classifier of an adapter.
#[derive(Clone, Copy, Debug, PartialEq, Eq, Structural)]
pub enum AdapterCategory {
    Empty,
    Standard,
}

/// A hydraulic adapter.
#[derive(Debug, PartialEq)]
pub struct Hydraulic {
    pub name: String,
    pub color: Color,
}

impl Hydraulic {
    /// The stock hydraulic-adapter template: green.
    pub open spec fn spec_is_stock(self) -> bool {
        &&& self.name@ == "Hydraulic"@
        &&& self.color == (Color { r: 0u8, g: 255u8, b: 0u8, a: 255u8 })
    }

    pub fn get_name(&self) -> (n: String)
        ensures
            n == self.name,
    {
        self.name.clone()
    }

    pub fn set_color(&mut self, color: Color)
        ensures
            *final(self) == (Hydraulic { color, ..*old(self) }),
    {
        self.color = color;
    }

    pub fn get_color(&self) -> (c: Color)
        ensures
            c == self.color,
    {
        self.color
    }

    /// Category tag: a hydraulic adapter is a standard adapter.
    pub fn get_category(&self) -> (c: AdapterCategory)
        ensures
            c == AdapterCategory::Standard,
    {
        AdapterCategory::Standard
    }

    /// Fixed tag identifying the concrete kind.
    pub fn get_type(&self) -> (t: String)
        ensures
            t@ == "Hydraulic"@,
    {
        "Hydraulic".to_owned()
    }
}

impl Clone for Hydraulic {
    fn clone(&self) -> (c: Self)
        ensures
            c == *self,
    {
        Hydraulic { name: self.name.clone(), color: self.color }
    }
}

impl Default for Hydraulic {
    /// The stock hydraulic-adapter template: green.
    fn default() -> (h: Hydraulic)
        ensures
            h.spec_is_stock(),
    {
        Hydraulic { name: "Hydraulic".to_owned(), color: Color::green() }
    }
}

/// An adapter is one of the concrete kinds.
#[derive(Debug, PartialEq)]
pub enum Adapter {
    Hydraulic(Hydraulic),
}

impl Adapter {
    pub open spec fn spec_name(self) -> String {
        match self {
            Adapter::Hydraulic(h) => h.name,
        }
    }

    pub open spec fn spec_color(self) -> Color {
        match self {
            Adapter::Hydraulic(h) => h.color,
        }
    }

    /// The same adapter with its display color replaced.
    pub open spec fn spec_with_color(self, color: Color) -> Adapter {
        match self {
            Adapter::Hydraulic(h) => Adapter::Hydraulic(Hydraulic { color, ..h }),
        }
    }

    /// Whether two adapters are of the same concrete kind.
    pub open spec fn spec_same_kind(self, other: Adapter) -> bool {
        match (self, other) {
            (Adapter::Hydraulic(_), Adapter::Hydraulic(_)) => true,
        }
    }

    pub fn get_name(&self) -> (n: String)
        ensures
            n == self.spec_name(),
    {
        match self {
            Adapter::Hydraulic(h) => h.get_name(),
        }
    }

    pub fn set_color(&mut self, color: Color)
        ensures
            *final(self) == old(self).spec_with_color(color),
    {
        match self {
            Adapter::Hydraulic(h) => h.set_color(color),
        }
    }

    pub fn get_color(&self) -> (c: Color)
        ensures
            c == self.spec_color(),
    {
        match self {
            Adapter::Hydraulic(h) => h.get_color(),
        }
    }

    pub fn get_category(&self) -> (c: AdapterCategory)
        ensures
            c == AdapterCategory::Standard,
    {
        match self {
            Adapter::Hydraulic(h) => h.get_category(),
        }
    }

    /// Fixed tag identifying the concrete kind.
    pub fn get_type(&self) -> (t: String)
        ensures
            self is Hydraulic ==> t@ == "Hydraulic"@,
    {
        match self {
            Adapter::Hydraulic(h) => h.get_type(),
        }
    }

    /// Whether the other adapter is of the same concrete kind.
    pub fn same_kind(&self, other: &Adapter) -> (r: bool)
        ensures
            r == self.spec_same_kind(*other),
    {
        match (self, other) {
            (Adapter::Hydraulic(_), Adapter::Hydraulic(_)) => true,
        }
    }
}

impl Clone for Adapter {
    fn clone(&self) -> (c: Self)
        ensures
            c == *self,
    {
        match self {
            Adapter::Hydraulic(h) => Adapter::Hydraulic(h.clone()),
        }
    }
}

/// Commit the add-adapter form: append a copy of the selected adapter
/// template to the library's adapter pool, close the form and return to the
/// magazine view. The template pool itself is unchanged.
pub fn add_standard_adapter(app: &mut ManagingApp)
    requires
        (old(app).selections.selected_adapter_index as int) < old(
            app,
        ).gui_singletons.adapters@.len(),
    ensures
        *final(app) == (ManagingApp {
            library: crate::library::Library {
                adapters: final(app).library.adapters,
                ..old(app).library
            },
            app_states: ActiveState {
                add_adapter_state: None,
                app_state: AppState::ShowMagazine,
                ..old(app).app_states
            },
            ..*old(app)
        }),
        final(app).library.adapters@ == old(app).library.adapters@.push(
            old(app).gui_singletons.adapters@[old(app).selections.selected_adapter_index as int],
        ),
{
    let i = app.selections.selected_adapter_index;
    let cloned_adapter = app.gui_singletons.adapters[i].clone();
    app.library.adapters.push(cloned_adapter);
    app.app_states.add_adapter_state = None;
    app.app_states.app_state = AppState::ShowMagazine;
}

} // verus!
