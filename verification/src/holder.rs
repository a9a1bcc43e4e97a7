//! Tool holders. The one concrete kind is the collet.

use vstd::prelude::*;

use crate::app::ManagingApp;
use crate::resources::{ActiveState, AppState, Color};

verus! {

/// Category classifier of a holder.
#[derive(Clone, Copy, Debug, PartialEq, Eq, Structural)]
pub enum HolderCategory {
    Empty,
    MillingHolder,
    DrillingHolder,
    TurningHolder,
    SpecialtyHolder,
}

/// A collet holder.
#[derive(Debug, PartialEq)]
pub struct Collet {
    pub name: String,
    pub color: Color,
}

impl Collet {
    /// The stock collet template: light blue.
    pub open spec fn spec_is_stock(self) -> bool {
        &&& self.name@ == "Collet"@
        &&& self.color == (Color { r: 173u8, g: 216u8, b: 230u8, a: 255u8 })
    }

    pub fn get_name(&self) -> (n: String)
        ensures
            n == self.name,
    {
        self.name.clone()
    }

    pub fn set_color(&mut self, color: Color)
        ensures
            *final(self) == (Collet { color, ..*old(self) }),
    {
        self.color = color;
    }

    pub fn get_color(&self) -> (c: Color)
        ensures
            c == self.color,
    {
        self.color
    }

    /// Category tag: a collet is a milling holder.
    pub fn get_category(&self) -> (c: HolderCategory)
        ensures
            c == HolderCategory::MillingHolder,
    {
        HolderCategory::MillingHolder
    }

    /// Fixed tag identifying the concrete kind.
    pub fn get_type(&self) -> (t: String)
        ensures
            t@ == "Collet"@,
    {
        "Collet".to_owned()
    }
}

impl Clone for Collet {
    fn clone(&self) -> (c: Self)
        ensures
            c == *self,
    {
        Collet { name: self.name.clone(), color: self.color }
    }
}

impl Default for Collet {
    /// The stock collet template: light blue.
    fn default() -> (c: Collet)
        ensures
            c.spec_is_stock(),
    {
        Collet { name: "Collet".to_owned(), color: Color::light_blue() }
    }
}

/// A holder is one of the concrete kinds.
#[derive(Debug, PartialEq)]
pub enum Holder {
    Collet(Collet),
}

impl Holder {
    pub open spec fn spec_name(self) -> String {
        match self {
            Holder::Collet(c) => c.name,
        }
    }

    pub open spec fn spec_color(self) -> Color {
        match self {
            Holder::Collet(c) => c.color,
        }
    }

    /// The same holder with its display color replaced.
    pub open spec fn spec_with_color(self, color: Color) -> Holder {
        match self {
            Holder::Collet(c) => Holder::Collet(Collet { color, ..c }),
        }
    }

    /// Whether two holders are of the same concrete kind.
    pub open spec fn spec_same_kind(self, other: Holder) -> bool {
        match (self, other) {
            (Holder::Collet(_), Holder::Collet(_)) => true,
        }
    }

    pub fn get_name(&self) -> (n: String)
        ensures
            n == self.spec_name(),
    {
        match self {
            Holder::Collet(c) => c.get_name(),
        }
    }

    pub fn set_color(&mut self, color: Color)
        ensures
            *final(self) == old(self).spec_with_color(color),
    {
        match self {
            Holder::Collet(c) => c.set_color(color),
        }
    }

    pub fn get_color(&self) -> (c: Color)
        ensures
            c == self.spec_color(),
    {
        match self {
            Holder::Collet(c) => c.get_color(),
        }
    }

    pub fn get_category(&self) -> (c: HolderCategory)
        ensures
            c == HolderCategory::MillingHolder,
    {
        match self {
            Holder::Collet(c) => c.get_category(),
        }
    }

    /// Fixed tag identifying the concrete kind.
    pub fn get_type(&self) -> (t: String)
        ensures
            self is Collet ==> t@ == "Collet"@,
    {
        match self {
            Holder::Collet(c) => c.get_type(),
        }
    }

    /// Whether the other holder is of the same concrete kind.
    pub fn same_kind(&self, other: &Holder) -> (r: bool)
        ensures
            r == self.spec_same_kind(*other),
    {
        match (self, other) {
            (Holder::Collet(_), Holder::Collet(_)) => true,
        }
    }
}

impl Clone for Holder {
    fn clone(&self) -> (c: Self)
        ensures
            c == *self,
    {
        match self {
            Holder::Collet(c) => Holder::Collet(c.clone()),
        }
    }
}

/// Commit the add-holder form: append a copy of the selected holder template
/// to the library's holder pool, close the form and return to the magazine
/// view. The template pool itself is unchanged.
pub fn add_standard_holder(app: &mut ManagingApp)
    requires
        (old(app).selections.selected_holder_index as int) < old(
            app,
        ).gui_singletons.holders@.len(),
    ensures
        *final(app) == (ManagingApp {
            library: crate::library::Library {
                holders: final(app).library.holders,
                ..old(app).library
            },
            app_states: ActiveState {
                add_holder_state: None,
                app_state: AppState::ShowMagazine,
                ..old(app).app_states
            },
            ..*old(app)
        }),
        final(app).library.holders@ == old(app).library.holders@.push(
            old(app).gui_singletons.holders@[old(app).selections.selected_holder_index as int],
        ),
{
    let i = app.selections.selected_holder_index;
    let cloned_holder = app.gui_singletons.holders[i].clone();
    app.library.holders.push(cloned_holder);
    app.app_states.add_holder_state = None;
    app.app_states.app_state = AppState::ShowMagazine;
}

} // verus!
