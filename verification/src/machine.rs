//! Machines: each owns a fixed number of fixed-size magazines and tracks
//! which magazine is current.

use vstd::prelude::*;

use crate::app::ManagingApp;
use crate::magazine::{Magazine, MagazineSlot};

verus! {

/// A machine with its magazines. `number_of_magazines` and `magazine_size`
/// are fixed at creation time.
#[derive(Debug, PartialEq)]
pub struct Machine {
    pub name: String,
    pub magazines: Vec<Magazine>,
    pub number_of_magazines: usize,
    pub magazine_size: usize,
    pub current_magazine: Option<usize>,
}

impl Machine {
    /// Well-formed: one magazine per declared position, each of the declared
    /// size, and the current-magazine index (when set) in range.
    pub open spec fn spec_wf(self) -> bool {
        &&& self.magazines@.len() == self.number_of_magazines
        &&& forall|i: int|
            0 <= i < self.magazines@.len() ==> (#[trigger] self.magazines@[i]).spec_wf(
                self.magazine_size,
            )
        &&& self.current_magazine matches Some(g) ==> (g as int) < self.magazines@.len()
    }

    /// The blank machine template the add-machine form starts from.
    pub open spec fn spec_is_template(self) -> bool {
        &&& self.name@ == "Machine"@
        &&& self.magazines@.len() == 0
        &&& self.number_of_magazines == 1usize
        &&& self.magazine_size == 1usize
        &&& self.current_magazine is None
    }

    /// The blank machine template the add-machine form starts from.
    pub fn template() -> (m: Machine)
        ensures
            m.spec_is_template(),
    {
        Machine {
            name: "Machine".to_owned(),
            magazines: Vec::new(),
            number_of_magazines: 1,
            magazine_size: 1,
            current_magazine: None,
        }
    }
}

/// The display name a newly created magazine gets from its ordinal position.
pub uninterp spec fn magazine_label(i: usize) -> Seq<char>;

/// Relies on std's string formatting to render a magazine's ordinal label;
/// the label is a function of the index alone.
#[verifier::external_body]
fn format_magazine_label(i: usize) -> (r: String)
    ensures
        r@ == magazine_label(i),
{
    format!("Magazine {}", i)
}

/// Record the machine the user picked as the active one. Nothing else of the
/// application state changes.
pub fn select_machine(app: &mut ManagingApp, machine_index: usize)
    requires
        machine_index < old(app).machines@.len(),
    ensures
        *final(app) == (ManagingApp {
            selections: crate::resources::Selections {
                machine: Some(machine_index),
                ..old(app).selections
            },
            ..*old(app)
        }),
{
    app.selections.machine = Some(machine_index);
}

/// Create a machine from the add-machine template in the GUI singletons and
/// append it: `number_of_magazines` magazines, each of `magazine_size` empty
/// slots indexed from zero, with the first magazine current. The template is
/// then reset to its blank state and the transient dialog state cleared.
/// The add-machine form offers at least one magazine, so the first can be
/// made current.
pub fn add_machine(app: &mut ManagingApp)
    requires
        old(app).gui_singletons.machine.number_of_magazines >= 1,
    ensures
        final(app).machines@.len() == old(app).machines@.len() + 1,
        forall|i: int|
            0 <= i < old(app).machines@.len() ==> #[trigger] final(app).machines@[i] == old(
                app,
            ).machines@[i],
        ({
            let m = final(app).machines@.last();
            let t = old(app).gui_singletons.machine;
            &&& m.name == t.name
            &&& m.number_of_magazines == t.number_of_magazines
            &&& m.magazine_size == t.magazine_size
            &&& m.current_magazine == Some(0usize)
            &&& m.magazines@.len() == t.number_of_magazines
            &&& forall|j: int|
                0 <= j < m.magazines@.len() ==> (#[trigger] m.magazines@[j]).name@
                    == magazine_label(j as usize)
            &&& forall|j: int|
                0 <= j < m.magazines@.len() ==> (#[trigger] m.magazines@[j]).contents@.len()
                    == t.magazine_size
            &&& forall|j: int, s: int|
                0 <= j < m.magazines@.len() && 0 <= s < t.magazine_size ==> (
                #[trigger] m.magazines@[j].contents@[s]).spec_is_empty(s as usize)
            &&& m.spec_wf()
        }),
        final(app).gui_singletons.machine.spec_is_template(),
        final(app).gui_singletons == (crate::resources::GuiSingletons {
            machine: final(app).gui_singletons.machine,
            ..old(app).gui_singletons
        }),
        final(app).library == old(app).library,
        final(app).selections == old(app).spec_reset().selections,
        final(app).app_states == old(app).spec_reset().app_states,
        final(app).move_selections
            == crate::resources::MagazineLibraryMovingSelections::spec_cleared(),
{
    let number_of_magazines = app.gui_singletons.machine.number_of_magazines;
    let magazine_size = app.gui_singletons.machine.magazine_size;
    let mut magazines: Vec<Magazine> = Vec::new();
    let mut j: usize = 0;
    while j < number_of_magazines
        invariant
            j <= number_of_magazines,
            magazines@.len() == j,
            forall|p: int|
                0 <= p < j ==> (#[trigger] magazines@[p]).name@ == magazine_label(p as usize),
            forall|p: int|
                0 <= p < j ==> (#[trigger] magazines@[p]).contents@.len() == magazine_size,
            forall|p: int, s: int|
                0 <= p < j && 0 <= s < magazine_size ==> (
                #[trigger] magazines@[p].contents@[s]).spec_is_empty(s as usize),
        decreases number_of_magazines - j,
    {
        let mut contents: Vec<MagazineSlot> = Vec::new();
        let mut s: usize = 0;
        while s < magazine_size
            invariant
                s <= magazine_size,
                contents@.len() == s,
                forall|q: int|
                    0 <= q < s ==> (#[trigger] contents@[q]).spec_is_empty(q as usize),
            decreases magazine_size - s,
        {
            contents.push(MagazineSlot::empty(s));
            s = s + 1;
        }
        let name = format_magazine_label(j);
        magazines.push(Magazine { name, contents });
        j = j + 1;
    }
    let name = app.gui_singletons.machine.name.clone();
    let machine = Machine {
        name,
        magazines,
        number_of_magazines,
        magazine_size,
        current_magazine: Some(0),
    };
    app.machines.push(machine);
    app.gui_singletons.machine = Machine::template();
    crate::app::reset_states(app);
}

} // verus!
