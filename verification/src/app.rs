//! The application state and the operations the shell drives: resetting
//! transient state, choosing the display filter and sort order, computing the
//! display projection, and propagating template colors.

use vstd::prelude::*;

use crate::adapter::Adapter;
use crate::holder::Holder;
use crate::library::Library;
use crate::machine::Machine;
use crate::magazine::{
    get_sorted_by_degree, get_sorted_by_slot, get_sorted_by_tool_diameter, spec_apply_filter,
    spec_filter_by_category, spec_sort, Magazine, MagazineSlot,
};
use crate::resources::{
    ActiveState, AppState, GuiSingletons, MagazineLibraryMovingSelections, Selections, SortBy,
    ToolState,
};
use crate::tool::{Tool, ToolCategory};

verus! {

/// The whole in-process application state: the machines, the library of
/// unassigned entities, the template registry, and the selection state.
#[derive(Debug, PartialEq)]
pub struct ManagingApp {
    pub machines: Vec<Machine>,
    pub selections: Selections,
    pub app_states: ActiveState,
    pub library: Library,
    pub gui_singletons: GuiSingletons,
    pub move_selections: MagazineLibraryMovingSelections,
}

impl ManagingApp {
    /// Index of the selected machine, or -1 when none is selected.
    pub open spec fn spec_machine_idx(self) -> int {
        match self.selections.machine {
            Some(m) => m as int,
            None => -1,
        }
    }

    /// Index of the selected machine's current magazine, or -1 when no
    /// machine is selected or it has no current magazine.
    pub open spec fn spec_magazine_idx(self) -> int {
        if 0 <= self.spec_machine_idx() < self.machines@.len() {
            match self.machines@[self.spec_machine_idx()].current_magazine {
                Some(g) => g as int,
                None => -1,
            }
        } else {
            -1
        }
    }

    /// A machine is selected and it has a current magazine, both in range.
    pub open spec fn spec_magazine_selected(self) -> bool {
        &&& 0 <= self.spec_machine_idx() < self.machines@.len()
        &&& 0 <= self.spec_magazine_idx() < self.machines@[self.spec_machine_idx()].magazines@.len()
    }

    /// The current magazine of the selected machine.
    pub open spec fn spec_cur_magazine(self) -> Magazine {
        self.machines@[self.spec_machine_idx()].magazines@[self.spec_magazine_idx()]
    }

    /// The state after the transient dialog and move state is cleared: the
    /// magazine view is active, no dialog is open, no move endpoint or
    /// add-form template index is selected. The machines, the library and the
    /// template registry are untouched.
    pub open spec fn spec_reset(self) -> ManagingApp {
        ManagingApp {
            selections: Selections {
                selected_rotating_tool_index: 0usize,
                selected_insert_tool_index: 0usize,
                ..self.selections
            },
            app_states: ActiveState {
                app_state: AppState::ShowMagazine,
                move_state: None,
                add_tool_state: None,
                add_holder_state: None,
                add_adapter_state: None,
                magazine_content_state: None,
            },
            move_selections: MagazineLibraryMovingSelections::spec_cleared(),
            ..self
        }
    }

    /// `machines` is `self.machines` with only the current magazine's
    /// contents replaced by `c`; every other machine, magazine and field is
    /// unchanged.
    pub open spec fn spec_machines_with_cur_contents(
        self,
        c: Seq<MagazineSlot>,
        machines: Seq<Machine>,
    ) -> bool {
        let m = self.spec_machine_idx();
        let g = self.spec_magazine_idx();
        &&& machines.len() == self.machines@.len()
        &&& forall|i: int|
            0 <= i < machines.len() && i != m ==> machines[i] == self.machines@[i]
        &&& machines[m].name == self.machines@[m].name
        &&& machines[m].number_of_magazines == self.machines@[m].number_of_magazines
        &&& machines[m].magazine_size == self.machines@[m].magazine_size
        &&& machines[m].current_magazine == self.machines@[m].current_magazine
        &&& machines[m].magazines@.len() == self.machines@[m].magazines@.len()
        &&& forall|j: int|
            0 <= j < machines[m].magazines@.len() && j != g ==> machines[m].magazines@[j]
                == self.machines@[m].magazines@[j]
        &&& machines[m].magazines@[g].name == self.machines@[m].magazines@[g].name
        &&& machines[m].magazines@[g].contents@ == c
    }
}

impl Default for ManagingApp {
    /// The empty application: no machines, empty library, stock templates.
    fn default() -> (a: ManagingApp)
        ensures
            a.machines@.len() == 0,
            a.selections == (Selections {
                machine: None,
                selected_rotating_tool_index: 0usize,
                selected_insert_tool_index: 0usize,
                selected_holder_index: 0usize,
                selected_adapter_index: 0usize,
            }),
            a.app_states == (ActiveState {
                app_state: AppState::ShowMagazine,
                move_state: None,
                add_tool_state: None,
                add_holder_state: None,
                add_adapter_state: None,
                magazine_content_state: None,
            }),
            a.library.tools@.len() == 0,
            a.library.holders@.len() == 0,
            a.library.adapters@.len() == 0,
            a.move_selections == MagazineLibraryMovingSelections::spec_cleared(),
    {
        ManagingApp {
            machines: Vec::new(),
            selections: Selections::default(),
            app_states: ActiveState::default(),
            library: Library::default(),
            gui_singletons: GuiSingletons::default(),
            move_selections: MagazineLibraryMovingSelections::cleared(),
        }
    }
}

/// Return the application to the idle magazine view: close any dialog, clear
/// the pending move and the add-form template selections. Machines, library
/// and templates are untouched.
pub fn reset_states(app: &mut ManagingApp)
    ensures
        *final(app) == old(app).spec_reset(),
{
    app.app_states.app_state = AppState::ShowMagazine;
    app.app_states.add_tool_state = None;
    app.app_states.add_holder_state = None;
    app.app_states.add_adapter_state = None;
    app.app_states.magazine_content_state = None;
    app.selections.selected_rotating_tool_index = 0;
    app.selections.selected_insert_tool_index = 0;
    app.app_states.move_state = None;
    app.move_selections = MagazineLibraryMovingSelections::cleared();
}

/// Record the tool-category filter the user picked. The projection itself is
/// recomputed on demand by `display_projection`.
pub fn filter_by_tool_category(app: &mut ManagingApp, selection: Option<ToolState>)
    ensures
        *final(app) == (ManagingApp {
            gui_singletons: GuiSingletons {
                tool_filter: selection,
                ..old(app).gui_singletons
            },
            ..*old(app)
        }),
{
    app.gui_singletons.tool_filter = selection;
}

/// Record the sort order the user picked. Choosing the diameter sort also
/// applies the rotating filter, and choosing the degree sort the insert
/// filter; the slot sort leaves the filter as it is.
pub fn sort_by(app: &mut ManagingApp, choice: SortBy)
    ensures
        *final(app) == (ManagingApp {
            gui_singletons: GuiSingletons {
                sort_by: choice,
                tool_filter: match choice {
                    SortBy::Slot => old(app).gui_singletons.tool_filter,
                    SortBy::Diameter => Some(ToolState::Rotating),
                    SortBy::Degree => Some(ToolState::Insert),
                },
                ..old(app).gui_singletons
            },
            ..*old(app)
        }),
{
    match choice {
        SortBy::Slot => {
            app.gui_singletons.sort_by = SortBy::Slot;
        },
        SortBy::Diameter => {
            app.gui_singletons.sort_by = SortBy::Diameter;
            app.gui_singletons.tool_filter = Some(ToolState::Rotating);
        },
        SortBy::Degree => {
            app.gui_singletons.sort_by = SortBy::Degree;
            app.gui_singletons.tool_filter = Some(ToolState::Insert);
        },
    }
}

/// The display projection a filter and sort selection denote, over the
/// authoritative contents: the diameter sort implies the rotating filter and
/// the degree sort the insert filter, while the slot sort respects whatever
/// filter is active.
pub open spec fn spec_projection(
    c: Seq<MagazineSlot>,
    filter: Option<ToolState>,
    sort: SortBy,
) -> Seq<MagazineSlot> {
    match sort {
        SortBy::Slot => spec_sort(SortBy::Slot, spec_apply_filter(c, filter)),
        SortBy::Diameter => spec_sort(
            SortBy::Diameter,
            spec_filter_by_category(c, ToolCategory::Rotating),
        ),
        SortBy::Degree => spec_sort(
            SortBy::Degree,
            spec_filter_by_category(c, ToolCategory::LatheInsert),
        ),
    }
}

/// Compute the display projection of the current magazine under the active
/// filter and sort selection. The magazine itself is never mutated; the
/// projection is derived on demand.
pub fn display_projection(app: &ManagingApp) -> (r: Vec<MagazineSlot>)
    requires
        app.spec_magazine_selected(),
    ensures
        r@ == spec_projection(
            app.spec_cur_magazine().contents@,
            app.gui_singletons.tool_filter,
            app.gui_singletons.sort_by,
        ),
{
    let m = match app.selections.machine {
        Some(m) => m,
        None => unreached(),
    };
    let machine = &app.machines[m];
    let g = match machine.current_magazine {
        Some(g) => g,
        None => unreached(),
    };
    let magazine = &machine.magazines[g];
    match app.gui_singletons.sort_by {
        SortBy::Slot => get_sorted_by_slot(&magazine.contents, app.gui_singletons.tool_filter),
        SortBy::Diameter => get_sorted_by_tool_diameter(&magazine.contents),
        SortBy::Degree => get_sorted_by_degree(&magazine.contents),
    }
}

/// A tool recolored by a template pool: each template whose concrete kind
/// matches the tool's copies its color on, in pool order, so the last
/// matching template wins. A tool no template matches keeps its color.
pub open spec fn spec_recolor_tool(t: Tool, templates: Seq<Tool>) -> Tool
    decreases templates.len(),
{
    if templates.len() == 0 {
        t
    } else {
        let prev = spec_recolor_tool(t, templates.drop_last());
        if templates.last().spec_same_kind(t) {
            prev.spec_with_color(templates.last().spec_color())
        } else {
            prev
        }
    }
}

/// A holder recolored by a template pool; the last matching template wins.
pub open spec fn spec_recolor_holder(h: Holder, templates: Seq<Holder>) -> Holder
    decreases templates.len(),
{
    if templates.len() == 0 {
        h
    } else {
        let prev = spec_recolor_holder(h, templates.drop_last());
        if templates.last().spec_same_kind(h) {
            prev.spec_with_color(templates.last().spec_color())
        } else {
            prev
        }
    }
}

/// An adapter recolored by a template pool; the last matching template wins.
pub open spec fn spec_recolor_adapter(a: Adapter, templates: Seq<Adapter>) -> Adapter
    decreases templates.len(),
{
    if templates.len() == 0 {
        a
    } else {
        let prev = spec_recolor_adapter(a, templates.drop_last());
        if templates.last().spec_same_kind(a) {
            prev.spec_with_color(templates.last().spec_color())
        } else {
            prev
        }
    }
}

/// A slot recolored from the template registry: its tool takes the color of
/// the last matching template across the rotating pool then the insert pool;
/// its holder and adapter take theirs from the holder and adapter pools.
/// Index and comment are untouched, as is every absent occupant.
pub open spec fn spec_recolor_slot(s: MagazineSlot, g: GuiSingletons) -> MagazineSlot {
    MagazineSlot {
        tool: match s.tool {
            Some(t) => Some(
                spec_recolor_tool(spec_recolor_tool(t, g.rotating_tools@), g.insert_tools@),
            ),
            None => None,
        },
        holder: match s.holder {
            Some(h) => Some(spec_recolor_holder(h, g.holders@)),
            None => None,
        },
        adapter: match s.adapter {
            Some(a) => Some(spec_recolor_adapter(a, g.adapters@)),
            None => None,
        },
        ..s
    }
}

/// The given tool recolored by the template pool.
fn recolored_tool(tool: &Tool, templates: &Vec<Tool>) -> (r: Tool)
    ensures
        r == spec_recolor_tool(*tool, templates@),
{
    let mut result = tool.clone();
    let mut i: usize = 0;
    while i < templates.len()
        invariant
            i <= templates@.len(),
            result == spec_recolor_tool(*tool, templates@.take(i as int)),
        decreases templates@.len() - i,
    {
        if templates[i].same_kind(tool) {
            let c = templates[i].get_color();
            result.set_color(c);
        }
        proof {
            assert(templates@.take(i + 1).drop_last() =~= templates@.take(i as int));
            assert(templates@.take(i + 1).last() == templates@[i as int]);
        }
        i = i + 1;
    }
    proof {
        assert(templates@.take(templates@.len() as int) =~= templates@);
    }
    result
}

/// The given holder recolored by the template pool.
fn recolored_holder(holder: &Holder, templates: &Vec<Holder>) -> (r: Holder)
    ensures
        r == spec_recolor_holder(*holder, templates@),
{
    let mut result = holder.clone();
    let mut i: usize = 0;
    while i < templates.len()
        invariant
            i <= templates@.len(),
            result == spec_recolor_holder(*holder, templates@.take(i as int)),
        decreases templates@.len() - i,
    {
        if templates[i].same_kind(holder) {
            let c = templates[i].get_color();
            result.set_color(c);
        }
        proof {
            assert(templates@.take(i + 1).drop_last() =~= templates@.take(i as int));
            assert(templates@.take(i + 1).last() == templates@[i as int]);
        }
        i = i + 1;
    }
    proof {
        assert(templates@.take(templates@.len() as int) =~= templates@);
    }
    result
}

/// The given adapter recolored by the template pool.
fn recolored_adapter(adapter: &Adapter, templates: &Vec<Adapter>) -> (r: Adapter)
    ensures
        r == spec_recolor_adapter(*adapter, templates@),
{
    let mut result = adapter.clone();
    let mut i: usize = 0;
    while i < templates.len()
        invariant
            i <= templates@.len(),
            result == spec_recolor_adapter(*adapter, templates@.take(i as int)),
        decreases templates@.len() - i,
    {
        if templates[i].same_kind(adapter) {
            let c = templates[i].get_color();
            result.set_color(c);
        }
        proof {
            assert(templates@.take(i + 1).drop_last() =~= templates@.take(i as int));
            assert(templates@.take(i + 1).last() == templates@[i as int]);
        }
        i = i + 1;
    }
    proof {
        assert(templates@.take(templates@.len() as int) =~= templates@);
    }
    result
}

/// Recolor every occupied slot of the given contents from the template
/// registry: a full scan of slots against template pools.
pub fn apply_colors_to_contents(
    contents: &mut Vec<MagazineSlot>,
    gui_singletons: &GuiSingletons,
)
    ensures
        final(contents)@.len() == old(contents)@.len(),
        forall|i: int|
            0 <= i < old(contents)@.len() ==> final(contents)@[i] == spec_recolor_slot(
                #[trigger] old(contents)@[i],
                *gui_singletons,
            ),
{
    let mut i: usize = 0;
    while i < contents.len()
        invariant
            i <= contents@.len(),
            contents@.len() == old(contents)@.len(),
            forall|p: int|
                0 <= p < i ==> contents@[p] == spec_recolor_slot(
                    #[trigger] old(contents)@[p],
                    *gui_singletons,
                ),
            forall|p: int| i <= p < contents@.len() ==> contents@[p] == old(contents)@[p],
        decreases contents@.len() - i,
    {
        let ghost pre = contents@;
        let slot = contents.remove(i);
        let MagazineSlot { index, tool, holder, adapter, comment } = slot;
        let new_tool: Option<Tool> = match tool {
            Some(t) => {
                let t1 = recolored_tool(&t, &gui_singletons.rotating_tools);
                let t2 = recolored_tool(&t1, &gui_singletons.insert_tools);
                Some(t2)
            },
            None => None,
        };
        let new_holder: Option<Holder> = match holder {
            Some(h) => Some(recolored_holder(&h, &gui_singletons.holders)),
            None => None,
        };
        let new_adapter: Option<Adapter> = match adapter {
            Some(a) => Some(recolored_adapter(&a, &gui_singletons.adapters)),
            None => None,
        };
        let new_slot = MagazineSlot {
            index,
            tool: new_tool,
            holder: new_holder,
            adapter: new_adapter,
            comment,
        };
        contents.insert(i, new_slot);
        proof {
            assert(contents@ =~= pre.update(i as int, new_slot));
        }
        i = i + 1;
    }
}

/// Recolor every slot of every magazine of every machine from the template
/// registry. Magazine and machine names, sizes and selections are untouched.
pub fn apply_colors(app: &mut ManagingApp)
    ensures
        final(app).machines@.len() == old(app).machines@.len(),
        forall|i: int|
            0 <= i < old(app).machines@.len() ==> {
                let m_old = #[trigger] old(app).machines@[i];
                let m_new = final(app).machines@[i];
                &&& m_new.name == m_old.name
                &&& m_new.number_of_magazines == m_old.number_of_magazines
                &&& m_new.magazine_size == m_old.magazine_size
                &&& m_new.current_magazine == m_old.current_magazine
                &&& m_new.magazines@.len() == m_old.magazines@.len()
                &&& forall|j: int|
                    0 <= j < m_old.magazines@.len() ==> {
                        let g_old = #[trigger] m_old.magazines@[j];
                        let g_new = m_new.magazines@[j];
                        &&& g_new.name == g_old.name
                        &&& g_new.contents@.len() == g_old.contents@.len()
                        &&& forall|s: int|
                            0 <= s < g_old.contents@.len() ==> g_new.contents@[s]
                                == spec_recolor_slot(
                                #[trigger] g_old.contents@[s],
                                old(app).gui_singletons,
                            )
                    }
            },
        final(app).selections == old(app).selections,
        final(app).app_states == old(app).app_states,
        final(app).library == old(app).library,
        final(app).gui_singletons == old(app).gui_singletons,
        final(app).move_selections == old(app).move_selections,
{
    let mut i: usize = 0;
    while i < app.machines.len()
        invariant
            i <= app.machines@.len(),
            app.machines@.len() == old(app).machines@.len(),
            forall|p: int|
                0 <= p < i ==> {
                    let m_old = #[trigger] old(app).machines@[p];
                    let m_new = app.machines@[p];
                    &&& m_new.name == m_old.name
                    &&& m_new.number_of_magazines == m_old.number_of_magazines
                    &&& m_new.magazine_size == m_old.magazine_size
                    &&& m_new.current_magazine == m_old.current_magazine
                    &&& m_new.magazines@.len() == m_old.magazines@.len()
                    &&& forall|j: int|
                        0 <= j < m_old.magazines@.len() ==> {
                            let g_old = #[trigger] m_old.magazines@[j];
                            let g_new = m_new.magazines@[j];
                            &&& g_new.name == g_old.name
                            &&& g_new.contents@.len() == g_old.contents@.len()
                            &&& forall|s: int|
                                0 <= s < g_old.contents@.len() ==> g_new.contents@[s]
                                    == spec_recolor_slot(
                                    #[trigger] g_old.contents@[s],
                                    old(app).gui_singletons,
                                )
                        }
                },
            forall|p: int|
                i <= p < app.machines@.len() ==> app.machines@[p] == old(app).machines@[p],
            app.selections == old(app).selections,
            app.app_states == old(app).app_states,
            app.library == old(app).library,
            app.gui_singletons == old(app).gui_singletons,
            app.move_selections == old(app).move_selections,
        decreases app.machines@.len() - i,
    {
        let ghost machines_pre = app.machines@;
        let mut machine = app.machines.remove(i);
        let ghost machine_old = machine;
        let mut j: usize = 0;
        while j < machine.magazines.len()
            invariant
                j <= machine.magazines@.len(),
                machine.magazines@.len() == machine_old.magazines@.len(),
                machine.name == machine_old.name,
                machine.number_of_magazines == machine_old.number_of_magazines,
                machine.magazine_size == machine_old.magazine_size,
                machine.current_magazine == machine_old.current_magazine,
                forall|q: int|
                    0 <= q < j ==> {
                        let g_old = #[trigger] machine_old.magazines@[q];
                        let g_new = machine.magazines@[q];
                        &&& g_new.name == g_old.name
                        &&& g_new.contents@.len() == g_old.contents@.len()
                        &&& forall|s: int|
                            0 <= s < g_old.contents@.len() ==> g_new.contents@[s]
                                == spec_recolor_slot(
                                #[trigger] g_old.contents@[s],
                                app.gui_singletons,
                            )
                    },
                forall|q: int|
                    j <= q < machine.magazines@.len() ==> machine.magazines@[q]
                        == machine_old.magazines@[q],
            decreases machine.magazines@.len() - j,
        {
            let ghost magazines_pre = machine.magazines@;
            let mut magazine = machine.magazines.remove(j);
            apply_colors_to_contents(&mut magazine.contents, &app.gui_singletons);
            machine.magazines.insert(j, magazine);
            proof {
                assert(machine.magazines@ =~= magazines_pre.update(j as int, machine.magazines@[j as int]));
            }
            j = j + 1;
        }
        app.machines.insert(i, machine);
        proof {
            assert(app.machines@ =~= machines_pre.update(i as int, app.machines@[i as int]));
        }
        i = i + 1;
    }
}

} // verus!
