//! The library of unassigned entities and the move engine.
//!
//! Each move relocates one entity between a library pool and the current
//! magazine's slot of the matching kind. Moving into an occupied slot evicts
//! the occupant back to the end of the pool (a swap); moving out of an empty
//! slot is a no-op. A move whose endpoint indices are not both selected
//! changes nothing at all; a completed move always clears the transient
//! selection state. The entity is removed from the pool strictly by the
//! positional index captured at selection time.

use vstd::prelude::*;

use crate::adapter::Adapter;
use crate::app::{reset_states, ManagingApp};
use crate::holder::Holder;
use crate::magazine::MagazineSlot;
use crate::resources::MagazineContentType;
use crate::tool::Tool;

verus! {

/// The pools of entities not currently assigned to any magazine slot, one
/// ordered pool per entity kind, plus the category the library view shows.
#[derive(Debug, PartialEq)]
pub struct Library {
    pub category: MagazineContentType,
    pub tools: Vec<Tool>,
    pub holders: Vec<Holder>,
    pub adapters: Vec<Adapter>,
}

impl Default for Library {
    /// Empty pools, with the library view on the tool pool.
    fn default() -> (l: Library)
        ensures
            l.category == MagazineContentType::Tool,
            l.tools@.len() == 0,
            l.holders@.len() == 0,
            l.adapters@.len() == 0,
    {
        Library {
            category: MagazineContentType::Tool,
            tools: Vec::new(),
            holders: Vec::new(),
            adapters: Vec::new(),
        }
    }
}

/// The pool after an entity moved from position `li` into a slot whose
/// occupant of that kind was `occupant`: the moved entity leaves by its
/// position, and an evicted occupant is appended at the end.
pub open spec fn spec_pool_after_move_in<T>(pool: Seq<T>, occupant: Option<T>, li: int) -> Seq<
    T,
> {
    match occupant {
        Some(t) => pool.remove(li).push(t),
        None => pool.remove(li),
    }
}

/// The pool after a slot whose occupant of that kind was `occupant` was
/// cleared back into the library: the occupant, if any, is appended.
pub open spec fn spec_pool_after_move_out<T>(pool: Seq<T>, occupant: Option<T>) -> Seq<T> {
    match occupant {
        Some(t) => pool.push(t),
        None => pool,
    }
}

/// Move the selected library tool into the selected slot of the current
/// magazine, evicting any tool already there back to the end of the pool.
/// With either endpoint unselected this is a no-op; a completed move clears
/// the transient state.
pub fn move_tool_to_magazine(app: &mut ManagingApp)
    requires
        old(app).move_selections.selected_tool_index_library matches Some(li)
            ==> old(app).move_selections.selected_tool_index_magazine matches Some(mi) ==> {
            &&& old(app).spec_magazine_selected()
            &&& (li as int) < old(app).library.tools@.len()
            &&& (mi as int) < old(app).spec_cur_magazine().contents@.len()
        },
    ensures
        (old(app).move_selections.selected_tool_index_library is None || old(
            app,
        ).move_selections.selected_tool_index_magazine is None) ==> *final(app) == *old(app),
        old(app).move_selections.selected_tool_index_library matches Some(li)
            ==> old(app).move_selections.selected_tool_index_magazine matches Some(mi) ==> {
            let a = *old(app);
            let slot = a.spec_cur_magazine().contents@[mi as int];
            let moved = a.library.tools@[li as int];
            &&& final(app).library.tools@ == spec_pool_after_move_in(
                a.library.tools@,
                slot.tool,
                li as int,
            )
            &&& final(app).library.holders == a.library.holders
            &&& final(app).library.adapters == a.library.adapters
            &&& final(app).library.category == a.library.category
            &&& a.spec_machines_with_cur_contents(
                a.spec_cur_magazine().contents@.update(
                    mi as int,
                    MagazineSlot { tool: Some(moved), ..slot },
                ),
                final(app).machines@,
            )
            &&& final(app).selections == a.spec_reset().selections
            &&& final(app).app_states == a.spec_reset().app_states
            &&& final(app).move_selections == a.spec_reset().move_selections
            &&& final(app).gui_singletons == a.gui_singletons
        },
{
    let li_opt = app.move_selections.selected_tool_index_library;
    let mi_opt = app.move_selections.selected_tool_index_magazine;
    if li_opt.is_none() || mi_opt.is_none() {
        return ;
    }
    let li = li_opt.unwrap();
    let mi = mi_opt.unwrap();
    let m_idx = app.selections.machine.unwrap();
    let ghost machines_pre = app.machines@;
    let mut machine = app.machines.remove(m_idx);
    let g_idx = machine.current_magazine.unwrap();
    let ghost magazines_pre = machine.magazines@;
    let mut magazine = machine.magazines.remove(g_idx);
    let ghost contents_pre = magazine.contents@;
    let slot = magazine.contents.remove(mi);
    let MagazineSlot { index, tool: occupant, holder, adapter, comment } = slot;
    let moved = app.library.tools.remove(li);
    magazine.contents.insert(mi, MagazineSlot { index, tool: Some(moved), holder, adapter, comment });
    if let Some(evicted) = occupant {
        app.library.tools.push(evicted);
    }
    proof {
        assert(magazine.contents@ =~= contents_pre.update(
            mi as int,
            MagazineSlot { tool: Some(moved), ..old(app).spec_cur_magazine().contents@[mi as int] },
        ));
    }
    machine.magazines.insert(g_idx, magazine);
    proof {
        assert(machine.magazines@ =~= magazines_pre.update(
            g_idx as int,
            machine.magazines@[g_idx as int],
        ));
    }
    app.machines.insert(m_idx, machine);
    proof {
        assert(app.machines@ =~= machines_pre.update(m_idx as int, app.machines@[m_idx as int]));
    }
    reset_states(app);
}

/// Return the tool of the selected slot of the current magazine to the end of
/// the library pool and clear the slot; on an empty slot only the transient
/// state is cleared. With no slot selected this is a no-op.
pub fn move_tool_to_library(app: &mut ManagingApp)
    requires
        old(app).move_selections.selected_tool_index_magazine matches Some(mi) ==> {
            &&& old(app).spec_magazine_selected()
            &&& (mi as int) < old(app).spec_cur_magazine().contents@.len()
        },
    ensures
        old(app).move_selections.selected_tool_index_magazine is None ==> *final(app) == *old(app),
        old(app).move_selections.selected_tool_index_magazine matches Some(mi) ==> {
            let a = *old(app);
            let slot = a.spec_cur_magazine().contents@[mi as int];
            &&& final(app).library.tools@ == spec_pool_after_move_out(a.library.tools@, slot.tool)
            &&& final(app).library.holders == a.library.holders
            &&& final(app).library.adapters == a.library.adapters
            &&& final(app).library.category == a.library.category
            &&& a.spec_machines_with_cur_contents(
                a.spec_cur_magazine().contents@.update(
                    mi as int,
                    MagazineSlot { tool: None, ..slot },
                ),
                final(app).machines@,
            )
            &&& final(app).selections == a.spec_reset().selections
            &&& final(app).app_states == a.spec_reset().app_states
            &&& final(app).move_selections == a.spec_reset().move_selections
            &&& final(app).gui_singletons == a.gui_singletons
        },
{
    let mi_opt = app.move_selections.selected_tool_index_magazine;
    if mi_opt.is_none() {
        return ;
    }
    let mi = mi_opt.unwrap();
    let m_idx = app.selections.machine.unwrap();
    let ghost machines_pre = app.machines@;
    let mut machine = app.machines.remove(m_idx);
    let g_idx = machine.current_magazine.unwrap();
    let ghost magazines_pre = machine.magazines@;
    let mut magazine = machine.magazines.remove(g_idx);
    let ghost contents_pre = magazine.contents@;
    let slot = magazine.contents.remove(mi);
    let MagazineSlot { index, tool: occupant, holder, adapter, comment } = slot;
    magazine.contents.insert(mi, MagazineSlot { index, tool: None, holder, adapter, comment });
    if let Some(t) = occupant {
        app.library.tools.push(t);
    }
    proof {
        assert(magazine.contents@ =~= contents_pre.update(
            mi as int,
            MagazineSlot { tool: None, ..old(app).spec_cur_magazine().contents@[mi as int] },
        ));
    }
    machine.magazines.insert(g_idx, magazine);
    proof {
        assert(machine.magazines@ =~= magazines_pre.update(
            g_idx as int,
            machine.magazines@[g_idx as int],
        ));
    }
    app.machines.insert(m_idx, machine);
    proof {
        assert(app.machines@ =~= machines_pre.update(m_idx as int, app.machines@[m_idx as int]));
    }
    reset_states(app);
}

/// Record which library tool the user picked as the source of the pending
/// move. Nothing else changes.
pub fn select_tool_from_library(app: &mut ManagingApp, tool_index: usize)
    requires
        tool_index < old(app).library.tools@.len(),
    ensures
        *final(app) == (ManagingApp {
            move_selections: crate::resources::MagazineLibraryMovingSelections {
                selected_tool_index_library: Some(tool_index),
                ..old(app).move_selections
            },
            ..*old(app)
        }),
{
    app.move_selections.selected_tool_index_library = Some(tool_index);
}

/// Move the selected library holder into the selected slot of the current
/// magazine, evicting any holder already there back to the end of the pool.
/// With either endpoint unselected this is a no-op; a completed move clears
/// the transient state.
pub fn move_holder_to_magazine(app: &mut ManagingApp)
    requires
        old(app).move_selections.selected_holder_index_library matches Some(li)
            ==> old(app).move_selections.selected_holder_index_magazine matches Some(mi) ==> {
            &&& old(app).spec_magazine_selected()
            &&& (li as int) < old(app).library.holders@.len()
            &&& (mi as int) < old(app).spec_cur_magazine().contents@.len()
        },
    ensures
        (old(app).move_selections.selected_holder_index_library is None || old(
            app,
        ).move_selections.selected_holder_index_magazine is None) ==> *final(app) == *old(app),
        old(app).move_selections.selected_holder_index_library matches Some(li)
            ==> old(app).move_selections.selected_holder_index_magazine matches Some(mi) ==> {
            let a = *old(app);
            let slot = a.spec_cur_magazine().contents@[mi as int];
            let moved = a.library.holders@[li as int];
            &&& final(app).library.holders@ == spec_pool_after_move_in(
                a.library.holders@,
                slot.holder,
                li as int,
            )
            &&& final(app).library.tools == a.library.tools
            &&& final(app).library.adapters == a.library.adapters
            &&& final(app).library.category == a.library.category
            &&& a.spec_machines_with_cur_contents(
                a.spec_cur_magazine().contents@.update(
                    mi as int,
                    MagazineSlot { holder: Some(moved), ..slot },
                ),
                final(app).machines@,
            )
            &&& final(app).selections == a.spec_reset().selections
            &&& final(app).app_states == a.spec_reset().app_states
            &&& final(app).move_selections == a.spec_reset().move_selections
            &&& final(app).gui_singletons == a.gui_singletons
        },
{
    let li_opt = app.move_selections.selected_holder_index_library;
    let mi_opt = app.move_selections.selected_holder_index_magazine;
    if li_opt.is_none() || mi_opt.is_none() {
        return ;
    }
    let li = li_opt.unwrap();
    let mi = mi_opt.unwrap();
    let m_idx = app.selections.machine.unwrap();
    let ghost machines_pre = app.machines@;
    let mut machine = app.machines.remove(m_idx);
    let g_idx = machine.current_magazine.unwrap();
    let ghost magazines_pre = machine.magazines@;
    let mut magazine = machine.magazines.remove(g_idx);
    let ghost contents_pre = magazine.contents@;
    let slot = magazine.contents.remove(mi);
    let MagazineSlot { index, tool, holder: occupant, adapter, comment } = slot;
    let moved = app.library.holders.remove(li);
    magazine.contents.insert(mi, MagazineSlot { index, tool, holder: Some(moved), adapter, comment });
    if let Some(evicted) = occupant {
        app.library.holders.push(evicted);
    }
    proof {
        assert(magazine.contents@ =~= contents_pre.update(
            mi as int,
            MagazineSlot {
                holder: Some(moved),
                ..old(app).spec_cur_magazine().contents@[mi as int]
            },
        ));
    }
    machine.magazines.insert(g_idx, magazine);
    proof {
        assert(machine.magazines@ =~= magazines_pre.update(
            g_idx as int,
            machine.magazines@[g_idx as int],
        ));
    }
    app.machines.insert(m_idx, machine);
    proof {
        assert(app.machines@ =~= machines_pre.update(m_idx as int, app.machines@[m_idx as int]));
    }
    reset_states(app);
}

/// Return the holder of the selected slot of the current magazine to the end
/// of the library pool and clear the slot; on an empty slot only the
/// transient state is cleared. With no slot selected this is a no-op.
pub fn move_holder_to_library(app: &mut ManagingApp)
    requires
        old(app).move_selections.selected_holder_index_magazine matches Some(mi) ==> {
            &&& old(app).spec_magazine_selected()
            &&& (mi as int) < old(app).spec_cur_magazine().contents@.len()
        },
    ensures
        old(app).move_selections.selected_holder_index_magazine is None ==> *final(app) == *old(
            app,
        ),
        old(app).move_selections.selected_holder_index_magazine matches Some(mi) ==> {
            let a = *old(app);
            let slot = a.spec_cur_magazine().contents@[mi as int];
            &&& final(app).library.holders@ == spec_pool_after_move_out(
                a.library.holders@,
                slot.holder,
            )
            &&& final(app).library.tools == a.library.tools
            &&& final(app).library.adapters == a.library.adapters
            &&& final(app).library.category == a.library.category
            &&& a.spec_machines_with_cur_contents(
                a.spec_cur_magazine().contents@.update(
                    mi as int,
                    MagazineSlot { holder: None, ..slot },
                ),
                final(app).machines@,
            )
            &&& final(app).selections == a.spec_reset().selections
            &&& final(app).app_states == a.spec_reset().app_states
            &&& final(app).move_selections == a.spec_reset().move_selections
            &&& final(app).gui_singletons == a.gui_singletons
        },
{
    let mi_opt = app.move_selections.selected_holder_index_magazine;
    if mi_opt.is_none() {
        return ;
    }
    let mi = mi_opt.unwrap();
    let m_idx = app.selections.machine.unwrap();
    let ghost machines_pre = app.machines@;
    let mut machine = app.machines.remove(m_idx);
    let g_idx = machine.current_magazine.unwrap();
    let ghost magazines_pre = machine.magazines@;
    let mut magazine = machine.magazines.remove(g_idx);
    let ghost contents_pre = magazine.contents@;
    let slot = magazine.contents.remove(mi);
    let MagazineSlot { index, tool, holder: occupant, adapter, comment } = slot;
    magazine.contents.insert(mi, MagazineSlot { index, tool, holder: None, adapter, comment });
    if let Some(h) = occupant {
        app.library.holders.push(h);
    }
    proof {
        assert(magazine.contents@ =~= contents_pre.update(
            mi as int,
            MagazineSlot { holder: None, ..old(app).spec_cur_magazine().contents@[mi as int] },
        ));
    }
    machine.magazines.insert(g_idx, magazine);
    proof {
        assert(machine.magazines@ =~= magazines_pre.update(
            g_idx as int,
            machine.magazines@[g_idx as int],
        ));
    }
    app.machines.insert(m_idx, machine);
    proof {
        assert(app.machines@ =~= machines_pre.update(m_idx as int, app.machines@[m_idx as int]));
    }
    reset_states(app);
}

/// Record which library holder the user picked as the source of the pending
/// move. Nothing else changes.
pub fn select_holder_from_library(app: &mut ManagingApp, holder_index: usize)
    requires
        holder_index < old(app).library.holders@.len(),
    ensures
        *final(app) == (ManagingApp {
            move_selections: crate::resources::MagazineLibraryMovingSelections {
                selected_holder_index_library: Some(holder_index),
                ..old(app).move_selections
            },
            ..*old(app)
        }),
{
    app.move_selections.selected_holder_index_library = Some(holder_index);
}

/// Move the selected library adapter into the selected slot of the current
/// magazine, evicting any adapter already there back to the end of the pool.
/// With either endpoint unselected this is a no-op; a completed move clears
/// the transient state.
pub fn move_adapter_to_magazine(app: &mut ManagingApp)
    requires
        old(app).move_selections.selected_adapter_index_library matches Some(li)
            ==> old(app).move_selections.selected_adapter_index_magazine matches Some(mi) ==> {
            &&& old(app).spec_magazine_selected()
            &&& (li as int) < old(app).library.adapters@.len()
            &&& (mi as int) < old(app).spec_cur_magazine().contents@.len()
        },
    ensures
        (old(app).move_selections.selected_adapter_index_library is None || old(
            app,
        ).move_selections.selected_adapter_index_magazine is None) ==> *final(app) == *old(app),
        old(app).move_selections.selected_adapter_index_library matches Some(li)
            ==> old(app).move_selections.selected_adapter_index_magazine matches Some(mi) ==> {
            let a = *old(app);
            let slot = a.spec_cur_magazine().contents@[mi as int];
            let moved = a.library.adapters@[li as int];
            &&& final(app).library.adapters@ == spec_pool_after_move_in(
                a.library.adapters@,
                slot.adapter,
                li as int,
            )
            &&& final(app).library.tools == a.library.tools
            &&& final(app).library.holders == a.library.holders
            &&& final(app).library.category == a.library.category
            &&& a.spec_machines_with_cur_contents(
                a.spec_cur_magazine().contents@.update(
                    mi as int,
                    MagazineSlot { adapter: Some(moved), ..slot },
                ),
                final(app).machines@,
            )
            &&& final(app).selections == a.spec_reset().selections
            &&& final(app).app_states == a.spec_reset().app_states
            &&& final(app).move_selections == a.spec_reset().move_selections
            &&& final(app).gui_singletons == a.gui_singletons
        },
{
    let li_opt = app.move_selections.selected_adapter_index_library;
    let mi_opt = app.move_selections.selected_adapter_index_magazine;
    if li_opt.is_none() || mi_opt.is_none() {
        return ;
    }
    let li = li_opt.unwrap();
    let mi = mi_opt.unwrap();
    let m_idx = app.selections.machine.unwrap();
    let ghost machines_pre = app.machines@;
    let mut machine = app.machines.remove(m_idx);
    let g_idx = machine.current_magazine.unwrap();
    let ghost magazines_pre = machine.magazines@;
    let mut magazine = machine.magazines.remove(g_idx);
    let ghost contents_pre = magazine.contents@;
    let slot = magazine.contents.remove(mi);
    let MagazineSlot { index, tool, holder, adapter: occupant, comment } = slot;
    let moved = app.library.adapters.remove(li);
    magazine.contents.insert(mi, MagazineSlot { index, tool, holder, adapter: Some(moved), comment });
    if let Some(evicted) = occupant {
        app.library.adapters.push(evicted);
    }
    proof {
        assert(magazine.contents@ =~= contents_pre.update(
            mi as int,
            MagazineSlot {
                adapter: Some(moved),
                ..old(app).spec_cur_magazine().contents@[mi as int]
            },
        ));
    }
    machine.magazines.insert(g_idx, magazine);
    proof {
        assert(machine.magazines@ =~= magazines_pre.update(
            g_idx as int,
            machine.magazines@[g_idx as int],
        ));
    }
    app.machines.insert(m_idx, machine);
    proof {
        assert(app.machines@ =~= machines_pre.update(m_idx as int, app.machines@[m_idx as int]));
    }
    reset_states(app);
}

/// Return the adapter of the selected slot of the current magazine to the end
/// of the library pool and clear the slot; on an empty slot only the
/// transient state is cleared. With no slot selected this is a no-op.
pub fn move_adapter_to_library(app: &mut ManagingApp)
    requires
        old(app).move_selections.selected_adapter_index_magazine matches Some(mi) ==> {
            &&& old(app).spec_magazine_selected()
            &&& (mi as int) < old(app).spec_cur_magazine().contents@.len()
        },
    ensures
        old(app).move_selections.selected_adapter_index_magazine is None ==> *final(app) == *old(
            app,
        ),
        old(app).move_selections.selected_adapter_index_magazine matches Some(mi) ==> {
            let a = *old(app);
            let slot = a.spec_cur_magazine().contents@[mi as int];
            &&& final(app).library.adapters@ == spec_pool_after_move_out(
                a.library.adapters@,
                slot.adapter,
            )
            &&& final(app).library.tools == a.library.tools
            &&& final(app).library.holders == a.library.holders
            &&& final(app).library.category == a.library.category
            &&& a.spec_machines_with_cur_contents(
                a.spec_cur_magazine().contents@.update(
                    mi as int,
                    MagazineSlot { adapter: None, ..slot },
                ),
                final(app).machines@,
            )
            &&& final(app).selections == a.spec_reset().selections
            &&& final(app).app_states == a.spec_reset().app_states
            &&& final(app).move_selections == a.spec_reset().move_selections
            &&& final(app).gui_singletons == a.gui_singletons
        },
{
    let mi_opt = app.move_selections.selected_adapter_index_magazine;
    if mi_opt.is_none() {
        return ;
    }
    let mi = mi_opt.unwrap();
    let m_idx = app.selections.machine.unwrap();
    let ghost machines_pre = app.machines@;
    let mut machine = app.machines.remove(m_idx);
    let g_idx = machine.current_magazine.unwrap();
    let ghost magazines_pre = machine.magazines@;
    let mut magazine = machine.magazines.remove(g_idx);
    let ghost contents_pre = magazine.contents@;
    let slot = magazine.contents.remove(mi);
    let MagazineSlot { index, tool, holder, adapter: occupant, comment } = slot;
    magazine.contents.insert(mi, MagazineSlot { index, tool, holder, adapter: None, comment });
    if let Some(a) = occupant {
        app.library.adapters.push(a);
    }
    proof {
        assert(magazine.contents@ =~= contents_pre.update(
            mi as int,
            MagazineSlot { adapter: None, ..old(app).spec_cur_magazine().contents@[mi as int] },
        ));
    }
    machine.magazines.insert(g_idx, magazine);
    proof {
        assert(machine.magazines@ =~= magazines_pre.update(
            g_idx as int,
            machine.magazines@[g_idx as int],
        ));
    }
    app.machines.insert(m_idx, machine);
    proof {
        assert(app.machines@ =~= machines_pre.update(m_idx as int, app.machines@[m_idx as int]));
    }
    reset_states(app);
}

/// Record which library adapter the user picked as the source of the pending
/// move. Nothing else changes.
pub fn select_adapter_from_library(app: &mut ManagingApp, adapter_index: usize)
    requires
        adapter_index < old(app).library.adapters@.len(),
    ensures
        *final(app) == (ManagingApp {
            move_selections: crate::resources::MagazineLibraryMovingSelections {
                selected_adapter_index_library: Some(adapter_index),
                ..old(app).move_selections
            },
            ..*old(app)
        }),
{
    app.move_selections.selected_adapter_index_library = Some(adapter_index);
}

} // verus!
