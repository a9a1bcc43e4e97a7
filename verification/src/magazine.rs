//! Magazines and their display projections.
//!
//! A magazine is a named, fixed-size ordered sequence of slots; each slot
//! holds its stable creation index, at most one tool, holder and adapter, and
//! a free-text comment. The projection functions below are pure: they build a
//! new sequence for display and never mutate the magazine.
//!
//! Sorting is specified by `spec_sort`, a recursive insertion sort, which is
//! the canonical *stable* sort: an element is inserted after every element
//! whose key is less than or equal to its own, so equal-keyed slots keep
//! their relative order.

use vstd::prelude::*;

use crate::comment::Comment;
use crate::adapter::Adapter;
use crate::app::{reset_states, ManagingApp};
use crate::holder::Holder;
use crate::machine::Machine;
use crate::resources::{
    ActiveState, MagazineLibraryMovingSelections, MoveStates, SortBy, ToolState,
};
use crate::tool::{Tool, ToolCategory};

verus! {

/// One position of a magazine: the stable slot index, the optional occupants
/// of each entity kind, and a comment.
#[derive(Debug, PartialEq)]
pub struct MagazineSlot {
    pub index: usize,
    pub tool: Option<Tool>,
    pub holder: Option<Holder>,
    pub adapter: Option<Adapter>,
    pub comment: Comment,
}

impl MagazineSlot {
    /// An unoccupied slot at the given index carrying the placeholder comment.
    pub open spec fn spec_is_empty(self, index: usize) -> bool {
        &&& self.index == index
        &&& self.tool is None
        &&& self.holder is None
        &&& self.adapter is None
        &&& self.comment.comment@ == Comment::default_text()
    }

    /// A fresh, unoccupied slot at the given index.
    pub fn empty(index: usize) -> (s: MagazineSlot)
        ensures
            s.spec_is_empty(index),
    {
        MagazineSlot { index, tool: None, holder: None, adapter: None, comment: Comment::default() }
    }
}

impl Clone for MagazineSlot {
    fn clone(&self) -> (c: Self)
        ensures
            c == *self,
    {
        MagazineSlot {
            index: self.index,
            tool: match &self.tool {
                Some(t) => Some(t.clone()),
                None => None,
            },
            holder: match &self.holder {
                Some(h) => Some(h.clone()),
                None => None,
            },
            adapter: match &self.adapter {
                Some(a) => Some(a.clone()),
                None => None,
            },
            comment: self.comment.clone(),
        }
    }
}

/// A named, fixed-size ordered sequence of tool slots.
#[derive(Debug, PartialEq)]
pub struct Magazine {
    pub name: String,
    pub contents: Vec<MagazineSlot>,
}

impl Magazine {
    /// Well-formed for a magazine of `size` slots: one slot per position,
    /// each carrying its creation index.
    pub open spec fn spec_wf(self, size: usize) -> bool {
        &&& self.contents@.len() == size
        &&& forall|i: int| 0 <= i < self.contents@.len() ==> (#[trigger] self.contents@[i]).index == i
    }
}

impl Clone for Magazine {
    fn clone(&self) -> (c: Self)
        ensures
            c.name == self.name,
            c.contents@ == self.contents@,
    {
        let r = Magazine { name: self.name.clone(), contents: self.contents.clone() };
        proof {
            assert forall|i: int| 0 <= i < self.contents@.len() implies r.contents@[i]
                == self.contents@[i] by {
                assert(cloned::<MagazineSlot>(self.contents@[i], r.contents@[i]));
            }
            assert(r.contents@ =~= self.contents@);
        }
        r
    }
}

/// Record the magazine the user picked as the selected machine's current
/// one. With no machine selected this is a no-op; nothing else of the
/// application state changes.
pub fn select_magazine(app: &mut ManagingApp, magazine_index: usize)
    requires
        old(app).selections.machine matches Some(m) ==> (m as int) < old(app).machines@.len()
            && (magazine_index as int) < old(app).machines@[m as int].magazines@.len(),
    ensures
        old(app).selections.machine is None ==> *final(app) == *old(app),
        old(app).selections.machine is Some ==> {
            &&& final(app).machines@.len() == old(app).machines@.len()
            &&& forall|i: int|
                0 <= i < old(app).machines@.len() && i != old(app).spec_machine_idx()
                    ==> final(app).machines@[i] == old(app).machines@[i]
            &&& final(app).machines@[old(app).spec_machine_idx()] == (Machine {
                current_magazine: Some(magazine_index),
                ..old(app).machines@[old(app).spec_machine_idx()]
            })
        },
        final(app).selections == old(app).selections,
        final(app).app_states == old(app).app_states,
        final(app).library == old(app).library,
        final(app).gui_singletons == old(app).gui_singletons,
        final(app).move_selections == old(app).move_selections,
{
    if app.selections.machine.is_none() {
        return ;
    }
    let m_idx = app.selections.machine.unwrap();
    let ghost machines_pre = app.machines@;
    let mut machine = app.machines.remove(m_idx);
    machine.current_magazine = Some(magazine_index);
    app.machines.insert(m_idx, machine);
    proof {
        assert(app.machines@ =~= machines_pre.update(m_idx as int, app.machines@[m_idx as int]));
    }
}

/// The transient move-selection state after a click on a slot's action: the
/// slot becomes the magazine-side endpoint of the matching entity kind, or the
/// comment-edit target.
pub open spec fn spec_slot_selection(
    m: MagazineLibraryMovingSelections,
    slot_index: usize,
    action: MoveStates,
) -> MagazineLibraryMovingSelections {
    match action {
        MoveStates::ToolToMagazine => MagazineLibraryMovingSelections {
            selected_tool_index_magazine: Some(slot_index),
            ..m
        },
        MoveStates::ToolToLibrary => MagazineLibraryMovingSelections {
            selected_tool_index_magazine: Some(slot_index),
            ..m
        },
        MoveStates::HolderToMagazine => MagazineLibraryMovingSelections {
            selected_holder_index_magazine: Some(slot_index),
            ..m
        },
        MoveStates::HolderToLibrary => MagazineLibraryMovingSelections {
            selected_holder_index_magazine: Some(slot_index),
            ..m
        },
        MoveStates::AdapterToMagazine => MagazineLibraryMovingSelections {
            selected_adapter_index_magazine: Some(slot_index),
            ..m
        },
        MoveStates::AdapterToLibrary => MagazineLibraryMovingSelections {
            selected_adapter_index_magazine: Some(slot_index),
            ..m
        },
        MoveStates::EditComment => MagazineLibraryMovingSelections {
            selected_comment_index_magazine: Some(slot_index),
            ..m
        },
    }
}

/// Record a click on one of a displayed slot's actions: store the slot as the
/// magazine-side endpoint of the chosen operation and mark that operation as
/// the move in flight. Nothing else of the application state changes.
pub fn select_slot_for_move(app: &mut ManagingApp, slot_index: usize, action: MoveStates)
    requires
        old(app).spec_magazine_selected(),
        (slot_index as int) < old(app).spec_cur_magazine().contents@.len(),
    ensures
        *final(app) == (ManagingApp {
            move_selections: spec_slot_selection(old(app).move_selections, slot_index, action),
            app_states: ActiveState { move_state: Some(action), ..old(app).app_states },
            ..*old(app)
        }),
{
    match action {
        MoveStates::ToolToMagazine | MoveStates::ToolToLibrary => {
            app.move_selections.selected_tool_index_magazine = Some(slot_index);
        },
        MoveStates::HolderToMagazine | MoveStates::HolderToLibrary => {
            app.move_selections.selected_holder_index_magazine = Some(slot_index);
        },
        MoveStates::AdapterToMagazine | MoveStates::AdapterToLibrary => {
            app.move_selections.selected_adapter_index_magazine = Some(slot_index);
        },
        MoveStates::EditComment => {
            app.move_selections.selected_comment_index_magazine = Some(slot_index);
        },
    }
    app.app_states.move_state = Some(action);
}

/// Commit a comment edit: store the confirmed text into the selected slot of
/// the current magazine and clear the transient state. With no slot selected
/// this is a no-op.
pub fn edit_comment(app: &mut ManagingApp, text: String)
    requires
        old(app).move_selections.selected_comment_index_magazine matches Some(ci) ==> {
            &&& old(app).spec_magazine_selected()
            &&& (ci as int) < old(app).spec_cur_magazine().contents@.len()
        },
    ensures
        old(app).move_selections.selected_comment_index_magazine is None ==> *final(app) == *old(
            app,
        ),
        old(app).move_selections.selected_comment_index_magazine matches Some(ci) ==> {
            let a = *old(app);
            let slot = a.spec_cur_magazine().contents@[ci as int];
            &&& a.spec_machines_with_cur_contents(
                a.spec_cur_magazine().contents@.update(
                    ci as int,
                    MagazineSlot { comment: Comment { comment: text }, ..slot },
                ),
                final(app).machines@,
            )
            &&& final(app).library == a.library
            &&& final(app).selections == a.spec_reset().selections
            &&& final(app).app_states == a.spec_reset().app_states
            &&& final(app).move_selections == a.spec_reset().move_selections
            &&& final(app).gui_singletons == a.gui_singletons
        },
{
    let ci_opt = app.move_selections.selected_comment_index_magazine;
    if ci_opt.is_none() {
        return ;
    }
    let ci = ci_opt.unwrap();
    let m_idx = app.selections.machine.unwrap();
    let ghost machines_pre = app.machines@;
    let mut machine = app.machines.remove(m_idx);
    let g_idx = machine.current_magazine.unwrap();
    let ghost magazines_pre = machine.magazines@;
    let mut magazine = machine.magazines.remove(g_idx);
    let ghost contents_pre = magazine.contents@;
    let slot = magazine.contents.remove(ci);
    let MagazineSlot { index, tool, holder, adapter, comment: _ } = slot;
    magazine.contents.insert(
        ci,
        MagazineSlot { index, tool, holder, adapter, comment: Comment { comment: text } },
    );
    proof {
        assert(magazine.contents@ =~= contents_pre.update(
            ci as int,
            MagazineSlot {
                comment: magazine.contents@[ci as int].comment,
                ..old(app).spec_cur_magazine().contents@[ci as int]
            },
        ));
    }
    machine.magazines.insert(g_idx, magazine);
    proof {
        assert(machine.magazines@ =~= magazines_pre.update(
            g_idx as int,
            machine.magazines@[g_idx as int],
        ));
    }
    app.machines.insert(m_idx, machine);
    proof {
        assert(app.machines@ =~= machines_pre.update(m_idx as int, app.machines@[m_idx as int]));
    }
    reset_states(app);
}

/// Whether the slot's tool is present and of the given category.
pub open spec fn slot_matches_category(s: MagazineSlot, category: ToolCategory) -> bool {
    s.tool matches Some(t) && t.spec_category() == category
}

/// The subsequence of slots whose tool is present and of the given category,
/// in their original order. Slots without a tool, or with a tool of another
/// category, are dropped from the projection.
pub open spec fn spec_filter_by_category(s: Seq<MagazineSlot>, category: ToolCategory) -> Seq<
    MagazineSlot,
>
    decreases s.len(),
{
    if s.len() == 0 {
        s
    } else {
        let rest = spec_filter_by_category(s.drop_last(), category);
        if slot_matches_category(s.last(), category) {
            rest.push(s.last())
        } else {
            rest
        }
    }
}

/// The sort key a slot contributes under the given ordering: its stable slot
/// index, its tool's diameter, or its tool's edge angle. A missing tool keys
/// as zero, as does the diameter of an insert or the angle of a rotating tool.
pub open spec fn slot_key(k: SortBy, s: MagazineSlot) -> int {
    match k {
        SortBy::Slot => s.index as int,
        SortBy::Diameter => match s.tool {
            Some(t) => t.spec_diameter() as int,
            None => 0,
        },
        SortBy::Degree => match s.tool {
            Some(t) => t.spec_degree() as int,
            None => 0,
        },
    }
}

/// Insert `x` into `s` after every element whose key is at most `x`'s key.
/// On a sorted sequence this is the stable insertion position.
pub open spec fn spec_insert_sorted(k: SortBy, s: Seq<MagazineSlot>, x: MagazineSlot) -> Seq<
    MagazineSlot,
>
    decreases s.len(),
{
    if s.len() == 0 {
        seq![x]
    } else if slot_key(k, s.last()) <= slot_key(k, x) {
        s.push(x)
    } else {
        spec_insert_sorted(k, s.drop_last(), x).push(s.last())
    }
}

/// Stable insertion sort of `s` ascending by the given key.
pub open spec fn spec_sort(k: SortBy, s: Seq<MagazineSlot>) -> Seq<MagazineSlot>
    decreases s.len(),
{
    if s.len() == 0 {
        s
    } else {
        spec_insert_sorted(k, spec_sort(k, s.drop_last()), s.last())
    }
}

/// Ascending by key at every pair of positions.
pub open spec fn sorted_by_key(k: SortBy, s: Seq<MagazineSlot>) -> bool {
    forall|i: int, j: int| 0 <= i < j < s.len() ==> slot_key(k, s[i]) <= slot_key(k, s[j])
}

/// Inserting at a position `j` that is preceded only by keys at most `x`'s
/// and followed only by keys greater than `x`'s realizes `spec_insert_sorted`.
proof fn lemma_insert_sorted_at(k: SortBy, s: Seq<MagazineSlot>, x: MagazineSlot, j: int)
    requires
        0 <= j <= s.len(),
        forall|m: int| j <= m < s.len() ==> slot_key(k, #[trigger] s[m]) > slot_key(k, x),
        j > 0 ==> slot_key(k, s[j - 1]) <= slot_key(k, x),
    ensures
        spec_insert_sorted(k, s, x) == s.insert(j, x),
    decreases s.len(),
{
    if s.len() == 0 {
        assert(spec_insert_sorted(k, s, x) =~= s.insert(0, x));
    } else if j == s.len() {
        assert(slot_key(k, s.last()) <= slot_key(k, x));
        assert(spec_insert_sorted(k, s, x) =~= s.insert(j, x));
    } else {
        assert(slot_key(k, s.last()) > slot_key(k, x));
        lemma_insert_sorted_at(k, s.drop_last(), x, j);
        assert(spec_insert_sorted(k, s.drop_last(), x).push(s.last()) =~= s.insert(j, x));
    }
}

/// The comparison key of a slot, as executable code.
fn slot_key_exec(k: SortBy, s: &MagazineSlot) -> (r: u64)
    ensures
        r as int == slot_key(k, *s),
{
    match k {
        SortBy::Slot => s.index as u64,
        SortBy::Diameter => match &s.tool {
            Some(t) => t.get_diameter(),
            None => 0,
        },
        SortBy::Degree => match &s.tool {
            Some(t) => t.get_degree(),
            None => 0,
        },
    }
}

/// Stable insertion sort of the slots ascending by the given key.
fn sort_slots_by_key(k: SortBy, contents: &Vec<MagazineSlot>) -> (r: Vec<MagazineSlot>)
    ensures
        r@ == spec_sort(k, contents@),
{
    let mut out: Vec<MagazineSlot> = Vec::new();
    let mut i: usize = 0;
    while i < contents.len()
        invariant
            i <= contents.len(),
            out@ == spec_sort(k, contents@.take(i as int)),
        decreases contents.len() - i,
    {
        let x = contents[i].clone();
        let key_x = slot_key_exec(k, &x);
        let ghost pre = out@;
        let mut j: usize = out.len();
        while j > 0 && slot_key_exec(k, &out[j - 1]) > key_x
            invariant
                j <= out.len(),
                out@ == pre,
                key_x as int == slot_key(k, x),
                forall|m: int|
                    j <= m < out@.len() ==> slot_key(k, #[trigger] out@[m]) > slot_key(k, x),
            decreases j,
        {
            j = j - 1;
        }
        out.insert(j, x);
        proof {
            lemma_insert_sorted_at(k, pre, x, j as int);
            assert(contents@.take(i + 1).drop_last() =~= contents@.take(i as int));
            assert(contents@.take(i + 1).last() == contents@[i as int]);
        }
        i = i + 1;
    }
    proof {
        assert(contents@.take(contents@.len() as int) =~= contents@);
    }
    out
}

/// The slots whose tool is of the given category, in their original order.
/// The magazine's own contents are not changed.
pub fn get_filtered_by_tool_category(
    contents: &Vec<MagazineSlot>,
    category: ToolCategory,
) -> (r: Vec<MagazineSlot>)
    ensures
        r@ == spec_filter_by_category(contents@, category),
{
    let mut out: Vec<MagazineSlot> = Vec::new();
    let mut i: usize = 0;
    while i < contents.len()
        invariant
            i <= contents.len(),
            out@ == spec_filter_by_category(contents@.take(i as int), category),
        decreases contents.len() - i,
    {
        let matches_cat: bool = match &contents[i].tool {
            Some(t) => {
                let c = t.get_category();
                c == category
            },
            None => false,
        };
        if matches_cat {
            out.push(contents[i].clone());
        }
        proof {
            assert(contents@.take(i + 1).drop_last() =~= contents@.take(i as int));
            assert(contents@.take(i + 1).last() == contents@[i as int]);
        }
        i = i + 1;
    }
    proof {
        assert(contents@.take(contents@.len() as int) =~= contents@);
    }
    out
}

/// The projection a filter selector denotes: the slots of the chosen tool
/// category, or all slots when no filter is active.
pub open spec fn spec_apply_filter(s: Seq<MagazineSlot>, filter: Option<ToolState>) -> Seq<
    MagazineSlot,
> {
    match filter {
        Some(ToolState::Rotating) => spec_filter_by_category(s, ToolCategory::Rotating),
        Some(ToolState::Insert) => spec_filter_by_category(s, ToolCategory::LatheInsert),
        None => s,
    }
}

/// Apply the optional category filter, then stable-sort ascending by the
/// stable slot index.
pub fn get_sorted_by_slot(
    contents: &Vec<MagazineSlot>,
    filter: Option<ToolState>,
) -> (r: Vec<MagazineSlot>)
    ensures
        r@ == spec_sort(SortBy::Slot, spec_apply_filter(contents@, filter)),
{
    let filtered: Vec<MagazineSlot> = match filter {
        Some(ToolState::Rotating) => get_filtered_by_tool_category(
            contents,
            ToolCategory::Rotating,
        ),
        Some(ToolState::Insert) => get_filtered_by_tool_category(
            contents,
            ToolCategory::LatheInsert,
        ),
        None => {
            let c = contents.clone();
            proof {
                assert(c@ =~= contents@);
            }
            c
        },
    };
    sort_slots_by_key(SortBy::Slot, &filtered)
}

/// Keep only the rotating-tool slots and stable-sort them ascending by the
/// tool's diameter; slots without a rotating tool are dropped.
pub fn get_sorted_by_tool_diameter(contents: &Vec<MagazineSlot>) -> (r: Vec<MagazineSlot>)
    ensures
        r@ == spec_sort(
            SortBy::Diameter,
            spec_filter_by_category(contents@, ToolCategory::Rotating),
        ),
{
    let filtered = get_filtered_by_tool_category(contents, ToolCategory::Rotating);
    sort_slots_by_key(SortBy::Diameter, &filtered)
}

/// Keep only the lathe-insert slots and stable-sort them ascending by the
/// insert's edge angle; slots without an insert are dropped.
pub fn get_sorted_by_degree(contents: &Vec<MagazineSlot>) -> (r: Vec<MagazineSlot>)
    ensures
        r@ == spec_sort(
            SortBy::Degree,
            spec_filter_by_category(contents@, ToolCategory::LatheInsert),
        ),
{
    let filtered = get_filtered_by_tool_category(contents, ToolCategory::LatheInsert);
    sort_slots_by_key(SortBy::Degree, &filtered)
}

} // verus!
