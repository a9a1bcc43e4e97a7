//! The laws of the inventory model, stated and proved once over the spec
//! functions the executable contracts use: conservation of entities under
//! moves, the round-trip and swap shapes of the move engine, and idempotence
//! and stability of the filter and sort projections.

use vstd::prelude::*;
use vstd::multiset::Multiset;
use vstd::seq_lib::group_to_multiset_ensures;

use crate::library::{spec_pool_after_move_in, spec_pool_after_move_out};
use crate::magazine::{
    slot_key, slot_matches_category, sorted_by_key, spec_apply_filter, spec_filter_by_category,
    spec_insert_sorted, spec_sort, MagazineSlot,
};
use crate::resources::{SortBy, ToolState};
use crate::tool::ToolCategory;

verus! {

/// The entities a slot's occupant field accounts for: one or none.
pub open spec fn spec_occupant_multiset<T>(occupant: Option<T>) -> Multiset<T> {
    match occupant {
        Some(t) => Multiset::empty().insert(t),
        None => Multiset::empty(),
    }
}

/// Ownership exclusivity: a completed move into a slot conserves entities.
/// Counting the library pool together with the slot's occupant, the multiset
/// before the move (old pool plus old occupant) equals the multiset after it
/// (new pool plus the moved entity, which is now the occupant). Every entity
/// therefore still has exactly one location: the moved entity left the pool
/// for the slot, an evicted occupant left the slot for the pool, and nothing
/// was duplicated or lost.
pub proof fn lemma_move_in_conserves_entities<T>(pool: Seq<T>, occupant: Option<T>, li: int)
    requires
        0 <= li < pool.len(),
    ensures
        spec_pool_after_move_in(pool, occupant, li).to_multiset().add(
            spec_occupant_multiset(Some(pool[li])),
        ) == pool.to_multiset().add(spec_occupant_multiset(occupant)),
{
    broadcast use group_to_multiset_ensures;

    assert(pool.to_multiset().contains(pool[li]));
    match occupant {
        Some(t) => {
            assert(spec_pool_after_move_in(pool, occupant, li).to_multiset().add(
                spec_occupant_multiset(Some(pool[li])),
            ) =~= pool.to_multiset().add(spec_occupant_multiset(occupant)));
        },
        None => {
            assert(spec_pool_after_move_in(pool, occupant, li).to_multiset().add(
                spec_occupant_multiset(Some(pool[li])),
            ) =~= pool.to_multiset().add(spec_occupant_multiset(occupant)));
        },
    }
}

/// Ownership exclusivity, outward direction: a completed move from a slot
/// back to the library conserves entities in the same sense.
pub proof fn lemma_move_out_conserves_entities<T>(pool: Seq<T>, occupant: Option<T>)
    ensures
        spec_pool_after_move_out(pool, occupant).to_multiset() == pool.to_multiset().add(
            spec_occupant_multiset(occupant),
        ),
{
    broadcast use group_to_multiset_ensures;

    match occupant {
        Some(t) => {
            assert(spec_pool_after_move_out(pool, occupant).to_multiset() =~= pool.to_multiset().add(
                spec_occupant_multiset(occupant),
            ));
        },
        None => {
            assert(spec_pool_after_move_out(pool, occupant).to_multiset() =~= pool.to_multiset().add(
                spec_occupant_multiset(occupant),
            ));
        },
    }
}

/// Move round-trip: moving the entity at pool position `li` into an empty
/// slot and then moving it back leaves the pool holding exactly the entities
/// it started with — the moved entity itself, unchanged in every field, is
/// appended at the end rather than reinserted at `li`.
pub proof fn lemma_move_round_trip<T>(pool: Seq<T>, li: int)
    requires
        0 <= li < pool.len(),
    ensures
        spec_pool_after_move_out(spec_pool_after_move_in(pool, None, li), Some(pool[li]))
            == pool.remove(li).push(pool[li]),
        spec_pool_after_move_out(
            spec_pool_after_move_in(pool, None, li),
            Some(pool[li]),
        ).to_multiset() == pool.to_multiset(),
{
    broadcast use group_to_multiset_ensures;

    assert(pool.remove(li).push(pool[li]).to_multiset() =~= pool.to_multiset());
}

/// Swap semantics: moving entity A (at pool position `li`) into a slot
/// already occupied by entity B yields a pool that is the old one with A
/// removed at its original position and B appended at the end; positions
/// before `li` are untouched and those after shift down by one. The slot
/// itself now holds A, as the move contracts state.
pub proof fn lemma_move_swap<T>(pool: Seq<T>, b: T, li: int)
    requires
        0 <= li < pool.len(),
    ensures
        spec_pool_after_move_in(pool, Some(b), li) == pool.remove(li).push(b),
        spec_pool_after_move_in(pool, Some(b), li).len() == pool.len(),
        spec_pool_after_move_in(pool, Some(b), li).last() == b,
        forall|j: int|
            0 <= j < li ==> #[trigger] spec_pool_after_move_in(pool, Some(b), li)[j] == pool[j],
        forall|j: int|
            li <= j < pool.len() - 1 ==> #[trigger] spec_pool_after_move_in(pool, Some(b), li)[j]
                == pool[j + 1],
{
}

/// Every slot the category filter keeps matches the category.
pub proof fn lemma_filter_all_match(s: Seq<MagazineSlot>, category: ToolCategory)
    ensures
        forall|i: int|
            0 <= i < spec_filter_by_category(s, category).len() ==> slot_matches_category(
                #[trigger] spec_filter_by_category(s, category)[i],
                category,
            ),
    decreases s.len(),
{
    if s.len() > 0 {
        lemma_filter_all_match(s.drop_last(), category);
        let out = spec_filter_by_category(s, category);
        let inner = spec_filter_by_category(s.drop_last(), category);
        assert forall|i: int| 0 <= i < out.len() implies slot_matches_category(
            out[i],
            category,
        ) by {
            if i < inner.len() {
                assert(out[i] == inner[i]);
            } else {
                assert(out[i] == s.last());
            }
        }
    }
}

/// The category filter keeps a sequence of all-matching slots as it is.
pub proof fn lemma_filter_of_matching_id(s: Seq<MagazineSlot>, category: ToolCategory)
    requires
        forall|i: int| 0 <= i < s.len() ==> slot_matches_category(#[trigger] s[i], category),
    ensures
        spec_filter_by_category(s, category) == s,
    decreases s.len(),
{
    if s.len() > 0 {
        assert(forall|i: int|
            0 <= i < s.drop_last().len() ==> slot_matches_category(
                #[trigger] s.drop_last()[i],
                category,
            ));
        lemma_filter_of_matching_id(s.drop_last(), category);
        assert(spec_filter_by_category(s, category) =~= s);
    }
}

/// Filter idempotence: filtering by a category twice equals filtering once.
pub proof fn lemma_filter_by_category_idempotent(s: Seq<MagazineSlot>, category: ToolCategory)
    ensures
        spec_filter_by_category(spec_filter_by_category(s, category), category)
            == spec_filter_by_category(s, category),
{
    lemma_filter_all_match(s, category);
    lemma_filter_of_matching_id(spec_filter_by_category(s, category), category);
}

/// Stable insertion keeps every key at or under a common bound.
proof fn lemma_insert_sorted_key_bound(
    k: SortBy,
    s: Seq<MagazineSlot>,
    x: MagazineSlot,
    bound: int,
)
    requires
        forall|i: int| 0 <= i < s.len() ==> slot_key(k, #[trigger] s[i]) <= bound,
        slot_key(k, x) <= bound,
    ensures
        forall|i: int|
            0 <= i < spec_insert_sorted(k, s, x).len() ==> slot_key(
                k,
                #[trigger] spec_insert_sorted(k, s, x)[i],
            ) <= bound,
    decreases s.len(),
{
    if s.len() > 0 && slot_key(k, s.last()) > slot_key(k, x) {
        assert(forall|i: int|
            0 <= i < s.drop_last().len() ==> slot_key(k, #[trigger] s.drop_last()[i]) <= bound);
        lemma_insert_sorted_key_bound(k, s.drop_last(), x, bound);
        let out = spec_insert_sorted(k, s, x);
        let inner = spec_insert_sorted(k, s.drop_last(), x);
        assert forall|i: int| 0 <= i < out.len() implies slot_key(k, out[i]) <= bound by {
            if i < inner.len() {
                assert(out[i] == inner[i]);
            } else {
                assert(out[i] == s.last());
            }
        }
    }
}

/// Stable insertion into a sorted sequence stays sorted.
proof fn lemma_insert_sorted_sorted(k: SortBy, s: Seq<MagazineSlot>, x: MagazineSlot)
    requires
        sorted_by_key(k, s),
    ensures
        sorted_by_key(k, spec_insert_sorted(k, s, x)),
    decreases s.len(),
{
    if s.len() == 0 {
    } else if slot_key(k, s.last()) <= slot_key(k, x) {
        assert(forall|i: int| 0 <= i < s.len() ==> slot_key(k, #[trigger] s[i]) <= slot_key(k, x));
    } else {
        assert(sorted_by_key(k, s.drop_last()));
        lemma_insert_sorted_sorted(k, s.drop_last(), x);
        assert(forall|i: int|
            0 <= i < s.drop_last().len() ==> slot_key(k, #[trigger] s.drop_last()[i]) <= slot_key(
                k,
                s.last(),
            ));
        lemma_insert_sorted_key_bound(k, s.drop_last(), x, slot_key(k, s.last()));
        let out = spec_insert_sorted(k, s, x);
        let inner = spec_insert_sorted(k, s.drop_last(), x);
        assert forall|i: int, j: int| 0 <= i < j < out.len() implies slot_key(k, out[i])
            <= slot_key(k, out[j]) by {
            if j < out.len() - 1 {
                assert(out[i] == inner[i] && out[j] == inner[j]);
            } else {
                assert(out[j] == s.last());
                assert(slot_key(k, inner[i]) <= slot_key(k, s.last()));
            }
        }
    }
}

/// Sort stability, part one: the sort's result is sorted ascending by key.
pub proof fn lemma_sort_sorted(k: SortBy, s: Seq<MagazineSlot>)
    ensures
        sorted_by_key(k, spec_sort(k, s)),
    decreases s.len(),
{
    if s.len() > 0 {
        lemma_sort_sorted(k, s.drop_last());
        lemma_insert_sorted_sorted(k, spec_sort(k, s.drop_last()), s.last());
    }
}

/// Sort stability, part two: sorting an already-sorted sequence preserves its
/// order exactly — equal-keyed slots are never reordered.
pub proof fn lemma_sort_of_sorted_id(k: SortBy, s: Seq<MagazineSlot>)
    requires
        sorted_by_key(k, s),
    ensures
        spec_sort(k, s) == s,
    decreases s.len(),
{
    if s.len() > 0 {
        assert(sorted_by_key(k, s.drop_last()));
        lemma_sort_of_sorted_id(k, s.drop_last());
        if s.len() == 1 {
            assert(spec_sort(k, s) =~= s);
        } else {
            assert(slot_key(k, s.drop_last().last()) <= slot_key(k, s.last()));
            assert(spec_sort(k, s) =~= s);
        }
    }
}

/// Sort idempotence: sorting twice equals sorting once.
pub proof fn lemma_sort_idempotent(k: SortBy, s: Seq<MagazineSlot>)
    ensures
        spec_sort(k, spec_sort(k, s)) == spec_sort(k, s),
{
    lemma_sort_sorted(k, s);
    lemma_sort_of_sorted_id(k, spec_sort(k, s));
}

/// Stable insertion of a matching slot into an all-matching sequence keeps
/// every slot matching.
proof fn lemma_insert_sorted_all_match(
    k: SortBy,
    s: Seq<MagazineSlot>,
    x: MagazineSlot,
    category: ToolCategory,
)
    requires
        forall|i: int| 0 <= i < s.len() ==> slot_matches_category(#[trigger] s[i], category),
        slot_matches_category(x, category),
    ensures
        forall|i: int|
            0 <= i < spec_insert_sorted(k, s, x).len() ==> slot_matches_category(
                #[trigger] spec_insert_sorted(k, s, x)[i],
                category,
            ),
    decreases s.len(),
{
    if s.len() > 0 && slot_key(k, s.last()) > slot_key(k, x) {
        assert(forall|i: int|
            0 <= i < s.drop_last().len() ==> slot_matches_category(
                #[trigger] s.drop_last()[i],
                category,
            ));
        lemma_insert_sorted_all_match(k, s.drop_last(), x, category);
        let out = spec_insert_sorted(k, s, x);
        let inner = spec_insert_sorted(k, s.drop_last(), x);
        assert forall|i: int| 0 <= i < out.len() implies slot_matches_category(
            out[i],
            category,
        ) by {
            if i < inner.len() {
                assert(out[i] == inner[i]);
            } else {
                assert(out[i] == s.last());
            }
        }
    }
}

/// Sorting an all-matching sequence keeps every slot matching.
proof fn lemma_sort_all_match(k: SortBy, s: Seq<MagazineSlot>, category: ToolCategory)
    requires
        forall|i: int| 0 <= i < s.len() ==> slot_matches_category(#[trigger] s[i], category),
    ensures
        forall|i: int|
            0 <= i < spec_sort(k, s).len() ==> slot_matches_category(
                #[trigger] spec_sort(k, s)[i],
                category,
            ),
    decreases s.len(),
{
    if s.len() > 0 {
        assert(forall|i: int|
            0 <= i < s.drop_last().len() ==> slot_matches_category(
                #[trigger] s.drop_last()[i],
                category,
            ));
        lemma_sort_all_match(k, s.drop_last(), category);
        lemma_insert_sorted_all_match(k, spec_sort(k, s.drop_last()), s.last(), category);
    }
}

/// Sort stability, part three: the diameter projection only ever returns
/// slots whose tool is present and of the rotating category.
pub proof fn lemma_sorted_by_diameter_only_rotating(s: Seq<MagazineSlot>)
    ensures
        forall|i: int|
            0 <= i < spec_sort(
                SortBy::Diameter,
                spec_filter_by_category(s, ToolCategory::Rotating),
            ).len() ==> slot_matches_category(
                #[trigger] spec_sort(
                    SortBy::Diameter,
                    spec_filter_by_category(s, ToolCategory::Rotating),
                )[i],
                ToolCategory::Rotating,
            ),
{
    lemma_filter_all_match(s, ToolCategory::Rotating);
    lemma_sort_all_match(
        SortBy::Diameter,
        spec_filter_by_category(s, ToolCategory::Rotating),
        ToolCategory::Rotating,
    );
}

/// The slot projection is idempotent as a whole: filtering and slot-sorting
/// an already filtered and slot-sorted projection returns it unchanged.
pub proof fn lemma_slot_projection_idempotent(s: Seq<MagazineSlot>, filter: Option<ToolState>)
    ensures
        spec_sort(SortBy::Slot, spec_apply_filter(spec_sort(SortBy::Slot, spec_apply_filter(s, filter)), filter))
            == spec_sort(SortBy::Slot, spec_apply_filter(s, filter)),
{
    let once = spec_sort(SortBy::Slot, spec_apply_filter(s, filter));
    match filter {
        Some(ToolState::Rotating) => {
            lemma_filter_all_match(s, ToolCategory::Rotating);
            lemma_sort_all_match(
                SortBy::Slot,
                spec_filter_by_category(s, ToolCategory::Rotating),
                ToolCategory::Rotating,
            );
            lemma_filter_of_matching_id(once, ToolCategory::Rotating);
        },
        Some(ToolState::Insert) => {
            lemma_filter_all_match(s, ToolCategory::LatheInsert);
            lemma_sort_all_match(
                SortBy::Slot,
                spec_filter_by_category(s, ToolCategory::LatheInsert),
                ToolCategory::LatheInsert,
            );
            lemma_filter_of_matching_id(once, ToolCategory::LatheInsert);
        },
        None => {},
    }
    lemma_sort_idempotent(SortBy::Slot, spec_apply_filter(s, filter));
}

} // verus!
