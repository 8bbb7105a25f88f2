//! What holds of the filtered library, whatever the messages and whatever
//! the library.

use crate::library::{distinct_ids, LibBucketView, LibItemView, LibraryLoadableView};
use crate::library_filtered::{
    category_index, changes, filtered_items, initial, is_live, is_live_of_type, library_state_of,
    live_type_names, step, LibraryFilteredView,
};
use crate::msg::MsgKind;
use crate::unique::{lemma_first_occurrences, seen_before};
use vstd::prelude::*;

verus! {

/// Handling a message a second time, over the same library, changes nothing:
/// the state that the first time left is the state that the second time
/// leaves, and the second time reports no change.
pub proof fn law_step_idempotent(
    state: LibraryFilteredView,
    library: LibraryLoadableView,
    msg: MsgKind,
)
    ensures
        step(step(state, library, msg), library, msg) == step(state, library, msg),
        !changes(step(state, library, msg), library, msg),
{
}

/// A message that is neither a selection nor a change of the library leaves
/// the state as it is.
pub proof fn law_other_message_changes_nothing(
    state: LibraryFilteredView,
    library: LibraryLoadableView,
)
    ensures
        step(state, library, MsgKind::Other) == state,
        !changes(state, library, MsgKind::Other),
{
}

/// No category is listed twice.
pub proof fn law_category_index_distinct(library: LibraryLoadableView)
    ensures
        category_index(library).no_duplicates(),
{
    if let LibraryLoadableView::Ready(bucket) = library {
        lemma_first_occurrences(live_type_names(bucket.items));
    }
}

/// A name is among the categories of a ready library exactly when one of its
/// items that is not deleted has that category. A deleted item adds none.
pub proof fn law_category_index_members(bucket: LibBucketView, name: Seq<char>)
    ensures
        category_index(LibraryLoadableView::Ready(bucket)).contains(name) <==> exists|i: int|
            0 <= i < bucket.items.len() && !(#[trigger] bucket.items[i]).removed
                && bucket.items[i].type_ == name,
{
    let items = bucket.items;
    let live = items.filter(is_live());
    let names = live_type_names(items);
    lemma_first_occurrences(names);
    if names.contains(name) {
        let j = choose|j: int| 0 <= j < names.len() && names[j] == name;
        items.lemma_filter_pred(is_live(), j);
        assert(live.contains(live[j]));
        items.lemma_filter_contains_rev(is_live(), live[j]);
        let i = choose|i: int| 0 <= i < items.len() && items[i] == live[j];
        assert(!items[i].removed && items[i].type_ == name);
    }
    if exists|i: int|
        0 <= i < items.len() && !(#[trigger] items[i]).removed && items[i].type_ == name {
        let i = choose|i: int|
            0 <= i < items.len() && !(#[trigger] items[i]).removed && items[i].type_ == name;
        items.lemma_filter_contains(is_live(), i);
        let j = choose|j: int| 0 <= j < live.len() && live[j] == items[i];
        assert(names[j] == name);
        assert(names.contains(name));
    }
}

/// The categories stand in the order in which the items that are not deleted
/// first show them.
pub proof fn law_category_index_first_seen(bucket: LibBucketView, i: int, j: int)
    requires
        0 <= i < j < category_index(LibraryLoadableView::Ready(bucket)).len(),
    ensures
        seen_before(
            live_type_names(bucket.items),
            category_index(LibraryLoadableView::Ready(bucket))[i],
            category_index(LibraryLoadableView::Ready(bucket))[j],
        ),
{
    lemma_first_occurrences(live_type_names(bucket.items));
}

/// Every item shown is an item of a ready library, is not deleted, and is of
/// the selected category.
pub proof fn law_filtered_items_members(
    library: LibraryLoadableView,
    selected: Option<Seq<char>>,
    i: int,
)
    requires
        0 <= i < filtered_items(library, selected).len(),
    ensures
        library is Ready,
        selected is Some,
        !filtered_items(library, selected)[i].removed,
        filtered_items(library, selected)[i].type_ == selected->0,
        library->Ready_0.items.contains(filtered_items(library, selected)[i]),
{
    let items = library->Ready_0.items;
    let wanted = is_live_of_type(selected->0);
    let shown = filtered_items(library, selected);
    items.lemma_filter_pred(wanted, i);
    assert(shown.contains(shown[i]));
    items.lemma_filter_contains_rev(wanted, shown[i]);
}

/// Every item of a ready library that is not deleted and is of the selected
/// category is shown.
pub proof fn law_filtered_items_complete(bucket: LibBucketView, type_: Seq<char>, i: int)
    requires
        0 <= i < bucket.items.len(),
        !bucket.items[i].removed,
        bucket.items[i].type_ == type_,
    ensures
        filtered_items(LibraryLoadableView::Ready(bucket), Some(type_)).contains(bucket.items[i]),
{
    bucket.items.lemma_filter_contains(is_live_of_type(type_), i);
}

/// Where no two items of the library have the same identifier, no two of the
/// items shown have.
pub proof fn law_filtered_items_keep_distinct_ids(
    library: LibraryLoadableView,
    selected: Option<Seq<char>>,
)
    requires
        library is Ready ==> distinct_ids(library->Ready_0.items),
    ensures
        distinct_ids(filtered_items(library, selected)),
{
    if library is Ready && selected is Some {
        lemma_filter_keeps_distinct_ids(library->Ready_0.items, is_live_of_type(selected->0));
    }
}

proof fn lemma_filter_keeps_distinct_ids(items: Seq<LibItemView>, pred: spec_fn(LibItemView) -> bool)
    requires
        distinct_ids(items),
    ensures
        distinct_ids(items.filter(pred)),
    decreases items.len(),
{
    reveal(Seq::filter);
    if items.len() > 0 {
        let rest = items.drop_last();
        let kept = rest.filter(pred);
        lemma_filter_keeps_distinct_ids(rest, pred);
        assert forall|i: int, j: int| 0 <= i < j < items.filter(pred).len() implies items.filter(
            pred,
        )[i].id != items.filter(pred)[j].id by {
            if j == kept.len() {
                assert(kept.contains(kept[i]));
                rest.lemma_filter_contains_rev(pred, kept[i]);
                let a = choose|a: int| 0 <= a < rest.len() && rest[a] == kept[i];
                assert(items[a].id != items[items.len() - 1].id);
            }
        }
    }
}

/// A library without its deleted items.
pub open spec fn without_deleted(bucket: LibBucketView) -> LibBucketView {
    LibBucketView { uid: bucket.uid, items: bucket.items.filter(is_live()) }
}

/// Deleted items do not count: the categories and the items shown are those
/// of the library without its deleted items, whatever their categories.
pub proof fn law_deleted_items_do_not_count(bucket: LibBucketView, selected: Option<Seq<char>>)
    ensures
        category_index(LibraryLoadableView::Ready(bucket)) == category_index(
            LibraryLoadableView::Ready(without_deleted(bucket)),
        ),
        filtered_items(LibraryLoadableView::Ready(bucket), selected) == filtered_items(
            LibraryLoadableView::Ready(without_deleted(bucket)),
            selected,
        ),
{
    lemma_filter_live_twice(bucket.items);
    if let Some(type_) = selected {
        lemma_filter_live_then_type(bucket.items, type_);
    }
}

proof fn lemma_filter_live_twice(items: Seq<LibItemView>)
    ensures
        items.filter(is_live()).filter(is_live()) == items.filter(is_live()),
    decreases items.len(),
{
    reveal(Seq::filter);
    if items.len() > 0 {
        lemma_filter_live_twice(items.drop_last());
        items.drop_last().filter(is_live()).lemma_filter_push(items.last(), is_live());
    }
}

proof fn lemma_filter_live_then_type(items: Seq<LibItemView>, type_: Seq<char>)
    ensures
        items.filter(is_live()).filter(is_live_of_type(type_)) == items.filter(
            is_live_of_type(type_),
        ),
    decreases items.len(),
{
    reveal(Seq::filter);
    if items.len() > 0 {
        lemma_filter_live_then_type(items.drop_last(), type_);
        items.drop_last().filter(is_live()).lemma_filter_push(
            items.last(),
            is_live_of_type(type_),
        );
    }
}

/// While the library is not ready there is nothing to show: whatever the
/// state held, a change of the library leaves no categories and no items,
/// and a selection leaves no items.
pub proof fn law_not_ready_shows_nothing(
    state: LibraryFilteredView,
    library: LibraryLoadableView,
    msg: MsgKind,
)
    requires
        !(library is Ready),
        !(msg is Other),
    ensures
        step(state, library, msg).lib_items == Seq::<LibItemView>::empty(),
        msg is LibraryChanged ==> step(state, library, msg).type_names == Seq::<
            Seq<char>,
        >::empty(),
        msg is LibraryChanged ==> !(step(state, library, msg).library_state is Ready),
{
}

/// The state shows the library: its phase and key, its categories, and its
/// items of the selected category.
pub open spec fn in_step_with(state: LibraryFilteredView, library: LibraryLoadableView) -> bool {
    &&& state.library_state == library_state_of(library)
    &&& state.type_names == category_index(library)
    &&& state.lib_items == filtered_items(library, state.selected)
}

/// A change of the library brings the state in step with it.
pub proof fn law_library_changed_brings_in_step(
    state: LibraryFilteredView,
    library: LibraryLoadableView,
)
    ensures
        in_step_with(step(state, library, MsgKind::LibraryChanged), library),
{
}

/// A state in step with the library stays so under every message that is
/// handled over that library.
pub proof fn law_in_step_is_kept(
    state: LibraryFilteredView,
    library: LibraryLoadableView,
    msg: MsgKind,
)
    requires
        in_step_with(state, library),
    ensures
        in_step_with(step(state, library, msg), library),
{
}

/// A state in step with a library whose phase is not ready holds no
/// categories and no items.
pub proof fn law_not_ready_state_is_empty(state: LibraryFilteredView, library: LibraryLoadableView)
    requires
        in_step_with(state, library),
        !(state.library_state is Ready),
    ensures
        state.type_names == Seq::<Seq<char>>::empty(),
        state.lib_items == Seq::<LibItemView>::empty(),
{
}

/// What every state that messages can lead to has: no category twice, and
/// only items that are not deleted and are of the selected category.
pub open spec fn well_formed(state: LibraryFilteredView) -> bool {
    &&& state.type_names.no_duplicates()
    &&& forall|i: int|
        0 <= i < state.lib_items.len() ==> !(#[trigger] state.lib_items[i]).removed && Some(
            state.lib_items[i].type_,
        ) == state.selected
}

/// The state before any message is well formed.
pub proof fn law_initial_well_formed()
    ensures
        well_formed(initial()),
{
}

/// Every message leaves a well-formed state well formed.
pub proof fn law_step_keeps_well_formed(
    state: LibraryFilteredView,
    library: LibraryLoadableView,
    msg: MsgKind,
)
    requires
        well_formed(state),
    ensures
        well_formed(step(state, library, msg)),
{
    let next = step(state, library, msg);
    law_category_index_distinct(library);
    assert forall|i: int| 0 <= i < next.lib_items.len() implies !(#[trigger] next.lib_items[
        i
    ]).removed && Some(next.lib_items[i].type_) == next.selected by {
        if !(msg is Other) {
            law_filtered_items_members(library, next.selected, i);
        }
    }
}

/// When the library changes and no longer holds an item of the selected
/// category that is not deleted, no items are left to show.
pub proof fn law_no_items_of_selected_type(state: LibraryFilteredView, bucket: LibBucketView)
    requires
        forall|i: int|
            0 <= i < bucket.items.len() ==> (#[trigger] bucket.items[i]).removed || Some(
                bucket.items[i].type_,
            ) != state.selected,
    ensures
        step(state, LibraryLoadableView::Ready(bucket), MsgKind::LibraryChanged).lib_items
            == Seq::<LibItemView>::empty(),
{
    let library = LibraryLoadableView::Ready(bucket);
    let shown = filtered_items(library, state.selected);
    if shown.len() > 0 {
        law_filtered_items_members(library, state.selected, 0);
        let i = choose|i: int| 0 <= i < bucket.items.len() && bucket.items[i] == shown[0];
        assert(bucket.items[i].removed || Some(bucket.items[i].type_) != state.selected);
    }
    assert(shown =~= Seq::empty());
}

/// When the library changes and its items of the selected category are the
/// ones already shown, the items shown stay as they are.
pub proof fn law_same_items_stay(state: LibraryFilteredView, library: LibraryLoadableView)
    requires
        state.lib_items == filtered_items(library, state.selected),
    ensures
        step(state, library, MsgKind::LibraryChanged).lib_items == state.lib_items,
{
}

} // verus!
