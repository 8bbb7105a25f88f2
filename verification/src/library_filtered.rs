//! The filtered library: which phase the library is in, which category is
//! selected, which categories there are, and the items of the selected one.

use crate::effects::{Effect, Effects};
use crate::library::{LibItem, LibItemView, LibraryLoadable, LibraryLoadableView, UID};
use crate::msg::{Action, ActionLoad, Event, Internal, Msg, MsgKind};
use crate::reduce::{reduce, ValueEq};
use crate::unique::{first_occurrences, unique_names};
use vstd::prelude::*;

verus! {

/// The phase of the library as last seen, with the key of the bucket that is
/// loading or loaded.
#[derive(Clone, Debug, PartialEq, Eq)]
pub enum LibraryState {
    NotLoaded,
    Loading(UID),
    Ready(UID),
}

/// What a `LibraryState` holds.
pub enum LibraryStateView {
    NotLoaded,
    Loading(Option<Seq<char>>),
    Ready(Option<Seq<char>>),
}

impl View for LibraryState {
    type V = LibraryStateView;

    open spec fn view(&self) -> LibraryStateView {
        match self {
            LibraryState::NotLoaded => LibraryStateView::NotLoaded,
            LibraryState::Loading(uid) => LibraryStateView::Loading(uid.deep_view()),
            LibraryState::Ready(uid) => LibraryStateView::Ready(uid.deep_view()),
        }
    }
}

impl DeepView for LibraryState {
    type V = LibraryStateView;

    open spec fn deep_view(&self) -> LibraryStateView {
        self@
    }
}

impl Default for LibraryState {
    fn default() -> (out: Self)
        ensures
            out == LibraryState::NotLoaded,
    {
        LibraryState::NotLoaded
    }
}

impl ValueEq for LibraryState {
    fn value_eq(&self, other: &Self) -> (same: bool) {
        match (self, other) {
            (LibraryState::NotLoaded, LibraryState::NotLoaded) => true,
            (LibraryState::Loading(a), LibraryState::Loading(b)) => a.value_eq(b),
            (LibraryState::Ready(a), LibraryState::Ready(b)) => a.value_eq(b),
            _ => false,
        }
    }
}

/// The phase of a library, with its key.
pub open spec fn library_state_of(library: LibraryLoadableView) -> LibraryStateView {
    match library {
        LibraryLoadableView::NotLoaded => LibraryStateView::NotLoaded,
        LibraryLoadableView::Loading(uid) => LibraryStateView::Loading(uid),
        LibraryLoadableView::Ready(bucket) => LibraryStateView::Ready(bucket.uid),
    }
}

pub enum LibraryStateAction<'a> {
    LibraryChanged { library: &'a LibraryLoadable },
}

fn observe_library_state(_prev: &LibraryState, action: LibraryStateAction) -> (next: LibraryState)
    ensures
        next@ == library_state_of(action->library@),
{
    match action {
        LibraryStateAction::LibraryChanged { library } => match library {
            LibraryLoadable::Ready(bucket) => LibraryState::Ready(bucket.uid.clone()),
            LibraryLoadable::Loading(uid) => LibraryState::Loading(uid.clone()),
            LibraryLoadable::NotLoaded => LibraryState::NotLoaded,
        },
    }
}

/// The phase of the library that the action shows, and whether it differs
/// from the previous one in phase or in key.
pub fn library_state_reducer(prev: &LibraryState, action: LibraryStateAction) -> (out: (
    LibraryState,
    bool,
))
    ensures
        out.0@ == library_state_of(action->library@),
        out.1 == (prev@ != out.0@),
{
    reduce(prev, action, observe_library_state)
}

/// The category that the user has selected, if any.
#[derive(Clone, Debug, PartialEq, Eq)]
pub struct Selected {
    pub type_: Option<String>,
}

impl View for Selected {
    type V = Option<Seq<char>>;

    open spec fn view(&self) -> Option<Seq<char>> {
        self.type_.deep_view()
    }
}

impl DeepView for Selected {
    type V = Option<Seq<char>>;

    open spec fn deep_view(&self) -> Option<Seq<char>> {
        self@
    }
}

impl Default for Selected {
    fn default() -> (out: Self)
        ensures
            out@ is None,
    {
        Selected { type_: None }
    }
}

impl ValueEq for Selected {
    fn value_eq(&self, other: &Self) -> (same: bool) {
        self.type_.value_eq(&other.type_)
    }
}

pub enum SelectedAction<'a> {
    Select { type_: &'a String },
}

fn select(_prev: &Selected, action: SelectedAction) -> (next: Selected)
    ensures
        next@ == Some(action->type_@),
{
    match action {
        SelectedAction::Select { type_ } => Selected { type_: Some(type_.clone()) },
    }
}

/// The selection after the action: the category that the action names,
/// whatever was selected before and whether or not the library has such a
/// category. It has changed unless that category was selected already.
pub fn selected_reducer(prev: &Selected, action: SelectedAction) -> (out: (Selected, bool))
    ensures
        out.0@ == Some(action->type_@),
        out.1 == (prev@ != out.0@),
{
    reduce(prev, action, select)
}

pub type TypeNames = Vec<String>;

/// Holds of the items that are not deleted.
pub open spec fn is_live() -> spec_fn(LibItemView) -> bool {
    |item: LibItemView| !item.removed
}

/// The category of an item.
pub open spec fn type_of() -> spec_fn(LibItemView) -> Seq<char> {
    |item: LibItemView| item.type_
}

/// The categories of the items that are not deleted, item by item.
pub open spec fn live_type_names(items: Seq<LibItemView>) -> Seq<Seq<char>> {
    items.filter(is_live()).map_values(type_of())
}

/// The categories that a library has: for a library that is ready, the
/// categories of its items that are not deleted, each once, in the order in
/// which the items first show them; none otherwise.
pub open spec fn category_index(library: LibraryLoadableView) -> Seq<Seq<char>> {
    match library {
        LibraryLoadableView::Ready(bucket) => first_occurrences(live_type_names(bucket.items)),
        _ => Seq::empty(),
    }
}

pub enum TypeNamesAction<'a> {
    LibraryChanged { library: &'a LibraryLoadable },
}

fn collect_live_type_names(items: &Vec<LibItem>) -> (names: Vec<String>)
    ensures
        names.deep_view() == live_type_names(items.deep_view()),
{
    let ghost all = items.deep_view();
    let mut names: Vec<String> = Vec::new();
    let mut i: usize = 0;
    proof {
        reveal(Seq::filter);
        assert(names.deep_view() =~= live_type_names(all.take(0)));
    }
    while i < items.len()
        invariant
            i <= items.len(),
            all == items.deep_view(),
            names.deep_view() == live_type_names(all.take(i as int)),
        decreases items.len() - i,
    {
        let item = &items[i];
        let ghost before = names.deep_view();
        if !item.removed {
            names.push(item.type_.clone());
            assert(names.deep_view() =~= before.push(item.type_@));
        }
        proof {
            let seen = all.take(i as int);
            let live = seen.filter(is_live());
            assert(all.take(i + 1) =~= seen.push(item@));
            seen.lemma_filter_push(item@, is_live());
            assert(live.push(item@).map_values(type_of()) =~= live.map_values(type_of()).push(
                item.type_@,
            ));
        }
        i += 1;
    }
    assert(all.take(items.len() as int) =~= all);
    names
}

fn index_categories(_prev: &TypeNames, action: TypeNamesAction) -> (next: TypeNames)
    ensures
        next.deep_view() == category_index(action->library@),
{
    match action {
        TypeNamesAction::LibraryChanged { library: LibraryLoadable::Ready(bucket) } => {
            unique_names(collect_live_type_names(&bucket.items))
        },
        _ => {
            let none: TypeNames = Vec::new();
            assert(none.deep_view() =~= Seq::empty());
            none
        },
    }
}

/// The categories of the library that the action shows, and whether they
/// differ from the previous ones: in length, or at any place.
pub fn type_names_reducer(prev: &TypeNames, action: TypeNamesAction) -> (out: (TypeNames, bool))
    ensures
        out.0.deep_view() == category_index(action->library@),
        out.1 == (prev.deep_view() != out.0.deep_view()),
{
    reduce(prev, action, index_categories)
}

pub type LibItems = Vec<LibItem>;

/// Holds of the items of one category that are not deleted.
pub open spec fn is_live_of_type(type_: Seq<char>) -> spec_fn(LibItemView) -> bool {
    |item: LibItemView| !item.removed && item.type_ == type_
}

/// The items to show: for a library that is ready and a selected category,
/// the library's items of that category that are not deleted, in the
/// library's order; none otherwise.
pub open spec fn filtered_items(library: LibraryLoadableView, selected: Option<Seq<char>>) -> Seq<
    LibItemView,
> {
    match (library, selected) {
        (LibraryLoadableView::Ready(bucket), Some(type_)) => bucket.items.filter(
            is_live_of_type(type_),
        ),
        _ => Seq::empty(),
    }
}

#[allow(inconsistent_fields)]
pub enum LibItemsAction<'a> {
    /// The library may have changed; the selection is the stored one.
    LibraryChanged { library: &'a LibraryLoadable, type_: &'a Option<String> },
    /// A category has just been selected.
    Select { library: &'a LibraryLoadable, type_: &'a String },
}

impl LibItemsAction<'_> {
    /// The library that the action shows.
    pub open spec fn library(self) -> LibraryLoadableView {
        match self {
            LibItemsAction::LibraryChanged { library, .. } => library@,
            LibItemsAction::Select { library, .. } => library@,
        }
    }

    /// The category that the action asks for, if any.
    pub open spec fn selected(self) -> Option<Seq<char>> {
        match self {
            LibItemsAction::LibraryChanged { type_, .. } => type_.deep_view(),
            LibItemsAction::Select { type_, .. } => Some(type_@),
        }
    }
}

fn collect_items_of_type(items: &Vec<LibItem>, type_: &String) -> (found: Vec<LibItem>)
    ensures
        found.deep_view() == items.deep_view().filter(is_live_of_type(type_@)),
{
    let ghost all = items.deep_view();
    let ghost wanted = is_live_of_type(type_@);
    let mut found: Vec<LibItem> = Vec::new();
    let mut i: usize = 0;
    proof {
        reveal(Seq::filter);
        assert(found.deep_view() =~= all.take(0).filter(wanted));
    }
    while i < items.len()
        invariant
            i <= items.len(),
            all == items.deep_view(),
            wanted == is_live_of_type(type_@),
            found.deep_view() == all.take(i as int).filter(wanted),
        decreases items.len() - i,
    {
        let item = &items[i];
        if !item.removed && item.type_ == *type_ {
            found.push(item.clone());
        }
        proof {
            let seen = all.take(i as int);
            assert(all.take(i + 1) =~= seen.push(item@));
            seen.lemma_filter_push(item@, wanted);
            assert(found.deep_view() =~= seen.push(item@).filter(wanted));
        }
        i += 1;
    }
    assert(all.take(items.len() as int) =~= all);
    found
}

fn filter_items(_prev: &LibItems, action: LibItemsAction) -> (next: LibItems)
    ensures
        next.deep_view() == filtered_items(action.library(), action.selected()),
{
    match action {
        LibItemsAction::LibraryChanged {
            library: LibraryLoadable::Ready(bucket),
            type_: Some(type_),
        }
        | LibItemsAction::Select { library: LibraryLoadable::Ready(bucket), type_ } => {
            collect_items_of_type(&bucket.items, type_)
        },
        _ => {
            let none: LibItems = Vec::new();
            assert(none.deep_view() =~= Seq::empty());
            none
        },
    }
}

/// The items to show after the action, and whether they differ from the
/// previous ones: in number, or at any place.
pub fn lib_items_reducer(prev: &LibItems, action: LibItemsAction) -> (out: (LibItems, bool))
    ensures
        out.0.deep_view() == filtered_items(action.library(), action.selected()),
        out.1 == (prev.deep_view() != out.0.deep_view()),
{
    reduce(prev, action, filter_items)
}

/// The four parts of the filtered library. It owns them; the library itself
/// is only looked at while a message is handled.
#[derive(Clone, Debug, PartialEq, Eq)]
pub struct LibraryFiltered {
    pub library_state: LibraryState,
    pub selected: Selected,
    pub type_names: TypeNames,
    pub lib_items: LibItems,
}

/// What a `LibraryFiltered` holds.
pub struct LibraryFilteredView {
    pub library_state: LibraryStateView,
    pub selected: Option<Seq<char>>,
    pub type_names: Seq<Seq<char>>,
    pub lib_items: Seq<LibItemView>,
}

impl View for LibraryFiltered {
    type V = LibraryFilteredView;

    open spec fn view(&self) -> LibraryFilteredView {
        LibraryFilteredView {
            library_state: self.library_state@,
            selected: self.selected@,
            type_names: self.type_names.deep_view(),
            lib_items: self.lib_items.deep_view(),
        }
    }
}

/// The state before any message: no library seen, nothing selected, no
/// categories and no items.
pub open spec fn initial() -> LibraryFilteredView {
    LibraryFilteredView {
        library_state: LibraryStateView::NotLoaded,
        selected: None,
        type_names: Seq::empty(),
        lib_items: Seq::empty(),
    }
}

/// The state after a message, given the state before it and the library as
/// it is when the message is handled.
///
/// A selection replaces the selected category and shows the items of the new
/// one at once. A change of the library renews the phase, the categories and,
/// for the category selected before, the items. Any other message leaves the
/// state as it is.
pub open spec fn step(
    state: LibraryFilteredView,
    library: LibraryLoadableView,
    msg: MsgKind,
) -> LibraryFilteredView {
    match msg {
        MsgKind::Select(type_) => LibraryFilteredView {
            selected: Some(type_),
            lib_items: filtered_items(library, Some(type_)),
            ..state
        },
        MsgKind::LibraryChanged => LibraryFilteredView {
            library_state: library_state_of(library),
            type_names: category_index(library),
            lib_items: filtered_items(library, state.selected),
            ..state
        },
        MsgKind::Other => state,
    }
}

/// Whether a message changes the state: whether the state after it differs
/// from the state before it in any of the four parts.
pub open spec fn changes(
    state: LibraryFilteredView,
    library: LibraryLoadableView,
    msg: MsgKind,
) -> bool {
    step(state, library, msg) != state
}

impl Default for LibraryFiltered {
    fn default() -> (out: Self)
        ensures
            out@ == initial(),
    {
        let out = LibraryFiltered {
            library_state: LibraryState::default(),
            selected: Selected::default(),
            type_names: Vec::new(),
            lib_items: Vec::new(),
        };
        assert(out.type_names.deep_view() =~= Seq::empty());
        assert(out.lib_items.deep_view() =~= Seq::empty());
        out
    }
}

impl LibraryFiltered {
    /// Handles one message, with the library as it is now.
    ///
    /// The state becomes what `step` says. The effects that come back hold no
    /// follow-up work, and say that something changed exactly when the state
    /// after the message differs from the state before it. A message that is
    /// neither a selection nor a change of the library leaves every part of
    /// the state untouched and reports no change.
    pub fn update(&mut self, library: &LibraryLoadable, msg: &Msg) -> (effects: Effects)
        ensures
            final(self)@ == step(old(self)@, library@, msg.kind()),
            effects.has_changed == changes(old(self)@, library@, msg.kind()),
            effects.effects@ == Seq::<Effect>::empty(),
            msg.kind() is Other ==> *final(self) == *old(self) && !effects.has_changed,
    {
        match msg {
            Msg::Action(Action::Load(ActionLoad::LibraryFiltered { type_ })) => {
                let (selected, selected_changed) = selected_reducer(
                    &self.selected,
                    SelectedAction::Select { type_ },
                );
                let (lib_items, lib_items_changed) = lib_items_reducer(
                    &self.lib_items,
                    LibItemsAction::Select { library, type_ },
                );
                self.selected = selected;
                self.lib_items = lib_items;
                Effects::of_change(selected_changed).join(Effects::of_change(lib_items_changed))
            },
            Msg::Event(Event::CtxChanged)
            | Msg::Event(Event::LibPersisted)
            | Msg::Internal(Internal::LibLoaded(_)) => {
                let (library_state, library_state_changed) = library_state_reducer(
                    &self.library_state,
                    LibraryStateAction::LibraryChanged { library },
                );
                let (type_names, type_names_changed) = type_names_reducer(
                    &self.type_names,
                    TypeNamesAction::LibraryChanged { library },
                );
                let (lib_items, lib_items_changed) = lib_items_reducer(
                    &self.lib_items,
                    LibItemsAction::LibraryChanged { library, type_: &self.selected.type_ },
                );
                self.library_state = library_state;
                self.type_names = type_names;
                self.lib_items = lib_items;
                Effects::of_change(library_state_changed).join(
                    Effects::of_change(type_names_changed),
                ).join(Effects::of_change(lib_items_changed))
            },
            _ => Effects::none().unchanged(),
        }
    }
}

} // verus!
