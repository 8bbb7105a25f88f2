//! The library as the engine sees it: a snapshot that is handed in with each
//! message and never kept.

use crate::reduce::ValueEq;
use vstd::prelude::*;

verus! {

/// The key of a bucket: the id of the user who owns it, `None` while nobody
/// is signed in.
pub type UID = Option<String>;

/// One item of the library.
#[derive(Debug, PartialEq, Eq)]
pub struct LibItem {
    /// The item's stable identifier.
    pub id: String,
    /// The category the item belongs to.
    pub type_: String,
    /// Set once the item is deleted: it stays in the library and is left out
    /// of everything derived from it.
    pub removed: bool,
}

/// What a `LibItem` holds.
pub struct LibItemView {
    pub id: Seq<char>,
    pub type_: Seq<char>,
    pub removed: bool,
}

impl View for LibItem {
    type V = LibItemView;

    open spec fn view(&self) -> LibItemView {
        LibItemView { id: self.id@, type_: self.type_@, removed: self.removed }
    }
}

impl DeepView for LibItem {
    type V = LibItemView;

    open spec fn deep_view(&self) -> LibItemView {
        self@
    }
}

impl Clone for LibItem {
    fn clone(&self) -> (out: Self)
        ensures
            out == *self,
    {
        LibItem {
            id: self.id.clone(),
            type_: self.type_.clone(),
            removed: self.removed,
        }
    }
}

impl ValueEq for LibItem {
    fn value_eq(&self, other: &Self) -> (same: bool) {
        self.id.value_eq(&other.id) && self.type_.value_eq(&other.type_)
            && self.removed == other.removed
    }
}

/// No two of the items have the same identifier.
pub open spec fn distinct_ids(items: Seq<LibItemView>) -> bool {
    forall|i: int, j: int| 0 <= i < j < items.len() ==> items[i].id != items[j].id
}

/// The items of one user, in the order in which the library hands them out.
///
/// A library keeps its items under their identifiers, so the buckets that it
/// hands out have `distinct_ids`. Nothing here depends on it: what is derived
/// from a bucket is derived alike from any list of items.
#[derive(Clone, Debug, PartialEq, Eq)]
pub struct LibBucket {
    pub uid: UID,
    pub items: Vec<LibItem>,
}

/// What a `LibBucket` holds.
pub struct LibBucketView {
    pub uid: Option<Seq<char>>,
    pub items: Seq<LibItemView>,
}

impl View for LibBucket {
    type V = LibBucketView;

    open spec fn view(&self) -> LibBucketView {
        LibBucketView { uid: self.uid.deep_view(), items: self.items.deep_view() }
    }
}

/// The library through its life: not asked for yet, being loaded for a user,
/// or there with its items.
#[derive(Clone, Debug, PartialEq, Eq)]
pub enum LibraryLoadable {
    NotLoaded,
    Loading(UID),
    Ready(LibBucket),
}

/// What a `LibraryLoadable` holds.
pub enum LibraryLoadableView {
    NotLoaded,
    Loading(Option<Seq<char>>),
    Ready(LibBucketView),
}

impl View for LibraryLoadable {
    type V = LibraryLoadableView;

    open spec fn view(&self) -> LibraryLoadableView {
        match self {
            LibraryLoadable::NotLoaded => LibraryLoadableView::NotLoaded,
            LibraryLoadable::Loading(uid) => LibraryLoadableView::Loading(uid.deep_view()),
            LibraryLoadable::Ready(bucket) => LibraryLoadableView::Ready(bucket@),
        }
    }
}

} // verus!
