//! The messages that reach the engine. It acts on two families of them, a
//! request to show one category and a notice that the library may have
//! changed, and lets every other message pass.

use crate::library::LibBucket;
use vstd::prelude::*;

verus! {

/// What the user can ask to have loaded.
#[derive(Clone, Debug, PartialEq, Eq)]
pub enum ActionLoad {
    /// Show the library's items of one category.
    LibraryFiltered { type_: String },
    /// Anything else that can be loaded.
    Other,
}

/// What the user does.
#[derive(Clone, Debug, PartialEq, Eq)]
pub enum Action {
    Load(ActionLoad),
    /// Any other action.
    Other,
}

/// What one part of the application tells the others.
#[derive(Clone, Debug, PartialEq, Eq)]
pub enum Internal {
    /// The library has been loaded; this is the bucket that came.
    LibLoaded(LibBucket),
    /// Any other notice.
    Other,
}

/// What has happened, as told to the outside.
#[derive(Clone, Debug, PartialEq, Eq)]
pub enum Event {
    /// The user's context, the library with it, has been replaced.
    CtxChanged,
    /// The library has been written to storage.
    LibPersisted,
    /// Any other event.
    Other,
}

/// A message, as the application hands it to each of its models.
#[derive(Clone, Debug, PartialEq, Eq)]
pub enum Msg {
    Action(Action),
    Internal(Internal),
    Event(Event),
}

/// What a message means to the engine.
pub enum MsgKind {
    /// The user selects the category of this name.
    Select(Seq<char>),
    /// The library is to be looked at again.
    LibraryChanged,
    /// Nothing: the message is for somebody else.
    Other,
}

impl Msg {
    /// A request to load the filtered library selects a category; a changed
    /// context, a persisted library and a loaded library are changes of the
    /// library; every other message is for somebody else.
    pub open spec fn kind(&self) -> MsgKind {
        match self {
            Msg::Action(Action::Load(ActionLoad::LibraryFiltered { type_ })) => MsgKind::Select(
                type_@,
            ),
            Msg::Event(Event::CtxChanged) => MsgKind::LibraryChanged,
            Msg::Event(Event::LibPersisted) => MsgKind::LibraryChanged,
            Msg::Internal(Internal::LibLoaded(_)) => MsgKind::LibraryChanged,
            _ => MsgKind::Other,
        }
    }
}

} // verus!
