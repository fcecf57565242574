//! Decision logic behind the conversation sidebar: the per-item state
//! derived from a stored envelope, the flag values each toggle writes back,
//! and which items each filter shows. The widgets themselves live with the
//! shell and only render what these functions decide.

use vstd::prelude::*;

use crate::models::SavedConversation;
use crate::strutil::stem_of;

verus! {

/// The lasting state of one sidebar entry.
#[derive(Clone, Copy, Debug, PartialEq, Eq, Structural)]
pub enum SideBarListItemPermanentState {
    Normal,
    Archived,
    Starred,
    Deleted,
}

/// Which subset of entries the sidebar shows.
#[derive(Clone, Copy, Debug, PartialEq, Eq, Structural)]
pub enum SideBarFilterState {
    NoFilter,
    ShowArchive,
    JustFavourite,
}

/// The state and display name a sidebar entry starts in: read from the
/// stored envelope when there is one — archived wins over starred — and a
/// fresh unfiltered entry named after the path's stem otherwise.
pub fn initialise_state_and_name(envelope: Option<&SavedConversation>, file_path: &str) -> (r: (
    SideBarListItemPermanentState,
    String,
))
    ensures
        match envelope {
            Some(e) => {
                &&& r.0 == if e@.archived {
                    SideBarListItemPermanentState::Archived
                } else if e@.starred {
                    SideBarListItemPermanentState::Starred
                } else {
                    SideBarListItemPermanentState::Normal
                }
                &&& r.1@ == e@.name
            },
            None => r.0 == SideBarListItemPermanentState::Normal && r.1@ == stem_of(file_path@),
        },
{
    match envelope {
        Some(e) => {
            let state = if e.archived {
                SideBarListItemPermanentState::Archived
            } else if e.starred {
                SideBarListItemPermanentState::Starred
            } else {
                SideBarListItemPermanentState::Normal
            };
            (state, e.name.clone())
        },
        None => (SideBarListItemPermanentState::Normal, crate::strutil::file_stem(file_path)),
    }
}

/// What pressing the favourite toggle does: a starred entry returns to
/// normal, anything else becomes starred; the returned pair is the
/// archived/starred flag values to persist.
pub fn toggle_favourite_flags(current: SideBarListItemPermanentState) -> (r: (
    SideBarListItemPermanentState,
    bool,
    bool,
))
    ensures
        current == SideBarListItemPermanentState::Starred ==> r == (
            SideBarListItemPermanentState::Normal,
            false,
            false,
        ),
        current != SideBarListItemPermanentState::Starred ==> r == (
            SideBarListItemPermanentState::Starred,
            false,
            true,
        ),
{
    match current {
        SideBarListItemPermanentState::Starred => (
            SideBarListItemPermanentState::Normal,
            false,
            false,
        ),
        _ => (SideBarListItemPermanentState::Starred, false, true),
    }
}

/// What pressing the archive toggle does: an archived entry returns to
/// normal, anything else becomes archived; the returned pair is the
/// archived/starred flag values to persist. Archiving always clears the
/// star, so the two flags never persist as true together.
pub fn toggle_archive_flags(current: SideBarListItemPermanentState) -> (r: (
    SideBarListItemPermanentState,
    bool,
    bool,
))
    ensures
        current == SideBarListItemPermanentState::Archived ==> r == (
            SideBarListItemPermanentState::Normal,
            false,
            false,
        ),
        current != SideBarListItemPermanentState::Archived ==> r == (
            SideBarListItemPermanentState::Archived,
            true,
            false,
        ),
{
    match current {
        SideBarListItemPermanentState::Archived => (
            SideBarListItemPermanentState::Normal,
            false,
            false,
        ),
        _ => (SideBarListItemPermanentState::Archived, true, false),
    }
}

/// Whether the filter shows an entry in the given state: no filter hides
/// archived and deleted entries, the archive filter hides only deleted ones,
/// and the favourites filter shows starred ones alone.
pub fn visible_under_filter(
    filter: SideBarFilterState,
    item: SideBarListItemPermanentState,
) -> (r: bool)
    ensures
        r == match filter {
            SideBarFilterState::NoFilter => item == SideBarListItemPermanentState::Normal || item
                == SideBarListItemPermanentState::Starred,
            SideBarFilterState::ShowArchive => item != SideBarListItemPermanentState::Deleted,
            SideBarFilterState::JustFavourite => item == SideBarListItemPermanentState::Starred,
        },
{
    match filter {
        SideBarFilterState::NoFilter => match item {
            SideBarListItemPermanentState::Normal => true,
            SideBarListItemPermanentState::Starred => true,
            _ => false,
        },
        SideBarFilterState::ShowArchive => match item {
            SideBarListItemPermanentState::Deleted => false,
            _ => true,
        },
        SideBarFilterState::JustFavourite => match item {
            SideBarListItemPermanentState::Starred => true,
            _ => false,
        },
    }
}

} // verus!
