//! Status tray and settings of the Voxtype daemon.
//!
//! Everything the tray decides is here: how the two status channels are read and
//! merged, what the icon, the tooltip and the menu show, where the configuration
//! lives, how it is read and saved.

use vstd::prelude::*;

pub mod text;
pub mod state;
pub mod meeting;
pub mod channels;
pub mod icon;
pub mod document;
pub mod paths;
pub mod config;
pub mod save;
pub mod settings;
pub mod tray;
pub mod mode;

verus! {

/// The contents of a value that may be missing.
pub open spec fn seen<T: View>(value: Option<T>) -> Option<T::V> {
    match value {
        Some(value) => Some(value@),
        None => None,
    }
}

/// A value that is there is seen as what it holds, and nothing is seen of one that is missing.
pub proof fn law_what_is_seen<T: View>(value: T)
    ensures
        seen(Some(value)) == Some(value@),
        seen(None::<T>) is None,
{
}

} // verus!
