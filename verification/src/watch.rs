//! Deciding when a change to the watched file calls for a reload.

use vstd::prelude::*;
use crate::text::str_eq;

verus! {

broadcast use vstd::string::group_string_axioms;

/// The kinds of file-system events told apart.
#[derive(Debug, Clone, Copy, PartialEq, Eq, Structural)]
pub enum WatchEventKind {
    /// Data of the file was modified.
    ModifyData,
    /// The file was modified in an unspecified way.
    ModifyAny,
    /// Another kind of modification (metadata, name).
    ModifyOther,
    /// The file was closed after being opened for writing.
    CloseWrite,
    /// Another kind of access.
    AccessOther,
    /// The file was created.
    Create,
    /// The file was removed.
    Remove,
    /// Anything else.
    Other,
}

/// The event concerns the watched file and is a write: data or unspecified
/// modification, close after writing, or creation.
pub open spec fn relevant_spec(watched: Option<Seq<char>>, paths: Seq<String>, kind: WatchEventKind) -> bool {
    match watched {
        Some(w) => {
            &&& exists|i: int| 0 <= i < paths.len() && (#[trigger] paths[i])@ == w
            &&& (kind == WatchEventKind::ModifyData || kind == WatchEventKind::ModifyAny
                || kind == WatchEventKind::CloseWrite || kind == WatchEventKind::Create)
        },
        None => false,
    }
}

/// Check if an event (its paths and kind) is relevant for triggering a reload.
pub fn is_relevant_event(watched: Option<&str>, paths: &Vec<String>, kind: WatchEventKind) -> (b: bool)
    ensures
        b == relevant_spec(match watched { Some(w) => Some(w@), None => None }, paths@, kind),
{
    let w = match watched {
        Some(w) => w,
        None => return false,
    };
    let mut found = false;
    let mut i: usize = 0;
    while i < paths.len()
        invariant
            i <= paths@.len(),
            found == exists|j: int| 0 <= j < i && (#[trigger] paths@[j])@ == w@,
        decreases paths@.len() - i,
    {
        if str_eq(paths[i].as_str(), w) {
            found = true;
        }
        i += 1;
    }
    if !found {
        return false;
    }
    match kind {
        WatchEventKind::ModifyData | WatchEventKind::ModifyAny | WatchEventKind::CloseWrite | WatchEventKind::Create => true,
        _ => false,
    }
}

/// Whether to reload after draining the events: some event was relevant
/// and the debounce interval has passed since the last reload.
pub fn should_reload(any_relevant: bool, since_last_reload_ms: u64, debounce_ms: u64) -> (b: bool)
    ensures
        b == (any_relevant && since_last_reload_ms >= debounce_ms),
{
    any_relevant && since_last_reload_ms >= debounce_ms
}

} // verus!
