//! The error slot: one best-effort, last-write-wins diagnostic string.

use crate::locks::held;
use crate::locks::held_mut;
use crate::locks::new_lock;
use crate::locks::try_exclusive;
use crate::locks::try_shared;
use std::sync::RwLock;
use vstd::prelude::*;

verus! {

/// What a reader of the slot is told, given what the attempt to reach the
/// slot's content gave: nothing, or the content.  A slot that could not be
/// reached reads as empty; a reader is never told what nobody recorded.
pub open spec fn last_error_view(reached: Option<Option<Seq<char>>>) -> Option<Seq<char>> {
    match reached {
        None => None,
        Some(content) => content,
    }
}

/// The values of what an attempt to reach the slot gave.
pub open spec fn reached_view(reached: Option<&Option<String>>) -> Option<Option<Seq<char>>> {
    match reached {
        None => None,
        Some(content) => Some(
            match content {
                None => None,
                Some(text) => Some(text@),
            },
        ),
    }
}

/// The answer to a reader, from what the attempt to reach the slot gave: a
/// copy of the recorded message, and nothing where none was recorded or the
/// slot could not be reached.
pub fn describe_last_error(reached: Option<&Option<String>>) -> (answer: Option<String>)
    ensures
        match answer {
            Some(text) => last_error_view(reached_view(reached)) == Some(text@),
            None => last_error_view(reached_view(reached)).is_none(),
        },
{
    match reached {
        None => None,
        Some(content) => match content {
            None => None,
            Some(text) => Some(text.clone()),
        },
    }
}

/// Puts `msg` in place of whatever was recorded, where the place could be
/// reached, and drops it where it could not.
pub fn overwrite_last_error(reached: Option<&mut Option<String>>, msg: String)
    ensures
        match reached {
            Some(place) => *final(place) == Some(msg),
            None => true,
        },
{
    match reached {
        Some(place) => {
            *place = Some(msg);
        },
        None => {},
    }
}

/// A lock-protected slot for the last error.
pub struct ErrorSlot {
    lock: RwLock<Option<String>>,
}

impl ErrorSlot {
    /// A slot with nothing recorded.
    pub fn new() -> (slot: ErrorSlot) {
        ErrorSlot { lock: new_lock(None) }
    }
}

/// Records `msg` as the last error if the slot can be written at once, and
/// drops it silently otherwise.  Never blocks, never retries.
pub fn weakly_record_error(slot: &ErrorSlot, msg: String) {
    let mut guard = try_exclusive(&slot.lock);
    let reached = match &mut guard {
        Some(writer) => Some(held_mut(writer)),
        None => None,
    };
    overwrite_last_error(reached, msg);
}

/// The last recorded error, left in place.  Nothing where none was recorded,
/// or where the slot cannot be read at once.
pub fn try_get_last_error(slot: &ErrorSlot) -> (answer: Option<String>) {
    let guard = try_shared(&slot.lock);
    let reached = match &guard {
        Some(reader) => Some(held(reader)),
        None => None,
    };
    describe_last_error(reached)
}

} // verus!
