//! The state registry: a lock-protected cell that holds either nothing or one
//! value, reached only through accessors that never block.

use crate::errors::weakly_record_error;
use crate::errors::ErrorSlot;
use crate::locks::held;
use crate::locks::held_mut;
use crate::locks::new_lock;
use crate::locks::try_exclusive;
use crate::locks::try_shared;
use std::sync::RwLock;
use vstd::prelude::*;
use vstd::string::StringExecFns;

verus! {

/// What a caller wanted of a cell.
#[derive(Clone, Copy, Debug, PartialEq, Eq, Structural)]
pub enum Intent {
    Reading,
    Writing,
    Installing,
}

/// Why a cell could not serve a caller.
#[derive(Clone, Copy, Debug, PartialEq, Eq, Structural)]
pub enum Fault {
    /// The lock could not be had at once.
    Unavailable,
    /// The cell holds no value yet.
    Vacant,
    /// The cell already holds a value.
    Occupied,
}

/// The part of a notice that stands before the cell's name.
pub open spec fn notice_head(intent: Intent, fault: Fault) -> Seq<char> {
    match (intent, fault) {
        (Intent::Reading, Fault::Occupied) => "Failed to read "@,
        (Intent::Reading, _) => "Failed to get read access to "@,
        (Intent::Writing, Fault::Vacant) => "Failed to mutable ref for "@,
        (Intent::Writing, Fault::Occupied) => "Failed to write "@,
        (Intent::Writing, Fault::Unavailable) => "Failed to get write access to "@,
        (Intent::Installing, Fault::Unavailable) => "Failed to get write access to "@,
        (Intent::Installing, _) => "Failed to set "@,
    }
}

/// The part of a notice that stands behind the cell's name.
pub open spec fn notice_tail(intent: Intent, fault: Fault) -> Seq<char> {
    match fault {
        Fault::Vacant => ", as it hasn't been created yet. Is the server running?"@,
        Fault::Occupied => ", as it already holds a value."@,
        Fault::Unavailable => match intent {
            Intent::Installing => " to set its value."@,
            _ => "."@,
        },
    }
}

/// The notice recorded when the cell called `name` fails a caller.
pub open spec fn fault_notice(intent: Intent, fault: Fault, name: Seq<char>) -> Seq<char> {
    notice_head(intent, fault) + name + notice_tail(intent, fault)
}

/// Writes the notice for one failure of the cell called `name`.
pub fn describe_fault(intent: Intent, fault: Fault, name: &str) -> (notice: String)
    ensures
        notice@ == fault_notice(intent, fault, name@),
{
    let head: &str = match intent {
        Intent::Reading => match fault {
            Fault::Occupied => "Failed to read ",
            _ => "Failed to get read access to ",
        },
        Intent::Writing => match fault {
            Fault::Vacant => "Failed to mutable ref for ",
            Fault::Occupied => "Failed to write ",
            Fault::Unavailable => "Failed to get write access to ",
        },
        Intent::Installing => match fault {
            Fault::Unavailable => "Failed to get write access to ",
            _ => "Failed to set ",
        },
    };
    let tail: &str = match fault {
        Fault::Vacant => ", as it hasn't been created yet. Is the server running?",
        Fault::Occupied => ", as it already holds a value.",
        Fault::Unavailable => match intent {
            Intent::Installing => " to set its value.",
            _ => ".",
        },
    };
    String::from_str(head).concat(name).concat(tail)
}

/// Applies `f` to the value of a cell, given what the attempt to reach the
/// cell's content gave: nothing, or the content.
pub fn read_reached<T, U, F: FnOnce(&T) -> U>(reached: Option<&Option<T>>, f: F) -> (outcome:
    Result<U, Fault>)
    requires
        forall|value: &T| call_requires(f, (value,)),
    ensures
        match reached {
            None => outcome == Err::<U, Fault>(Fault::Unavailable),
            Some(None) => outcome == Err::<U, Fault>(Fault::Vacant),
            Some(Some(value)) => outcome matches Ok(result) && call_ensures(f, (value,), result),
        },
{
    match reached {
        None => Err(Fault::Unavailable),
        Some(content) => match content {
            None => Err(Fault::Vacant),
            Some(value) => Ok(f(value)),
        },
    }
}

/// Applies `f` to the value of a cell in place, given what the attempt to
/// reach the cell's content gave.  A vacant cell stays vacant.
pub fn mutate_reached<T, U, F: FnOnce(&mut T) -> U>(reached: Option<&mut Option<T>>, f: F) -> (outcome:
    Result<U, Fault>)
    requires
        forall|value: &mut T| call_requires(f, (value,)),
    ensures
        match reached {
            None => outcome == Err::<U, Fault>(Fault::Unavailable),
            Some(place) => match *place {
                None => outcome == Err::<U, Fault>(Fault::Vacant) && (*final(place)).is_none(),
                Some(before) => outcome matches Ok(result) && *final(place) matches Some(after)
                    && exists|value: &mut T|
                    *value == before && *final(value) == after && call_ensures(
                        f,
                        (value,),
                        result,
                    ),
            },
        },
{
    match reached {
        None => Err(Fault::Unavailable),
        Some(place) => match place {
            None => Err(Fault::Vacant),
            Some(value) => Ok(f(value)),
        },
    }
}

/// What a cell holds after an attempt to put `value` into it, and how the
/// attempt ends: a vacant cell takes the value, an occupied one takes it only
/// where its occupant may be replaced, and keeps its occupant otherwise.
pub open spec fn installed<T>(content: Option<T>, replaceable: bool, value: T) -> (
    Option<T>,
    Result<(), Fault>,
) {
    if content.is_some() && !replaceable {
        (content, Err(Fault::Occupied))
    } else {
        (Some(value), Ok(()))
    }
}

/// Puts `value` into a cell, given what the attempt to reach the cell's
/// content gave.  A vacant cell takes the value.  An occupied cell is shown
/// to `replaceable` and takes the value only where that says so.
pub fn replace_reached<T, F: FnOnce(&T) -> bool>(
    reached: Option<&mut Option<T>>,
    value: T,
    replaceable: F,
) -> (outcome: Result<(), Fault>)
    requires
        forall|occupant: &T| call_requires(replaceable, (occupant,)),
    ensures
        match reached {
            None => outcome == Err::<(), Fault>(Fault::Unavailable),
            Some(place) => match *place {
                None => (*final(place), outcome) == installed(*place, false, value),
                Some(occupant) => call_ensures(replaceable, (&occupant,), outcome.is_ok()) && (
                    *final(place),
                    outcome,
                ) == installed(*place, outcome.is_ok(), value),
            },
        },
{
    match reached {
        None => Err(Fault::Unavailable),
        Some(place) => {
            let verdict = match place {
                None => true,
                Some(occupant) => replaceable(occupant),
            };
            if verdict {
                *place = Some(value);
                Ok(())
            } else {
                Err(Fault::Occupied)
            }
        },
    }
}

/// Puts `value` into a vacant cell, given what the attempt to reach the
/// cell's content gave.  A cell that holds a value keeps it.
pub fn set_reached<T>(reached: Option<&mut Option<T>>, value: T) -> (outcome: Result<(), Fault>)
    ensures
        match reached {
            None => outcome == Err::<(), Fault>(Fault::Unavailable),
            Some(place) => (*final(place), outcome) == installed(*place, false, value),
        },
{
    match reached {
        None => Err(Fault::Unavailable),
        Some(place) => {
            if place.is_some() {
                Err(Fault::Occupied)
            } else {
                *place = Some(value);
                Ok(())
            }
        },
    }
}

/// A value put into a vacant cell stays there: a second attempt, while the
/// first occupant may not be replaced, fails and changes nothing.
pub proof fn lemma_second_install_is_refused<T>(first: T, second: T)
    ensures
        installed(None, false, first) == (Some(first), Ok::<(), Fault>(())),
        installed(installed(None, false, first).0, false, second) == (
            Some(first),
            Err::<(), Fault>(Fault::Occupied),
        ),
{
}

/// An occupant that may be replaced gives way to the next value.
pub proof fn lemma_replaceable_occupant_gives_way<T>(content: Option<T>, value: T)
    ensures
        installed(content, true, value) == (Some(value), Ok::<(), Fault>(())),
{
}

/// `result` is what `f` gives for some value that it is shown.
pub open spec fn read_by<T, U, F: FnOnce(&T) -> U>(f: F, result: U) -> bool {
    exists|value: &T| call_ensures(f, (value,), result)
}

/// `result` is what `f` gives for some value that it is handed to change.
pub open spec fn written_by<T, U, F: FnOnce(&mut T) -> U>(f: F, result: U) -> bool {
    exists|value: &mut T| call_ensures(f, (value,), result)
}

/// `f` turns down some occupant that it is shown.
pub open spec fn refused_by<T, F: FnOnce(&T) -> bool>(f: F) -> bool {
    exists|occupant: &T| call_ensures(f, (occupant,), false)
}

/// A lock-protected cell that holds nothing, or one value of type `T`.
#[verifier::reject_recursive_types(T)]
pub struct StateCell<T> {
    name: String,
    lock: RwLock<Option<T>>,
}

impl<T> StateCell<T> {
    /// The name by which notices speak of the cell.
    pub closed spec fn label(&self) -> Seq<char> {
        self.name@
    }

    /// A vacant cell called `name`.
    pub fn new(name: &str) -> (cell: StateCell<T>)
        ensures
            cell.label() == name@,
    {
        StateCell { name: String::from_str(name), lock: new_lock(None) }
    }

    /// The name given to the cell when it was made.
    pub fn name(&self) -> (name: &str)
        ensures
            name@ == self.label(),
    {
        self.name.as_str()
    }
}

/// Applies `f` to the value of `cell` under shared access and returns what
/// it gave.  Fails, says why, and records why in `errors`, where the lock
/// cannot be had at once or the cell is vacant.
pub fn read_or_fault<T, U, F: FnOnce(&T) -> U>(cell: &StateCell<T>, errors: &ErrorSlot, f: F) -> (outcome:
    Result<U, Fault>)
    requires
        forall|value: &T| call_requires(f, (value,)),
    ensures
        outcome matches Err(fault) ==> fault != Fault::Occupied,
        outcome matches Ok(result) ==> read_by(f, result),
{
    let guard = try_shared(&cell.lock);
    let reached = match &guard {
        Some(reader) => Some(held(reader)),
        None => None,
    };
    match read_reached(reached, f) {
        Ok(result) => {
            assert(call_ensures(f, (&reached->0->0,), result));
            Ok(result)
        },
        Err(fault) => {
            weakly_record_error(errors, describe_fault(Intent::Reading, fault, cell.name()));
            Err(fault)
        },
    }
}

/// Applies `f` to the value of `cell` under shared access and returns what
/// it gave.  Returns nothing, and records why in `errors`, where the lock
/// cannot be had at once or the cell is vacant.
pub fn read<T, U, F: FnOnce(&T) -> U>(cell: &StateCell<T>, errors: &ErrorSlot, f: F) -> (answer:
    Option<U>)
    requires
        forall|value: &T| call_requires(f, (value,)),
    ensures
        answer matches Some(result) ==> read_by(f, result),
{
    match read_or_fault(cell, errors, f) {
        Ok(result) => Some(result),
        Err(_) => None,
    }
}

/// Applies `f` to the value of `cell` under exclusive access and returns
/// what it gave.  Returns nothing, and records why in `errors`, where the
/// lock cannot be had at once or the cell is vacant.
pub fn mutate<T, U, F: FnOnce(&mut T) -> U>(cell: &StateCell<T>, errors: &ErrorSlot, f: F) -> (answer:
    Option<U>)
    requires
        forall|value: &mut T| call_requires(f, (value,)),
    ensures
        answer matches Some(result) ==> written_by(f, result),
{
    let mut guard = try_exclusive(&cell.lock);
    let reached = match &mut guard {
        Some(writer) => Some(held_mut(writer)),
        None => None,
    };
    match mutate_reached(reached, f) {
        Ok(result) => Some(result),
        Err(fault) => {
            weakly_record_error(errors, describe_fault(Intent::Writing, fault, cell.name()));
            None
        },
    }
}

/// Gives a vacant `cell` its value.  Fails, and records why in `errors`,
/// where the lock cannot be had at once or the cell already holds a value,
/// which it then keeps.
pub fn set_value<T>(cell: &StateCell<T>, errors: &ErrorSlot, new_val: T) -> (outcome: Result<
    (),
    (),
>) {
    let mut guard = try_exclusive(&cell.lock);
    let reached = match &mut guard {
        Some(writer) => Some(held_mut(writer)),
        None => None,
    };
    match set_reached(reached, new_val) {
        Ok(()) => Ok(()),
        Err(fault) => {
            weakly_record_error(errors, describe_fault(Intent::Installing, fault, cell.name()));
            Err(())
        },
    }
}

/// Gives `cell` its value where the cell is vacant, or where `replaceable`
/// says that its occupant may go.  Fails, and records why in `errors`, where
/// the lock cannot be had at once or the occupant stays.
pub fn replace_value<T, F: FnOnce(&T) -> bool>(
    cell: &StateCell<T>,
    errors: &ErrorSlot,
    new_val: T,
    replaceable: F,
) -> (outcome: Result<(), Fault>)
    requires
        forall|occupant: &T| call_requires(replaceable, (occupant,)),
    ensures
        outcome matches Err(fault) ==> fault != Fault::Vacant,
        outcome == Err::<(), Fault>(Fault::Occupied) ==> refused_by(replaceable),
{
    let mut guard = try_exclusive(&cell.lock);
    let reached = match &mut guard {
        Some(writer) => Some(held_mut(writer)),
        None => None,
    };
    match replace_reached(reached, new_val, replaceable) {
        Ok(()) => Ok(()),
        Err(fault) => {
            proof {
                if fault == Fault::Occupied {
                    assert(call_ensures(replaceable, (&(*reached->0)->0,), false));
                }
            }
            weakly_record_error(errors, describe_fault(Intent::Installing, fault, cell.name()));
            Err(fault)
        },
    }
}

} // verus!
