//! Interior-mutable cells used by the recording adapters.
//!
//! The adapters change these cells through shared references, so what the
//! cells hold is left out of every contract: the functions below only move
//! values in and out of them.

use std::cell::{Cell, RefCell};
use vstd::prelude::*;

verus! {

#[verifier::external_type_specification]
#[verifier::external_body]
#[verifier::reject_recursive_types(T)]
pub struct ExRefCell<T: ?Sized>(RefCell<T>);

#[verifier::external_type_specification]
#[verifier::external_body]
#[verifier::reject_recursive_types(T)]
pub struct ExCell<T: ?Sized>(Cell<T>);

/// Calls `RefCell::new`; the cell's contents are not modelled.
#[verifier::external_body]
pub(crate) fn new_log(entries: Vec<String>) -> RefCell<Vec<String>> {
    RefCell::new(entries)
}

/// Appends `entry` to the log through `RefCell::try_borrow_mut`.  When the
/// log is borrowed at the time (a caller holds `calls.borrow()`), the log
/// is left untouched and `entry` is dropped, so the call never panics.  The
/// log's contents are not modelled.
#[verifier::external_body]
pub(crate) fn record_call(log: &RefCell<Vec<String>>, entry: String) {
    if let Ok(mut calls) = log.try_borrow_mut() {
        calls.push(entry);
    }
}

/// Calls `Cell::new`; the cell's contents are not modelled.
#[verifier::external_body]
pub(crate) fn new_cell<T>(value: T) -> Cell<T> {
    Cell::new(value)
}

/// Calls `Cell::take`, which hands out the contents and leaves the default
/// value in their place; it never panics.  What comes out is not modelled.
#[verifier::external_body]
pub(crate) fn take_cell<T: Default>(cell: &Cell<T>) -> T {
    cell.take()
}

/// Calls `Cell::replace`, which stores `value` and hands out what the cell
/// held before; it never panics.  Neither value is modelled.
#[verifier::external_body]
pub(crate) fn replace_cell<T>(cell: &Cell<T>, value: T) -> T {
    cell.replace(value)
}

/// The log entry `op(arg)`.
pub(crate) fn call_entry(op: &str, arg: &str) -> (s: String)
    ensures
        s@ == op@ + "("@ + arg@ + ")"@,
{
    let mut s = String::from_str(op);
    s.append("(");
    s.append(arg);
    s.append(")");
    s
}

} // verus!
