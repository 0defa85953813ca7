//! A value that is shown before the device has confirmed it.

use vstd::prelude::*;

verus! {

/// A setting as an application holds it: the value it shows, and whether
/// that value still waits for the device to confirm it.
#[derive(Debug)]
pub struct Optimistic<T: Clone> {
    value: Option<T>,
    pending: bool,
}

/// An optimistic value as a mathematical value.
pub struct OptimisticView<T> {
    pub value: Option<T>,
    pub pending: bool,
}

impl<T: Clone> View for Optimistic<T> {
    type V = OptimisticView<T>;

    closed spec fn view(&self) -> OptimisticView<T> {
        OptimisticView { value: self.value, pending: self.pending }
    }
}

impl<T: Clone> Optimistic<T> {
    /// Starts from what is known: with a value nothing is pending, without
    /// one the first report of the device is awaited.
    pub fn new(value: Option<T>) -> (optimistic: Optimistic<T>)
        ensures
            optimistic@ == (OptimisticView { value, pending: value is None }),
    {
        Optimistic { pending: value.is_none(), value }
    }

    /// Whether the value waits for the device to confirm it.
    pub fn pending(&self) -> (pending: bool)
        ensures
            pending == self@.pending,
    {
        self.pending
    }

    /// Shows `new_value` at once and marks it as waiting for confirmation.
    pub fn set(&mut self, new_value: T)
        ensures
            final(self)@ == (OptimisticView { value: Some(new_value), pending: true }),
    {
        self.value = Some(new_value);
        self.pending = true;
    }

    /// A copy of the value that is shown, if there is one.
    pub fn get(&self) -> (value: Option<T>)
        ensures
            value is Some <==> self@.value is Some,
            value matches Some(copy) ==> cloned(self@.value->0, copy),
    {
        match &self.value {
            Some(value) => Some(value.clone()),
            None => None,
        }
    }

    /// Takes the value that the device reported: it is shown, and nothing
    /// is pending any more.
    pub fn on_notify(&mut self, actual_new_value: T)
        ensures
            final(self)@ == (OptimisticView { value: Some(actual_new_value), pending: false }),
    {
        self.value = Some(actual_new_value);
        self.pending = false;
    }
}

} // verus!
