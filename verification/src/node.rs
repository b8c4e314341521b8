//! Shared ownership of subtrees.

use std::rc::Rc;
use vstd::prelude::*;

verus! {

/// A handle on a value that several owners share.
///
/// Cloning a handle never copies the value: both handles then point at the
/// same allocation, which is freed when the last of them is dropped. A handle
/// gives read-only access, so to the verifier a handle *is* its value (`@`).
#[derive(Debug)]
pub struct Node<T>(pub Rc<T>);

impl<T> View for Node<T> {
    type V = T;

    open spec fn view(&self) -> T {
        *self.0
    }
}

/// `Rc::clone`: a second handle on the allocation of `handle`, so what it
/// points at is the value that `handle` points at.
#[verifier::external_body]
fn rc_clone<T>(handle: &Rc<T>) -> (twin: Rc<T>)
    ensures
        twin == *handle,
{
    Rc::clone(handle)
}

/// `Rc::ptr_eq`: true exactly when both handles point at one allocation. Of
/// that only one direction can be said over values: one allocation holds one
/// value.
#[verifier::external_body]
fn rc_ptr_eq<T>(a: &Rc<T>, b: &Rc<T>) -> (same: bool)
    ensures
        same ==> *a == *b,
{
    Rc::ptr_eq(a, b)
}

impl<T> Node<T> {
    /// Takes ownership of a freshly built value.
    pub fn new(value: T) -> (node: Self)
        ensures
            node@ == value,
    {
        Node(Rc::new(value))
    }

    /// Read-only access to the shared value.
    pub fn get(&self) -> (value: &T)
        ensures
            *value == self@,
    {
        &*self.0
    }

    /// Whether two handles share one allocation. Handles that do hold the same
    /// value; handles on equal values need not share it.
    pub fn ptr_eq(a: &Self, b: &Self) -> (same: bool)
        ensures
            same ==> a@ == b@,
    {
        rc_ptr_eq(&a.0, &b.0)
    }
}

impl<T> Clone for Node<T> {
    /// A second handle on the same value, in constant time.
    fn clone(&self) -> (twin: Self)
        ensures
            twin == *self,
    {
        Node(rc_clone(&self.0))
    }
}

impl<T> std::ops::Deref for Node<T> {
    type Target = T;

    fn deref(&self) -> (value: &T)
        ensures
            *value == self@,
    {
        &*self.0
    }
}

} // verus!
