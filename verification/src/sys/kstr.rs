//! The string and slice records handed across the system-call boundary.
//!
//! On the wire each of these is a pointer/length pair.  Here each is
//! modelled as the borrow it stands for, so that what a record refers to is
//! a plain value and reading it back needs no trust.

use vstd::prelude::*;

verus! {

/// A constant string handed to the kernel.
#[derive(Copy, Clone)]
pub struct KStrCPtr<'a> {
    /// The text the record points at.
    pub s: &'a str,
}

impl<'a> KStrCPtr<'a> {
    /// A record covering the whole of `st`.
    pub fn from_str(st: &'a str) -> (r: KStrCPtr<'a>)
        ensures
            r.s == st,
    {
        KStrCPtr { s: st }
    }

    /// The empty string.
    pub fn empty() -> (r: KStrCPtr<'a>)
        ensures
            r.s@.len() == 0,
    {
        proof {
            reveal_strlit("");
        }
        KStrCPtr { s: "" }
    }

    /// The text the record covers.
    pub fn as_str(&self) -> (r: &'a str)
        ensures
            r == self.s,
    {
        self.s
    }
}

/// A string buffer the kernel writes back; modelled by its contents after
/// the call.
#[derive(Copy, Clone)]
pub struct KStrPtr<'a> {
    /// The text the buffer holds.
    pub s: &'a str,
}

impl<'a> KStrPtr<'a> {
    /// An empty buffer.
    pub fn empty() -> (r: KStrPtr<'a>)
        ensures
            r.s@.len() == 0,
    {
        proof {
            reveal_strlit("");
        }
        KStrPtr { s: "" }
    }

    /// The same region, read-only.
    pub fn as_const(&self) -> (r: KStrCPtr<'a>)
        ensures
            r.s == self.s,
    {
        KStrCPtr { s: self.s }
    }
}

/// A constant array handed to the kernel.
#[derive(Copy, Clone)]
pub struct KCSlice<'a, T> {
    /// The items the record points at.
    pub items: &'a [T],
}

impl<'a, T> KCSlice<'a, T> {
    /// The empty array.
    pub fn empty() -> (r: KCSlice<'a, T>)
        ensures
            r.items@.len() == 0,
    {
        KCSlice { items: &[] }
    }

    /// A record covering the whole of `sl`.
    pub fn from_slice(sl: &'a [T]) -> (r: KCSlice<'a, T>)
        ensures
            r.items == sl,
    {
        KCSlice { items: sl }
    }

    /// The items the record covers.
    pub fn as_slice(&self) -> (r: &'a [T])
        ensures
            r == self.items,
    {
        self.items
    }
}

/// An array the kernel writes back; modelled by its contents after the
/// call.
#[derive(Copy, Clone)]
pub struct KSlice<'a, T> {
    /// The items the record holds.
    pub items: &'a [T],
}

impl<'a, T> KSlice<'a, T> {
    /// The empty array.
    pub fn empty() -> (r: KSlice<'a, T>)
        ensures
            r.items@.len() == 0,
    {
        KSlice { items: &[] }
    }

    /// A record covering the whole of `sl`.  The kernel is the one writer
    /// through such a record, so this layer's view of it stays read-only.
    pub fn from_slice_mut(sl: &'a mut [T]) -> (r: KSlice<'a, T>)
        ensures
            r.items@ == old(sl)@,
    {
        KSlice { items: sl }
    }

    /// The items the record covers.
    pub fn as_slice(&self) -> (r: &'a [T])
        ensures
            r == self.items,
    {
        self.items
    }
}

} // verus!
