//! Typed wrappers that track how a handle token is held: by reference,
//! owned, borrowed, or shared across threads.
//!
//! The closed set of handle types that can be owned is fixed here by a
//! sealing trait.  Destruction and sharing go through the kernel and are
//! the runtime half's work; what this layer pins down is that every wrapper
//! is a view of one token, and every conversion preserves it.

use crate::sys::debug::DebugHandle;
use crate::sys::device::DeviceHandle;
use crate::sys::fs::FileHandle;
use crate::sys::handle::{HandlePtr, SharedHandlePtr};
use crate::sys::io::IOHandle;
use crate::sys::permission::SecurityContext;
use crate::sys::thread::ThreadHandle;
use core::marker::PhantomData;
use vstd::prelude::*;

verus! {

/// Closes the set of types below; nothing outside this file implements it.
pub trait Sealed {

}

/// A kernel object type whose handles can be owned; the runtime half knows
/// how to destroy each.
pub trait HandleType: Sized + Sealed {

}

/// Marks that a handle of the implementing type may stand in for a handle
/// of type `T`.
pub trait UpcastHandle<T>: HandleType {

}

impl Sealed for ThreadHandle {

}

impl Sealed for DebugHandle {

}

impl Sealed for SecurityContext {

}

impl Sealed for IOHandle {

}

impl Sealed for FileHandle {

}

impl Sealed for DeviceHandle {

}

impl HandleType for ThreadHandle {

}

impl HandleType for DebugHandle {

}

impl HandleType for SecurityContext {

}

impl HandleType for IOHandle {

}

impl HandleType for FileHandle {

}

impl HandleType for DeviceHandle {

}

/// A bare reference to a handle token.
pub struct HandleRef<T>(pub HandlePtr<T>);

impl<T> HandleRef<T> {
    /// The token itself.
    pub fn as_raw(&self) -> (r: HandlePtr<T>)
        ensures
            r == self.0,
    {
        self.0
    }

    /// A borrow of the same token.
    pub fn borrow<'a>(&'a self) -> (r: BorrowedHandle<'a, T>)
        ensures
            r.0 == self.0,
    {
        BorrowedHandle(self.0, PhantomData)
    }

    /// A borrow of the same token at a supertype.
    pub fn upcast<'a, U: HandleType>(&'a self) -> (r: BorrowedHandle<'a, U>) where
        T: UpcastHandle<U>,

        ensures
            r.0.addr == self.0.addr,
    {
        BorrowedHandle(self.0.cast(), PhantomData)
    }
}

/// A handle token this wrapper is responsible for; the runtime half
/// destroys the object when the owner is dropped.
pub struct OwnedHandle<T: HandleType>(pub HandleRef<T>, pub PhantomData<T>);

impl<T: HandleType> OwnedHandle<T> {
    /// Takes responsibility for the token.
    pub fn take_ownership(hdl: HandlePtr<T>) -> (r: OwnedHandle<T>)
        ensures
            r.0.0 == hdl,
    {
        OwnedHandle(HandleRef(hdl), PhantomData)
    }

    /// Gives responsibility for the token back to the caller.
    pub fn release_ownership(self) -> (r: HandlePtr<T>)
        ensures
            r == self.0.0,
    {
        self.0.0
    }

    /// The token itself.
    pub fn as_raw(&self) -> (r: HandlePtr<T>)
        ensures
            r == self.0.0,
    {
        self.0.0
    }
}

/// A handle token borrowed from an owner for a limited lifetime.
pub struct BorrowedHandle<'a, T>(pub HandlePtr<T>, pub PhantomData<&'a T>);

impl<'a, T> Copy for BorrowedHandle<'a, T> {

}

impl<'a, T> Clone for BorrowedHandle<'a, T> {
    fn clone(&self) -> (r: Self)
        ensures
            r == *self,
    {
        *self
    }
}

impl<'a, T> BorrowedHandle<'a, T> {
    /// The token itself.
    pub fn as_raw(&self) -> (r: HandlePtr<T>)
        ensures
            r == self.0,
    {
        self.0
    }
}

/// Anything that can hand out a handle token of type `T`.
pub trait AsHandle<'a, T> {
    /// The token this value stands for.
    spec fn spec_handle(&self) -> HandlePtr<T>;

    /// Reads the token.
    fn as_handle(&self) -> (r: HandlePtr<T>)
        ensures
            r == self.spec_handle(),
    ;
}

impl<'a, T> AsHandle<'a, T> for HandlePtr<T> {
    open spec fn spec_handle(&self) -> HandlePtr<T> {
        *self
    }

    fn as_handle(&self) -> (r: HandlePtr<T>) {
        *self
    }
}

impl<'a, T> AsHandle<'a, T> for &'a HandleRef<T> {
    open spec fn spec_handle(&self) -> HandlePtr<T> {
        self.0
    }

    fn as_handle(&self) -> (r: HandlePtr<T>) {
        self.as_raw()
    }
}

impl<'a, T: HandleType> AsHandle<'a, T> for &'a OwnedHandle<T> {
    open spec fn spec_handle(&self) -> HandlePtr<T> {
        self.0.0
    }

    fn as_handle(&self) -> (r: HandlePtr<T>) {
        self.as_raw()
    }
}

impl<'a, T> AsHandle<'a, T> for BorrowedHandle<'a, T> {
    open spec fn spec_handle(&self) -> HandlePtr<T> {
        self.0
    }

    fn as_handle(&self) -> (r: HandlePtr<T>) {
        self.as_raw()
    }
}

/// A handle shared out of its owning thread; each thread upgrades the
/// shared token to a thread-local handle on first use, through the runtime
/// half.
pub struct SharedHandle<T: HandleType> {
    /// The process-wide shared token.
    pub shared: SharedHandlePtr,
    pub _marker: PhantomData<T>,
}

} // verus!
