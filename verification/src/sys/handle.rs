//! Handles: active capabilities to kernel objects.
//!
//! At the system-call boundary a handle is a pointer-sized token that
//! userspace never dereferences.  Here it is modelled as the token's
//! address, with the static type of the object it refers to carried as a
//! phantom parameter, so that everything the surrounding code does with a
//! handle — passing, casting, null-testing — is over plain values.

use core::marker::PhantomData;
use vstd::prelude::*;

verus! {

/// An opaque type standing for any object referred to by a handle.
pub struct Handle;

/// A typed handle token.  The null token is never valid for operations on
/// an object.
#[derive(Debug)]
pub struct HandlePtr<T> {
    /// The token's pointer-sized value.
    pub addr: usize,
    pub _marker: PhantomData<T>,
}

impl<T> Copy for HandlePtr<T> {

}

impl<T> Clone for HandlePtr<T> {
    fn clone(&self) -> (r: Self)
        ensures
            r == *self,
    {
        *self
    }
}

impl<T> HandlePtr<T> {
    /// Whether this is the null token.
    pub open spec fn spec_is_null(self) -> bool {
        self.addr == 0
    }

    /// The null handle of the type: a reliable initial or sentinel value.
    pub fn null() -> (r: HandlePtr<T>)
        ensures
            r.addr == 0,
    {
        HandlePtr { addr: 0, _marker: PhantomData }
    }

    /// The token at another type, unchanged.
    pub open spec fn spec_cast<U>(self) -> HandlePtr<U> {
        HandlePtr { addr: self.addr, _marker: PhantomData }
    }

    /// Statically converts between handle types without changing the token.
    #[verifier::when_used_as_spec(spec_cast)]
    pub fn cast<U>(self) -> (r: HandlePtr<U>)
        ensures
            r == self.spec_cast::<U>(),
    {
        HandlePtr { addr: self.addr, _marker: PhantomData }
    }

    /// The token's raw value.
    pub fn addr(&self) -> (r: usize)
        ensures
            r == self.addr,
    {
        self.addr
    }

    /// Whether this is the null token.
    pub fn is_null(&self) -> (r: bool)
        ensures
            r == self.spec_is_null(),
    {
        self.addr == 0
    }
}

/// A handle token that has been shared out of its owning thread.
#[derive(Copy, Clone, Debug)]
pub struct SharedHandlePtr {
    pub addr: usize,
}

/// A handle padded to sixteen bytes regardless of pointer width; the
/// padding bytes are zero.
#[derive(Debug)]
pub struct WideHandle<T> {
    /// The handle itself, at the start of the record.
    pub handle: HandlePtr<T>,
    /// Zero padding.
    pub __pad: [u32; 2],
}

impl<T> Copy for WideHandle<T> {

}

impl<T> Clone for WideHandle<T> {
    fn clone(&self) -> (r: Self)
        ensures
            r == *self,
    {
        *self
    }
}

impl<T> WideHandle<T> {
    /// The null wide handle, with the padding initialised.
    pub fn null() -> (r: WideHandle<T>)
        ensures
            r.handle.addr == 0,
            r.__pad == [0u32, 0u32],
    {
        WideHandle { handle: HandlePtr::null(), __pad: [0, 0] }
    }
}

} // verus!
