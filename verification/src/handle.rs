//! Who answers for a native object: the wrapper or the engine.
//!
//! A native object is destroyed by a request from the wrapper, never by the
//! engine alone, and the request may be made once. Two types keep track of who
//! is to make it. [`Owned`] holds that duty. [`Detached`] is the same object
//! after the wrapper has surrendered it to the engine: the engine keeps
//! driving it, and nobody may ask for its destruction. The only way back is
//! [`Owned::from_raw`], which succeeds once the engine has delivered the
//! object's terminal event. Neither type can be copied, and every transition
//! consumes its input, so at any time at most one of the two exists for each
//! object that was opened or announced.
//!
//! Events reach an object through a `&mut` borrow of what either type holds.
//! The borrow ends before the object can be detached, attached or closed, so
//! no handler runs while ownership changes hands.

use crate::status::{Error, Status};
use vstd::prelude::*;

verus! {

/// The engine's name for a native object.
#[derive(Clone, Copy, Debug, PartialEq, Eq, Structural)]
pub struct RawHandle {
    /// The handle's value.
    pub id: u64,
}

/// Names the handler that is bound to an object. The handler itself, a
/// shareable closure, is kept by the caller under this name and is invoked
/// with each event that `on_event` hands out.
#[derive(Clone, Copy, Debug, PartialEq, Eq, Structural)]
pub struct CallbackHandler {
    /// The handler's name.
    pub id: u64,
}

/// The state that the wrapper keeps for one native object.
pub trait Native: Sized {
    /// The state's invariant.
    spec fn wf(&self) -> bool;

    /// The engine's name for the object.
    spec fn raw(&self) -> RawHandle;

    /// The engine has been asked to work on the object and has not yet
    /// delivered the terminal event: more events are owed.
    spec fn driven(&self) -> bool;

    /// The terminal event has been delivered.
    spec fn terminal(&self) -> bool;

    /// The engine's name for the object.
    fn handle(&self) -> (raw: RawHandle)
        ensures
            raw == self.raw(),
    ;

    /// Whether more events are owed.
    fn is_driven(&self) -> (b: bool)
        ensures
            b == self.driven(),
    ;

    /// Whether the terminal event has been delivered.
    fn is_terminal(&self) -> (b: bool)
        ensures
            b == self.terminal(),
    ;
}

/// A native object that the wrapper answers for.
#[derive(Debug)]
pub struct Owned<T: Native> {
    inner: T,
}

/// A native object that has been surrendered to the engine.
#[derive(Debug)]
pub struct Detached<T: Native> {
    inner: T,
}

impl<T: Native> View for Owned<T> {
    type V = T;

    closed spec fn view(&self) -> T {
        self.inner
    }
}

impl<T: Native> View for Detached<T> {
    type V = T;

    closed spec fn view(&self) -> T {
        self.inner
    }
}

impl<T: Native> Detached<T> {
    /// Wraps the state of an object that the engine created and drives.
    pub(crate) fn new(inner: T) -> (detached: Self)
        ensures
            detached@ == inner,
    {
        Detached { inner }
    }

    /// The object, for the length of one callback.
    pub fn get(&self) -> (inner: &T)
        ensures
            *inner == self@,
    {
        &self.inner
    }

    /// The object, for the length of one callback, to act on it.
    pub fn get_mut(&mut self) -> (inner: &mut T)
        ensures
            *inner == old(self)@,
            final(self)@ == *final(inner),
    {
        &mut self.inner
    }
}

impl<T: Native> Owned<T> {
    /// Wraps the state of an object that the wrapper has just opened.
    pub(crate) fn new(inner: T) -> (owned: Self)
        ensures
            owned@ == inner,
    {
        Owned { inner }
    }

    /// The object, borrowed.
    pub fn get(&self) -> (inner: &T)
        ensures
            *inner == self@,
    {
        &self.inner
    }

    /// The object, borrowed to act on it.
    pub fn get_mut(&mut self) -> (inner: &mut T)
        ensures
            *inner == old(self)@,
            final(self)@ == *final(inner),
    {
        &mut self.inner
    }

    /// Detaches: surrenders the object to the engine without releasing it.
    pub fn into_raw(self) -> (detached: Detached<T>)
        ensures
            detached@ == self@,
    {
        Detached { inner: self.inner }
    }

    /// Attaches: takes the object back from the engine, to release it. This is
    /// legal only once the terminal event has been delivered; before that the
    /// object comes back detached, with `InvalidState`.
    pub fn from_raw(detached: Detached<T>) -> (result: Result<Owned<T>, (Error, Detached<T>)>)
        ensures
            detached@.terminal() ==> (result matches Ok(owned) && owned@ == detached@),
            !detached@.terminal() ==> result == Err::<Owned<T>, (Error, Detached<T>)>(
                (Error::Status(Status::InvalidState), detached),
            ),
    {
        if detached.inner.is_terminal() {
            Ok(Owned { inner: detached.inner })
        } else {
            Err((Error::Status(Status::InvalidState), detached))
        }
    }

    /// Releases the object: the handle that comes back is the one to close at
    /// the engine. While events are still owed the object is not released and
    /// comes back as it was, with `InvalidState`.
    pub(crate) fn release(self) -> (result: Result<RawHandle, (Error, Owned<T>)>)
        ensures
            !self@.driven() ==> result == Ok::<RawHandle, (Error, Owned<T>)>(self@.raw()),
            self@.driven() ==> result == Err::<RawHandle, (Error, Owned<T>)>(
                (Error::Status(Status::InvalidState), self),
            ),
    {
        if self.inner.is_driven() {
            Err((Error::Status(Status::InvalidState), self))
        } else {
            Ok(self.inner.handle())
        }
    }
}

} // verus!
