//! The registration: the domain in which every other object is opened.

use crate::handle::RawHandle;
use crate::status::{Error, Status};
use vstd::prelude::*;

verus! {

/// How the engine schedules the work of a registration.
#[derive(Clone, Copy, Debug, PartialEq, Eq, Structural)]
pub enum ExecutionProfile {
    /// Favour latency.
    LowLatency,
    /// Favour throughput.
    MaxThroughput,
    /// Use idle resources only.
    Scavenger,
    /// Favour deadlines.
    RealTime,
}

/// What a registration is opened with.
#[derive(Debug)]
pub struct RegistrationConfig {
    /// Name of the application, for the engine's diagnostics.
    pub app_name: String,
    /// Scheduling profile.
    pub execution_profile: ExecutionProfile,
}

impl Default for RegistrationConfig {
    fn default() -> (config: Self)
        ensures
            config.app_name@.len() == 0,
            config.execution_profile == ExecutionProfile::LowLatency,
    {
        RegistrationConfig { app_name: String::new(), execution_profile: ExecutionProfile::LowLatency }
    }
}

/// The execution context that configurations, listeners and connections are
/// opened in. It counts the objects that are open in it and can be closed only
/// when none is left.
#[derive(Debug)]
pub struct Registration {
    raw: RawHandle,
    children: u64,
}

impl Registration {
    /// The engine's name for the registration.
    pub closed spec fn raw(&self) -> RawHandle {
        self.raw
    }

    /// Number of objects that are open in the registration.
    pub closed spec fn children(&self) -> nat {
        self.children as nat
    }

    /// Opens a registration: `native` is what the engine answered to the
    /// request to create one.
    pub fn new(config: &RegistrationConfig, native: Result<RawHandle, Status>) -> (result: Result<
        Registration,
        Error,
    >)
        ensures
            match native {
                Ok(raw) => result matches Ok(registration) && registration.raw() == raw
                    && registration.children() == 0,
                Err(status) => result == Err::<Registration, Error>(Error::EngineInit(status)),
            },
    {
        match native {
            Ok(raw) => Ok(Registration { raw, children: 0 }),
            Err(status) => Err(Error::EngineInit(status)),
        }
    }

    /// The engine's name for the registration.
    pub fn handle(&self) -> (raw: RawHandle)
        ensures
            raw == self.raw(),
    {
        self.raw
    }

    /// Number of objects that are open in the registration.
    pub fn child_count(&self) -> (n: u64)
        ensures
            n == self.children(),
    {
        self.children
    }

    /// Counts one more open object, unless the count is at its end.
    pub(crate) fn adopt(&mut self) -> (counted: bool)
        ensures
            final(self).raw() == old(self).raw(),
            counted == (old(self).children() < u64::MAX),
            counted ==> final(self).children() == old(self).children() + 1,
            !counted ==> final(self).children() == old(self).children(),
    {
        if self.children < u64::MAX {
            self.children = self.children + 1;
            true
        } else {
            false
        }
    }

    /// Whether an object that was opened in `parent` can be taken off the
    /// count of this registration.
    pub open spec fn counts(&self, parent: RawHandle) -> bool {
        parent == self.raw() && self.children() > 0
    }

    /// Takes one object that was opened in `parent` off the count.
    pub(crate) fn disown(&mut self, parent: RawHandle) -> (done: bool)
        ensures
            final(self).raw() == old(self).raw(),
            done == old(self).counts(parent),
            done ==> final(self).children() == old(self).children() - 1,
            !done ==> final(self).children() == old(self).children(),
    {
        if parent == self.raw && self.children > 0 {
            self.children = self.children - 1;
            true
        } else {
            false
        }
    }

    /// Closes the registration. This is refused, with `InvalidState`, while an
    /// object that was opened in it is still open; the registration then comes
    /// back as it was.
    pub fn close(self) -> (result: Result<RawHandle, (Error, Registration)>)
        ensures
            self.children() == 0 ==> result == Ok::<RawHandle, (Error, Registration)>(self.raw()),
            self.children() > 0 ==> result == Err::<RawHandle, (Error, Registration)>(
                (Error::Status(Status::InvalidState), self),
            ),
    {
        if self.children == 0 {
            Ok(self.raw)
        } else {
            Err((Error::Status(Status::InvalidState), self))
        }
    }
}

} // verus!
