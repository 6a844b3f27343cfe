//! The configuration: ALPN list, settings and credential, bundled for the
//! engine and shared, read-only, by the connections and listeners that use it.

use crate::buffer::{views, BufferRef};
use crate::config::{CredentialConfig, CredentialFlags, Settings};
use crate::handle::RawHandle;
use crate::registration::Registration;
use crate::status::{Error, Status};
use vstd::prelude::*;
use vstd::slice::slice_to_vec;

verus! {

/// What a configuration is, to the contracts.
pub struct ConfigurationModel {
    /// The engine's name for the configuration.
    pub raw: RawHandle,
    /// The registration that it was opened in.
    pub registration: RawHandle,
    /// The protocol identifiers, in order of preference.
    pub alpn: Seq<Seq<u8>>,
    /// The transport settings, if any were given.
    pub settings: Option<Settings>,
    /// The flags of the credential that was loaded, once one was.
    pub credential: Option<CredentialFlags>,
}

/// An engine configuration.
#[derive(Debug)]
pub struct Configuration {
    raw: RawHandle,
    registration: RawHandle,
    alpn: Vec<Vec<u8>>,
    settings: Option<Settings>,
    credential: Option<CredentialFlags>,
}

impl View for Configuration {
    type V = ConfigurationModel;

    closed spec fn view(&self) -> ConfigurationModel {
        ConfigurationModel {
            raw: self.raw,
            registration: self.registration,
            alpn: Seq::new(self.alpn@.len(), |i: int| self.alpn@[i]@),
            settings: self.settings,
            credential: self.credential,
        }
    }
}

/// What loading `credential` into a configuration leads to, given the
/// engine's answer `verdict`: the flags that the configuration then carries,
/// or the status of the refusal. A configuration takes a credential once; a
/// malformed credential is refused whatever the engine says; otherwise the
/// engine decides.
pub open spec fn load_outcome(
    before: ConfigurationModel,
    credential: &CredentialConfig,
    verdict: Result<(), Status>,
) -> Result<CredentialFlags, Status> {
    if before.credential is Some {
        Err(Status::InvalidState)
    } else if credential.malformed() {
        Err(Status::InvalidParameter)
    } else {
        match verdict {
            Ok(_) => Ok(credential.flags),
            Err(status) => Err(status),
        }
    }
}

impl Configuration {
    /// Opens a configuration in `registration`: `native` is what the engine
    /// answered to the request to create one.
    pub fn open(
        registration: &mut Registration,
        alpn: &[BufferRef<'_>],
        settings: Option<&Settings>,
        native: Result<RawHandle, Status>,
    ) -> (result: Result<Configuration, Error>)
        ensures
            final(registration).raw() == old(registration).raw(),
            match native {
                Ok(raw) => if old(registration).children() < u64::MAX {
                    &&& result matches Ok(configuration)
                    &&& configuration@ == (ConfigurationModel {
                        raw,
                        registration: old(registration).raw(),
                        alpn: views(alpn@),
                        settings: match settings {
                            Some(s) => Some(*s),
                            None => None,
                        },
                        credential: None,
                    })
                    &&& final(registration).children() == old(registration).children() + 1
                } else {
                    &&& result == Err::<Configuration, Error>(
                        Error::EngineInit(Status::OutOfMemory),
                    )
                    &&& final(registration).children() == old(registration).children()
                },
                Err(status) => {
                    &&& result == Err::<Configuration, Error>(Error::EngineInit(status))
                    &&& final(registration).children() == old(registration).children()
                },
            },
    {
        let raw = match native {
            Ok(raw) => raw,
            Err(status) => {
                return Err(Error::EngineInit(status));
            },
        };
        if !registration.adopt() {
            return Err(Error::EngineInit(Status::OutOfMemory));
        }
        let mut copied: Vec<Vec<u8>> = Vec::new();
        let mut i: usize = 0;
        while i < alpn.len()
            invariant
                i <= alpn.len(),
                copied@.len() == i,
                forall|k: int| 0 <= k < i ==> (#[trigger] copied@[k])@ == alpn@[k]@,
            decreases alpn.len() - i,
        {
            copied.push(slice_to_vec(alpn[i].as_bytes()));
            i += 1;
        }
        let configuration = Configuration {
            raw,
            registration: registration.handle(),
            alpn: copied,
            settings: match settings {
                Some(s) => Some(*s),
                None => None,
            },
            credential: None,
        };
        assert(configuration@.alpn =~= views(alpn@));
        Ok(configuration)
    }

    /// Loads the credential: `verdict` is what the engine answered. See
    /// [`load_outcome`]. A refusal leaves the configuration as it was.
    pub fn load_credential(&mut self, credential: &CredentialConfig, verdict: Result<(), Status>) -> (result:
        Result<(), Error>)
        ensures
            match load_outcome(old(self)@, credential, verdict) {
                Ok(flags) => result == Ok::<(), Error>(()) && final(self)@ == (ConfigurationModel {
                    credential: Some(flags),
                    ..old(self)@
                }),
                Err(status) => result == Err::<(), Error>(Error::Status(status)) && final(self)@
                    == old(self)@,
            },
    {
        if self.credential.is_some() {
            return Err(Error::Status(Status::InvalidState));
        }
        match credential.validate() {
            Ok(_) => {},
            Err(status) => {
                return Err(Error::Status(status));
            },
        }
        match verdict {
            Ok(_) => {
                self.credential = Some(credential.flags);
                Ok(())
            },
            Err(status) => Err(Error::Status(status)),
        }
    }

    /// The engine's name for the configuration.
    pub fn handle(&self) -> (raw: RawHandle)
        ensures
            raw == self@.raw,
    {
        self.raw
    }

    /// Whether a credential has been loaded, so that connections can use the
    /// configuration.
    pub fn is_loaded(&self) -> (b: bool)
        ensures
            b == self@.credential is Some,
    {
        self.credential.is_some()
    }

    /// The flags of the loaded credential.
    pub fn credential_flags(&self) -> (flags: Option<CredentialFlags>)
        ensures
            flags == self@.credential,
    {
        self.credential
    }

    /// The transport settings that the configuration was opened with.
    pub fn settings(&self) -> (settings: Option<Settings>)
        ensures
            settings == self@.settings,
    {
        self.settings
    }

    /// Number of protocol identifiers.
    pub fn alpn_count(&self) -> (n: usize)
        ensures
            n == self@.alpn.len(),
    {
        self.alpn.len()
    }

    /// Protocol identifier `i`.
    pub fn alpn(&self, i: usize) -> (buffer: BufferRef<'_>)
        requires
            i < self@.alpn.len(),
        ensures
            buffer@ == self@.alpn[i as int],
    {
        BufferRef::new(self.alpn[i].as_slice())
    }

    /// Closes the configuration and takes it off the count of `registration`.
    /// The handle that comes back is the one to close at the engine. A
    /// registration that does not count the configuration is refused, with
    /// `InvalidParameter`, and nothing changes.
    pub fn close(self, registration: &mut Registration) -> (result: Result<
        RawHandle,
        (Error, Configuration),
    >)
        ensures
            final(registration).raw() == old(registration).raw(),
            old(registration).counts(self@.registration) ==> {
                &&& result == Ok::<RawHandle, (Error, Configuration)>(self@.raw)
                &&& final(registration).children() == old(registration).children() - 1
            },
            !old(registration).counts(self@.registration) ==> {
                &&& result == Err::<RawHandle, (Error, Configuration)>(
                    (Error::Status(Status::InvalidParameter), self),
                )
                &&& final(registration).children() == old(registration).children()
            },
    {
        if registration.disown(self.registration) {
            Ok(self.raw)
        } else {
            Err((Error::Status(Status::InvalidParameter), self))
        }
    }
}

} // verus!
