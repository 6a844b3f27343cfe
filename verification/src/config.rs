//! What the engine is configured with: transport settings, the credential,
//! and endpoint addresses. All of it is plain data that the engine consumes.

use crate::status::Status;
use vstd::array::array_fill_for_copy_types;
use vstd::prelude::*;
use vstd::slice::slice_subrange;
use vstd::utf8::encode_utf8;

verus! {

/// How much of a session a server lets a client resume.
#[derive(Clone, Copy, Debug, PartialEq, Eq, Structural)]
pub enum ServerResumptionLevel {
    /// No resumption.
    NoResume,
    /// Resumption without early data.
    ResumeOnly,
    /// Resumption with early data.
    ResumeAndZerortt,
}

/// A sparse set of transport options. An option that is `None` is left to the
/// engine's default.
#[derive(Clone, Copy, Debug, PartialEq, Eq, Structural)]
pub struct Settings {
    /// Idle timeout in milliseconds.
    pub idle_timeout_ms: Option<u64>,
    /// How many bidirectional streams the peer may open.
    pub peer_bidi_stream_count: Option<u16>,
    /// Resumption level of a server.
    pub server_resumption_level: Option<ServerResumptionLevel>,
}

impl Settings {
    /// Settings with every option unset.
    pub fn new() -> (settings: Self)
        ensures
            settings == (Settings {
                idle_timeout_ms: None,
                peer_bidi_stream_count: None,
                server_resumption_level: None,
            }),
    {
        Settings { idle_timeout_ms: None, peer_bidi_stream_count: None, server_resumption_level: None }
    }

    /// Sets the idle timeout and leaves the rest.
    pub fn set_idle_timeout_ms(self, value: u64) -> (settings: Self)
        ensures
            settings == (Settings { idle_timeout_ms: Some(value), ..self }),
    {
        Settings { idle_timeout_ms: Some(value), ..self }
    }

    /// Sets the peer's bidirectional stream limit and leaves the rest.
    pub fn set_peer_bidi_stream_count(self, value: u16) -> (settings: Self)
        ensures
            settings == (Settings { peer_bidi_stream_count: Some(value), ..self }),
    {
        Settings { peer_bidi_stream_count: Some(value), ..self }
    }

    /// Sets the server's resumption level and leaves the rest.
    pub fn set_server_resumption_level(self, value: ServerResumptionLevel) -> (settings: Self)
        ensures
            settings == (Settings { server_resumption_level: Some(value), ..self }),
    {
        Settings { server_resumption_level: Some(value), ..self }
    }
}

/// Flags of a credential configuration.
#[derive(Clone, Copy, Debug, PartialEq, Eq, Structural)]
pub struct CredentialFlags {
    /// The credential is for the client role; unset, for the server role.
    pub client: bool,
    /// The peer's certificate is not validated.
    pub no_certificate_validation: bool,
}

impl CredentialFlags {
    /// No flag set: a server that validates its peer.
    pub fn none() -> (flags: Self)
        ensures
            flags == (CredentialFlags { client: false, no_certificate_validation: false }),
    {
        CredentialFlags { client: false, no_certificate_validation: false }
    }

    /// Only the client role marker.
    pub fn client() -> (flags: Self)
        ensures
            flags == (CredentialFlags { client: true, no_certificate_validation: false }),
    {
        CredentialFlags { client: true, no_certificate_validation: false }
    }

    /// Only "skip peer certificate validation".
    pub fn no_certificate_validation() -> (flags: Self)
        ensures
            flags == (CredentialFlags { client: false, no_certificate_validation: true }),
    {
        CredentialFlags { client: false, no_certificate_validation: true }
    }

    /// Every flag that is set in either.
    pub open spec fn spec_union(self, other: CredentialFlags) -> CredentialFlags {
        CredentialFlags {
            client: self.client || other.client,
            no_certificate_validation: self.no_certificate_validation
                || other.no_certificate_validation,
        }
    }

    /// Every flag that is set in either.
    #[verifier::when_used_as_spec(spec_union)]
    pub fn union(self, other: CredentialFlags) -> (flags: Self)
        ensures
            flags == self.spec_union(other),
    {
        CredentialFlags {
            client: self.client || other.client,
            no_certificate_validation: self.no_certificate_validation
                || other.no_certificate_validation,
        }
    }
}

/// A credential in the platform's certificate store, found by its hash.
#[derive(Clone, Copy, Debug)]
pub struct CertificateHash {
    /// The SHA-1 hash of the certificate.
    pub hash: [u8; 20],
}

/// The value of a hexadecimal digit in ASCII, upper or lower case.
pub open spec fn hex_value(digit: u8) -> Option<u8> {
    if 0x30 <= digit <= 0x39 {
        Some((digit - 0x30) as u8)
    } else if 0x41 <= digit <= 0x46 {
        Some((digit - 0x41 + 10) as u8)
    } else if 0x61 <= digit <= 0x66 {
        Some((digit - 0x61 + 10) as u8)
    } else {
        None
    }
}

/// Whether `text` spells a hash: forty hexadecimal digits and nothing else.
pub open spec fn spells_hash(text: Seq<u8>) -> bool {
    text.len() == 40 && forall|i: int| 0 <= i < 40 ==> hex_value(#[trigger] text[i]) is Some
}

/// The hash that forty hexadecimal digits spell: each pair of digits is one
/// byte, the high digit first.
pub open spec fn hash_of(text: Seq<u8>) -> Seq<u8> {
    Seq::new(
        20,
        |i: int| (16 * hex_value(text[2 * i])->Some_0 + hex_value(text[2 * i + 1])->Some_0) as u8,
    )
}

/// `text` without the line end that closes it, if one does: a line feed, or a
/// carriage return and a line feed.
pub open spec fn without_line_end(text: Seq<u8>) -> Seq<u8> {
    if text.len() > 0 && text.last() == 0x0a {
        let cut = text.drop_last();
        if cut.len() > 0 && cut.last() == 0x0d {
            cut.drop_last()
        } else {
            cut
        }
    } else {
        text
    }
}

/// Cuts off the line end that closes `text`, if one does.
pub fn trim_line_end(text: &[u8]) -> (trimmed: &[u8])
    ensures
        trimmed@ == without_line_end(text@),
{
    let n = text.len();
    if n > 0 && text[n - 1] == 0x0a {
        let cut = if n > 1 && text[n - 2] == 0x0d {
            n - 2
        } else {
            n - 1
        };
        let trimmed = slice_subrange(text, 0, cut);
        assert(trimmed@ =~= without_line_end(text@));
        trimmed
    } else {
        text
    }
}

fn hex_digit(digit: u8) -> (value: Option<u8>)
    ensures
        value == hex_value(digit),
{
    if 0x30 <= digit && digit <= 0x39 {
        Some(digit - 0x30)
    } else if 0x41 <= digit && digit <= 0x46 {
        Some(digit - 0x41 + 10)
    } else if 0x61 <= digit && digit <= 0x66 {
        Some(digit - 0x61 + 10)
    } else {
        None
    }
}

impl CertificateHash {
    /// The credential with the given hash.
    pub fn new(hash: [u8; 20]) -> (credential: Self)
        ensures
            credential.hash == hash,
    {
        CertificateHash { hash }
    }

    /// Reads a hash from its hexadecimal spelling. Anything but forty
    /// hexadecimal digits is refused with `InvalidParameter`.
    pub fn from_hex(text: &[u8]) -> (result: Result<CertificateHash, Status>)
        ensures
            spells_hash(text@) ==> (result matches Ok(credential) && credential.hash@ == hash_of(
                text@,
            )),
            !spells_hash(text@) ==> result == Err::<CertificateHash, Status>(
                Status::InvalidParameter,
            ),
    {
        if text.len() != 40 {
            return Err(Status::InvalidParameter);
        }
        let mut hash: [u8; 20] = array_fill_for_copy_types(0u8);
        let mut i: usize = 0;
        while i < 20
            invariant
                i <= 20,
                text@.len() == 40,
                forall|k: int| 0 <= k < 2 * i ==> hex_value(#[trigger] text@[k]) is Some,
                forall|k: int| 0 <= k < i ==> (#[trigger] hash@[k]) == hash_of(text@)[k],
            decreases 20 - i,
        {
            let high = hex_digit(text[2 * i]);
            let low = hex_digit(text[2 * i + 1]);
            match (high, low) {
                (Some(h), Some(l)) => {
                    hash[i] = 16 * h + l;
                },
                _ => {
                    return Err(Status::InvalidParameter);
                },
            }
            i += 1;
        }
        assert(hash@ =~= hash_of(text@));
        Ok(CertificateHash { hash })
    }

    /// Reads a hash from its hexadecimal spelling in a string.
    pub fn from_str(text: &str) -> (result: Result<CertificateHash, Status>)
        ensures
            spells_hash(encode_utf8(text@)) ==> (result matches Ok(credential)
                && credential.hash@ == hash_of(encode_utf8(text@))),
            !spells_hash(encode_utf8(text@)) ==> result == Err::<CertificateHash, Status>(
                Status::InvalidParameter,
            ),
    {
        CertificateHash::from_hex(text.as_bytes())
    }
}

/// A credential on disk: a private key file and a certificate file.
#[derive(Debug)]
pub struct CertificateFile {
    /// Path of the private key file.
    pub private_key_file: String,
    /// Path of the certificate file.
    pub certificate_file: String,
}

impl CertificateFile {
    /// The pair of paths.
    pub fn new(private_key_file: String, certificate_file: String) -> (file: Self)
        ensures
            file.private_key_file@ == private_key_file@,
            file.certificate_file@ == certificate_file@,
    {
        CertificateFile { private_key_file, certificate_file }
    }
}

/// Where the TLS credential comes from.
#[derive(Debug)]
pub enum Credential {
    /// No credential: what a client without a certificate uses.
    Absent,
    /// Looked up in the platform's certificate store.
    CertificateHash(CertificateHash),
    /// Loaded from a key file and a certificate file.
    CertificateFile(CertificateFile),
}

/// A credential together with its flags.
#[derive(Debug)]
pub struct CredentialConfig {
    /// Where the credential comes from.
    pub credential: Credential,
    /// Role and validation flags.
    pub flags: CredentialFlags,
}

impl CredentialConfig {
    /// A server configuration without a credential yet.
    pub fn new() -> (config: Self)
        ensures
            config.credential is Absent,
            config.flags == (CredentialFlags { client: false, no_certificate_validation: false }),
    {
        CredentialConfig { credential: Credential::Absent, flags: CredentialFlags::none() }
    }

    /// A client configuration without a certificate.
    pub fn new_client() -> (config: Self)
        ensures
            config.credential is Absent,
            config.flags == (CredentialFlags { client: true, no_certificate_validation: false }),
    {
        CredentialConfig { credential: Credential::Absent, flags: CredentialFlags::client() }
    }

    /// Adds `flags` to those already set.
    pub fn set_credential_flags(self, flags: CredentialFlags) -> (config: Self)
        ensures
            config.credential == self.credential,
            config.flags == self.flags.spec_union(flags),
    {
        CredentialConfig { credential: self.credential, flags: self.flags.union(flags) }
    }

    /// Replaces the credential.
    pub fn set_credential(self, credential: Credential) -> (config: Self)
        ensures
            config.credential == credential,
            config.flags == self.flags,
    {
        CredentialConfig { credential, flags: self.flags }
    }

    /// A credential file pair with an empty path names no file: it is
    /// malformed, and no engine is asked to load it.
    pub open spec fn malformed(&self) -> bool {
        self.credential matches Credential::CertificateFile(file) && (file.private_key_file@.len()
            == 0 || file.certificate_file@.len() == 0)
    }

    /// Checks the configuration before it is handed to the engine.
    pub fn validate(&self) -> (result: Result<(), Status>)
        ensures
            self.malformed() ==> result == Err::<(), Status>(Status::InvalidParameter),
            !self.malformed() ==> result == Ok::<(), Status>(()),
    {
        match &self.credential {
            Credential::CertificateFile(file) => {
                if file.private_key_file.as_str().is_empty()
                    || file.certificate_file.as_str().is_empty() {
                    Err(Status::InvalidParameter)
                } else {
                    Ok(())
                }
            },
            _ => Ok(()),
        }
    }
}

/// An IP address.
#[derive(Clone, Copy, Debug)]
pub enum IpAddress {
    /// Four octets.
    V4([u8; 4]),
    /// Eight 16-bit groups.
    V6([u16; 8]),
}

/// An endpoint: an IP address and a port. A listener binds to one and a
/// connection targets one.
#[derive(Clone, Copy, Debug)]
pub struct Addr {
    /// The address.
    pub ip: IpAddress,
    /// The port.
    pub port: u16,
}

impl Addr {
    /// An endpoint.
    pub fn new(ip: IpAddress, port: u16) -> (addr: Self)
        ensures
            addr.ip == ip,
            addr.port == port,
    {
        Addr { ip, port }
    }

    /// The IPv4 endpoint `a.b.c.d:port`.
    pub fn ipv4(a: u8, b: u8, c: u8, d: u8, port: u16) -> (addr: Self)
        ensures
            addr.port == port,
            addr.ip matches IpAddress::V4(octets) && octets@ == seq![a, b, c, d],
    {
        Addr { ip: IpAddress::V4([a, b, c, d]), port }
    }
}

} // verus!
