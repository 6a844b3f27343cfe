use quic_lifecycle::config::{
    trim_line_end,
    Addr, CertificateFile, CertificateHash, Credential, CredentialConfig, CredentialFlags,
    IpAddress, ServerResumptionLevel, Settings,
};
use quic_lifecycle::status::Status;

#[test]
fn new_settings_leave_everything_to_the_engine() {
    let settings = Settings::new();
    assert_eq!(settings.idle_timeout_ms, None);
    assert_eq!(settings.peer_bidi_stream_count, None);
    assert_eq!(settings.server_resumption_level, None);
}

#[test]
fn settings_setters_set_one_option_each() {
    let settings = Settings::new()
        .set_server_resumption_level(ServerResumptionLevel::ResumeAndZerortt)
        .set_peer_bidi_stream_count(1);
    assert_eq!(settings.server_resumption_level, Some(ServerResumptionLevel::ResumeAndZerortt));
    assert_eq!(settings.peer_bidi_stream_count, Some(1));
    assert_eq!(settings.idle_timeout_ms, None);
    let client = Settings::new().set_idle_timeout_ms(1000);
    assert_eq!(client.idle_timeout_ms, Some(1000));
    assert_eq!(client.peer_bidi_stream_count, None);
    assert_eq!(client.set_idle_timeout_ms(5).idle_timeout_ms, Some(5));
}

#[test]
fn credential_flags_add_up() {
    assert_eq!(CredentialFlags::none(), CredentialFlags { client: false, no_certificate_validation: false });
    let flags = CredentialFlags::client().union(CredentialFlags::no_certificate_validation());
    assert_eq!(flags, CredentialFlags { client: true, no_certificate_validation: true });
    assert_eq!(CredentialFlags::none().union(CredentialFlags::none()), CredentialFlags::none());
    assert_eq!(flags.union(CredentialFlags::none()), flags);
}

#[test]
fn client_credential_keeps_its_role_when_flags_are_added() {
    let config = CredentialConfig::new_client()
        .set_credential_flags(CredentialFlags::no_certificate_validation());
    assert!(config.flags.client);
    assert!(config.flags.no_certificate_validation);
    assert!(matches!(config.credential, Credential::Absent));
    let server = CredentialConfig::new();
    assert!(!server.flags.client);
    assert!(!server.flags.no_certificate_validation);
}

#[test]
fn set_credential_replaces_the_credential_only() {
    let config = CredentialConfig::new()
        .set_credential_flags(CredentialFlags::no_certificate_validation())
        .set_credential(Credential::CertificateFile(CertificateFile::new(
            "/tmp/key.pem".to_string(),
            "/tmp/cert.pem".to_string(),
        )));
    assert!(config.flags.no_certificate_validation);
    match &config.credential {
        Credential::CertificateFile(file) => {
            assert_eq!(file.private_key_file, "/tmp/key.pem");
            assert_eq!(file.certificate_file, "/tmp/cert.pem");
        }
        other => panic!("unexpected credential {other:?}"),
    }
    let hashed = config.set_credential(Credential::CertificateHash(CertificateHash { hash: [7; 20] }));
    assert!(matches!(hashed.credential, Credential::CertificateHash(CertificateHash { hash }) if hash == [7; 20]));
    assert!(hashed.flags.no_certificate_validation);
}

#[test]
fn validate_rejects_an_empty_path() {
    let file = |key: &str, cert: &str| {
        CredentialConfig::new()
            .set_credential(Credential::CertificateFile(CertificateFile::new(key.to_string(), cert.to_string())))
    };
    assert_eq!(file("key.pem", "cert.pem").validate(), Ok(()));
    assert_eq!(file("", "cert.pem").validate(), Err(Status::InvalidParameter));
    assert_eq!(file("key.pem", "").validate(), Err(Status::InvalidParameter));
    assert_eq!(file("", "").validate(), Err(Status::InvalidParameter));
    assert_eq!(CredentialConfig::new().validate(), Ok(()));
    assert_eq!(CredentialConfig::new_client().validate(), Ok(()));
}

#[test]
fn addr_keeps_address_and_port() {
    let addr = Addr::ipv4(127, 0, 0, 1, 4567);
    assert_eq!(addr.port, 4567);
    assert!(matches!(addr.ip, IpAddress::V4([127, 0, 0, 1])));
    let v6 = Addr::new(IpAddress::V6([0, 0, 0, 0, 0, 0, 0, 1]), 443);
    assert_eq!(v6.port, 443);
    assert!(matches!(v6.ip, IpAddress::V6([0, 0, 0, 0, 0, 0, 0, 1])));
}

#[test]
fn hash_is_read_from_forty_hex_digits() {
    let hash = CertificateHash::from_str("000102030405060708090a0B0c0D0e0F10fFAb99").unwrap();
    assert_eq!(
        hash.hash,
        [0, 1, 2, 3, 4, 5, 6, 7, 8, 9, 10, 11, 12, 13, 14, 15, 16, 255, 0xab, 0x99]
    );
    let same = CertificateHash::from_hex(b"000102030405060708090a0B0c0D0e0F10fFAb99").unwrap();
    assert_eq!(same.hash, hash.hash);
    assert_eq!(CertificateHash::new([3; 20]).hash, [3; 20]);
}

#[test]
fn hash_of_another_length_is_refused() {
    assert_eq!(CertificateHash::from_str("").unwrap_err(), Status::InvalidParameter);
    assert_eq!(CertificateHash::from_str("00").unwrap_err(), Status::InvalidParameter);
    let short = "0".repeat(39);
    assert_eq!(CertificateHash::from_str(&short).unwrap_err(), Status::InvalidParameter);
    let long = "0".repeat(41);
    assert_eq!(CertificateHash::from_str(&long).unwrap_err(), Status::InvalidParameter);
    assert!(CertificateHash::from_str(&"0".repeat(40)).is_ok());
}

#[test]
fn hash_with_another_character_is_refused() {
    for bad in ["g", " ", "+", "-", "/", ":", "@", "G", "`", "x"] {
        let text = format!("{}{}", "0".repeat(39), bad);
        assert_eq!(CertificateHash::from_str(&text).unwrap_err(), Status::InvalidParameter);
        let text = format!("{}{}", bad, "0".repeat(39));
        assert_eq!(CertificateHash::from_str(&text).unwrap_err(), Status::InvalidParameter);
    }
    // Forty bytes that are twenty two-byte characters.
    let text = "\u{e9}".repeat(20);
    assert_eq!(text.len(), 40);
    assert_eq!(CertificateHash::from_str(&text).unwrap_err(), Status::InvalidParameter);
}

#[test]
fn trim_line_end_cuts_one_line_end() {
    assert_eq!(trim_line_end(b"ABCD\n"), b"ABCD");
    assert_eq!(trim_line_end(b"ABCD\r\n"), b"ABCD");
    assert_eq!(trim_line_end(b"ABCD"), b"ABCD");
    assert_eq!(trim_line_end(b"ABCD\r"), b"ABCD\r");
    assert_eq!(trim_line_end(b"ABCD\n\n"), b"ABCD\n");
    assert_eq!(trim_line_end(b"ABCD\n\r\n"), b"ABCD\n");
    assert_eq!(trim_line_end(b"\n"), b"");
    assert_eq!(trim_line_end(b"\r\n"), b"");
    assert_eq!(trim_line_end(b""), b"");
}

#[test]
fn hash_is_read_from_a_line_of_output() {
    let output = b"0123456789ABCDEF0123456789ABCDEF01234567\r\n";
    let hash = CertificateHash::from_hex(trim_line_end(output)).unwrap();
    assert_eq!(hash.hash[0], 0x01);
    assert_eq!(hash.hash[19], 0x67);
    assert_eq!(CertificateHash::from_hex(output).unwrap_err(), Status::InvalidParameter);
}
