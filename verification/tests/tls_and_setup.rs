use scylla_items::profile::default_profile;
use scylla_items::setup::{cleanup_cql, init_begin, init_next, InitAction, InitStage};
use scylla_items::tls::{
    ca_cert_path, client_config_from_pem, root_store_from_items, root_store_from_pem,
    tls_config_from_ca_file, TlsError,
};

const CA_PEM: &str = "-----BEGIN CERTIFICATE-----
MIIBezCCASGgAwIBAgIUT/VvFktW6SBRcxAaQmTJJyf7E8gwCgYIKoZIzj0EAwIw
EjEQMA4GA1UEAwwHZGVtby1jYTAgFw0yNjExMTcxNTQ0NDVaGA8yMTI2MTAyNDE1
NDQ0NVowEjEQMA4GA1UEAwwHZGVtby1jYTBZMBMGByqGSM49AgEGCCqGSM49AwEH
A0IABFdGrip/KgiBbcDoj0OlHlakZe+vPmSTeIfiFWLPkReuR5u06k+6cfpPoLn+
FeD9QOjD9U9zNH5pkHgR/fPJm0OjUzBRMB0GA1UdDgQWBBRU3v4oC11QfRFvnfp4
pCCeXWeGWDAfBgNVHSMEGDAWgBRU3v4oC11QfRFvnfp4pCCeXWeGWDAPBgNVHRMB
Af8EBTADAQH/MAoGCCqGSM49BAMCA0gAMEUCIQDEQQF1CXZUA1SNRp8wPhg5nLHu
snlLF2aP9lj8i3pZCwIgRfPZiXSIzNAGdw13eN82zT9hbSEBQDB/d4un7/BWp+c=
-----END CERTIFICATE-----
";

#[test]
fn loads_one_root_certificate() {
    let store = root_store_from_pem(CA_PEM.as_bytes()).unwrap();
    assert_eq!(store.len(), 1);
}

#[test]
fn loads_every_certificate_of_the_file() {
    let two = format!("{}{}", CA_PEM, CA_PEM);
    let store = root_store_from_pem(two.as_bytes()).unwrap();
    assert_eq!(store.len(), 2);
}

#[test]
fn empty_file_has_no_certificates() {
    match root_store_from_pem(b"") {
        Err(e @ TlsError::NoCertificates) => {
            assert_eq!(e.message(), "No certificates found in certs/ca.crt")
        }
        other => panic!("unexpected: {:?}", other.map(|s| s.len())),
    }
}

#[test]
fn file_without_certificate_sections_has_no_certificates() {
    assert!(matches!(
        root_store_from_pem(b"just some text\n"),
        Err(TlsError::NoCertificates)
    ));
}

#[test]
fn unterminated_section_is_a_parse_error() {
    match root_store_from_pem(b"-----BEGIN CERTIFICATE-----\nAAAA\n") {
        Err(e @ TlsError::Parse(_)) => {
            assert_eq!(e.message(), "Failed to parse certificate from ca.crt")
        }
        other => panic!("unexpected: {:?}", other.map(|s| s.len())),
    }
}

#[test]
fn certificate_that_is_not_der_is_rejected_by_the_store() {
    let pem = b"-----BEGIN CERTIFICATE-----\nAAAA\n-----END CERTIFICATE-----\n";
    match root_store_from_pem(pem) {
        Err(TlsError::Add(m)) => assert!(!m.is_empty()),
        other => panic!("unexpected: {:?}", other.map(|s| s.len())),
    }
}

#[test]
fn client_config_is_built_from_valid_roots() {
    assert!(client_config_from_pem(CA_PEM.as_bytes()).is_ok());
}

#[test]
fn client_config_fails_as_the_root_load_does() {
    assert!(matches!(client_config_from_pem(b""), Err(TlsError::NoCertificates)));
    assert!(matches!(
        client_config_from_pem(b"-----BEGIN CERTIFICATE-----\nAAAA\n"),
        Err(TlsError::Parse(_))
    ));
}

#[test]
fn missing_ca_file_means_no_tls() {
    assert!(matches!(tls_config_from_ca_file(None), Ok(None)));
}

#[test]
fn present_ca_file_gives_a_config_or_its_error() {
    assert!(matches!(tls_config_from_ca_file(Some(CA_PEM.as_bytes())), Ok(Some(_))));
    assert!(matches!(tls_config_from_ca_file(Some(b"")), Err(TlsError::NoCertificates)));
}

#[test]
fn ca_file_location() {
    assert_eq!(ca_cert_path(), "certs/ca.crt");
}

#[test]
fn init_runs_its_steps_in_order() {
    let (stage, action) = init_begin();
    assert_eq!(stage, InitStage::LoadingTls);
    assert!(matches!(action, InitAction::LoadTls));

    let (stage, action) = init_next(stage, Ok(true));
    assert_eq!(stage, InitStage::BuildingSession);
    match action {
        InitAction::BuildSession { known_nodes, use_tls, profile } => {
            assert_eq!(known_nodes, vec!["127.0.0.2:9042", "127.0.0.3:9042", "127.0.0.4:9042"]);
            assert!(use_tls);
            assert_eq!(profile, default_profile());
        }
        _ => panic!("expected BuildSession"),
    }

    let (stage, action) = init_next(stage, Ok(false));
    assert_eq!(stage, InitStage::CreatingKeyspace);
    match action {
        InitAction::Run(cql) => assert_eq!(
            cql,
            "CREATE KEYSPACE IF NOT EXISTS demo WITH replication = {'class': 'SimpleStrategy', 'replication_factor': 1} AND tablets = {'enabled': false};"
        ),
        _ => panic!("expected Run"),
    }

    let (stage, action) = init_next(stage, Ok(false));
    assert_eq!(stage, InitStage::CreatingTable);
    match action {
        InitAction::Run(cql) => assert_eq!(
            cql,
            "CREATE TABLE IF NOT EXISTS demo.items (id uuid PRIMARY KEY, name text, value bigint);"
        ),
        _ => panic!("expected Run"),
    }

    let (stage, action) = init_next(stage, Ok(false));
    assert_eq!(stage, InitStage::PreparingInsert);
    match action {
        InitAction::Prepare(cql) => {
            assert_eq!(cql, "INSERT INTO demo.items (id, name, value) VALUES (?, ?, ?)")
        }
        _ => panic!("expected Prepare"),
    }

    let (stage, action) = init_next(stage, Ok(false));
    assert_eq!(stage, InitStage::Ready);
    assert!(matches!(action, InitAction::Finish));

    let (stage, action) = init_next(stage, Ok(false));
    assert_eq!(stage, InitStage::Ready);
    assert!(matches!(action, InitAction::Stop));
}

#[test]
fn init_without_tls_connects_in_plain_text() {
    let (stage, _) = init_begin();
    match init_next(stage, Ok(false)).1 {
        InitAction::BuildSession { use_tls, .. } => assert!(!use_tls),
        _ => panic!("expected BuildSession"),
    }
}

#[test]
fn init_failures_carry_their_context() {
    let (stage, action) = init_next(InitStage::LoadingTls, Err("no file".to_string()));
    assert_eq!(stage, InitStage::Failed);
    match action {
        InitAction::Abort { context, cause } => {
            assert_eq!(context.as_deref(), Some("loading TLS config"));
            assert_eq!(cause, "no file");
        }
        _ => panic!("expected Abort"),
    }
    match init_next(InitStage::BuildingSession, Err("refused".to_string())).1 {
        InitAction::Abort { context, cause } => {
            assert_eq!(context.as_deref(), Some("failed to build session"));
            assert_eq!(cause, "refused");
        }
        _ => panic!("expected Abort"),
    }
    for stage in [
        InitStage::CreatingKeyspace,
        InitStage::CreatingTable,
        InitStage::PreparingInsert,
    ] {
        match init_next(stage, Err("syntax".to_string())) {
            (InitStage::Failed, InitAction::Abort { context: None, cause }) => {
                assert_eq!(cause, "syntax")
            }
            _ => panic!("expected Abort without context"),
        }
    }
    assert!(matches!(
        init_next(InitStage::Failed, Ok(true)),
        (InitStage::Failed, InitAction::Stop)
    ));
}

#[test]
fn cleanup_drops_the_keyspace() {
    assert_eq!(cleanup_cql(), "DROP KEYSPACE IF EXISTS demo;");
}

#[test]
fn root_store_from_items_needs_a_certificate() {
    assert!(matches!(root_store_from_items(&vec![]), Err(TlsError::NoCertificates)));
}

#[test]
fn root_store_from_items_stops_at_the_first_unreadable_item() {
    let items = vec![Err("bad section".to_string()), Ok(vec![1, 2, 3])];
    match root_store_from_items(&items) {
        Err(TlsError::Parse(m)) => assert_eq!(m, "bad section"),
        _ => panic!("expected a parse error"),
    }
    assert!(matches!(root_store_from_items(&vec![Ok(vec![1, 2, 3])]), Err(TlsError::Add(_))));
}
