use edu_ledger::{Address, EduLedgerContract, Hash32, LedgerError};

/// Runs an operation the way a contract call does: a refusal aborts with
/// the refusal message.
fn expect_ok<T>(r: Result<T, LedgerError>) -> T {
    match r {
        Ok(v) => v,
        Err(e) => panic!("{}", e.message()),
    }
}

fn addr(name: &str) -> Address {
    Address::from_text(name.as_bytes().to_vec())
}

fn mock_hash(seed: u8) -> Hash32 {
    [seed; 32]
}

/// A deployed ledger initialized with a fresh admin.
fn setup() -> (EduLedgerContract, Address) {
    let mut ledger = EduLedgerContract::new();
    let admin = addr("GADMINAAAAAAAAAAAAAAAAAAAAAAAAAAAAAAAAAAAAAAAAAAAAAAAAAA");
    expect_ok(ledger.initialize(admin.duplicate()));
    (ledger, admin)
}

#[test]
fn test_register_and_verify_document_happy_path() {
    let (mut ledger, _admin) = setup();
    let registrar = addr("GREGISTRARAAAAAAAAAAAAAAAAAAAAAAAAAAAAAAAAAAAAAAAAAAAAAA");
    let student = addr("GSTUDENTAAAAAAAAAAAAAAAAAAAAAAAAAAAAAAAAAAAAAAAAAAAAAAAA");
    let doc_hash = mock_hash(0xAA);

    let returned_hash = expect_ok(ledger.register_document(
        registrar,
        student,
        doc_hash,
        b"TRANSCRIPT".to_vec(),
        b"ipfs://QmTranscriptExampleHash".to_vec(),
        0,
    ));
    assert_eq!(returned_hash, doc_hash, "Returned hash should match input hash");

    let is_valid = ledger.verify_document(doc_hash);
    assert!(is_valid, "Newly registered document must return true on verify_document");
}

#[test]
#[should_panic(expected = "Document already registered")]
fn test_duplicate_document_registration_panics() {
    let (mut ledger, _admin) = setup();
    let registrar = addr("GREGISTRARAAAAAAAAAAAAAAAAAAAAAAAAAAAAAAAAAAAAAAAAAAAAAA");
    let student = addr("GSTUDENTAAAAAAAAAAAAAAAAAAAAAAAAAAAAAAAAAAAAAAAAAAAAAAAA");
    let doc_hash = mock_hash(0xBB);

    expect_ok(ledger.register_document(
        registrar.duplicate(),
        student.duplicate(),
        doc_hash,
        b"CREDENTIAL".to_vec(),
        b"ipfs://QmFirstRegistration".to_vec(),
        0,
    ));
    expect_ok(ledger.register_document(
        registrar,
        student,
        doc_hash,
        b"CREDENTIAL".to_vec(),
        b"ipfs://QmAttemptedOverwrite".to_vec(),
        0,
    ));
}

#[test]
fn test_document_counter_state_is_correct() {
    let (mut ledger, _admin) = setup();
    let registrar = addr("GREGISTRARAAAAAAAAAAAAAAAAAAAAAAAAAAAAAAAAAAAAAAAAAAAAAA");
    let student = addr("GSTUDENTAAAAAAAAAAAAAAAAAAAAAAAAAAAAAAAAAAAAAAAAAAAAAAAA");

    assert_eq!(ledger.get_doc_count(), 0, "Initial document count should be 0");

    expect_ok(ledger.register_document(
        registrar.duplicate(),
        student.duplicate(),
        mock_hash(0x01),
        b"TRANSCRIPT".to_vec(),
        b"ipfs://QmDoc1".to_vec(),
        0,
    ));
    assert_eq!(ledger.get_doc_count(), 1, "Count should be 1 after first registration");

    expect_ok(ledger.register_document(
        registrar.duplicate(),
        student.duplicate(),
        mock_hash(0x02),
        b"ENROLLMENT".to_vec(),
        b"ipfs://QmDoc2".to_vec(),
        0,
    ));
    assert_eq!(ledger.get_doc_count(), 2, "Count should be 2 after second registration");

    expect_ok(ledger.register_document(
        registrar,
        student,
        mock_hash(0x03),
        b"GRADES".to_vec(),
        b"ipfs://QmDoc3".to_vec(),
        0,
    ));
    assert_eq!(ledger.get_doc_count(), 3, "Count should be 3 after three registrations");
}

#[test]
#[should_panic(expected = "Unauthorized")]
fn test_unauthorized_revocation_panics() {
    let (mut ledger, _admin) = setup();
    let real_registrar = addr("GREALREGISTRARAAAAAAAAAAAAAAAAAAAAAAAAAAAAAAAAAAAAAAAAAA");
    let student = addr("GSTUDENTAAAAAAAAAAAAAAAAAAAAAAAAAAAAAAAAAAAAAAAAAAAAAAAA");
    let attacker = addr("GATTACKERAAAAAAAAAAAAAAAAAAAAAAAAAAAAAAAAAAAAAAAAAAAAAAA");
    let doc_hash = mock_hash(0xCC);

    expect_ok(ledger.register_document(
        real_registrar,
        student,
        doc_hash,
        b"CREDENTIAL".to_vec(),
        b"ipfs://QmLegitDoc".to_vec(),
        0,
    ));
    expect_ok(ledger.revoke_document(attacker, doc_hash));
}

#[test]
fn test_revoked_document_returns_false_on_verify() {
    let (mut ledger, admin) = setup();
    let registrar = addr("GREGISTRARAAAAAAAAAAAAAAAAAAAAAAAAAAAAAAAAAAAAAAAAAAAAAA");
    let student = addr("GSTUDENTAAAAAAAAAAAAAAAAAAAAAAAAAAAAAAAAAAAAAAAAAAAAAAAA");
    let doc_hash = mock_hash(0xDD);

    expect_ok(ledger.register_document(
        registrar,
        student,
        doc_hash,
        b"CREDENTIAL".to_vec(),
        b"ipfs://QmToBeRevoked".to_vec(),
        0,
    ));
    assert!(ledger.verify_document(doc_hash), "Document should be valid before revocation");

    expect_ok(ledger.revoke_document(admin, doc_hash));
    assert!(
        !ledger.verify_document(doc_hash),
        "Revoked document must return false on verify_document"
    );
}
