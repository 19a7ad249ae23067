use edu_ledger::{
    Address, DocumentRecord, EduLedgerContract, LedgerError, ScholarshipRecord, StudentProfile,
};

fn addr(name: &str) -> Address {
    Address::from_text(name.as_bytes().to_vec())
}

fn ready() -> EduLedgerContract {
    let mut ledger = EduLedgerContract::new();
    assert_eq!(ledger.initialize(addr("ADMIN")), Ok(()));
    ledger
}

fn register(ledger: &mut EduLedgerContract, issuer: &str, seed: u8) -> Result<[u8; 32], LedgerError> {
    ledger.register_document(
        addr(issuer),
        addr("STUDENT"),
        [seed; 32],
        b"TRANSCRIPT".to_vec(),
        b"ipfs://QmX".to_vec(),
        1_700_000_000,
    )
}

#[test]
fn initialize_only_once() {
    let mut ledger = ready();
    assert_eq!(ledger.initialize(addr("OTHER")), Err(LedgerError::AlreadyInitialized));
    assert_eq!(LedgerError::AlreadyInitialized.message(), "Contract already initialized");
}

#[test]
fn registration_before_initialization_is_still_counted() {
    let mut ledger = EduLedgerContract::new();
    assert_eq!(ledger.get_doc_count(), 0);
    assert_eq!(register(&mut ledger, "REG", 1), Ok([1; 32]));
    assert_eq!(ledger.get_doc_count(), 1);
    assert_eq!(ledger.initialize(addr("ADMIN")), Ok(()));
    assert_eq!(ledger.get_doc_count(), 1);
    assert!(ledger.verify_document([1; 32]));
}

#[test]
fn only_the_four_document_types_are_accepted() {
    let mut ledger = ready();
    for (seed, t) in [(11u8, "TRANSCRIPT"), (12, "CREDENTIAL"), (13, "ENROLLMENT"), (14, "GRADES")] {
        assert_eq!(
            ledger.register_document(addr("REG"), addr("S"), [seed; 32], t.as_bytes().to_vec(), Vec::new(), 0),
            Ok([seed; 32])
        );
    }
    assert_eq!(ledger.get_doc_count(), 4);
    for t in ["DIPLOMA", "transcript", "GRADE", ""] {
        assert_eq!(
            ledger.register_document(addr("REG"), addr("S"), [99; 32], t.as_bytes().to_vec(), Vec::new(), 0),
            Err(LedgerError::InvalidDocumentType)
        );
    }
    assert!(!ledger.verify_document([99; 32]));
    assert_eq!(ledger.get_doc_count(), 4);
    assert_eq!(
        LedgerError::InvalidDocumentType.message(),
        "Invalid document type: must be one of TRANSCRIPT, CREDENTIAL, ENROLLMENT, GRADES"
    );
}

#[test]
fn registered_document_reads_back() {
    let mut ledger = ready();
    register(&mut ledger, "REG", 9).unwrap();
    let record: DocumentRecord = ledger.get_document([9; 32]).ok().unwrap();
    assert_eq!(record.student.text, b"STUDENT".to_vec());
    assert_eq!(record.issuer.text, b"REG".to_vec());
    assert_eq!(record.doc_type, b"TRANSCRIPT".to_vec());
    assert_eq!(record.metadata, b"ipfs://QmX".to_vec());
    assert_eq!(record.timestamp, 1_700_000_000);
    assert!(record.is_valid);
}

#[test]
fn duplicate_registration_leaves_counter_and_record() {
    let mut ledger = ready();
    register(&mut ledger, "REG", 2).unwrap();
    assert_eq!(register(&mut ledger, "OTHER", 2), Err(LedgerError::DocumentAlreadyRegistered));
    assert_eq!(ledger.get_doc_count(), 1);
    assert_eq!(ledger.get_document([2; 32]).ok().unwrap().issuer.text, b"REG".to_vec());
}

#[test]
fn unknown_document_does_not_verify() {
    let ledger = ready();
    assert!(!ledger.verify_document([3; 32]));
    assert_eq!(ledger.get_document([3; 32]).err(), Some(LedgerError::DocumentNotFound));
    assert_eq!(LedgerError::DocumentNotFound.message(), "Document not found");
}

#[test]
fn issuer_can_revoke_and_revocation_is_permanent() {
    let mut ledger = ready();
    register(&mut ledger, "REG", 4).unwrap();
    assert_eq!(ledger.revoke_document(addr("REG"), [4; 32]), Ok(()));
    assert!(!ledger.verify_document([4; 32]));
    let record = ledger.get_document([4; 32]).ok().unwrap();
    assert!(!record.is_valid);
    assert_eq!(record.issuer.text, b"REG".to_vec());
    // registering the same hash again is refused, so it stays revoked
    assert_eq!(register(&mut ledger, "REG", 4), Err(LedgerError::DocumentAlreadyRegistered));
    assert!(!ledger.verify_document([4; 32]));
}

#[test]
fn revocation_errors_in_order() {
    let mut fresh = EduLedgerContract::new();
    register(&mut fresh, "REG", 5).unwrap();
    assert_eq!(fresh.revoke_document(addr("REG"), [5; 32]), Err(LedgerError::NotInitialized));

    let mut ledger = ready();
    assert_eq!(ledger.revoke_document(addr("ADMIN"), [5; 32]), Err(LedgerError::DocumentNotFound));
    register(&mut ledger, "REG", 5).unwrap();
    assert_eq!(ledger.revoke_document(addr("EVE"), [5; 32]), Err(LedgerError::UnauthorizedRevoke));
    assert!(ledger.verify_document([5; 32]));
    assert_eq!(
        LedgerError::UnauthorizedRevoke.message(),
        "Unauthorized: only admin or original issuer can revoke"
    );
}

#[test]
fn enrollment_by_admin_only() {
    let mut fresh = EduLedgerContract::new();
    assert_eq!(
        fresh.enroll_student(addr("ADMIN"), addr("S1"), b"Maria Santos".to_vec()),
        Err(LedgerError::NotInitialized)
    );
    assert_eq!(LedgerError::NotInitialized.message(), "Contract not initialized");

    let mut ledger = ready();
    assert_eq!(
        ledger.enroll_student(addr("EVE"), addr("S1"), b"Maria Santos".to_vec()),
        Err(LedgerError::UnauthorizedAdmin)
    );
    assert_eq!(
        LedgerError::UnauthorizedAdmin.message(),
        "Unauthorized: caller is not the contract admin"
    );
    assert_eq!(ledger.enroll_student(addr("ADMIN"), addr("S1"), b"Maria Santos".to_vec()), Ok(()));
    let profile: StudentProfile = ledger.get_student(addr("S1")).ok().unwrap();
    assert_eq!(profile.name, b"Maria Santos".to_vec());
    assert!(profile.enrolled);
    assert_eq!(profile.grade_hash, [0u8; 32]);
    assert_eq!(
        ledger.enroll_student(addr("ADMIN"), addr("S1"), b"Other".to_vec()),
        Err(LedgerError::StudentAlreadyEnrolled)
    );
    assert_eq!(LedgerError::StudentAlreadyEnrolled.message(), "Student already enrolled");
}

#[test]
fn grades_replace_only_the_grade_hash() {
    let mut ledger = ready();
    assert_eq!(
        ledger.record_grades(addr("PROF"), addr("S1"), [7; 32]),
        Err(LedgerError::StudentNotEnrolled)
    );
    assert_eq!(
        LedgerError::StudentNotEnrolled.message(),
        "Student not found \u{2014} must be enrolled first"
    );
    ledger.enroll_student(addr("ADMIN"), addr("S1"), b"Juan".to_vec()).unwrap();
    assert_eq!(ledger.record_grades(addr("PROF"), addr("S1"), [7; 32]), Ok(()));
    let profile = ledger.get_student(addr("S1")).ok().unwrap();
    assert_eq!(profile.grade_hash, [7; 32]);
    assert_eq!(profile.name, b"Juan".to_vec());
    assert!(profile.enrolled);
    assert_eq!(ledger.get_student(addr("S2")).err(), Some(LedgerError::StudentNotFound));
    assert_eq!(LedgerError::StudentNotFound.message(), "Student not found");
}

#[test]
fn scholarship_lifecycle() {
    let mut ledger = EduLedgerContract::new();
    assert_eq!(
        ledger.create_scholarship(addr("FOUNDATION"), 1001, addr("S1"), 50_000_000, addr("USDC")),
        Ok(())
    );
    let record: ScholarshipRecord = ledger.get_scholarship(1001).ok().unwrap();
    assert_eq!(record.amount, 50_000_000);
    assert!(!record.disbursed);
    assert_eq!(record.issuer.text, b"FOUNDATION".to_vec());
    assert_eq!(
        ledger.create_scholarship(addr("FOUNDATION"), 1001, addr("S2"), 1, addr("USDC")),
        Err(LedgerError::ScholarshipAlreadyExists)
    );
    assert_eq!(LedgerError::ScholarshipAlreadyExists.message(), "Scholarship ID already exists");
    assert_eq!(ledger.get_scholarship(1001).ok().unwrap().recipient.text, b"S1".to_vec());

    assert_eq!(
        ledger.disburse_scholarship(addr("EVE"), 1001).err(),
        Some(LedgerError::UnauthorizedDisburse)
    );
    assert_eq!(
        LedgerError::UnauthorizedDisburse.message(),
        "Unauthorized: only the scholarship issuer can disburse"
    );
    let transfer = ledger.disburse_scholarship(addr("FOUNDATION"), 1001).ok().unwrap();
    assert_eq!(transfer.token.text, b"USDC".to_vec());
    assert_eq!(transfer.to.text, b"S1".to_vec());
    assert_eq!(transfer.amount, 50_000_000);
    assert!(ledger.get_scholarship(1001).ok().unwrap().disbursed);

    assert_eq!(
        ledger.disburse_scholarship(addr("FOUNDATION"), 1001).err(),
        Some(LedgerError::ScholarshipAlreadyDisbursed)
    );
    assert_eq!(LedgerError::ScholarshipAlreadyDisbursed.message(), "Scholarship already disbursed");
    // the already-disbursed check comes before the issuer check
    assert_eq!(
        ledger.disburse_scholarship(addr("EVE"), 1001).err(),
        Some(LedgerError::ScholarshipAlreadyDisbursed)
    );
    assert_eq!(
        ledger.disburse_scholarship(addr("FOUNDATION"), 7).err(),
        Some(LedgerError::ScholarshipNotFound)
    );
    assert_eq!(ledger.get_scholarship(7).err(), Some(LedgerError::ScholarshipNotFound));
    assert_eq!(LedgerError::ScholarshipNotFound.message(), "Scholarship not found");
}

#[test]
fn loading_stored_entries_restores_the_state() {
    let mut ledger = EduLedgerContract::new();
    ledger.load_admin(addr("ADMIN"));
    ledger.load_doc_count(41);
    ledger.load_document(
        [8; 32],
        DocumentRecord {
            student: addr("S1"),
            doc_type: b"GRADES".to_vec(),
            issuer: addr("REG"),
            timestamp: 3,
            is_valid: false,
            metadata: Vec::new(),
        },
    );
    ledger.load_student(
        addr("S1"),
        StudentProfile { name: b"Ana".to_vec(), enrolled: true, grade_hash: [1; 32] },
    );
    ledger.load_scholarship(
        5,
        ScholarshipRecord {
            recipient: addr("S1"),
            amount: 10,
            token: addr("XLM"),
            disbursed: true,
            issuer: addr("F"),
        },
    );
    assert_eq!(ledger.get_doc_count(), 41);
    assert!(!ledger.verify_document([8; 32]));
    assert_eq!(ledger.initialize(addr("X")), Err(LedgerError::AlreadyInitialized));
    assert_eq!(ledger.get_student(addr("S1")).ok().unwrap().grade_hash, [1; 32]);
    assert_eq!(
        ledger.disburse_scholarship(addr("F"), 5).err(),
        Some(LedgerError::ScholarshipAlreadyDisbursed)
    );
    assert_eq!(register(&mut ledger, "REG", 9), Ok([9; 32]));
    assert_eq!(ledger.get_doc_count(), 42);
    // the admin loaded above can revoke a document it did not issue
    assert_eq!(ledger.revoke_document(addr("ADMIN"), [9; 32]), Ok(()));
    // loading over an existing entry replaces it
    ledger.load_student(
        addr("S1"),
        StudentProfile { name: b"Ana".to_vec(), enrolled: false, grade_hash: [2; 32] },
    );
    assert!(!ledger.get_student(addr("S1")).ok().unwrap().enrolled);
}

#[test]
fn copied_values_equal_originals() {
    let a = addr("GABC");
    let b = a.duplicate();
    assert_eq!(b.text, a.text);
}

#[test]
fn operations_leave_other_entries_alone() {
    let mut ledger = ready();
    register(&mut ledger, "REG", 1).unwrap();
    register(&mut ledger, "REG", 2).unwrap();
    ledger.revoke_document(addr("ADMIN"), [1; 32]).unwrap();
    assert!(!ledger.verify_document([1; 32]));
    assert!(ledger.verify_document([2; 32]));
    ledger.create_scholarship(addr("F"), 1, addr("S1"), 5, addr("T")).unwrap();
    ledger.create_scholarship(addr("F"), 2, addr("S2"), 6, addr("T")).unwrap();
    ledger.disburse_scholarship(addr("F"), 1).ok().unwrap();
    assert!(!ledger.get_scholarship(2).ok().unwrap().disbursed);
    assert_eq!(ledger.get_doc_count(), 2);
}
