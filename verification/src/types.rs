//! Plain-value records of the ledger and their mathematical views.

use vstd::prelude::*;
use crate::table::LedgerKey;

verus! {

/// Copies a byte vector.
pub fn copy_bytes(v: &Vec<u8>) -> (r: Vec<u8>)
    ensures
        r@ == v@,
{
    let mut r: Vec<u8> = Vec::new();
    let mut i: usize = 0;
    while i < v.len()
        invariant
            i <= v@.len(),
            r@ == v@.subrange(0, i as int),
        decreases v@.len() - i,
    {
        r.push(v[i]);
        i = i + 1;
        assert(r@ =~= v@.subrange(0, i as int));
    }
    assert(r@ =~= v@);
    r
}

/// Compares two byte vectors.
pub fn bytes_equal(a: &Vec<u8>, b: &Vec<u8>) -> (r: bool)
    ensures
        r == (a@ == b@),
{
    if a.len() != b.len() {
        return false;
    }
    let mut i: usize = 0;
    while i < a.len()
        invariant
            i <= a@.len(),
            a@.len() == b@.len(),
            forall|j: int| 0 <= j < i ==> a@[j] == b@[j],
        decreases a@.len() - i,
    {
        if a[i] != b[i] {
            return false;
        }
        i = i + 1;
    }
    assert(a@ =~= b@);
    true
}

/// The text of the TRANSCRIPT document type.
pub open spec fn transcript_text() -> Seq<u8> {
    seq![84u8, 82u8, 65u8, 78u8, 83u8, 67u8, 82u8, 73u8, 80u8, 84u8]
}

/// The text of the CREDENTIAL document type.
pub open spec fn credential_text() -> Seq<u8> {
    seq![67u8, 82u8, 69u8, 68u8, 69u8, 78u8, 84u8, 73u8, 65u8, 76u8]
}

/// The text of the ENROLLMENT document type.
pub open spec fn enrollment_text() -> Seq<u8> {
    seq![69u8, 78u8, 82u8, 79u8, 76u8, 76u8, 77u8, 69u8, 78u8, 84u8]
}

/// The text of the GRADES document type.
pub open spec fn grades_text() -> Seq<u8> {
    seq![71u8, 82u8, 65u8, 68u8, 69u8, 83u8]
}

/// The document categories: TRANSCRIPT, CREDENTIAL, ENROLLMENT or GRADES.
pub open spec fn is_document_type(t: Seq<u8>) -> bool {
    t == transcript_text() || t == credential_text() || t == enrollment_text() || t == grades_text()
}

/// Whether `t` names one of the document categories.
pub fn is_valid_document_type(t: &Vec<u8>) -> (r: bool)
    ensures
        r == is_document_type(t@),
{
    let transcript: Vec<u8> = vec![84u8, 82u8, 65u8, 78u8, 83u8, 67u8, 82u8, 73u8, 80u8, 84u8];
    let credential: Vec<u8> = vec![67u8, 82u8, 69u8, 68u8, 69u8, 78u8, 84u8, 73u8, 65u8, 76u8];
    let enrollment: Vec<u8> = vec![69u8, 78u8, 82u8, 79u8, 76u8, 76u8, 77u8, 69u8, 78u8, 84u8];
    let grades: Vec<u8> = vec![71u8, 82u8, 65u8, 68u8, 69u8, 83u8];
    assert(transcript@ =~= transcript_text());
    assert(credential@ =~= credential_text());
    assert(enrollment@ =~= enrollment_text());
    assert(grades@ =~= grades_text());
    bytes_equal(t, &transcript) || bytes_equal(t, &credential) || bytes_equal(t, &enrollment)
        || bytes_equal(t, &grades)
}

/// A 32-byte digest (the SHA-256 of a document or grade sheet).
pub type Hash32 = [u8; 32];

/// The all-zero digest, which marks "no grades recorded yet".
pub open spec fn zero_hash() -> Seq<u8> {
    Seq::new(32, |i: int| 0u8)
}

impl LedgerKey for [u8; 32] {
    fn same_key(&self, other: &Self) -> (r: bool) {
        let mut i: usize = 0;
        while i < 32
            invariant
                i <= 32,
                self@.len() == 32,
                other@.len() == 32,
                forall|j: int| 0 <= j < i ==> self@[j] == other@[j],
            decreases 32 - i,
        {
            if self[i] != other[i] {
                return false;
            }
            i = i + 1;
        }
        assert(self@ =~= other@);
        true
    }
}

/// An account or contract address, held in its textual (strkey) form.
pub struct Address {
    pub text: Vec<u8>,
}

impl View for Address {
    type V = Seq<u8>;

    open spec fn view(&self) -> Seq<u8> {
        self.text@
    }
}

impl Address {
    /// Builds an address from its textual form.
    pub fn from_text(text: Vec<u8>) -> (r: Address)
        ensures
            r@ == text@,
    {
        Address { text }
    }

    /// A copy of this address.
    pub fn duplicate(&self) -> (r: Address)
        ensures
            r@ == self@,
    {
        Address { text: copy_bytes(&self.text) }
    }
}

impl LedgerKey for Address {
    fn same_key(&self, other: &Self) -> (r: bool) {
        bytes_equal(&self.text, &other.text)
    }
}

/// A school document anchored by its hash.
pub struct DocumentRecord {
    /// Address of the student the document belongs to.
    pub student: Address,
    /// Document category: one of TRANSCRIPT, CREDENTIAL, ENROLLMENT, GRADES.
    pub doc_type: Vec<u8>,
    /// Address of the issuing institution.
    pub issuer: Address,
    /// Ledger timestamp at registration.
    pub timestamp: u64,
    /// False once the document has been revoked.
    pub is_valid: bool,
    /// Off-chain location or description of the document.
    pub metadata: Vec<u8>,
}

pub struct DocumentRecordView {
    pub student: Seq<u8>,
    pub doc_type: Seq<u8>,
    pub issuer: Seq<u8>,
    pub timestamp: u64,
    pub is_valid: bool,
    pub metadata: Seq<u8>,
}

impl View for DocumentRecord {
    type V = DocumentRecordView;

    open spec fn view(&self) -> DocumentRecordView {
        DocumentRecordView {
            student: self.student@,
            doc_type: self.doc_type@,
            issuer: self.issuer@,
            timestamp: self.timestamp,
            is_valid: self.is_valid,
            metadata: self.metadata@,
        }
    }
}

impl DocumentRecord {
    /// A copy of this record.
    pub fn duplicate(&self) -> (r: DocumentRecord)
        ensures
            r@ == self@,
    {
        DocumentRecord {
            student: self.student.duplicate(),
            doc_type: copy_bytes(&self.doc_type),
            issuer: self.issuer.duplicate(),
            timestamp: self.timestamp,
            is_valid: self.is_valid,
            metadata: copy_bytes(&self.metadata),
        }
    }
}

/// A student's profile.
pub struct StudentProfile {
    /// Full legal name.
    pub name: Vec<u8>,
    /// Whether the student is currently enrolled.
    pub enrolled: bool,
    /// Hash of the latest grade record (all zero when none is recorded).
    pub grade_hash: [u8; 32],
}

pub struct StudentProfileView {
    pub name: Seq<u8>,
    pub enrolled: bool,
    pub grade_hash: Seq<u8>,
}

impl View for StudentProfile {
    type V = StudentProfileView;

    open spec fn view(&self) -> StudentProfileView {
        StudentProfileView { name: self.name@, enrolled: self.enrolled, grade_hash: self.grade_hash@ }
    }
}

impl StudentProfile {
    /// A copy of this profile.
    pub fn duplicate(&self) -> (r: StudentProfile)
        ensures
            r@ == self@,
    {
        StudentProfile {
            name: copy_bytes(&self.name),
            enrolled: self.enrolled,
            grade_hash: self.grade_hash,
        }
    }
}

/// Terms of a scholarship award.
pub struct ScholarshipRecord {
    /// The student who receives the funds.
    pub recipient: Address,
    /// Amount in the token's base units.
    pub amount: i128,
    /// Address of the payment token contract.
    pub token: Address,
    /// Set once the funds have been sent.
    pub disbursed: bool,
    /// The institution that created the scholarship.
    pub issuer: Address,
}

pub struct ScholarshipRecordView {
    pub recipient: Seq<u8>,
    pub amount: i128,
    pub token: Seq<u8>,
    pub disbursed: bool,
    pub issuer: Seq<u8>,
}

impl View for ScholarshipRecord {
    type V = ScholarshipRecordView;

    open spec fn view(&self) -> ScholarshipRecordView {
        ScholarshipRecordView {
            recipient: self.recipient@,
            amount: self.amount,
            token: self.token@,
            disbursed: self.disbursed,
            issuer: self.issuer@,
        }
    }
}

impl ScholarshipRecord {
    /// A copy of this record.
    pub fn duplicate(&self) -> (r: ScholarshipRecord)
        ensures
            r@ == self@,
    {
        ScholarshipRecord {
            recipient: self.recipient.duplicate(),
            amount: self.amount,
            token: self.token.duplicate(),
            disbursed: self.disbursed,
            issuer: self.issuer.duplicate(),
        }
    }
}

/// A token payment the contract must make: `amount` of `token`, from the
/// contract's own balance to `to`.
pub struct Transfer {
    pub token: Address,
    pub to: Address,
    pub amount: i128,
}

pub struct TransferView {
    pub token: Seq<u8>,
    pub to: Seq<u8>,
    pub amount: i128,
}

impl View for Transfer {
    type V = TransferView;

    open spec fn view(&self) -> TransferView {
        TransferView { token: self.token@, to: self.to@, amount: self.amount }
    }
}

/// Why an operation was refused.
#[derive(Debug, Clone, Copy, PartialEq, Eq, Structural)]
pub enum LedgerError {
    AlreadyInitialized,
    NotInitialized,
    InvalidDocumentType,
    DocumentAlreadyRegistered,
    DocumentNotFound,
    UnauthorizedRevoke,
    UnauthorizedAdmin,
    StudentAlreadyEnrolled,
    StudentNotEnrolled,
    StudentNotFound,
    ScholarshipAlreadyExists,
    ScholarshipNotFound,
    ScholarshipAlreadyDisbursed,
    UnauthorizedDisburse,
}

impl LedgerError {
    /// The refusal message of each error.
    pub open spec fn spec_message(self) -> Seq<char> {
        match self {
            LedgerError::AlreadyInitialized => "Contract already initialized"@,
            LedgerError::NotInitialized => "Contract not initialized"@,
            LedgerError::InvalidDocumentType => "Invalid document type: must be one of TRANSCRIPT, CREDENTIAL, ENROLLMENT, GRADES"@,
            LedgerError::DocumentAlreadyRegistered => "Document already registered"@,
            LedgerError::DocumentNotFound => "Document not found"@,
            LedgerError::UnauthorizedRevoke => "Unauthorized: only admin or original issuer can revoke"@,
            LedgerError::UnauthorizedAdmin => "Unauthorized: caller is not the contract admin"@,
            LedgerError::StudentAlreadyEnrolled => "Student already enrolled"@,
            LedgerError::StudentNotEnrolled => "Student not found \u{2014} must be enrolled first"@,
            LedgerError::StudentNotFound => "Student not found"@,
            LedgerError::ScholarshipAlreadyExists => "Scholarship ID already exists"@,
            LedgerError::ScholarshipNotFound => "Scholarship not found"@,
            LedgerError::ScholarshipAlreadyDisbursed => "Scholarship already disbursed"@,
            LedgerError::UnauthorizedDisburse => "Unauthorized: only the scholarship issuer can disburse"@,
        }
    }

    /// The refusal message of this error.
    pub fn message(&self) -> (r: &'static str)
        ensures
            r@ == self.spec_message(),
    {
        match self {
            LedgerError::AlreadyInitialized => "Contract already initialized",
            LedgerError::NotInitialized => "Contract not initialized",
            LedgerError::InvalidDocumentType => "Invalid document type: must be one of TRANSCRIPT, CREDENTIAL, ENROLLMENT, GRADES",
            LedgerError::DocumentAlreadyRegistered => "Document already registered",
            LedgerError::DocumentNotFound => "Document not found",
            LedgerError::UnauthorizedRevoke => "Unauthorized: only admin or original issuer can revoke",
            LedgerError::UnauthorizedAdmin => "Unauthorized: caller is not the contract admin",
            LedgerError::StudentAlreadyEnrolled => "Student already enrolled",
            LedgerError::StudentNotEnrolled => "Student not found \u{2014} must be enrolled first",
            LedgerError::StudentNotFound => "Student not found",
            LedgerError::ScholarshipAlreadyExists => "Scholarship ID already exists",
            LedgerError::ScholarshipNotFound => "Scholarship not found",
            LedgerError::ScholarshipAlreadyDisbursed => "Scholarship already disbursed",
            LedgerError::UnauthorizedDisburse => "Unauthorized: only the scholarship issuer can disburse",
        }
    }
}

} // verus!
