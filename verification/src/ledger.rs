//! The ledger: contract state and the operations on it.

use vstd::prelude::*;
use crate::table::{LedgerKey, Table};
use crate::types::{
    is_document_type, is_valid_document_type, zero_hash, Address, DocumentRecord, DocumentRecordView, Hash32, LedgerError,
    ScholarshipRecord, ScholarshipRecordView, StudentProfile, StudentProfileView, Transfer,
    TransferView,
};

verus! {

/// The mathematical state of the ledger.
pub struct LedgerView {
    /// The administrator (registrar office), once initialized.
    pub admin: Option<Seq<u8>>,
    /// Running total of documents registered.
    pub doc_count: u64,
    /// Documents by hash.
    pub documents: Map<Seq<u8>, DocumentRecordView>,
    /// Student profiles by student address.
    pub students: Map<Seq<u8>, StudentProfileView>,
    /// Scholarships by id.
    pub scholarships: Map<u64, ScholarshipRecordView>,
}

impl LedgerView {
    /// A freshly deployed ledger: nothing stored.
    pub open spec fn empty() -> LedgerView {
        LedgerView {
            admin: None,
            doc_count: 0,
            documents: Map::empty(),
            students: Map::empty(),
            scholarships: Map::empty(),
        }
    }

    pub open spec fn initialize(self, admin: Seq<u8>) -> Result<LedgerView, LedgerError> {
        if self.admin is Some {
            Err(LedgerError::AlreadyInitialized)
        } else {
            Ok(LedgerView { admin: Some(admin), ..self })
        }
    }

    pub open spec fn register_document(
        self,
        issuer: Seq<u8>,
        student: Seq<u8>,
        doc_hash: Seq<u8>,
        doc_type: Seq<u8>,
        metadata: Seq<u8>,
        timestamp: u64,
    ) -> Result<LedgerView, LedgerError> {
        if !is_document_type(doc_type) {
            Err(LedgerError::InvalidDocumentType)
        } else if self.documents.contains_key(doc_hash) {
            Err(LedgerError::DocumentAlreadyRegistered)
        } else {
            let record = DocumentRecordView {
                student,
                doc_type,
                issuer,
                timestamp,
                is_valid: true,
                metadata,
            };
            Ok(
                LedgerView {
                    documents: self.documents.insert(doc_hash, record),
                    doc_count: (self.doc_count + 1) as u64,
                    ..self
                },
            )
        }
    }

    pub open spec fn verify_document(self, doc_hash: Seq<u8>) -> bool {
        self.documents.contains_key(doc_hash) && self.documents[doc_hash].is_valid
    }

    pub open spec fn get_document(self, doc_hash: Seq<u8>) -> Result<DocumentRecordView, LedgerError> {
        if self.documents.contains_key(doc_hash) {
            Ok(self.documents[doc_hash])
        } else {
            Err(LedgerError::DocumentNotFound)
        }
    }

    pub open spec fn revoke_document(self, caller: Seq<u8>, doc_hash: Seq<u8>) -> Result<
        LedgerView,
        LedgerError,
    > {
        match self.admin {
            None => Err(LedgerError::NotInitialized),
            Some(admin) => if !self.documents.contains_key(doc_hash) {
                Err(LedgerError::DocumentNotFound)
            } else {
                let record = self.documents[doc_hash];
                if caller != admin && caller != record.issuer {
                    Err(LedgerError::UnauthorizedRevoke)
                } else {
                    Ok(
                        LedgerView {
                            documents: self.documents.insert(
                                doc_hash,
                                DocumentRecordView { is_valid: false, ..record },
                            ),
                            ..self
                        },
                    )
                }
            },
        }
    }

    pub open spec fn enroll_student(self, admin: Seq<u8>, student: Seq<u8>, name: Seq<u8>) -> Result<
        LedgerView,
        LedgerError,
    > {
        match self.admin {
            None => Err(LedgerError::NotInitialized),
            Some(stored) => if admin != stored {
                Err(LedgerError::UnauthorizedAdmin)
            } else if self.students.contains_key(student) {
                Err(LedgerError::StudentAlreadyEnrolled)
            } else {
                let profile = StudentProfileView { name, enrolled: true, grade_hash: zero_hash() };
                Ok(LedgerView { students: self.students.insert(student, profile), ..self })
            },
        }
    }

    pub open spec fn record_grades(self, student: Seq<u8>, grade_hash: Seq<u8>) -> Result<
        LedgerView,
        LedgerError,
    > {
        if !self.students.contains_key(student) {
            Err(LedgerError::StudentNotEnrolled)
        } else {
            let profile = StudentProfileView { grade_hash, ..self.students[student] };
            Ok(LedgerView { students: self.students.insert(student, profile), ..self })
        }
    }

    pub open spec fn get_student(self, student: Seq<u8>) -> Result<StudentProfileView, LedgerError> {
        if self.students.contains_key(student) {
            Ok(self.students[student])
        } else {
            Err(LedgerError::StudentNotFound)
        }
    }

    pub open spec fn create_scholarship(
        self,
        issuer: Seq<u8>,
        scholarship_id: u64,
        recipient: Seq<u8>,
        amount: i128,
        token: Seq<u8>,
    ) -> Result<LedgerView, LedgerError> {
        if self.scholarships.contains_key(scholarship_id) {
            Err(LedgerError::ScholarshipAlreadyExists)
        } else {
            let record = ScholarshipRecordView { recipient, amount, token, disbursed: false, issuer };
            Ok(
                LedgerView {
                    scholarships: self.scholarships.insert(scholarship_id, record),
                    ..self
                },
            )
        }
    }

    pub open spec fn disburse_scholarship(self, caller: Seq<u8>, scholarship_id: u64) -> Result<
        (LedgerView, TransferView),
        LedgerError,
    > {
        if !self.scholarships.contains_key(scholarship_id) {
            Err(LedgerError::ScholarshipNotFound)
        } else {
            let record = self.scholarships[scholarship_id];
            if record.disbursed {
                Err(LedgerError::ScholarshipAlreadyDisbursed)
            } else if caller != record.issuer {
                Err(LedgerError::UnauthorizedDisburse)
            } else {
                let post = LedgerView {
                    scholarships: self.scholarships.insert(
                        scholarship_id,
                        ScholarshipRecordView { disbursed: true, ..record },
                    ),
                    ..self
                };
                Ok((post, TransferView { token: record.token, to: record.recipient, amount: record.amount }))
            }
        }
    }

    pub open spec fn get_scholarship(self, scholarship_id: u64) -> Result<
        ScholarshipRecordView,
        LedgerError,
    > {
        if self.scholarships.contains_key(scholarship_id) {
            Ok(self.scholarships[scholarship_id])
        } else {
            Err(LedgerError::ScholarshipNotFound)
        }
    }

    /// The counter equals the number of registered documents, and every
    /// registered document has one of the document types.
    pub open spec fn consistent(self) -> bool {
        &&& self.documents.dom().finite()
        &&& self.doc_count == self.documents.dom().len()
        &&& forall|h: Seq<u8>| #[trigger]
            self.documents.contains_key(h) ==> is_document_type(self.documents[h].doc_type)
    }

    /// What every operation keeps: an admin once set never changes; a
    /// registered document stays registered with the same contents, and
    /// its validity can only go from valid to revoked; an enrolled student
    /// stays enrolled under the same name; a scholarship keeps its terms,
    /// and once disbursed stays disbursed.
    pub open spec fn extends(self, post: LedgerView) -> bool {
        &&& (self.admin is Some ==> post.admin == self.admin)
        &&& forall|h: Seq<u8>| #[trigger]
            self.documents.contains_key(h) ==> {
                &&& post.documents.contains_key(h)
                &&& post.documents[h].student == self.documents[h].student
                &&& post.documents[h].doc_type == self.documents[h].doc_type
                &&& post.documents[h].issuer == self.documents[h].issuer
                &&& post.documents[h].timestamp == self.documents[h].timestamp
                &&& post.documents[h].metadata == self.documents[h].metadata
                &&& (post.documents[h].is_valid ==> self.documents[h].is_valid)
            }
        &&& forall|s: Seq<u8>| #[trigger]
            self.students.contains_key(s) ==> {
                &&& post.students.contains_key(s)
                &&& post.students[s].name == self.students[s].name
                &&& post.students[s].enrolled == self.students[s].enrolled
            }
        &&& forall|id: u64| #[trigger]
            self.scholarships.contains_key(id) ==> {
                &&& post.scholarships.contains_key(id)
                &&& post.scholarships[id].recipient == self.scholarships[id].recipient
                &&& post.scholarships[id].amount == self.scholarships[id].amount
                &&& post.scholarships[id].token == self.scholarships[id].token
                &&& post.scholarships[id].issuer == self.scholarships[id].issuer
                &&& (self.scholarships[id].disbursed ==> post.scholarships[id].disbursed)
            }
    }
}

/// The ledger state of one deployment: the administrator, the document
/// counter, and the document, student and scholarship records.
pub struct EduLedgerContract {
    admin: Option<Address>,
    doc_count: u64,
    documents: Table<Hash32, DocumentRecord>,
    students: Table<Address, StudentProfile>,
    scholarships: Table<u64, ScholarshipRecord>,
}

impl View for EduLedgerContract {
    type V = LedgerView;

    closed spec fn view(&self) -> LedgerView {
        LedgerView {
            admin: match self.admin {
                Some(a) => Some(a@),
                None => None,
            },
            doc_count: self.doc_count,
            documents: self.documents.view(),
            students: self.students.view(),
            scholarships: self.scholarships.view(),
        }
    }
}

impl EduLedgerContract {
    /// Internal consistency: no table holds a key twice.
    pub closed spec fn wf(&self) -> bool {
        &&& self.documents.wf()
        &&& self.students.wf()
        &&& self.scholarships.wf()
    }

    /// A freshly deployed ledger with nothing stored.
    pub fn new() -> (r: EduLedgerContract)
        ensures
            r.wf(),
            r@ == LedgerView::empty(),
    {
        EduLedgerContract {
            admin: None,
            doc_count: 0,
            documents: Table::new(),
            students: Table::new(),
            scholarships: Table::new(),
        }
    }

    /// Sets the administrator; allowed once. The document counter is kept.
    pub fn initialize(&mut self, admin: Address) -> (r: Result<(), LedgerError>)
        requires
            old(self).wf(),
        ensures
            final(self).wf(),
            old(self)@.extends(final(self)@),
            match old(self)@.initialize(admin@) {
                Ok(post) => r is Ok && final(self)@ == post,
                Err(e) => r == Err::<(), LedgerError>(e) && final(self)@ == old(self)@,
            },
    {
        if self.admin.is_some() {
            return Err(LedgerError::AlreadyInitialized);
        }
        self.admin = Some(admin);
        Ok(())
    }

    /// Registers a document by its hash, stamped with `timestamp`, as valid,
    /// and counts it. Refuses a type other than TRANSCRIPT, CREDENTIAL,
    /// ENROLLMENT or GRADES, then a hash that is already registered.
    /// Returns the hash.
    pub fn register_document(
        &mut self,
        issuer: Address,
        student: Address,
        doc_hash: Hash32,
        doc_type: Vec<u8>,
        metadata: Vec<u8>,
        timestamp: u64,
    ) -> (r: Result<Hash32, LedgerError>)
        requires
            old(self).wf(),
            is_document_type(doc_type@) && !old(self)@.documents.contains_key(doc_hash@)
                ==> old(self)@.doc_count < u64::MAX,
        ensures
            final(self).wf(),
            old(self)@.extends(final(self)@),
            match old(self)@.register_document(
                issuer@,
                student@,
                doc_hash@,
                doc_type@,
                metadata@,
                timestamp,
            ) {
                Ok(post) => r == Ok::<Hash32, LedgerError>(doc_hash) && final(self)@ == post,
                Err(e) => r == Err::<Hash32, LedgerError>(e) && final(self)@ == old(self)@,
            },
    {
        if !is_valid_document_type(&doc_type) {
            return Err(LedgerError::InvalidDocumentType);
        }
        if self.documents.contains(&doc_hash) {
            return Err(LedgerError::DocumentAlreadyRegistered);
        }
        let record = DocumentRecord {
            student,
            doc_type,
            issuer,
            timestamp,
            is_valid: true,
            metadata,
        };
        self.documents.insert_new(doc_hash, record);
        self.doc_count = self.doc_count + 1;
        Ok(doc_hash)
    }

    /// Whether the hash is registered and not revoked.
    pub fn verify_document(&self, doc_hash: Hash32) -> (r: bool)
        requires
            self.wf(),
        ensures
            r == self@.verify_document(doc_hash@),
    {
        match self.documents.get(&doc_hash) {
            Some(record) => record.is_valid,
            None => false,
        }
    }

    /// The record of a registered document.
    pub fn get_document(&self, doc_hash: Hash32) -> (r: Result<DocumentRecord, LedgerError>)
        requires
            self.wf(),
        ensures
            match self@.get_document(doc_hash@) {
                Ok(v) => r matches Ok(record) && record@ == v,
                Err(e) => r matches Err(e2) && e2 == e,
            },
    {
        match self.documents.get(&doc_hash) {
            Some(record) => Ok(record.duplicate()),
            None => Err(LedgerError::DocumentNotFound),
        }
    }

    /// Marks a document as revoked; only the administrator or the document's
    /// issuer may do so.
    pub fn revoke_document(&mut self, caller: Address, doc_hash: Hash32) -> (r: Result<(), LedgerError>)
        requires
            old(self).wf(),
        ensures
            final(self).wf(),
            old(self)@.extends(final(self)@),
            match old(self)@.revoke_document(caller@, doc_hash@) {
                Ok(post) => r is Ok && final(self)@ == post,
                Err(e) => r == Err::<(), LedgerError>(e) && final(self)@ == old(self)@,
            },
    {
        let admin = match &self.admin {
            Some(a) => a,
            None => return Err(LedgerError::NotInitialized),
        };
        let record = match self.documents.get(&doc_hash) {
            Some(rec) => rec,
            None => return Err(LedgerError::DocumentNotFound),
        };
        if !caller.same_key(admin) && !caller.same_key(&record.issuer) {
            return Err(LedgerError::UnauthorizedRevoke);
        }
        let mut updated = record.duplicate();
        updated.is_valid = false;
        self.documents.replace(&doc_hash, updated);
        proof {
            assert(self@.documents =~= old(self)@.revoke_document(caller@, doc_hash@).unwrap().documents);
        }
        Ok(())
    }

    /// Creates a student profile (enrolled, no grades yet); only the
    /// administrator may do so, once per student.
    pub fn enroll_student(&mut self, admin: Address, student: Address, name: Vec<u8>) -> (r: Result<
        (),
        LedgerError,
    >)
        requires
            old(self).wf(),
        ensures
            final(self).wf(),
            old(self)@.extends(final(self)@),
            match old(self)@.enroll_student(admin@, student@, name@) {
                Ok(post) => r is Ok && final(self)@ == post,
                Err(e) => r == Err::<(), LedgerError>(e) && final(self)@ == old(self)@,
            },
    {
        let stored = match &self.admin {
            Some(a) => a,
            None => return Err(LedgerError::NotInitialized),
        };
        if !admin.same_key(stored) {
            return Err(LedgerError::UnauthorizedAdmin);
        }
        if self.students.contains(&student) {
            return Err(LedgerError::StudentAlreadyEnrolled);
        }
        let profile = StudentProfile { name, enrolled: true, grade_hash: [0u8; 32] };
        assert(profile.grade_hash@ =~= zero_hash());
        self.students.insert_new(student, profile);
        Ok(())
    }

    /// Replaces the grade hash of an enrolled student. The result does not
    /// depend on `issuer`, whose signature is checked by the host.
    pub fn record_grades(&mut self, issuer: Address, student: Address, grade_hash: Hash32) -> (r:
        Result<(), LedgerError>)
        requires
            old(self).wf(),
        ensures
            final(self).wf(),
            old(self)@.extends(final(self)@),
            match old(self)@.record_grades(student@, grade_hash@) {
                Ok(post) => r is Ok && final(self)@ == post,
                Err(e) => r == Err::<(), LedgerError>(e) && final(self)@ == old(self)@,
            },
    {
        let profile = match self.students.get(&student) {
            Some(p) => p,
            None => return Err(LedgerError::StudentNotEnrolled),
        };
        let mut updated = profile.duplicate();
        updated.grade_hash = grade_hash;
        self.students.replace(&student, updated);
        proof {
            assert(self@.students =~= old(self)@.record_grades(student@, grade_hash@).unwrap().students);
        }
        Ok(())
    }

    /// The profile of an enrolled student.
    pub fn get_student(&self, student: Address) -> (r: Result<StudentProfile, LedgerError>)
        requires
            self.wf(),
        ensures
            match self@.get_student(student@) {
                Ok(v) => r matches Ok(profile) && profile@ == v,
                Err(e) => r matches Err(e2) && e2 == e,
            },
    {
        match self.students.get(&student) {
            Some(p) => Ok(p.duplicate()),
            None => Err(LedgerError::StudentNotFound),
        }
    }

    /// Records the terms of a new scholarship (not yet disbursed); an
    /// existing id is never overwritten.
    pub fn create_scholarship(
        &mut self,
        issuer: Address,
        scholarship_id: u64,
        recipient: Address,
        amount: i128,
        token: Address,
    ) -> (r: Result<(), LedgerError>)
        requires
            old(self).wf(),
        ensures
            final(self).wf(),
            old(self)@.extends(final(self)@),
            match old(self)@.create_scholarship(issuer@, scholarship_id, recipient@, amount, token@) {
                Ok(post) => r is Ok && final(self)@ == post,
                Err(e) => r == Err::<(), LedgerError>(e) && final(self)@ == old(self)@,
            },
    {
        if self.scholarships.contains(&scholarship_id) {
            return Err(LedgerError::ScholarshipAlreadyExists);
        }
        let record = ScholarshipRecord { recipient, amount, token, disbursed: false, issuer };
        self.scholarships.insert_new(scholarship_id, record);
        Ok(())
    }

    /// Marks a scholarship as disbursed and returns the payment to make:
    /// the agreed amount of the agreed token to the recipient. Refused when
    /// the scholarship is unknown, already disbursed, or the caller is not
    /// its issuer (checked in that order).
    pub fn disburse_scholarship(&mut self, caller: Address, scholarship_id: u64) -> (r: Result<
        Transfer,
        LedgerError,
    >)
        requires
            old(self).wf(),
        ensures
            final(self).wf(),
            old(self)@.extends(final(self)@),
            match old(self)@.disburse_scholarship(caller@, scholarship_id) {
                Ok((post, t)) => r matches Ok(transfer) && transfer@ == t && final(self)@ == post,
                Err(e) => r matches Err(e2) && e2 == e && final(self)@ == old(self)@,
            },
    {
        let record = match self.scholarships.get(&scholarship_id) {
            Some(rec) => rec,
            None => return Err(LedgerError::ScholarshipNotFound),
        };
        if record.disbursed {
            return Err(LedgerError::ScholarshipAlreadyDisbursed);
        }
        if !caller.same_key(&record.issuer) {
            return Err(LedgerError::UnauthorizedDisburse);
        }
        let transfer = Transfer {
            token: record.token.duplicate(),
            to: record.recipient.duplicate(),
            amount: record.amount,
        };
        let mut updated = record.duplicate();
        updated.disbursed = true;
        self.scholarships.replace(&scholarship_id, updated);
        proof {
            assert(self@.scholarships =~= old(self)@.disburse_scholarship(
                caller@,
                scholarship_id,
            ).unwrap().0.scholarships);
        }
        Ok(transfer)
    }

    /// The record of a scholarship.
    pub fn get_scholarship(&self, scholarship_id: u64) -> (r: Result<ScholarshipRecord, LedgerError>)
        requires
            self.wf(),
        ensures
            match self@.get_scholarship(scholarship_id) {
                Ok(v) => r matches Ok(record) && record@ == v,
                Err(e) => r matches Err(e2) && e2 == e,
            },
    {
        match self.scholarships.get(&scholarship_id) {
            Some(rec) => Ok(rec.duplicate()),
            None => Err(LedgerError::ScholarshipNotFound),
        }
    }

    /// Restores the stored administrator (used when rebuilding the state
    /// from a persistent store).
    pub fn load_admin(&mut self, admin: Address)
        requires
            old(self).wf(),
        ensures
            final(self).wf(),
            final(self)@ == (LedgerView { admin: Some(admin@), ..old(self)@ }),
    {
        self.admin = Some(admin);
    }

    /// Restores the stored document counter.
    pub fn load_doc_count(&mut self, doc_count: u64)
        requires
            old(self).wf(),
        ensures
            final(self).wf(),
            final(self)@ == (LedgerView { doc_count, ..old(self)@ }),
    {
        self.doc_count = doc_count;
    }

    /// Restores a stored document record.
    pub fn load_document(&mut self, doc_hash: Hash32, record: DocumentRecord)
        requires
            old(self).wf(),
        ensures
            final(self).wf(),
            final(self)@ == (LedgerView {
                documents: old(self)@.documents.insert(doc_hash@, record@),
                ..old(self)@
            }),
    {
        if self.documents.contains(&doc_hash) {
            self.documents.replace(&doc_hash, record);
        } else {
            self.documents.insert_new(doc_hash, record);
        }
    }

    /// Restores a stored student profile.
    pub fn load_student(&mut self, student: Address, profile: StudentProfile)
        requires
            old(self).wf(),
        ensures
            final(self).wf(),
            final(self)@ == (LedgerView {
                students: old(self)@.students.insert(student@, profile@),
                ..old(self)@
            }),
    {
        if self.students.contains(&student) {
            self.students.replace(&student, profile);
        } else {
            self.students.insert_new(student, profile);
        }
    }

    /// Restores a stored scholarship record.
    pub fn load_scholarship(&mut self, scholarship_id: u64, record: ScholarshipRecord)
        requires
            old(self).wf(),
        ensures
            final(self).wf(),
            final(self)@ == (LedgerView {
                scholarships: old(self)@.scholarships.insert(scholarship_id, record@),
                ..old(self)@
            }),
    {
        if self.scholarships.contains(&scholarship_id) {
            self.scholarships.replace(&scholarship_id, record);
        } else {
            self.scholarships.insert_new(scholarship_id, record);
        }
    }

    /// The number of documents registered.
    pub fn get_doc_count(&self) -> (r: u64)
        ensures
            r == self@.doc_count,
    {
        self.doc_count
    }
}

} // verus!
