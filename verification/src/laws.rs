//! Properties of the ledger that span operations, proved over the
//! specification of each operation.

use vstd::prelude::*;
use crate::ledger::LedgerView;
use crate::types::{is_document_type, zero_hash, DocumentRecordView, LedgerError, ScholarshipRecordView, StudentProfileView};

verus! {

/// A document that has just been registered verifies, and reading it back
/// gives exactly what was registered, marked valid.
pub proof fn law_register_then_verify(
    s: LedgerView,
    issuer: Seq<u8>,
    student: Seq<u8>,
    doc_hash: Seq<u8>,
    doc_type: Seq<u8>,
    metadata: Seq<u8>,
    timestamp: u64,
)
    requires
        s.register_document(issuer, student, doc_hash, doc_type, metadata, timestamp) is Ok,
    ensures
        ({
            let post = s.register_document(issuer, student, doc_hash, doc_type, metadata, timestamp)
                .unwrap();
            &&& post.verify_document(doc_hash)
            &&& post.get_document(doc_hash) == Ok::<DocumentRecordView, LedgerError>(
                DocumentRecordView { student, doc_type, issuer, timestamp, is_valid: true, metadata },
            )
        }),
{
}

/// A hash can be registered only once: registration succeeds exactly when
/// the type is one of the document types and the hash is not registered
/// yet, and after a registration every further registration of the same
/// hash is refused, whatever its other arguments.
pub proof fn law_registration_is_unique(
    s: LedgerView,
    issuer: Seq<u8>,
    student: Seq<u8>,
    doc_hash: Seq<u8>,
    doc_type: Seq<u8>,
    metadata: Seq<u8>,
    timestamp: u64,
    issuer2: Seq<u8>,
    student2: Seq<u8>,
    doc_type2: Seq<u8>,
    metadata2: Seq<u8>,
    timestamp2: u64,
)
    ensures
        s.register_document(issuer, student, doc_hash, doc_type, metadata, timestamp) is Ok
            <==> is_document_type(doc_type) && !s.documents.contains_key(doc_hash),
        s.register_document(issuer, student, doc_hash, doc_type, metadata, timestamp) matches Ok(
            post,
        ) ==> post.register_document(issuer2, student2, doc_hash, doc_type2, metadata2, timestamp2)
            is Err,
        is_document_type(doc_type2) ==> (s.register_document(
            issuer,
            student,
            doc_hash,
            doc_type,
            metadata,
            timestamp,
        ) matches Ok(post) ==> post.register_document(
            issuer2,
            student2,
            doc_hash,
            doc_type2,
            metadata2,
            timestamp2,
        ) == Err::<LedgerView, LedgerError>(LedgerError::DocumentAlreadyRegistered)),
        !is_document_type(doc_type) ==> s.register_document(
            issuer,
            student,
            doc_hash,
            doc_type,
            metadata,
            timestamp,
        ) == Err::<LedgerView, LedgerError>(LedgerError::InvalidDocumentType),
{
}

/// The document counter starts at zero, is left alone by initialization,
/// and goes up by exactly one with each successful registration.
pub proof fn law_document_counter(
    s: LedgerView,
    admin: Seq<u8>,
    issuer: Seq<u8>,
    student: Seq<u8>,
    doc_hash: Seq<u8>,
    doc_type: Seq<u8>,
    metadata: Seq<u8>,
    timestamp: u64,
)
    requires
        s.doc_count < u64::MAX,
    ensures
        s.initialize(admin) matches Ok(post) ==> post.doc_count == s.doc_count,
        s.register_document(issuer, student, doc_hash, doc_type, metadata, timestamp) matches Ok(
            post,
        ) ==> post.doc_count == s.doc_count + 1,
        LedgerView::empty().doc_count == 0,
{
}

/// A hash that was never registered does not verify.
pub proof fn law_unregistered_does_not_verify(s: LedgerView, doc_hash: Seq<u8>)
    requires
        !s.documents.contains_key(doc_hash),
    ensures
        !s.verify_document(doc_hash),
        s.get_document(doc_hash) == Err::<DocumentRecordView, LedgerError>(
            LedgerError::DocumentNotFound,
        ),
{
}

/// Revocation succeeds exactly when the ledger is initialized, the document
/// is registered, and the caller is the administrator or the document's
/// issuer; after it the document no longer verifies and keeps all its other
/// contents.
pub proof fn law_revocation(s: LedgerView, caller: Seq<u8>, doc_hash: Seq<u8>)
    ensures
        s.revoke_document(caller, doc_hash) is Ok <==> {
            &&& s.admin is Some
            &&& s.documents.contains_key(doc_hash)
            &&& (caller == s.admin->0 || caller == s.documents[doc_hash].issuer)
        },
        s.revoke_document(caller, doc_hash) matches Ok(post) ==> {
            &&& !post.verify_document(doc_hash)
            &&& post.documents[doc_hash] == DocumentRecordView {
                is_valid: false,
                ..s.documents[doc_hash]
            }
        },
{
}

/// Every state-changing operation, when it succeeds, leaves a state that
/// extends the one before.
pub proof fn law_operations_extend(
    s: LedgerView,
    a: Seq<u8>,
    b: Seq<u8>,
    h: Seq<u8>,
    t: Seq<u8>,
    m: Seq<u8>,
    ts: u64,
    id: u64,
    amount: i128,
)
    ensures
        s.initialize(a) matches Ok(post) ==> s.extends(post),
        s.register_document(a, b, h, t, m, ts) matches Ok(post) ==> s.extends(post),
        s.revoke_document(a, h) matches Ok(post) ==> s.extends(post),
        s.enroll_student(a, b, m) matches Ok(post) ==> s.extends(post),
        s.record_grades(b, h) matches Ok(post) ==> s.extends(post),
        s.create_scholarship(a, id, b, amount, t) matches Ok(post) ==> s.extends(post),
        s.disburse_scholarship(a, id) matches Ok((post, _)) ==> s.extends(post),
{
}

/// `extends` is reflexive and transitive, so it holds between any state and
/// any later state reached by a sequence of operations.
pub proof fn law_extends_is_a_preorder(s1: LedgerView, s2: LedgerView, s3: LedgerView)
    ensures
        s1.extends(s1),
        s1.extends(s2) && s2.extends(s3) ==> s1.extends(s3),
{
}

/// Revocation is permanent: a registered document that does not verify
/// stays registered and never verifies again in any later state.
pub proof fn law_revocation_is_permanent(s: LedgerView, later: LedgerView, doc_hash: Seq<u8>)
    requires
        s.extends(later),
        s.documents.contains_key(doc_hash),
        !s.verify_document(doc_hash),
    ensures
        later.documents.contains_key(doc_hash),
        !later.verify_document(doc_hash),
{
}

/// The ledger can be initialized only once, and once set the administrator
/// never changes.
pub proof fn law_initialize_once(s: LedgerView, admin: Seq<u8>, admin2: Seq<u8>, later: LedgerView)
    ensures
        s.initialize(admin) is Ok <==> s.admin is None,
        s.initialize(admin) matches Ok(post) ==> post.admin == Some(admin) && post.initialize(
            admin2,
        ) == Err::<LedgerView, LedgerError>(LedgerError::AlreadyInitialized),
        s.admin is Some && s.extends(later) ==> later.admin == s.admin,
{
}

/// Only the administrator enrolls students, each student once; a new
/// profile is enrolled, carries the given name, and has no grades recorded.
pub proof fn law_enrollment(s: LedgerView, admin: Seq<u8>, student: Seq<u8>, name: Seq<u8>)
    ensures
        s.enroll_student(admin, student, name) is Ok <==> {
            &&& s.admin == Some(admin)
            &&& !s.students.contains_key(student)
        },
        s.enroll_student(admin, student, name) matches Ok(post) ==> post.get_student(student)
            == Ok::<StudentProfileView, LedgerError>(
            StudentProfileView { name, enrolled: true, grade_hash: zero_hash() },
        ),
{
}

/// Recording grades for an enrolled student replaces exactly the grade hash
/// of the profile; for anyone else it is refused.
pub proof fn law_record_grades(s: LedgerView, student: Seq<u8>, grade_hash: Seq<u8>)
    ensures
        s.record_grades(student, grade_hash) is Ok <==> s.students.contains_key(student),
        s.record_grades(student, grade_hash) matches Ok(post) ==> post.get_student(student)
            == Ok::<StudentProfileView, LedgerError>(
            StudentProfileView { grade_hash, ..s.students[student] },
        ),
{
}

/// A scholarship id is used once: creation succeeds exactly when the id is
/// free, and the new record holds the given terms, not yet disbursed.
pub proof fn law_scholarship_creation(
    s: LedgerView,
    issuer: Seq<u8>,
    id: u64,
    recipient: Seq<u8>,
    amount: i128,
    token: Seq<u8>,
)
    ensures
        s.create_scholarship(issuer, id, recipient, amount, token) is Ok
            <==> !s.scholarships.contains_key(id),
        s.create_scholarship(issuer, id, recipient, amount, token) matches Ok(post) ==> post.get_scholarship(id)
            == Ok::<ScholarshipRecordView, LedgerError>(
            ScholarshipRecordView { recipient, amount, token, disbursed: false, issuer },
        ),
{
}

/// A scholarship is disbursed at most once, only by its issuer, and the
/// payment made is the agreed amount of the agreed token to the recipient;
/// any later disbursement of it is refused.
pub proof fn law_disbursement(s: LedgerView, caller: Seq<u8>, caller2: Seq<u8>, id: u64)
    ensures
        s.disburse_scholarship(caller, id) is Ok <==> {
            &&& s.scholarships.contains_key(id)
            &&& !s.scholarships[id].disbursed
            &&& caller == s.scholarships[id].issuer
        },
        s.disburse_scholarship(caller, id) matches Ok((post, t)) ==> {
            &&& t.token == s.scholarships[id].token
            &&& t.to == s.scholarships[id].recipient
            &&& t.amount == s.scholarships[id].amount
            &&& post.scholarships[id].disbursed
            &&& post.disburse_scholarship(caller2, id) is Err
            &&& post.disburse_scholarship(caller2, id)->Err_0 == LedgerError::ScholarshipAlreadyDisbursed
        },
{
}

/// Each operation touches only the entry named by its key: the other
/// entries of every table, and every other table, are left as they were.
pub proof fn law_operations_are_local(
    s: LedgerView,
    a: Seq<u8>,
    b: Seq<u8>,
    h: Seq<u8>,
    t: Seq<u8>,
    m: Seq<u8>,
    ts: u64,
    id: u64,
    amount: i128,
)
    ensures
        s.initialize(a) matches Ok(post) ==> post == (LedgerView { admin: Some(a), ..s }),
        s.initialize(a) matches Ok(post) ==> {
            &&& post.doc_count == s.doc_count
            &&& post.documents == s.documents
            &&& post.students == s.students
            &&& post.scholarships == s.scholarships
        },
        s.register_document(a, b, h, t, m, ts) matches Ok(post) ==> {
            &&& post.admin == s.admin
            &&& post.students == s.students
            &&& post.scholarships == s.scholarships
            &&& post.documents.remove(h) == s.documents.remove(h)
        },
        s.revoke_document(a, h) matches Ok(post) ==> {
            &&& post.admin == s.admin
            &&& post.doc_count == s.doc_count
            &&& post.students == s.students
            &&& post.scholarships == s.scholarships
            &&& post.documents.remove(h) == s.documents.remove(h)
        },
        s.enroll_student(a, b, m) matches Ok(post) ==> {
            &&& post.admin == s.admin
            &&& post.doc_count == s.doc_count
            &&& post.documents == s.documents
            &&& post.scholarships == s.scholarships
            &&& post.students.remove(b) == s.students.remove(b)
        },
        s.record_grades(b, h) matches Ok(post) ==> {
            &&& post.admin == s.admin
            &&& post.doc_count == s.doc_count
            &&& post.documents == s.documents
            &&& post.scholarships == s.scholarships
            &&& post.students.remove(b) == s.students.remove(b)
        },
        s.create_scholarship(a, id, b, amount, t) matches Ok(post) ==> {
            &&& post.admin == s.admin
            &&& post.doc_count == s.doc_count
            &&& post.documents == s.documents
            &&& post.students == s.students
            &&& post.scholarships.remove(id) == s.scholarships.remove(id)
        },
        s.disburse_scholarship(a, id) matches Ok((post, _)) ==> {
            &&& post.admin == s.admin
            &&& post.doc_count == s.doc_count
            &&& post.documents == s.documents
            &&& post.students == s.students
            &&& post.scholarships.remove(id) == s.scholarships.remove(id)
        },
{
    if let Ok(post) = s.register_document(a, b, h, t, m, ts) {
        assert(post.documents.remove(h) =~= s.documents.remove(h));
    }
    if let Ok(post) = s.revoke_document(a, h) {
        assert(post.documents.remove(h) =~= s.documents.remove(h));
    }
    if let Ok(post) = s.enroll_student(a, b, m) {
        assert(post.students.remove(b) =~= s.students.remove(b));
    }
    if let Ok(post) = s.record_grades(b, h) {
        assert(post.students.remove(b) =~= s.students.remove(b));
    }
    if let Ok(post) = s.create_scholarship(a, id, b, amount, t) {
        assert(post.scholarships.remove(id) =~= s.scholarships.remove(id));
    }
    if let Ok((post, _)) = s.disburse_scholarship(a, id) {
        assert(post.scholarships.remove(id) =~= s.scholarships.remove(id));
    }
}

/// The counter equals the number of registered documents, and every
/// registered document has one of the document types: this holds of a
/// freshly deployed ledger and every operation keeps it (registration
/// within the counter's range).
pub proof fn law_counter_counts_documents(
    s: LedgerView,
    a: Seq<u8>,
    b: Seq<u8>,
    h: Seq<u8>,
    t: Seq<u8>,
    m: Seq<u8>,
    ts: u64,
    id: u64,
    amount: i128,
)
    requires
        s.consistent(),
    ensures
        LedgerView::empty().consistent(),
        s.initialize(a) matches Ok(post) ==> post.consistent(),
        s.doc_count < u64::MAX ==> (s.register_document(a, b, h, t, m, ts) matches Ok(post)
            ==> post.consistent()),
        s.revoke_document(a, h) matches Ok(post) ==> post.consistent(),
        s.enroll_student(a, b, m) matches Ok(post) ==> post.consistent(),
        s.record_grades(b, h) matches Ok(post) ==> post.consistent(),
        s.create_scholarship(a, id, b, amount, t) matches Ok(post) ==> post.consistent(),
        s.disburse_scholarship(a, id) matches Ok((post, _)) ==> post.consistent(),
{
    assert(LedgerView::empty().documents.dom() =~= Set::<Seq<u8>>::empty());
    if s.doc_count < u64::MAX {
        if let Ok(post) = s.register_document(a, b, h, t, m, ts) {
            assert(post.documents.dom() =~= s.documents.dom().insert(h));
        }
    }
    if let Ok(post) = s.revoke_document(a, h) {
        assert(post.documents.dom() =~= s.documents.dom());
    }
}

/// Queries read the stored state and nothing else: a document verifies
/// exactly when it is stored and not revoked, whether or not an
/// administrator is set; a stored document, profile or scholarship is read
/// back exactly as stored (revoked or disbursed ones included), and an
/// unknown key is refused with the not-found error.
pub proof fn law_queries_read_the_state(s: LedgerView, h: Seq<u8>, a: Seq<u8>, id: u64)
    ensures
        s.documents.contains_key(h) && !s.documents[h].is_valid ==> !s.verify_document(h),
        s.documents.contains_key(h) && s.documents[h].is_valid ==> s.verify_document(h),
        !s.documents.contains_key(h) ==> !s.verify_document(h),
        s.verify_document(h) <==> (s.get_document(h) matches Ok(r) && r.is_valid),
        (LedgerView { admin: None, ..s }).verify_document(h) == s.verify_document(h),
        s.documents.contains_key(h) ==> s.get_document(h) == Ok::<DocumentRecordView, LedgerError>(
            s.documents[h],
        ),
        !s.documents.contains_key(h) ==> s.get_document(h) == Err::<DocumentRecordView, LedgerError>(
            LedgerError::DocumentNotFound,
        ),
        s.students.contains_key(a) ==> s.get_student(a) == Ok::<StudentProfileView, LedgerError>(
            s.students[a],
        ),
        !s.students.contains_key(a) ==> s.get_student(a) == Err::<StudentProfileView, LedgerError>(
            LedgerError::StudentNotFound,
        ),
        (LedgerView { admin: None, ..s }).get_student(a) == s.get_student(a),
        s.scholarships.contains_key(id) ==> s.get_scholarship(id) == Ok::<
            ScholarshipRecordView,
            LedgerError,
        >(s.scholarships[id]),
        !s.scholarships.contains_key(id) ==> s.get_scholarship(id) == Err::<
            ScholarshipRecordView,
            LedgerError,
        >(LedgerError::ScholarshipNotFound),
{
}

/// A revoked document reads back as registered, with only its validity
/// turned off, and no longer verifies.
pub proof fn law_revoked_document_reads_back(
    s: LedgerView,
    issuer: Seq<u8>,
    student: Seq<u8>,
    doc_hash: Seq<u8>,
    doc_type: Seq<u8>,
    metadata: Seq<u8>,
    timestamp: u64,
    caller: Seq<u8>,
)
    requires
        s.register_document(issuer, student, doc_hash, doc_type, metadata, timestamp) is Ok,
        s.register_document(issuer, student, doc_hash, doc_type, metadata, timestamp)
            ->Ok_0.revoke_document(caller, doc_hash) is Ok,
    ensures
        ({
            let post = s.register_document(issuer, student, doc_hash, doc_type, metadata, timestamp)
                ->Ok_0.revoke_document(caller, doc_hash)->Ok_0;
            &&& post.get_document(doc_hash) == Ok::<DocumentRecordView, LedgerError>(
                DocumentRecordView { student, doc_type, issuer, timestamp, is_valid: false, metadata },
            )
            &&& !post.verify_document(doc_hash)
        }),
{
}

/// A disbursed scholarship reads back with the agreed terms, marked
/// disbursed, and the payment is those terms.
pub proof fn law_disbursed_scholarship_reads_back(
    s: LedgerView,
    issuer: Seq<u8>,
    id: u64,
    recipient: Seq<u8>,
    amount: i128,
    token: Seq<u8>,
    caller: Seq<u8>,
)
    requires
        s.create_scholarship(issuer, id, recipient, amount, token) is Ok,
        s.create_scholarship(issuer, id, recipient, amount, token)->Ok_0.disburse_scholarship(
            caller,
            id,
        ) is Ok,
    ensures
        ({
            let (post, t) = s.create_scholarship(issuer, id, recipient, amount, token)
                ->Ok_0.disburse_scholarship(caller, id)->Ok_0;
            &&& caller == issuer
            &&& post.get_scholarship(id) == Ok::<ScholarshipRecordView, LedgerError>(
                ScholarshipRecordView { recipient, amount, token, disbursed: true, issuer },
            )
            &&& t.token == token
            &&& t.to == recipient
            &&& t.amount == amount
        }),
{
}

} // verus!
