//! A verified model of an on-chain school document registry with student
//! profiles and scholarship escrow records.
//!
//! The ledger state is held by [`EduLedgerContract`]; every operation is a
//! method whose contract pins its result and the state it leaves behind,
//! stated over [`LedgerView`].

pub mod laws;
pub mod ledger;
pub mod table;
pub mod types;

pub use ledger::{EduLedgerContract, LedgerView};
pub use table::{LedgerKey, Table};
pub use types::{is_valid_document_type, Address, DocumentRecord, Hash32, LedgerError, ScholarshipRecord, StudentProfile, Transfer};
