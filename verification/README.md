# edu_ledger

A verified school document registry with student profiles and scholarship
escrow records, written in Verus.

- `src/` — the verified library.
  - `table.rs`: a finite map over a vector of entries with distinct keys.
  - `types.rs`: addresses, records, the payment order, and refusal reasons.
  - `ledger.rs`: the ledger state (`EduLedgerContract`), its mathematical
    view (`LedgerView`), the specification of every operation, and the
    operations themselves.
  - `laws.rs`: properties across operations (registration uniqueness,
    revocation rights and permanence, the document counter equal to the
    number of registered documents, the document types, single
    initialization, enrollment rights, single disbursement, and the
    `extends` relation that every operation keeps).
- `app/` — the Soroban contract around the library: signature checks,
  contract storage, ledger time, and token payments.
- `tests/` — tests of the library.
