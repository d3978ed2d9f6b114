# task_manager

Verified contract logic for an on-chain task and bounty board, written in
Verus.

- `src/pro/`: the escrow contract (`TaskManagerPro`). Creating a task locks
  its reward in the contract; the reward is paid to the assignee less a
  platform fee once the creator or the admin verifies the work, refunded on
  cancellation, or split by the admin after a dispute. `model.rs` states the
  contract as a state machine over `ProState`; `contract.rs` implements it
  and proves each request against that statement; `laws.rs` proves what
  holds across requests (escrow balance, lifecycle, invariant).
- `src/user_profile.rs`: the profile contract (`UserProfileManager`).
- `src/manager/`: the workflow contract (`TaskManagerContract`): admin
  assignment, a status workflow, payment release and profiles, with the same
  split into model, implementation and laws.
- `src/address.rs`, `src/address_book.rs`, `src/fees.rs`, `src/text.rs`:
  addresses, a map keyed by address, the basis-point fee, byte-string copies.
- `app/`: Soroban contracts around the library. Each entry point
  authenticates its callers, reads the records it needs from instance
  storage, lets the library decide, then carries out the token transfers,
  writes the records back and publishes the events.
- `tests/`: scenarios on concrete values, with a small in-memory token that
  carries out the transfers the escrow contract asks for.
