//! A privacy-preserving pooled-funds state machine.
//!
//! Depositors place standardized amounts into a common pool, either openly or
//! under a hash commitment; withdrawers later prove entitlement (by key, by
//! hash preimage, or by a time gate) and the pool releases the funds to a
//! freshly chosen recipient. The modules here hold the verified core: the
//! commitment/nullifier ledger, the delayed-withdrawal scheduler, the batch
//! claim processor and the churn mixer, together with the peripheral campaign,
//! invite, payroll and receipt records that share the same primitives.
//!
//! The execution host (account storage, value transfer, clock and signature
//! verification) stays outside: every operation takes the state it touches and
//! the host-supplied readings (current time, slot, balances) as plain values.

pub mod constants;
pub mod errors;
pub mod hashing;
pub mod util;
pub mod commitment;
pub mod pool;
pub mod privacy_pool;
pub mod private_pool;
pub mod relayer;
pub mod batch;
pub mod campaign;
pub mod stealth;
pub mod payroll;
pub mod invite;
pub mod receipt;
