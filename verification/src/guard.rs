use vstd::prelude::*;
use crate::error::BridgeError;

verus! {

/// `std::sync::Mutex`.
#[verifier::external_type_specification]
#[verifier::external_body]
#[verifier::reject_recursive_types(T)]
pub struct ExMutex<T: ?Sized>(std::sync::Mutex<T>);

/// `std::sync::MutexGuard`.
#[verifier::external_type_specification]
#[verifier::external_body]
#[verifier::reject_recursive_types(T)]
pub struct ExMutexGuard<'a, T: ?Sized + 'a>(std::sync::MutexGuard<'a, T>);

/// `std::sync::PoisonError`: what a lock reports whose earlier holder ended
/// abnormally.
#[verifier::external_type_specification]
#[verifier::external_body]
#[verifier::reject_recursive_types(T)]
pub struct ExPoisonError<T>(std::sync::PoisonError<T>);

/// Calls `std::sync::Mutex::new`.
#[verifier::external_body]
fn shared(connection: rusqlite::Connection) -> (m: std::sync::Mutex<rusqlite::Connection>) {
    std::sync::Mutex::new(connection)
}

/// Calls `std::sync::Mutex::lock`, which blocks until the lock is free.
/// Whether the guard or the report of a poisoned lock comes back depends on
/// the other holders, so nothing is claimed of it. No guard leaves this crate,
/// and no operation asks for the lock while it holds it, so a thread never
/// waits for itself.
#[verifier::external_body]
fn lock<'a>(m: &'a std::sync::Mutex<rusqlite::Connection>) -> (r: Result<
    std::sync::MutexGuard<'a, rusqlite::Connection>,
    std::sync::PoisonError<std::sync::MutexGuard<'a, rusqlite::Connection>>,
>) {
    m.lock()
}

/// The text of a `std::sync::PoisonError`, as its `Display` writes it.
#[verifier::external_body]
fn poison_text(
    e: &std::sync::PoisonError<std::sync::MutexGuard<'_, rusqlite::Connection>>,
) -> (s: String) {
    e.to_string()
}

/// The connection behind a held lock, through the guard's `Deref`.
#[verifier::external_body]
pub(crate) fn held<'a>(guard: &'a std::sync::MutexGuard<'_, rusqlite::Connection>) -> (c:
    &'a rusqlite::Connection) {
    guard
}

/// Owner of the one connection. Every operation of the bridge takes the lock
/// for as long as its statement runs, so no two of them overlap.
pub struct DbState {
    connection: std::sync::Mutex<rusqlite::Connection>,
}

impl DbState {
    /// Takes ownership of `connection` for good.
    pub fn new(connection: rusqlite::Connection) -> (state: DbState) {
        DbState { connection: shared(connection) }
    }

    /// Waits for the lock and takes it. The lock is given back when the
    /// handle goes out of scope, on every path. A lock whose earlier holder
    /// ended abnormally is reported and not handed out.
    pub(crate) fn acquire(&self) -> (r: Result<
        std::sync::MutexGuard<'_, rusqlite::Connection>,
        BridgeError,
    >)
        ensures
            r matches Err(e) ==> e is LockFailure,
    {
        match lock(&self.connection) {
            Ok(guard) => Ok(guard),
            Err(poisoned) => Err(BridgeError::LockFailure(poison_text(&poisoned))),
        }
    }
}

} // verus!
