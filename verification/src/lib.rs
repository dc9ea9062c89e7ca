//! Squidward: a payment system that applies deposits, withdrawals and the
//! dispute lifecycle (dispute, resolve, chargeback) to client accounts.
pub mod payment_system;
