//! A byte-oriented facade over post-quantum primitives: a key-encapsulation
//! mechanism (Kyber-512) and a signature scheme (Falcon-512). Callers hand in
//! and receive plain byte buffers; the facade validates buffer lengths,
//! invokes the primitives, and maps malformed inputs to a typed error.

pub mod errors;
pub mod kem;
pub mod sig;
