//! Typed secrets in the platform's credential store, with a prompt for the
//! ones that are missing.
//!
//! A [`key_manager::KeyManager`] keeps one string under a `(system, key)`
//! identity; a [`struct_key_manager::StructKeyManager`] keeps a flat record
//! there, as JSON text. Both read from an optional override source first and
//! from the credential store second, and both can fall back on the user.
//!
//! The library never touches the console. A read that has to fall back
//! returns [`key_manager::Lookup::Ask`]; the caller shows what it is given,
//! reads the user's lines, and hands them back: to `request_key` for a
//! string, through an [`elicitation::Elicitation`] for a record.
//!
//! The credential store is reached through `keyring` and is not under this
//! library's control, so the contracts of the operations that reach it say
//! what holds for whichever answer the store gives. Each such operation has
//! a twin, named `.._with`, that takes the store's answer as an argument and
//! whose contract is exact. [`laws`] follows the managers over a store that
//! keeps what it is given.

pub mod codec;
pub mod elicitation;
pub mod error;
pub mod key_manager;
pub mod laws;
pub mod override_source;
pub mod record;
pub mod store;
pub mod struct_key_manager;
pub mod text;
