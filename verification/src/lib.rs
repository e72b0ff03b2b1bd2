//! Core of a collaboration protocol that multiplexes many message kinds
//! over one logical connection.
//!
//! - [`peer`]: the composite peer identity and its packed 64-bit form.
//! - [`envelope`]: the envelope model, the message-kind contracts, and
//!   the type-erased dispatch facade a generic router works on.
//! - [`registry`]: the catalog of registered message kinds, their
//!   carrier, and the request/response and entity-scope bindings.
//! - [`wire`]: plain wire value types (timestamps, nonces) with lossless
//!   conversions to their native forms.
//! - [`worktree`]: the worktree-update chunker, which splits one
//!   unbounded directory-tree delta into bounded, ordered chunks without
//!   separating repository metadata from the entries that reference it.

pub mod envelope;
pub mod peer;
pub mod registry;
pub mod wire;
pub mod worktree;
