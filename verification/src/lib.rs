//! Reference-counted handles over the identifiers of a native resource library.
//!
//! The native library hands out small integers that name its objects, counts the
//! references to each of them itself, and may release an identifier and reuse its
//! number at any time. This crate holds the bookkeeping that makes such identifiers
//! safe to share: how an identifier is classified, the registry of shared cells that
//! the handles read their identifier from, and what a handle asks of the library when
//! it is created, cloned and released.
//!
//! The crate never calls the native library. Each answer of the library is a C `int`;
//! an operation that needs one answer takes it as a parameter, and an operation that
//! has the library change something returns the [`NativeCall`] to make. An operation
//! that needs answers on both sides of such a call is resumable: it is called with a
//! stage and the last answer, and returns either the next call together with the stage
//! to come back at, or its result (see [`Step`]). The caller performs the calls, under
//! whatever lock serialises its access to the native library.

#![allow(unused_imports)]

pub mod error;
pub mod from_id;
pub mod handle;
pub mod ident;
pub mod laws;
pub mod native;
pub mod registry;

pub use error::Error;
pub use from_id::{FromID, FromIdStage};
pub use handle::{CloneStage, DecrefStage, Handle};
pub use ident::{get_id_type, is_valid_id, is_valid_user_id, IdType, H5I_INVALID_HID};
pub use native::{NativeCall, Step};
pub use registry::{Registry, RegistryView};
