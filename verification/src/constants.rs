//! Sizes and defaults used across the crate.

use vstd::prelude::*;

verus! {

/// Bytes read at once from a local file.
pub const DEFAULT_BUFFER_SIZE: usize = 8192;

/// Bytes read at once from a remote object.
pub const DEFAULT_CHUNK_SIZE: usize = 1048576;

/// Progress of an upload is shown once per this many buffers.
pub const PROGRESS_UPDATE_INTERVAL: u64 = 100;

/// Root of the local file system provider when none is configured.
pub const DEFAULT_FS_ROOT: &'static str = "./storage";

/// Size from which showing a file asks for confirmation, in bytes.
pub const CAT_CONFIRM_SIZE_THRESHOLD: u64 = 10485760;

/// Bytes in a mebibyte.
pub const MEBIBYTE: u64 = 1048576;

} // verus!
