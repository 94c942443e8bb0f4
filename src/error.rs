//! Errors of this crate.
use vstd::prelude::*;

verus! {

/// Declares `std::io::Error` so that an error of this crate can carry one.
#[verifier::external_type_specification]
#[verifier::external_body]
pub struct ExIoError(std::io::Error);

/// `Result` for this crate.
pub type Result<T> = core::result::Result<T, Error>;

/// `Error` for this crate.
#[derive(Debug)]
pub enum Error {
    /// Invalid `moc3` file format version.
    InvalidMocVersion(u32),
    /// The size of `moc3` data is larger than `u32::MAX`.
    MocDataTooLarge,
    /// Invalid `moc3` data.
    InvalidMocData,
    /// Failed to initialize model.
    InitializeModelError,
    /// Invalid count.
    InvalidCount(&'static str),
    /// Failed to get data.
    GetDataError(&'static str),
    /// Invalid flags: which flags, and the offending byte.
    InvalidFlags(&'static str, u8),
    /// Two slices have different lengths.
    SliceLengthNotEqual(usize, usize),
    /// Failed to read/write file.
    FileIoError(std::io::Error),
}

} // verus!
