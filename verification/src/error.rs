//! Why a batch download ends early.

use crate::address::AddressError;
use crate::table::TableKind;
use vstd::prelude::*;

verus! {

/// A failure that ends the whole run.
#[derive(Debug, Clone, Copy, PartialEq, Eq, Structural)]
pub enum DownloadError {
    /// The directory for the tables of this kind could not be created.
    DirectoryCreation(TableKind),
    /// The address at `position` of the list, counted from 0, is malformed.
    MalformedAddress { position: usize, reason: AddressError },
    /// The event handed in is none that the run was waiting for.
    UnexpectedEvent,
}

} // verus!
