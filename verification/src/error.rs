//! The failures that the library reports.

use vstd::prelude::*;
use yaml_rust::ScanError;

verus! {

/// The error with which `yaml_rust` refuses a text.
#[verifier::external_type_specification]
#[verifier::external_body]
pub struct ExScanError(ScanError);

/// Why an address could not be derived.
#[derive(Clone, Copy, Debug, PartialEq, Eq)]
pub enum AddressError {
    /// The seed is longer than the ledger accepts.
    MaxSeedLengthExceeded,
    /// The seeds do not give a valid address.
    InvalidSeeds,
    /// The owner is one that the ledger reserves.
    IllegalOwner,
}

/// Why the program refused an instruction.
#[derive(Clone, Copy, Debug, PartialEq, Eq)]
pub enum ProgramError {
    /// The instruction names fewer accounts than the program reads.
    NotEnoughAccountKeys,
    /// The account of the match does not belong to the program.
    IncorrectProgramId,
    /// The instruction or the account does not hold what it should.
    BorshIoError,
    /// The move asks for a cell outside the grid.
    InvalidMove { row: usize, col: usize },
}

/// What is wrong with the configuration.
#[derive(Debug, PartialEq, Eq)]
pub enum ConfigFault {
    /// The text is not YAML.
    Syntax(ScanError),
    /// The text holds this many documents instead of one.
    DocumentCount(usize),
    /// The document has no text under this name.
    MissingField(String),
}

/// A failure of the client.
#[derive(Debug, PartialEq, Eq)]
pub enum Error {
    /// The configuration could not be found or read.
    ConfigReadError,
    /// The configuration was read and does not hold what is needed.
    InvalidConfig(ConfigFault),
    /// Bytes are not the encoding of the value that was expected.
    SerializationError,
    /// The address of the match could not be derived.
    AddressError(AddressError),
}

} // verus!
