//! Why an operation on a linear memory was refused.

use crate::units::Pages;
use vstd::prelude::*;

verus! {

/// Why an operation on a linear memory was refused.
#[derive(Debug)]
pub enum MemoryError {
    /// The mapping behind the memory was refused.
    Region(String),
    /// The memory cannot have as many pages as were asked for.
    CouldNotGrow { current: Pages, attempted_delta: Pages },
    /// The memory's description contradicts itself.
    InvalidMemory { reason: String },
    /// More minimum pages were asked for than a memory can have.
    MinimumMemoryTooLarge { min_requested: Pages, max_allowed: Pages },
    /// More maximum pages were asked for than a memory can have.
    MaximumMemoryTooLarge { max_requested: Pages, max_allowed: Pages },
    /// A shared memory is needed here and this one is not.
    MemoryNotShared,
    /// This kind of memory cannot do that.
    UnsupportedOperation { message: String },
    /// Anything else.
    Generic(String),
}

/// A [`MemoryError`] with its texts as character sequences.
pub enum ErrorModel {
    Region(Seq<char>),
    CouldNotGrow { current: Pages, attempted_delta: Pages },
    InvalidMemory { reason: Seq<char> },
    MinimumMemoryTooLarge { min_requested: Pages, max_allowed: Pages },
    MaximumMemoryTooLarge { max_requested: Pages, max_allowed: Pages },
    MemoryNotShared,
    UnsupportedOperation { message: Seq<char> },
    Generic(Seq<char>),
}

impl View for MemoryError {
    type V = ErrorModel;

    open spec fn view(&self) -> ErrorModel {
        match *self {
            MemoryError::Region(text) => ErrorModel::Region(text@),
            MemoryError::CouldNotGrow { current, attempted_delta } => ErrorModel::CouldNotGrow {
                current,
                attempted_delta,
            },
            MemoryError::InvalidMemory { reason } => ErrorModel::InvalidMemory {
                reason: reason@,
            },
            MemoryError::MinimumMemoryTooLarge { min_requested, max_allowed } =>
                ErrorModel::MinimumMemoryTooLarge { min_requested, max_allowed },
            MemoryError::MaximumMemoryTooLarge { max_requested, max_allowed } =>
                ErrorModel::MaximumMemoryTooLarge { max_requested, max_allowed },
            MemoryError::MemoryNotShared => ErrorModel::MemoryNotShared,
            MemoryError::UnsupportedOperation { message } => ErrorModel::UnsupportedOperation {
                message: message@,
            },
            MemoryError::Generic(text) => ErrorModel::Generic(text@),
        }
    }
}

/// A [`MemoryError::Generic`] with this text.
pub fn generic_error(text: &str) -> (error: MemoryError)
    ensures
        error@ == ErrorModel::Generic(text@),
{
    MemoryError::Generic(text.to_owned())
}

/// A [`MemoryError::UnsupportedOperation`] with this message.
pub fn unsupported(message: &str) -> (error: MemoryError)
    ensures
        error@ == (ErrorModel::UnsupportedOperation { message: message@ }),
{
    MemoryError::UnsupportedOperation { message: message.to_owned() }
}

/// An error is seen as what it is: of its kind, with its own sizes and its own text.
pub proof fn errors_are_seen_as_they_are(text: String, first: Pages, second: Pages)
    ensures
        MemoryError::Region(text)@ == ErrorModel::Region(text@),
        MemoryError::Generic(text)@ == ErrorModel::Generic(text@),
        MemoryError::MemoryNotShared@ == ErrorModel::MemoryNotShared,
        (MemoryError::InvalidMemory { reason: text })@ == (ErrorModel::InvalidMemory {
            reason: text@,
        }),
        (MemoryError::UnsupportedOperation { message: text })@ == (
        ErrorModel::UnsupportedOperation { message: text@ }),
        (MemoryError::CouldNotGrow { current: first, attempted_delta: second })@ == (
        ErrorModel::CouldNotGrow { current: first, attempted_delta: second }),
        (MemoryError::MinimumMemoryTooLarge { min_requested: first, max_allowed: second })@ == (
        ErrorModel::MinimumMemoryTooLarge { min_requested: first, max_allowed: second }),
        (MemoryError::MaximumMemoryTooLarge { max_requested: first, max_allowed: second })@ == (
        ErrorModel::MaximumMemoryTooLarge { max_requested: first, max_allowed: second }),
{
}

} // verus!
