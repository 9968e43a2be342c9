//! What a failed call is answered with, and the failures of the core library that
//! such answers are made from.

use vstd::prelude::*;

verus! {

/// The status codes of gRPC; `Success` is its `OK`.
#[derive(Clone, Copy, Debug, PartialEq, Eq, Structural)]
pub enum Code {
    Success,
    Cancelled,
    Unknown,
    InvalidArgument,
    DeadlineExceeded,
    NotFound,
    AlreadyExists,
    PermissionDenied,
    ResourceExhausted,
    FailedPrecondition,
    Aborted,
    OutOfRange,
    Unimplemented,
    Internal,
    Unavailable,
    DataLoss,
    Unauthenticated,
}

/// An answer to a failed call. One that another service gave carries that service's
/// details and metadata; one that is made here has none.
#[derive(Debug)]
pub struct Status {
    pub code: Code,
    pub message: String,
    pub details: Vec<u8>,
    pub metadata: Vec<(String, Vec<u8>)>,
}

impl Status {
    /// A status that is made here, with a code and a message.
    pub open spec fn says(self, code: Code, message: Seq<char>) -> bool {
        &&& self.code == code
        &&& self.message@ == message
        &&& self.details@.len() == 0
        &&& self.metadata@.len() == 0
    }

    /// Makes a status with a code and a message.
    pub fn new(code: Code, message: String) -> (r: Status)
        ensures
            r.says(code, message@),
            r.message == message,
    {
        Status { code, message, details: Vec::new(), metadata: Vec::new() }
    }

    /// Makes a status with a code and a fixed message.
    pub fn with(code: Code, message: &str) -> (r: Status)
        ensures
            r.says(code, message@),
    {
        Status::new(code, message.to_owned())
    }
}

/// What went wrong with a bottle.
#[derive(Clone, Copy, Debug, PartialEq, Eq, Structural)]
pub enum BottleError {
    NotFound,
    Deleted,
    ProgramNotFound,
    ComponentNotInstalled,
    RequiresAddon,
    InvalidProgram,
    InvalidEnvironmentName,
    InvalidEnvironmentValue,
    InvalidDllName,
    DllOverrideModeRequired,
    InvalidComponentSlot,
    IdMismatch,
    Other,
}

/// What went wrong with a profile.
#[derive(Clone, Copy, Debug, PartialEq, Eq, Structural)]
pub enum ProfileError {
    NotFound,
    SteamAccountAlreadyLinked,
    Other,
}

/// What went wrong with an addon.
#[derive(Clone, Copy, Debug, PartialEq, Eq, Structural)]
pub enum AddonError {
    NotFound,
    Other,
}

/// The kind of a failure of the core library. A failed call to another service is
/// kept as the status that it gave.
#[derive(Debug)]
pub enum ErrorKind {
    Status(Status),
    Bottle(BottleError),
    Profile(ProfileError),
    Addon(AddonError),
    Cancelled,
    Other,
}

/// A failure of the core library, with the message that describes it.
#[derive(Debug)]
pub struct CoreError {
    pub kind: ErrorKind,
    pub message: String,
}

impl CoreError {
    /// The answer to this failure is `answer` where it is the status of another
    /// service itself, or else one with `code` and the failure's message.
    pub open spec fn answered(self, code: Code, answer: Status) -> bool {
        match self.kind {
            ErrorKind::Status(status) => answer == status,
            _ => answer.says(code, self.message@),
        }
    }

    /// Answers this failure: with the status of another service, or with `code`.
    pub fn answer(self, code: Code) -> (r: Status)
        ensures
            self.answered(code, r),
    {
        match self.kind {
            ErrorKind::Status(status) => status,
            _ => Status::new(code, self.message),
        }
    }
}

/// A status that is made here has the code and the characters that it is made with, and
/// nothing of another service's.
pub proof fn made_status_is_plain(status: Status, code: Code, message: Seq<char>)
    requires
        status.says(code, message),
    ensures
        status.code == code,
        status.message@ == message,
        status.details@.len() == 0,
        status.metadata@.len() == 0,
{
}

/// The status of another service is passed on whole; any other failure is answered with
/// the code that is given for it and its own words, and carries nothing else.
pub proof fn failure_is_answered_in_its_own_words(err: CoreError, code: Code, answer: Status)
    requires
        err.answered(code, answer),
    ensures
        err.kind matches ErrorKind::Status(status) ==> answer == status,
        !(err.kind is Status) ==> answer.code == code && answer.message@ == err.message@
            && answer.details@.len() == 0 && answer.metadata@.len() == 0,
{
}

/// A status is made with the code and the words that are handed in, and a failure is
/// answered with the status of another service or with its own words.
pub proof fn statuses_are_made_as_asked(
    code: Code,
    message: String,
    made: Status,
    words: &str,
    fixed: Status,
    err: CoreError,
    answer: Status,
)
    requires
        call_ensures(Status::new, (code, message), made),
        call_ensures(Status::with, (code, words), fixed),
        call_ensures(CoreError::answer, (err, code), answer),
    ensures
        made.code == code && made.message@ == message@ && made.details@.len() == 0
            && made.metadata@.len() == 0,
        fixed.code == code && fixed.message@ == words@ && fixed.details@.len() == 0
            && fixed.metadata@.len() == 0,
        err.kind matches ErrorKind::Status(own) ==> answer == own,
        !(err.kind is Status) ==> answer.code == code && answer.message@ == err.message@,
{
}

} // verus!
