use vstd::prelude::*;

verus! {

/// Errors raised by the platform core.
#[derive(Debug, Clone)]
pub enum Error {
    MessageAttributePublishError(String),
    MessageAttributeSubscribeError(String),
    InternalPointerUpgrade,
    InternalLogic(String),
    Spawn(String),
    BadSettings(String),
    SerializeFailure(String),
    DeserializeFailure(String),
    Generic(String),
    Wtf,
}

/// The message that describes an error of each kind.
pub open spec fn error_text(e: Error) -> Seq<char> {
    match e {
        Error::MessageAttributePublishError(_) => "Cannot publish to the message attribute topic"@,
        Error::MessageAttributeSubscribeError(_) => "Cannot subscribe to the message attribute topic"@,
        Error::InternalPointerUpgrade => "Internal weak pointer cannot be upgraded"@,
        Error::InternalLogic(_) => "Internal logic lead to this error"@,
        Error::Spawn(_) => "Error when trying to spawn a task"@,
        Error::BadSettings(_) => "One of the provided settings is wrong"@,
        Error::SerializeFailure(_) => "Error during serialization"@,
        Error::DeserializeFailure(_) => "Error during deserialization"@,
        Error::Generic(_) => "Error"@,
        Error::Wtf => "We just don't know what happened"@,
    }
}

impl Error {
    /// The message that describes this error, as it is displayed.
    pub fn message(&self) -> (m: &'static str)
        ensures
            m@ == error_text(*self),
    {
        match self {
            Error::MessageAttributePublishError(_) => "Cannot publish to the message attribute topic",
            Error::MessageAttributeSubscribeError(_) => "Cannot subscribe to the message attribute topic",
            Error::InternalPointerUpgrade => "Internal weak pointer cannot be upgraded",
            Error::InternalLogic(_) => "Internal logic lead to this error",
            Error::Spawn(_) => "Error when trying to spawn a task",
            Error::BadSettings(_) => "One of the provided settings is wrong",
            Error::SerializeFailure(_) => "Error during serialization",
            Error::DeserializeFailure(_) => "Error during deserialization",
            Error::Generic(_) => "Error",
            Error::Wtf => "We just don't know what happened",
        }
    }
}

} // verus!
