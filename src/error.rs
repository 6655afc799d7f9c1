use vstd::prelude::*;
use vstd::string::StringExecFns;

verus! {

#[verifier::external_type_specification]
pub struct ExRecvError(flume::RecvError);

#[verifier::external_type_specification]
pub struct ExTryRecvError(flume::TryRecvError);

#[verifier::external_type_specification]
#[verifier::external_body]
#[verifier::reject_recursive_types(T)]
pub struct ExSendError<T>(flume::SendError<T>);

#[verifier::external_type_specification]
#[verifier::external_body]
pub struct ExIoError(std::io::Error);

#[verifier::external_type_specification]
#[verifier::external_body]
pub struct ExZError(zenoh_util::core::ZError);

#[verifier::external_type_specification]
#[verifier::external_body]
pub struct ExLoadingError(libloading::Error);

/// The single error vocabulary of the core.
#[derive(Debug, PartialEq)]
pub enum ZFError {
    GenericError,
    SerializationError,
    DeseralizationError,
    MissingState,
    InvalidState,
    Unimplemented,
    Empty,
    MissingConfiguration,
    VersionMismatch,
    Disconnected,
    Uncompleted(String),
    PortTypeNotMatching((String, String)),
    OperatorNotFound(String),
    PortNotFound((String, String)),
    RecvError(flume::RecvError),
    SendError(String),
    MissingInput(String),
    MissingOutput(String),
    InvalidData(String),
    IOError(String),
    ZenohError(String),
    LoadingError(String),
    ParsingError(String),
}

pub type ZFResult<T> = Result<T, ZFError>;

/// Relies on the `Debug` impl of flume::SendError, which writes the fixed
/// text `SendError(..)` through `str`'s `Debug`, quotes included, whatever
/// the message.
#[verifier::external_body]
fn send_error_text<T>(err: &flume::SendError<T>) -> (r: String)
    ensures
        r@ == "\"SendError(..)\""@,
{
    format!("{:?}", err)
}

/// Relies on the `Display` impl of std::io::Error for a readable description.
#[verifier::external_body]
fn io_error_text(err: &std::io::Error) -> (r: String) {
    format!("{}", err)
}

/// Relies on the `Display` impl of zenoh_util::core::ZError for a readable description.
#[verifier::external_body]
fn zenoh_error_text(err: &zenoh_util::core::ZError) -> (r: String) {
    format!("{}", err)
}

/// Relies on the `Display` impl of libloading::Error for a readable description.
#[verifier::external_body]
fn loading_error_text(err: &libloading::Error) -> (r: String) {
    format!("{}", err)
}

impl From<flume::RecvError> for ZFError {
    fn from(err: flume::RecvError) -> (r: ZFError) {
        ZFError::RecvError(err)
    }
}

impl vstd::std_specs::convert::FromSpecImpl<flume::RecvError> for ZFError {
    open spec fn obeys_from_spec() -> bool {
        true
    }

    open spec fn from_spec(err: flume::RecvError) -> ZFError {
        ZFError::RecvError(err)
    }
}

impl From<flume::TryRecvError> for ZFError {
    fn from(err: flume::TryRecvError) -> (r: ZFError) {
        match err {
            flume::TryRecvError::Disconnected => ZFError::Disconnected,
            flume::TryRecvError::Empty => ZFError::Empty,
        }
    }
}

impl vstd::std_specs::convert::FromSpecImpl<flume::TryRecvError> for ZFError {
    open spec fn obeys_from_spec() -> bool {
        true
    }

    open spec fn from_spec(err: flume::TryRecvError) -> ZFError {
        match err {
            flume::TryRecvError::Disconnected => ZFError::Disconnected,
            flume::TryRecvError::Empty => ZFError::Empty,
        }
    }
}

impl<T> From<flume::SendError<T>> for ZFError {
    fn from(err: flume::SendError<T>) -> (r: ZFError)
        ensures
            r is SendError && r->SendError_0@ == "\"SendError(..)\""@,
    {
        ZFError::SendError(send_error_text(&err))
    }
}

impl<T> vstd::std_specs::convert::FromSpecImpl<flume::SendError<T>> for ZFError {
    open spec fn obeys_from_spec() -> bool {
        false
    }

    open spec fn from_spec(err: flume::SendError<T>) -> ZFError {
        arbitrary()
    }
}

impl From<std::io::Error> for ZFError {
    fn from(err: std::io::Error) -> (r: ZFError)
        ensures
            r is IOError,
    {
        ZFError::IOError(io_error_text(&err))
    }
}

impl vstd::std_specs::convert::FromSpecImpl<std::io::Error> for ZFError {
    open spec fn obeys_from_spec() -> bool {
        false
    }

    open spec fn from_spec(err: std::io::Error) -> ZFError {
        arbitrary()
    }
}

impl From<zenoh_util::core::ZError> for ZFError {
    fn from(err: zenoh_util::core::ZError) -> (r: ZFError)
        ensures
            r is ZenohError,
    {
        ZFError::ZenohError(zenoh_error_text(&err))
    }
}

impl vstd::std_specs::convert::FromSpecImpl<zenoh_util::core::ZError> for ZFError {
    open spec fn obeys_from_spec() -> bool {
        false
    }

    open spec fn from_spec(err: zenoh_util::core::ZError) -> ZFError {
        arbitrary()
    }
}

impl From<libloading::Error> for ZFError {
    fn from(err: libloading::Error) -> (r: ZFError)
        ensures
            r is LoadingError && r->LoadingError_0@.len() >= loading_prefix().len()
                && r->LoadingError_0@.subrange(0, loading_prefix().len() as int) == loading_prefix(),
    {
        let text = loading_error_text(&err);
        let message = "Error when loading the library: ".to_string().concat(text.as_str());
        ZFError::LoadingError(message)
    }
}

impl vstd::std_specs::convert::FromSpecImpl<libloading::Error> for ZFError {
    open spec fn obeys_from_spec() -> bool {
        false
    }

    open spec fn from_spec(err: libloading::Error) -> ZFError {
        arbitrary()
    }
}

/// The start of the description of a failure to load a unit's library.
pub open spec fn loading_prefix() -> Seq<char> {
    "Error when loading the library: "@
}

} // verus!
