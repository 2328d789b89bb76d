//! What can go wrong when two peers try to reach each other.
use vstd::prelude::*;
use vstd::string::StringExecFns;

verus! {

/// Declares the input and output error of the standard library as an opaque type.
#[verifier::external_type_specification]
#[verifier::external_body]
pub struct ExIoError(std::io::Error);

/// Declares the error kinds of bincode as an opaque type.
#[verifier::external_type_specification]
#[verifier::external_body]
pub struct ExBincodeErrorKind(bincode::ErrorKind);

/// Why an operation of a peer or of the server failed.
#[derive(Debug)]
pub enum HolePunchError {
    /// A socket could not be used.
    Io(std::io::Error),
    /// A message could not be encoded or decoded.
    Serialization(bincode::Error),
    /// The server answered with an error message.
    Server(String),
    /// The server knows no peer with this identifier.
    PeerNotFound(String),
    /// Nothing came in time.
    Timeout,
    /// The server did not answer.
    NoResponse,
    /// No packet of the peer came through.
    PunchFailed,
    /// A socket could not be set up.
    Socket(String),
}

impl From<std::io::Error> for HolePunchError {
    fn from(error: std::io::Error) -> (e: Self) {
        HolePunchError::Io(error)
    }
}

impl vstd::std_specs::convert::FromSpecImpl<std::io::Error> for HolePunchError {
    open spec fn obeys_from_spec() -> bool {
        true
    }

    open spec fn from_spec(error: std::io::Error) -> Self {
        HolePunchError::Io(error)
    }
}

impl From<bincode::Error> for HolePunchError {
    fn from(error: bincode::Error) -> (e: Self) {
        HolePunchError::Serialization(error)
    }
}

impl vstd::std_specs::convert::FromSpecImpl<bincode::Error> for HolePunchError {
    open spec fn obeys_from_spec() -> bool {
        true
    }

    open spec fn from_spec(error: bincode::Error) -> Self {
        HolePunchError::Serialization(error)
    }
}

/// Calls `to_string` on an input or output error. Nothing is claimed of the
/// text: for an error of the operating system it comes from that system.
#[verifier::external_body]
fn io_error_text(error: &std::io::Error) -> (text: String) {
    error.to_string()
}

/// Calls `to_string` on a bincode error. Nothing is claimed of the text: the
/// error is opaque, and may hold an input or output error.
#[verifier::external_body]
fn bincode_error_text(error: &bincode::ErrorKind) -> (text: String) {
    error.to_string()
}

/// A text with another one in front of it.
fn prefixed(prefix: &str, detail: &str) -> (text: String)
    ensures
        text@ == prefix@ + detail@,
{
    let mut text = prefix.to_owned();
    text.append(detail);
    text
}

/// The text for an input or output error that describes itself by `detail`.
pub fn io_message(detail: &str) -> (text: String)
    ensures
        text@ == "IO error: "@ + detail@,
{
    prefixed("IO error: ", detail)
}

/// The text for an encoding error that describes itself by `detail`.
pub fn serialization_message(detail: &str) -> (text: String)
    ensures
        text@ == "Serialization error: "@ + detail@,
{
    prefixed("Serialization error: ", detail)
}

impl HolePunchError {
    /// Whether `text` is how this error is put into words. An error that wraps
    /// one from elsewhere ends in the words of that one.
    pub open spec fn reads(self, text: Seq<char>) -> bool {
        match self {
            HolePunchError::Io(_) => "IO error: "@.is_prefix_of(text),
            HolePunchError::Serialization(_) => "Serialization error: "@.is_prefix_of(
                text,
            ),
            HolePunchError::Server(message) => text == "Server error: "@ + message@,
            HolePunchError::PeerNotFound(peer_id) => text == "Peer '"@ + peer_id@
                + "' not found on server"@,
            HolePunchError::Timeout => text == "Timed out waiting for response"@,
            HolePunchError::NoResponse => text == "No response from server"@,
            HolePunchError::PunchFailed => text
                == "Hole punch failed — could not establish direct connection"@,
            HolePunchError::Socket(message) => text == "Socket error: "@ + message@,
        }
    }

    /// Puts the error into words.
    pub fn to_string(&self) -> (text: String)
        ensures
            self.reads(text@),
    {
        match self {
            HolePunchError::Io(error) => io_message(io_error_text(error).as_str()),
            HolePunchError::Serialization(error) => serialization_message(
                bincode_error_text(error).as_str(),
            ),
            HolePunchError::Server(message) => prefixed("Server error: ", message.as_str()),
            HolePunchError::PeerNotFound(peer_id) => {
                let mut text = prefixed("Peer '", peer_id.as_str());
                text.append("' not found on server");
                text
            },
            HolePunchError::Timeout => "Timed out waiting for response".to_owned(),
            HolePunchError::NoResponse => "No response from server".to_owned(),
            HolePunchError::PunchFailed =>
                "Hole punch failed — could not establish direct connection".to_owned(),
            HolePunchError::Socket(message) => prefixed("Socket error: ", message.as_str()),
        }
    }
}

/// What each error is put into: its own words, around the text that it carries.
pub proof fn law_words_of_errors(
    text: Seq<char>,
    carried: String,
    io: std::io::Error,
    encoding: bincode::Error,
)
    ensures
        HolePunchError::Io(io).reads(text) ==> text.len() >= "IO error: "@.len() && text.take(
            "IO error: "@.len() as int,
        ) == "IO error: "@,
        HolePunchError::Serialization(encoding).reads(text) ==> text.len()
            >= "Serialization error: "@.len() && text.take("Serialization error: "@.len() as int)
            == "Serialization error: "@,
        HolePunchError::Server(carried).reads(text) <==> text == "Server error: "@ + carried@,
        HolePunchError::PeerNotFound(carried).reads(text) <==> text == "Peer '"@ + carried@
            + "' not found on server"@,
        HolePunchError::Timeout.reads(text) <==> text == "Timed out waiting for response"@,
        HolePunchError::NoResponse.reads(text) <==> text == "No response from server"@,
        HolePunchError::PunchFailed.reads(text) <==> text
            == "Hole punch failed — could not establish direct connection"@,
        HolePunchError::Socket(carried).reads(text) <==> text == "Socket error: "@ + carried@,
{
}

} // verus!
