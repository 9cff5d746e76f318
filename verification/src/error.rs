use vstd::prelude::*;
use vstd::string::StringExecFns;

verus! {

/// Failure taxonomy shared by every event source. Each failure is classified
/// by origin — network or filesystem — and carries a free-text diagnostic
/// message; there are no error codes and no retry metadata.
#[derive(Debug)]
pub enum AsyncListenerError {
    NetworkError(String),
    FileSystemError(String),
}

impl AsyncListenerError {
    /// The diagnostic text, whatever the classification.
    pub open spec fn spec_message(&self) -> Seq<char> {
        match self {
            AsyncListenerError::NetworkError(m) => m@,
            AsyncListenerError::FileSystemError(m) => m@,
        }
    }

    /// Classify a failure the sources detect on a socket path.
    pub fn network_error(msg: &str) -> (r: Self)
        ensures
            r is NetworkError,
            r.spec_message() == msg@,
    {
        AsyncListenerError::NetworkError(msg.to_owned())
    }

    /// Classify a failure the sources detect on a filesystem path.
    pub fn file_system_error(msg: &str) -> (r: Self)
        ensures
            r is FileSystemError,
            r.spec_message() == msg@,
    {
        AsyncListenerError::FileSystemError(msg.to_owned())
    }

    /// Borrow the diagnostic message.
    pub fn message(&self) -> (r: &String)
        ensures
            r@ == self.spec_message(),
    {
        match self {
            AsyncListenerError::NetworkError(m) => m,
            AsyncListenerError::FileSystemError(m) => m,
        }
    }

    /// Render the error as text: a prefix naming the classification,
    /// followed by the diagnostic message.
    pub fn describe(&self) -> (r: String)
        ensures
            self is NetworkError ==> r@ == "Network port error: "@ + self.spec_message(),
            self is FileSystemError ==> r@ == "File system error: "@ + self.spec_message(),
    {
        let mut s = match self {
            AsyncListenerError::NetworkError(_) => "Network port error: ".to_owned(),
            AsyncListenerError::FileSystemError(_) => "File system error: ".to_owned(),
        };
        s.append(self.message().as_str());
        s
    }
}

} // verus!
