use vstd::prelude::*;

verus! {

/// The failure kinds this library reports: stream/compression failures,
/// certificate or signing-key failures, and malformed inbound payloads.
#[derive(Debug)]
pub enum Error {
    IOError(String),
    InvalidCert(String),
    InvalidResponse(String),
}

impl Error {
    /// A human-readable message: the failure kind, a colon, and the detail text.
    pub fn message(&self) -> (r: String)
        ensures
            r@ == match self {
                Error::IOError(s) => "IO Error: "@ + s@,
                Error::InvalidCert(s) => "Invalid Cert: "@ + s@,
                Error::InvalidResponse(s) => "Invalid Response: "@ + s@,
            },
    {
        match self {
            Error::IOError(s) => {
                let mut m = String::from_str("IO Error: ");
                m.append(s.as_str());
                m
            },
            Error::InvalidCert(s) => {
                let mut m = String::from_str("Invalid Cert: ");
                m.append(s.as_str());
                m
            },
            Error::InvalidResponse(s) => {
                let mut m = String::from_str("Invalid Response: ");
                m.append(s.as_str());
                m
            },
        }
    }
}

} // verus!
