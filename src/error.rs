//! Errors of connection setup.

use vstd::prelude::*;

use crate::codec::{ascii_string, ascii_text, decimal, push_decimal};

verus! {

/// Why a connection could not be opened. Transport faults carry the
/// transport's own description.
#[derive(Debug, PartialEq, Eq)]
pub enum Error {
    InvalidUri(&'static str),
    Io(String),
    Hyper(String),
    Http(String),
    BadStatus(u16),
}

impl Error {
    /// One line describing the error.
    pub fn message(&self) -> (r: String)
        ensures
            r@ == match self {
                Error::InvalidUri(m) => "invalid uri: "@ + m@,
                Error::Io(e) => "io error: "@ + e@,
                Error::Hyper(e) => "hyper error: "@ + e@,
                Error::Http(e) => "http error: "@ + e@,
                Error::BadStatus(code) => "bad status: "@ + ascii_text(decimal(*code as nat)),
            },
    {
        match self {
            Error::InvalidUri(m) => String::from_str("invalid uri: ").concat(m),
            Error::Io(e) => String::from_str("io error: ").concat(e.as_str()),
            Error::Hyper(e) => String::from_str("hyper error: ").concat(e.as_str()),
            Error::Http(e) => String::from_str("http error: ").concat(e.as_str()),
            Error::BadStatus(code) => {
                let mut digits: Vec<u8> = Vec::new();
                push_decimal(&mut digits, *code as u64);
                proof {
                    crate::codec::lemma_decimal_digits(*code as nat);
                }
                assert(digits@ =~= decimal(*code as nat));
                let text = ascii_string(digits);
                String::from_str("bad status: ").concat(text.as_str())
            },
        }
    }
}

/// Whether the caster accepted the session: only `200 OK` opens the stream.
pub fn check_status(code: u16) -> (r: Result<(), Error>)
    ensures
        r is Ok <==> code == 200,
        code != 200 ==> r == Err::<(), Error>(Error::BadStatus(code)),
{
    if code == 200 {
        Ok(())
    } else {
        Err(Error::BadStatus(code))
    }
}

} // verus!
