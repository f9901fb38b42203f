//! The failure taxonomy of one invocation: every core operation returns a
//! typed error, and only the top-level caller turns one into process exit.

use vstd::prelude::*;

verus! {

/// Everything that can end an invocation early.
#[derive(Debug)]
pub enum Error {
    /// The config file is missing, unreadable or malformed.
    Config(String),
    /// The requested server name is absent from the loaded config.
    NotFound,
    /// A clause was supplied that the requested operation does not allow.
    InvalidArgument,
    /// The connect phase exceeded its time bound.
    Timeout,
    /// The execution capability reported a failure.
    Exec(String),
    /// A successful select returned zero rows.
    EmptyResult,
    /// The requested operation has no statement builder.
    Unimplemented,
}

impl Error {
    /// The diagnostic text of this error.
    pub open spec fn spec_message(&self) -> Seq<char> {
        match self {
            Error::Config(s) => "config error: "@ + s@,
            Error::NotFound => "server not found"@,
            Error::InvalidArgument => "invalid argument"@,
            Error::Timeout => "connection timed out"@,
            Error::Exec(s) => "execution error: "@ + s@,
            Error::EmptyResult => "No rows returned"@,
            Error::Unimplemented => "operation not implemented"@,
        }
    }

    /// Render the diagnostic text of this error.
    pub fn message(&self) -> (r: String)
        ensures
            r@ == self.spec_message(),
    {
        match self {
            Error::Config(s) => {
                let mut m = String::new();
                m.append("config error: ");
                m.append(s.as_str());
                proof {
                    assert(m@ =~= self.spec_message());
                }
                m
            },
            Error::NotFound => {
                let mut m = String::new();
                m.append("server not found");
                proof {
                    assert(m@ =~= self.spec_message());
                }
                m
            },
            Error::InvalidArgument => {
                let mut m = String::new();
                m.append("invalid argument");
                proof {
                    assert(m@ =~= self.spec_message());
                }
                m
            },
            Error::Timeout => {
                let mut m = String::new();
                m.append("connection timed out");
                proof {
                    assert(m@ =~= self.spec_message());
                }
                m
            },
            Error::Exec(s) => {
                let mut m = String::new();
                m.append("execution error: ");
                m.append(s.as_str());
                proof {
                    assert(m@ =~= self.spec_message());
                }
                m
            },
            Error::EmptyResult => {
                let mut m = String::new();
                m.append("No rows returned");
                proof {
                    assert(m@ =~= self.spec_message());
                }
                m
            },
            Error::Unimplemented => {
                let mut m = String::new();
                m.append("operation not implemented");
                proof {
                    assert(m@ =~= self.spec_message());
                }
                m
            },
        }
    }
}

} // verus!
