//! The error taxonomy: each variant labels a domain and carries a
//! descriptive message.

use vstd::prelude::*;
use vstd::string::StringExecFns;

verus! {

/// An error of the library or of one of its collaborators. Outside
/// failures (I/O, serialization) are carried as their messages.
#[derive(Debug, Clone)]
pub enum VxError {
    Io(String),
    Project(String),
    Timeline(String),
    Media(String),
    Effect(String),
    InvalidParameter(String),
    NotFound(String),
    Serialization(String),
    Unknown(String),
}

impl VxError {
    /// The label each variant puts before its detail.
    pub open spec fn spec_prefix(&self) -> Seq<char> {
        match self {
            VxError::Io(_) => "IO error: "@,
            VxError::Project(_) => "Project error: "@,
            VxError::Timeline(_) => "Timeline error: "@,
            VxError::Media(_) => "Media error: "@,
            VxError::Effect(_) => "Effect error: "@,
            VxError::InvalidParameter(_) => "Invalid parameter: "@,
            VxError::NotFound(_) => "Not found: "@,
            VxError::Serialization(_) => "Serialization error: "@,
            VxError::Unknown(_) => "Unknown error: "@,
        }
    }

    /// The detail the error carries.
    pub open spec fn spec_detail(&self) -> Seq<char> {
        match self {
            VxError::Io(s) => s@,
            VxError::Project(s) => s@,
            VxError::Timeline(s) => s@,
            VxError::Media(s) => s@,
            VxError::Effect(s) => s@,
            VxError::InvalidParameter(s) => s@,
            VxError::NotFound(s) => s@,
            VxError::Serialization(s) => s@,
            VxError::Unknown(s) => s@,
        }
    }

    /// The display message: the variant's label followed by its detail.
    pub fn message(&self) -> (r: String)
        ensures
            r@ == self.spec_prefix() + self.spec_detail(),
    {
        let (prefix, detail): (&str, &String) = match self {
            VxError::Io(s) => ("IO error: ", s),
            VxError::Project(s) => ("Project error: ", s),
            VxError::Timeline(s) => ("Timeline error: ", s),
            VxError::Media(s) => ("Media error: ", s),
            VxError::Effect(s) => ("Effect error: ", s),
            VxError::InvalidParameter(s) => ("Invalid parameter: ", s),
            VxError::NotFound(s) => ("Not found: ", s),
            VxError::Serialization(s) => ("Serialization error: ", s),
            VxError::Unknown(s) => ("Unknown error: ", s),
        };
        let mut out = prefix.to_owned();
        out.append(detail.as_str());
        out
    }
}

} // verus!
