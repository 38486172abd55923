//! Status codes, strings and object handles of the host application.
use vstd::prelude::*;
use vstd::utf8::encode_utf8;
use crate::error::UmbrellaError;
use crate::wrapper::check_status;

verus! {

/// A status code: zero is success, anything else an error.
#[derive(Debug, Clone, Copy, PartialEq, Eq, Structural)]
pub struct MStatus {
    pub(crate) code: i32,
}

impl MStatus {
    /// The status's code.
    pub closed spec fn spec_code(&self) -> i32 {
        self.code
    }

    /// The success status.
    pub fn success() -> (r: Self)
        ensures
            r.spec_code() == 0,
    {
        MStatus { code: 0 }
    }

    /// A status with the given code.
    pub fn error(code: i32) -> (r: Self)
        ensures
            r.spec_code() == code,
    {
        MStatus { code }
    }

    /// Whether the status is success.
    pub fn is_success(&self) -> (r: bool)
        ensures
            r == (self.spec_code() == 0),
    {
        self.code == 0
    }

    /// Whether the status is an error.
    pub fn is_error(&self) -> (r: bool)
        ensures
            r == (self.spec_code() != 0),
    {
        self.code != 0
    }

    /// The status's code.
    pub fn code(&self) -> (r: i32)
        ensures
            r == self.spec_code(),
    {
        self.code
    }
}

impl Default for MStatus {
    /// The success status.
    fn default() -> (r: Self)
        ensures
            r.spec_code() == 0,
    {
        MStatus::success()
    }
}

impl From<MStatus> for Result<(), UmbrellaError> {
    /// Success for a success status; an error of the host API otherwise.
    fn from(status: MStatus) -> (r: Self) {
        check_status(status)
    }
}

impl vstd::std_specs::convert::FromSpecImpl<MStatus> for Result<(), UmbrellaError> {
    open spec fn obeys_from_spec() -> bool {
        false
    }

    open spec fn from_spec(v: MStatus) -> Self {
        arbitrary()
    }
}

/// A string of the host application.
#[derive(Debug, Clone)]
pub struct MString {
    data: String,
}

impl View for MString {
    type V = Seq<char>;

    closed spec fn view(&self) -> Seq<char> {
        self.data@
    }
}

impl MString {
    /// A string holding `s`.
    pub fn new(s: &str) -> (r: Self)
        ensures
            r@ == s@,
    {
        MString { data: s.to_string() }
    }

    /// The empty string.
    pub fn empty() -> (r: Self)
        ensures
            r@.len() == 0,
    {
        MString { data: String::new() }
    }

    /// The text.
    pub fn as_str(&self) -> (r: &str)
        ensures
            r@ == self@,
    {
        self.data.as_str()
    }

    /// A copy of the text.
    pub fn to_string(&self) -> (r: String)
        ensures
            r@ == self@,
    {
        self.data.clone()
    }

    /// The length of the text in bytes of UTF-8.
    pub fn len(&self) -> (r: usize)
        ensures
            r == encode_utf8(self@).len() as usize,
    {
        self.data.as_str().len()
    }

    /// Whether the text is empty.
    pub fn is_empty(&self) -> (r: bool)
        ensures
            r == (self@.len() == 0),
    {
        self.data.as_str().is_empty()
    }
}

impl Default for MString {
    /// The empty string.
    fn default() -> (r: Self)
        ensures
            r@.len() == 0,
    {
        MString::empty()
    }
}

impl From<&str> for MString {
    fn from(s: &str) -> (r: Self) {
        MString::new(s)
    }
}

impl vstd::std_specs::convert::FromSpecImpl<&str> for MString {
    open spec fn obeys_from_spec() -> bool {
        false
    }

    open spec fn from_spec(v: &str) -> Self {
        arbitrary()
    }
}

/// A handle on an object of the host application. Without the host
/// application every handle is null.
#[derive(Debug)]
pub struct MObject {
    placeholder: (),
}

impl MObject {
    /// The null handle.
    pub fn null() -> (r: Self) {
        MObject { placeholder: () }
    }

    /// Whether the handle is null; without the host application it always is.
    pub fn is_null(&self) -> (r: bool)
        ensures
            r,
    {
        true
    }
}

impl Default for MObject {
    /// The null handle.
    fn default() -> (r: Self) {
        MObject::null()
    }
}

} // verus!
