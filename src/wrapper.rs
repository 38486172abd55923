//! Conversions to and from the host application's types, status checks, the
//! plugin description and the command registry.
pub mod command;
pub mod plugin;

use vstd::prelude::*;
use crate::error::UmbrellaError;
use crate::ffi::types::{MObject, MStatus};
use crate::paths::{decimal, decimal_string};
use crate::text::push_char;

verus! {

/// Types that can be made from a value of the host application.
pub trait FromMaya<T> {
    /// Converts from a value of the host application.
    fn from_maya(value: T) -> Result<Self, UmbrellaError> where Self: Sized;
}

/// Types that can be turned into a value of the host application.
pub trait ToMaya<T> {
    /// Converts to a value of the host application.
    fn to_maya(&self) -> Result<T, UmbrellaError>;
}

/// Objects that live in the host application.
pub trait MayaObject {
    /// Whether the object is valid.
    fn is_valid(&self) -> bool;

    /// The object's handle, if it has one.
    fn mobject(&self) -> Option<&MObject>;
}

/// The decimal notation of `code`, with a minus sign when negative.
pub open spec fn signed_decimal_of(code: i32) -> Seq<char> {
    if code < 0 {
        seq!['-'] + decimal((0 - code) as nat)
    } else {
        decimal(code as nat)
    }
}

/// The decimal notation of `code`, with a minus sign when negative.
fn signed_decimal(code: i32) -> (r: String)
    ensures
        r@ == signed_decimal_of(code),
{
    if code < 0 {
        let mut s = String::new();
        push_char(&mut s, '-');
        let magnitude: u64 = (0i64 - code as i64) as u64;
        let digits = decimal_string(magnitude);
        s.append(digits.as_str());
        s
    } else {
        decimal_string(code as u64)
    }
}

/// Success for a success status; an error of the host API otherwise.
pub fn check_status(status: MStatus) -> (r: Result<(), UmbrellaError>)
    ensures
        status.spec_code() == 0 ==> r is Ok,
        status.spec_code() != 0 ==> (r matches Err(UmbrellaError::MayaApi(m)) && m@
            == "Maya operation failed with code: "@ + signed_decimal_of(status.spec_code())),
{
    if status.is_success() {
        Ok(())
    } else {
        let mut m = "Maya operation failed with code: ".to_string();
        let digits = signed_decimal(status.code());
        m.append(digits.as_str());
        Err(UmbrellaError::MayaApi(m))
    }
}

/// Calls `f` and checks the status that it returns.
pub fn safe_maya_call<F: FnOnce() -> MStatus>(f: F) -> (r: Result<(), UmbrellaError>)
    requires
        f.requires(()),
    ensures
        exists|s: MStatus|
            f.ensures((), s) && (s.spec_code() == 0 ==> r is Ok) && (s.spec_code() != 0 ==> (
            r matches Err(e) && e is MayaApi)),
{
    let status = f();
    check_status(status)
}

/// Calls `f` and checks the status that comes with its value: the value on
/// success.
pub fn safe_maya_call_with_result<T, F: FnOnce() -> (T, MStatus)>(f: F) -> (r: Result<
    T,
    UmbrellaError,
>)
    requires
        f.requires(()),
    ensures
        exists|out: (T, MStatus)|
            f.ensures((), out) && (out.1.spec_code() == 0 ==> r == Ok::<T, UmbrellaError>(out.0))
                && (out.1.spec_code() != 0 ==> (r matches Err(e) && e is MayaApi)),
{
    let (result, status) = f();
    match check_status(status) {
        Ok(()) => Ok(result),
        Err(e) => Err(e),
    }
}

} // verus!
