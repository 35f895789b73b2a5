//! Errors raised by the library, one kind per exception class of the Python
//! module, each carrying the text shown to the user.
use vstd::prelude::*;

verus! {

/// Declaration of the error type that biscuit-auth returns from token,
/// builder and authorizer operations.
#[verifier::external_type_specification]
#[verifier::external_body]
pub struct ExTokenError(biscuit_auth::error::Token);

/// Declaration of the error type that biscuit-auth returns from key and
/// serialization operations.
#[verifier::external_type_specification]
#[verifier::external_body]
pub struct ExFormatError(biscuit_auth::error::Format);

/// The class of an error, which decides the Python exception raised for it.
#[derive(Clone, Copy, Debug, PartialEq, Eq, Structural)]
pub enum ErrorKind {
    /// `DataLogError`: invalid datalog, parameters or terms.
    DataLog,
    /// `AuthorizationError`: authorization or query failure.
    Authorization,
    /// `BiscuitBuildError`: a token or block could not be built.
    BiscuitBuild,
    /// `BiscuitValidationError`: a token or snapshot could not be read or verified.
    BiscuitValidation,
    /// `BiscuitSerializationError`: a token or snapshot could not be serialized.
    BiscuitSerialization,
    /// `BiscuitBlockError`: a block index does not designate a block.
    BiscuitBlock,
    /// `ValueError`: a key or a value handed in is invalid.
    Value,
    /// Conversion of a collection term to a Python value, which is not implemented.
    Unimplemented,
}

/// An error: its kind and its message.
#[derive(Debug)]
pub struct PyError {
    pub kind: ErrorKind,
    pub message: String,
}

/// The text a biscuit-auth token error displays.
pub uninterp spec fn token_error_message(e: biscuit_auth::error::Token) -> Seq<char>;

/// The text a biscuit-auth format error displays.
pub uninterp spec fn format_error_message(e: biscuit_auth::error::Format) -> Seq<char>;

/// An error of the given kind whose message is the text of an error that
/// biscuit-auth reported: no failure of the library's own making.
pub open spec fn reported_by_biscuit(e: PyError, k: ErrorKind) -> bool {
    &&& e.kind == k
    &&& exists|t: biscuit_auth::error::Token| #[trigger] token_error_message(t) == e.message@
}

/// Renders a biscuit-auth token error with its `Display` implementation.
#[verifier::external_body]
fn token_error_text(e: &biscuit_auth::error::Token) -> (r: String)
    ensures
        r@ == token_error_message(*e),
{
    e.to_string()
}

/// Renders a biscuit-auth format error with its `Display` implementation.
#[verifier::external_body]
fn format_error_text(e: &biscuit_auth::error::Format) -> (r: String)
    ensures
        r@ == format_error_message(*e),
{
    e.to_string()
}

impl PyError {
    /// An error of the given kind whose message is the given text.
    pub fn new(kind: ErrorKind, message: String) -> (r: PyError)
        ensures
            r.kind == kind,
            r.message@ == message@,
    {
        PyError { kind, message }
    }

    /// An error of the given kind carrying the text of a token error.
    pub fn from_token(kind: ErrorKind, e: &biscuit_auth::error::Token) -> (r: PyError)
        ensures
            r.kind == kind,
            r.message@ == token_error_message(*e),
    {
        PyError { kind, message: token_error_text(e) }
    }

    /// An error of the given kind carrying the text of a format error.
    pub fn from_format(kind: ErrorKind, e: &biscuit_auth::error::Format) -> (r: PyError)
        ensures
            r.kind == kind,
            r.message@ == format_error_message(*e),
    {
        PyError { kind, message: format_error_text(e) }
    }

    /// The error's message.
    pub fn message(&self) -> (r: String)
        ensures
            r@ == self.message@,
    {
        self.message.clone()
    }
}

} // verus!
