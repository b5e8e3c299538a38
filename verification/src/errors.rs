use vstd::prelude::*;

verus! {

/// Returned when a write does not fit in the space left at the end of a buffer.
#[derive(Copy, Clone, Debug, Eq, Hash, Ord, PartialEq, PartialOrd)]
pub struct NotEnoughSpaceError {}

/// Returned by a deframer function when its input holds a malformed frame.
#[derive(Clone, Debug, Eq, Hash, Ord, PartialEq, PartialOrd)]
pub struct MalformedInputError(String);

impl View for MalformedInputError {
    type V = Seq<char>;

    /// The message that describes what is malformed.
    closed spec fn view(&self) -> Seq<char> {
        self.0@
    }
}

impl MalformedInputError {
    /// Makes an error that carries `msg`.
    pub fn new(msg: String) -> (r: Self)
        ensures
            r@ == msg@,
    {
        Self(msg)
    }
}

#[verifier::external_type_specification]
#[verifier::external_body]
pub struct ExIoError(std::io::Error);

/// The kinds of `std::io::Error` that the buffers produce.
pub enum IoErrorKind {
    /// Stands for `std::io::ErrorKind::InvalidData`.
    InvalidData,
    /// Stands for `std::io::ErrorKind::UnexpectedEof`.
    UnexpectedEof,
    /// Stands for `std::io::ErrorKind::NotFound`.
    NotFound,
}

/// The error that `std::io::Error::new` makes from the `std::io::ErrorKind` that `kind`
/// stands for and the message `msg`: its `kind()` is that kind and its message is `msg`.
pub uninterp spec fn io_error_value(kind: IoErrorKind, msg: Seq<char>) -> std::io::Error;

/// The text that `format!("{:?}", s)` gives for a string `s`: `s` in double quotes,
/// with its characters escaped as `char::escape_debug` escapes them.
pub uninterp spec fn string_debug_text(s: Seq<char>) -> Seq<char>;

/// The debug form of a [`MalformedInputError`] whose message is `message`, as its
/// derived `Debug` writes it: the type's name, then the quoted message in parentheses.
pub open spec fn malformed_debug_text(message: Seq<char>) -> Seq<char> {
    "MalformedInputError("@ + string_debug_text(message) + ")"@
}

/// Calls `std::io::Error::new` with the `std::io::ErrorKind` that `kind` stands for and
/// the message `msg`. Claims that the error depends on `kind` and `msg` alone: the same
/// kind and message give the same error (`io_error_value`).
#[verifier::external_body]
pub(crate) fn io_error(kind: IoErrorKind, msg: &str) -> (r: std::io::Error)
    ensures
        r == io_error_value(kind, msg@),
{
    let kind = match kind {
        IoErrorKind::InvalidData => std::io::ErrorKind::InvalidData,
        IoErrorKind::UnexpectedEof => std::io::ErrorKind::UnexpectedEof,
        IoErrorKind::NotFound => std::io::ErrorKind::NotFound,
    };
    std::io::Error::new(kind, msg)
}

/// Formats `s` with std's `Debug` for strings, as `format!("{:?}", s)` does.
/// Claims that the text depends on the characters of `s` alone (`string_debug_text`).
#[verifier::external_body]
fn quoted_debug_text(s: &String) -> (r: String)
    ensures
        r@ == string_debug_text(s@),
{
    format!("{:?}", s)
}

/// The debug form of `e`, as `format!("{:?}", e)` gives it through the derived `Debug`.
fn debug_text(e: &MalformedInputError) -> (r: String)
    ensures
        r@ == malformed_debug_text(e@),
{
    let quoted = quoted_debug_text(&e.0);
    let mut text = String::from_str("MalformedInputError(");
    text.append(quoted.as_str());
    text.append(")");
    text
}

impl vstd::std_specs::convert::FromSpecImpl<NotEnoughSpaceError> for std::io::Error {
    open spec fn obeys_from_spec() -> bool {
        true
    }

    open spec fn from_spec(v: NotEnoughSpaceError) -> std::io::Error {
        io_error_value(IoErrorKind::InvalidData, "not enough space in buffer"@)
    }
}

impl std::convert::From<NotEnoughSpaceError> for std::io::Error {
    /// An `InvalidData` error.
    fn from(_e: NotEnoughSpaceError) -> (r: Self)
        ensures
            r == io_error_value(IoErrorKind::InvalidData, "not enough space in buffer"@),
    {
        io_error(IoErrorKind::InvalidData, "not enough space in buffer")
    }
}

impl vstd::std_specs::convert::FromSpecImpl<MalformedInputError> for std::io::Error {
    open spec fn obeys_from_spec() -> bool {
        true
    }

    open spec fn from_spec(v: MalformedInputError) -> std::io::Error {
        io_error_value(IoErrorKind::InvalidData, malformed_debug_text(v@))
    }
}

impl std::convert::From<MalformedInputError> for std::io::Error {
    /// An `InvalidData` error whose message is the debug form of `e`.
    fn from(e: MalformedInputError) -> (r: Self)
        ensures
            r == io_error_value(IoErrorKind::InvalidData, malformed_debug_text(e@)),
    {
        let text = debug_text(&e);
        io_error(IoErrorKind::InvalidData, text.as_str())
    }
}

} // verus!
