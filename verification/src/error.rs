//! The error type of the library.
use vstd::prelude::*;

verus! {

/// The Error type for all errors in the playdate crate.
#[derive(Debug)]
pub enum Error {
    /// A general error which is described by the contained string.
    String(String),
    /// Indicates a file or resource was not found.
    NotFoundError,
    /// Attempting to load a MIDI file was unsuccessful.
    LoadMidiFileError,
    /// A SoundChannel or SoundSource was already attached and can not be attached again.
    AlreadyAttachedError,
}

impl From<String> for Error {
    fn from(s: String) -> (r: Self) {
        Error::String(s)
    }
}

impl vstd::std_specs::convert::FromSpecImpl<String> for Error {
    open spec fn obeys_from_spec() -> bool {
        true
    }

    open spec fn from_spec(s: String) -> Error {
        Error::String(s)
    }
}

impl<'a> From<&'a str> for Error {
    /// An `Error::String` holding a copy of `s`.
    fn from(s: &'a str) -> (r: Self)
        ensures
            r matches Error::String(t) && t@ == s@,
    {
        Error::String(s.to_owned())
    }
}

impl<'a> vstd::std_specs::convert::FromSpecImpl<&'a str> for Error {
    /// A `String` is not made from a `str` in specifications, so the result is stated by the
    /// `ensures` of `from` itself, over the text it holds.
    open spec fn obeys_from_spec() -> bool {
        false
    }

    open spec fn from_spec(s: &'a str) -> Error {
        vstd::pervasive::arbitrary()
    }
}

impl<'a> From<&'a mut str> for Error {
    /// An `Error::String` holding a copy of `s`.
    fn from(s: &'a mut str) -> (r: Self)
        ensures
            r matches Error::String(t) && t@ == old(s)@,
            final(s)@ == old(s)@,
    {
        Error::String((&*s).to_owned())
    }
}

impl<'a> vstd::std_specs::convert::FromSpecImpl<&'a mut str> for Error {
    /// A `String` is not made from a `str` in specifications, so the result is stated by the
    /// `ensures` of `from` itself, over the text it holds.
    open spec fn obeys_from_spec() -> bool {
        false
    }

    open spec fn from_spec(s: &'a mut str) -> Error {
        vstd::pervasive::arbitrary()
    }
}

/// The text that `{:?}` gives for a string: the string between double quotes, with quotes,
/// backslashes and the characters that are not printable escaped.
pub uninterp spec fn debug_quoted(s: Seq<char>) -> Seq<char>;

/// `format!("{:?}", s)`: std's `Debug` text of a `str`, which depends on the string alone and is
/// named `debug_quoted` of its characters.
#[verifier::external_body]
fn quote_for_debug(s: &str) -> (r: String)
    ensures
        r@ == debug_quoted(s@),
{
    format!("{:?}", s)
}

impl Error {
    /// The text of the error for debugging output.
    pub fn to_debug_string(&self) -> (r: String)
        ensures
            r@ == match self {
                Error::NotFoundError => "Error(NotFoundError)"@,
                Error::AlreadyAttachedError => "Error(AlreadyAttachedError)"@,
                Error::LoadMidiFileError => "Error(LoadMidiFileError"@,
                Error::String(e) => "Error(String("@ + debug_quoted(e@) + "))"@,
            },
    {
        match self {
            Error::NotFoundError => "Error(NotFoundError)".to_owned(),
            Error::AlreadyAttachedError => "Error(AlreadyAttachedError)".to_owned(),
            Error::LoadMidiFileError => "Error(LoadMidiFileError".to_owned(),
            Error::String(e) => {
                let quoted = quote_for_debug(e.as_str());
                let mut r = "Error(String(".to_owned();
                r.append(quoted.as_str());
                r.append("))");
                r
            },
        }
    }

    /// The text that describes the error to a person.
    pub fn to_display_string(&self) -> (r: String)
        ensures
            r@ == match self {
                Error::NotFoundError => "not found"@,
                Error::AlreadyAttachedError => "already attached"@,
                Error::LoadMidiFileError => "MIDI file failed to load"@,
                Error::String(e) => e@,
            },
    {
        match self {
            Error::NotFoundError => "not found".to_owned(),
            Error::AlreadyAttachedError => "already attached".to_owned(),
            Error::LoadMidiFileError => "MIDI file failed to load".to_owned(),
            Error::String(e) => e.clone(),
        }
    }
}

} // verus!
