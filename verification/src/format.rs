//! The closed set of clipboard formats that can be captured.

use vstd::prelude::*;

verus! {

/// Numeric clipboard code of ANSI text.
pub const CODE_ANSI_TEXT: u32 = 1;

/// Numeric clipboard code of a device-independent bitmap.
pub const CODE_BITMAP: u32 = 8;

/// Numeric clipboard code of UTF-16 text.
pub const CODE_UNICODE_TEXT: u32 = 13;

/// Format tag of a captured payload.
#[derive(Clone, Copy, Debug, PartialEq, Eq, Structural)]
pub enum Format {
    UnicodeText,
    AnsiText,
    Bitmap,
}

impl Format {
    /// The numeric code under which the operating system knows the format.
    pub open spec fn spec_code(self) -> u32 {
        match self {
            Format::UnicodeText => CODE_UNICODE_TEXT,
            Format::AnsiText => CODE_ANSI_TEXT,
            Format::Bitmap => CODE_BITMAP,
        }
    }

    /// The format that a numeric code stands for, if it is a supported one.
    pub open spec fn spec_from_code(code: u32) -> Option<Format> {
        if code == CODE_UNICODE_TEXT {
            Some(Format::UnicodeText)
        } else if code == CODE_ANSI_TEXT {
            Some(Format::AnsiText)
        } else if code == CODE_BITMAP {
            Some(Format::Bitmap)
        } else {
            None
        }
    }

    /// Whether the payload of this format is text.
    pub open spec fn spec_is_text(self) -> bool {
        self != Format::Bitmap
    }

    #[verifier::when_used_as_spec(spec_code)]
    pub fn code(self) -> (c: u32)
        ensures
            c == self.spec_code(),
    {
        match self {
            Format::UnicodeText => CODE_UNICODE_TEXT,
            Format::AnsiText => CODE_ANSI_TEXT,
            Format::Bitmap => CODE_BITMAP,
        }
    }

    pub fn from_code(code: u32) -> (f: Option<Format>)
        ensures
            f == Format::spec_from_code(code),
    {
        if code == CODE_UNICODE_TEXT {
            Some(Format::UnicodeText)
        } else if code == CODE_ANSI_TEXT {
            Some(Format::AnsiText)
        } else if code == CODE_BITMAP {
            Some(Format::Bitmap)
        } else {
            None
        }
    }

    #[verifier::when_used_as_spec(spec_is_text)]
    pub fn is_text(self) -> (t: bool)
        ensures
            t == self.spec_is_text(),
    {
        match self {
            Format::UnicodeText => true,
            Format::AnsiText => true,
            Format::Bitmap => false,
        }
    }
}

/// The supported formats in the order in which they are preferred when the
/// clipboard offers several at once.
pub open spec fn priority_order() -> Seq<Format> {
    seq![Format::UnicodeText, Format::AnsiText, Format::Bitmap]
}

/// The numeric codes of the supported formats, most preferred first.
pub fn supported_codes() -> (codes: [u32; 3])
    ensures
        codes@ == priority_order().map_values(|f: Format| f.spec_code()),
{
    let codes: [u32; 3] = [CODE_UNICODE_TEXT, CODE_ANSI_TEXT, CODE_BITMAP];
    assert(codes@ =~= priority_order().map_values(|f: Format| f.spec_code()));
    codes
}

/// A format is found again from its own code, and no two formats share one.
pub proof fn lemma_code_round_trip(f: Format)
    ensures
        Format::spec_from_code(f.spec_code()) == Some(f),
{
}

/// A code that names a format is the code of that format.
pub proof fn lemma_from_code_is_inverse(code: u32)
    ensures
        Format::spec_from_code(code) matches Some(f) ==> f.spec_code() == code,
{
}

} // verus!
