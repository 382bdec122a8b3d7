//! The error taxonomy: five terminal failure kinds, each carrying the
//! underlying cause text. The first three arise while generating a
//! thumbnail; the last two while persisting a buffer to a file.

use vstd::prelude::*;

verus! {

/// The five failure kinds. Every failure is terminal: it is detected at
/// its originating step and returned at once, with no retry, fallback or
/// partial result. Each variant carries the underlying cause as text.
#[derive(Debug, Clone)]
pub enum ErrorKind {
    /// The input bytes match no recognized image container signature.
    FormatDetection(String),
    /// The format was recognized but the payload is malformed, corrupt
    /// or truncated.
    Decode(String),
    /// Serializing the resampled pixel buffer to PNG failed; a zero
    /// target dimension is the one cause the generator can produce,
    /// since resampling normalizes the color model.
    Encode(String),
    /// The target file could not be created or opened for writing.
    FileCreate(String),
    /// A write to an opened file failed partway.
    Write(String),
}

impl ErrorKind {
    /// The stage label under which a failure of this kind is reported.
    pub fn label(&self) -> (r: &'static str)
        ensures
            self is FormatDetection ==> r@ == "Failed to determine image format"@,
            self is Decode ==> r@ == "Failed to decode image"@,
            self is Encode ==> r@ == "Failed to encode thumbnail"@,
            self is FileCreate ==> r@ == "Failed to create file"@,
            self is Write ==> r@ == "Failed to write to file"@,
    {
        match self {
            ErrorKind::FormatDetection(_) => "Failed to determine image format",
            ErrorKind::Decode(_) => "Failed to decode image",
            ErrorKind::Encode(_) => "Failed to encode thumbnail",
            ErrorKind::FileCreate(_) => "Failed to create file",
            ErrorKind::Write(_) => "Failed to write to file",
        }
    }

    /// The underlying cause text, as the delegated library reported it.
    pub fn cause(&self) -> (r: &str)
        ensures
            self is FormatDetection ==> r@ == self->FormatDetection_0@,
            self is Decode ==> r@ == self->Decode_0@,
            self is Encode ==> r@ == self->Encode_0@,
            self is FileCreate ==> r@ == self->FileCreate_0@,
            self is Write ==> r@ == self->Write_0@,
    {
        match self {
            ErrorKind::FormatDetection(s) => s.as_str(),
            ErrorKind::Decode(s) => s.as_str(),
            ErrorKind::Encode(s) => s.as_str(),
            ErrorKind::FileCreate(s) => s.as_str(),
            ErrorKind::Write(s) => s.as_str(),
        }
    }
}

} // verus!
