//! What is asked of the music that a sequence is set to.

use vstd::prelude::*;

use crate::err_funcs::unsupported_file_type;
use crate::error::{Error, ErrorView};
use crate::text::{join, text_eq};

verus! {

/// The directory that holds the files of the sequence called `name`: `seq_`,
/// then the name.
pub fn sequence_directory(name: &str) -> (directory: String)
    ensures
        directory@ == "seq_"@ + name@,
{
    join("seq_", name)
}

/// Whether a music file with the extension `extension` can be played: the
/// formats are Ogg, WAV, FLAC, AIFF and raw samples, and the extension is
/// written in small letters.
pub open spec fn is_supported_extension(extension: Seq<char>) -> bool {
    ||| extension == "ogg"@
    ||| extension == "wav"@
    ||| extension == "flac"@
    ||| extension == "aiff"@
    ||| extension == "raw"@
}

/// What is said of a file whose name has no extension.
pub open spec fn no_extension_text() -> Seq<char> {
    "No file extension"@
}

/// What is said of a file whose extension is no text.
pub open spec fn not_unicode_text() -> Seq<char> {
    "Extension is not valid unicode"@
}

/// Checks that a music file is of a format that can be played, going by the
/// extension of its name. `extension` is `None` where the name has no
/// extension, and `Some(None)` where it has one that is not valid Unicode.
pub fn validate_file_type(extension: Option<Option<&str>>) -> (r: Result<(), Error>)
    ensures
        match extension {
            Some(Some(text)) => if is_supported_extension(text@) {
                r is Ok
            } else {
                r matches Err(e) && e@ == ErrorView::UnsupportedFileType(text@)
            },
            Some(None) => r matches Err(e) && e@ == ErrorView::UnsupportedFileType(
                not_unicode_text(),
            ),
            None => r matches Err(e) && e@ == ErrorView::UnsupportedFileType(no_extension_text()),
        },
{
    match extension {
        Some(Some(text)) => {
            if text_eq(text, "ogg") || text_eq(text, "wav") || text_eq(text, "flac") || text_eq(
                text,
                "aiff",
            ) || text_eq(text, "raw") {
                Ok(())
            } else {
                Err(unsupported_file_type(text))
            }
        },
        Some(None) => Err(unsupported_file_type("Extension is not valid unicode")),
        None => Err(unsupported_file_type("No file extension")),
    }
}

} // verus!
