//! The errors that carry a text, made from string slices.

use vstd::prelude::*;

use crate::error::{Error, ErrorView};

verus! {

pub fn duplicate_sequence(name: &str) -> (e: Error)
    ensures
        e@ == ErrorView::DuplicateSequence(name@),
{
    Error::DuplicateSequence(name.to_owned())
}

pub fn duplicate_user(pub_key: &str, name: &str) -> (e: Error)
    ensures
        e@ == ErrorView::DuplicateUser(pub_key@, name@),
{
    Error::DuplicateUser(pub_key.to_owned(), name.to_owned())
}

pub fn invalid_pub_key(key: &str) -> (e: Error)
    ensures
        e@ == ErrorView::InvalidPublicKey(key@),
{
    Error::InvalidPublicKey(key.to_owned())
}

pub fn invalid_sequence_name(seq_name: &str) -> (e: Error)
    ensures
        e@ == ErrorView::InvalidSequenceName(seq_name@),
{
    Error::InvalidSequenceName(seq_name.to_owned())
}

pub fn music_file_not_found(path: &str) -> (e: Error)
    ensures
        e@ == ErrorView::MusicFileNotFound(path@),
{
    Error::MusicFileNotFound(path.to_owned())
}

pub fn rsfml(error: &str) -> (e: Error)
    ensures
        e@ == ErrorView::Rsfml(error@),
{
    Error::Rsfml(error.to_owned())
}

pub fn unsupported_file_type(file_type: &str) -> (e: Error)
    ensures
        e@ == ErrorView::UnsupportedFileType(file_type@),
{
    Error::UnsupportedFileType(file_type.to_owned())
}

} // verus!
