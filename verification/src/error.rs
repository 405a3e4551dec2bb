//! The errors of the library, and how each is put into words.

use vstd::prelude::*;
use vstd::string::StringExecFns;

use crate::text::{decimal_text, join, join3, push_decimal};

verus! {

/// Everything that can go wrong. An error that came from outside the library
/// (the file system, the version history, a decoder, the key library) carries
/// the outside error's own words.
#[derive(Debug, PartialEq, Eq)]
pub enum Error {
    Io(String),
    Git(String),
    JsonDecode(String),
    Ssl(String),
    Rsfml(String),
    FolderNotEmpty(String, usize),
    InvalidPublicKey(String),
    InvalidFileName,
    InvalidPermissionTarget,
    InvalidSequenceName(String),
    LoadProjectError,
    DuplicateUser(String, String),
    DuplicateSequence(String),
    DuplicateMusicFile(String),
    MusicFileNotFound(String),
    PermissionAlreadyExists,
    UnauthorizedAction,
    UnsupportedFileType(String),
    UserNotFound,
    TodoErr,
}

/// An error as contracts see it.
pub enum ErrorView {
    Io(Seq<char>),
    Git(Seq<char>),
    JsonDecode(Seq<char>),
    Ssl(Seq<char>),
    Rsfml(Seq<char>),
    FolderNotEmpty(Seq<char>, usize),
    InvalidPublicKey(Seq<char>),
    InvalidFileName,
    InvalidPermissionTarget,
    InvalidSequenceName(Seq<char>),
    LoadProjectError,
    DuplicateUser(Seq<char>, Seq<char>),
    DuplicateSequence(Seq<char>),
    DuplicateMusicFile(Seq<char>),
    MusicFileNotFound(Seq<char>),
    PermissionAlreadyExists,
    UnauthorizedAction,
    UnsupportedFileType(Seq<char>),
    UserNotFound,
    TodoErr,
}

impl View for Error {
    type V = ErrorView;

    open spec fn view(&self) -> ErrorView {
        match *self {
            Error::Io(s) => ErrorView::Io(s@),
            Error::Git(s) => ErrorView::Git(s@),
            Error::JsonDecode(s) => ErrorView::JsonDecode(s@),
            Error::Ssl(s) => ErrorView::Ssl(s@),
            Error::Rsfml(s) => ErrorView::Rsfml(s@),
            Error::FolderNotEmpty(root, count) => ErrorView::FolderNotEmpty(root@, count),
            Error::InvalidPublicKey(key) => ErrorView::InvalidPublicKey(key@),
            Error::InvalidFileName => ErrorView::InvalidFileName,
            Error::InvalidPermissionTarget => ErrorView::InvalidPermissionTarget,
            Error::InvalidSequenceName(name) => ErrorView::InvalidSequenceName(name@),
            Error::LoadProjectError => ErrorView::LoadProjectError,
            Error::DuplicateUser(key, name) => ErrorView::DuplicateUser(key@, name@),
            Error::DuplicateSequence(name) => ErrorView::DuplicateSequence(name@),
            Error::DuplicateMusicFile(name) => ErrorView::DuplicateMusicFile(name@),
            Error::MusicFileNotFound(path) => ErrorView::MusicFileNotFound(path@),
            Error::PermissionAlreadyExists => ErrorView::PermissionAlreadyExists,
            Error::UnauthorizedAction => ErrorView::UnauthorizedAction,
            Error::UnsupportedFileType(kind) => ErrorView::UnsupportedFileType(kind@),
            Error::UserNotFound => ErrorView::UserNotFound,
            Error::TodoErr => ErrorView::TodoErr,
        }
    }
}

impl ErrorView {
    /// The kind of the error in a few fixed words.
    pub open spec fn description(self) -> Seq<char> {
        match self {
            ErrorView::Io(_) => "IO error occurred"@,
            ErrorView::Git(_) => "Libgit2 error occurred"@,
            ErrorView::JsonDecode(_) => "Json decoding error occurred"@,
            ErrorView::Ssl(_) => "SSL error occured"@,
            ErrorView::Rsfml(_) => "Rsfml error occured"@,
            ErrorView::FolderNotEmpty(_, _) => "Root folder was not empty"@,
            ErrorView::InvalidPublicKey(_) => "Invalid public key"@,
            ErrorView::InvalidFileName => "Invalid file name"@,
            ErrorView::InvalidPermissionTarget => "Invalid permission target"@,
            ErrorView::InvalidSequenceName(_) => "Invalid sequence name"@,
            ErrorView::LoadProjectError => "Loading project failed"@,
            ErrorView::DuplicateUser(_, _) => "User already exists"@,
            ErrorView::DuplicateSequence(_) => "Sequence already exists"@,
            ErrorView::DuplicateMusicFile(_) => "Music file already exists"@,
            ErrorView::MusicFileNotFound(_) => "Music file not found"@,
            ErrorView::PermissionAlreadyExists => "Permission already exists"@,
            ErrorView::UnauthorizedAction => "Unauthorized action"@,
            ErrorView::UnsupportedFileType(_) => "Unsupported file type"@,
            ErrorView::UserNotFound => "User not found"@,
            ErrorView::TodoErr => "Todo"@,
        }
    }

    /// The error in a sentence, with what it carries.
    pub open spec fn message(self) -> Seq<char> {
        match self {
            ErrorView::Io(s) => "IO error occurred: "@ + s,
            ErrorView::Git(s) => "Libgit2 error occurred: "@ + s,
            ErrorView::JsonDecode(s) => "Json decoding error occurred: "@ + s,
            ErrorView::Ssl(s) => "SSL error occured: "@ + s,
            ErrorView::Rsfml(s) => "Rsfml error: "@ + s,
            ErrorView::FolderNotEmpty(root, count) => root + " was not empty: "@ + decimal_text(
                count as nat,
            ) + " files exist"@,
            ErrorView::InvalidPublicKey(key) => "Public key is invalid: "@ + key,
            ErrorView::InvalidFileName => "File name provided is invalid and cannot be retrieved"@,
            ErrorView::InvalidPermissionTarget => "Invalid permission target"@,
            ErrorView::InvalidSequenceName(name) => "Sequence name had invalid characters: "@
                + name,
            ErrorView::LoadProjectError => "Loading project failed"@,
            ErrorView::DuplicateUser(key, name) => "Duplicate user '"@ + name + "' or key '"@ + key
                + "'"@,
            ErrorView::DuplicateSequence(name) => "Duplicate sequence with name '"@ + name + "'"@,
            ErrorView::DuplicateMusicFile(name) => "Duplicate music file with name '"@ + name
                + "'"@,
            ErrorView::MusicFileNotFound(path) => "Music file not found at path '"@ + path + "'"@,
            ErrorView::PermissionAlreadyExists => "Permission already exists"@,
            ErrorView::UnauthorizedAction => "Unauthorized action"@,
            ErrorView::UnsupportedFileType(kind) => "Unsupported file type: "@ + kind,
            ErrorView::UserNotFound => "User not found"@,
            ErrorView::TodoErr => "TodoErr"@,
        }
    }
}

impl Error {
    /// The kind of the error in a few fixed words.
    pub fn description(&self) -> (words: &'static str)
        ensures
            words@ == self@.description(),
    {
        match self {
            Error::Io(_) => "IO error occurred",
            Error::Git(_) => "Libgit2 error occurred",
            Error::JsonDecode(_) => "Json decoding error occurred",
            Error::Ssl(_) => "SSL error occured",
            Error::Rsfml(_) => "Rsfml error occured",
            Error::FolderNotEmpty(_, _) => "Root folder was not empty",
            Error::InvalidPublicKey(_) => "Invalid public key",
            Error::InvalidFileName => "Invalid file name",
            Error::InvalidPermissionTarget => "Invalid permission target",
            Error::InvalidSequenceName(_) => "Invalid sequence name",
            Error::LoadProjectError => "Loading project failed",
            Error::DuplicateUser(_, _) => "User already exists",
            Error::DuplicateSequence(_) => "Sequence already exists",
            Error::DuplicateMusicFile(_) => "Music file already exists",
            Error::MusicFileNotFound(_) => "Music file not found",
            Error::PermissionAlreadyExists => "Permission already exists",
            Error::UnauthorizedAction => "Unauthorized action",
            Error::UnsupportedFileType(_) => "Unsupported file type",
            Error::UserNotFound => "User not found",
            Error::TodoErr => "Todo",
        }
    }

    /// The error in a sentence, with what it carries.
    pub fn to_string(&self) -> (words: String)
        ensures
            words@ == self@.message(),
    {
        match self {
            Error::Io(s) => join("IO error occurred: ", s.as_str()),
            Error::Git(s) => join("Libgit2 error occurred: ", s.as_str()),
            Error::JsonDecode(s) => join("Json decoding error occurred: ", s.as_str()),
            Error::Ssl(s) => join("SSL error occured: ", s.as_str()),
            Error::Rsfml(s) => join("Rsfml error: ", s.as_str()),
            Error::FolderNotEmpty(root, count) => {
                let mut out = join(root.as_str(), " was not empty: ");
                push_decimal(&mut out, *count as u64);
                out.append(" files exist");
                out
            },
            Error::InvalidPublicKey(key) => join("Public key is invalid: ", key.as_str()),
            Error::InvalidFileName => String::from_str(
                "File name provided is invalid and cannot be retrieved",
            ),
            Error::InvalidPermissionTarget => String::from_str("Invalid permission target"),
            Error::InvalidSequenceName(name) => join(
                "Sequence name had invalid characters: ",
                name.as_str(),
            ),
            Error::LoadProjectError => String::from_str("Loading project failed"),
            Error::DuplicateUser(key, name) => {
                let mut out = join3("Duplicate user '", name.as_str(), "' or key '");
                out.append(key.as_str());
                out.append("'");
                out
            },
            Error::DuplicateSequence(name) => join3(
                "Duplicate sequence with name '",
                name.as_str(),
                "'",
            ),
            Error::DuplicateMusicFile(name) => join3(
                "Duplicate music file with name '",
                name.as_str(),
                "'",
            ),
            Error::MusicFileNotFound(path) => join3(
                "Music file not found at path '",
                path.as_str(),
                "'",
            ),
            Error::PermissionAlreadyExists => String::from_str("Permission already exists"),
            Error::UnauthorizedAction => String::from_str("Unauthorized action"),
            Error::UnsupportedFileType(kind) => join("Unsupported file type: ", kind.as_str()),
            Error::UserNotFound => String::from_str("User not found"),
            Error::TodoErr => String::from_str("TodoErr"),
        }
    }
}

} // verus!
