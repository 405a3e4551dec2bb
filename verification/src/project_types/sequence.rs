//! Sequences: the shows of a project, each set to one music file.

use vstd::prelude::*;

use crate::error::{Error, ErrorView};

verus! {

/// How long a frame lasts, in milliseconds, where nothing else is asked.
pub const DEFAULT_FRAME_DURATION_MS: u32 = 50;

/// Into how many sections a sequence is divided where nothing else is asked.
pub const DEFAULT_NUM_SECTIONS: u32 = 1;

/// One sequence of the project.
#[derive(Debug, PartialEq, Eq)]
pub struct Sequence {
    pub name: String,
    pub directory_name: String,
    pub music_file_name: String,
    pub music_duration_sec: u32,
    pub frame_duration_ms: u32,
    pub num_sections: u32,
}

/// A sequence as contracts see it.
pub struct SequenceView {
    pub name: Seq<char>,
    pub directory_name: Seq<char>,
    pub music_file_name: Seq<char>,
    pub music_duration_sec: u32,
    pub frame_duration_ms: u32,
    pub num_sections: u32,
}

impl View for Sequence {
    type V = SequenceView;

    open spec fn view(&self) -> SequenceView {
        SequenceView {
            name: self.name@,
            directory_name: self.directory_name@,
            music_file_name: self.music_file_name@,
            music_duration_sec: self.music_duration_sec,
            frame_duration_ms: self.frame_duration_ms,
            num_sections: self.num_sections,
        }
    }
}

impl Clone for Sequence {
    fn clone(&self) -> (copy: Sequence)
        ensures
            copy == *self,
    {
        Sequence {
            name: self.name.clone(),
            directory_name: self.directory_name.clone(),
            music_file_name: self.music_file_name.clone(),
            music_duration_sec: self.music_duration_sec,
            frame_duration_ms: self.frame_duration_ms,
            num_sections: self.num_sections,
        }
    }
}

impl SequenceView {
    /// Whether `section` numbers one of the sections of the sequence. The
    /// sections are numbered from 1.
    pub open spec fn has_section(self, section: u32) -> bool {
        1 <= section <= self.num_sections
    }
}

impl Sequence {
    /// A sequence with the given name, directory and music. A frame lasts
    /// `DEFAULT_FRAME_DURATION_MS` and the sequence has `DEFAULT_NUM_SECTIONS`
    /// sections unless the caller says otherwise.
    pub fn new(
        name: &str,
        directory_name: &str,
        music_file_name: &str,
        music_duration_sec: u32,
        frame_duration_ms: Option<u32>,
        num_sections: Option<u32>,
    ) -> (sequence: Sequence)
        ensures
            sequence@ == (SequenceView {
                name: name@,
                directory_name: directory_name@,
                music_file_name: music_file_name@,
                music_duration_sec,
                frame_duration_ms: match frame_duration_ms {
                    Some(duration) => duration,
                    None => DEFAULT_FRAME_DURATION_MS,
                },
                num_sections: match num_sections {
                    Some(num) => num,
                    None => DEFAULT_NUM_SECTIONS,
                },
            }),
    {
        let frame_duration_ms: u32 = match frame_duration_ms {
            Some(duration) => duration,
            None => DEFAULT_FRAME_DURATION_MS,
        };
        let num_sections: u32 = match num_sections {
            Some(num) => num,
            None => DEFAULT_NUM_SECTIONS,
        };
        Sequence {
            name: name.to_owned(),
            directory_name: directory_name.to_owned(),
            music_file_name: music_file_name.to_owned(),
            music_duration_sec,
            frame_duration_ms,
            num_sections,
        }
    }

    /// Dividing a sequence anew is not offered: the call always fails, and
    /// the sequence stays as it is.
    pub fn resection(&self, num_sections: u32) -> (r: Result<(), Error>)
        ensures
            r matches Err(e) && e@ == ErrorView::TodoErr,
    {
        Err(Error::TodoErr)
    }
}

} // verus!
