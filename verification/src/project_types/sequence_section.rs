//! Sections: the parts into which the frames of a sequence are divided.

use vstd::prelude::*;
use vstd::string::StringExecFns;

use crate::project_types::sequence::Sequence;
use crate::project_types::user::User;
use crate::text::{decimal_text, join, push_decimal};

verus! {

/// One section of a sequence: for each channel, a row with one value for
/// each frame.
#[derive(Debug, PartialEq, Eq)]
pub struct SequenceSection {
    pub seq_name: String,
    pub index: u32,
    pub num_frames: u32,
    pub editor: Option<User>,
    pub data: Vec<Vec<u8>>,
}

/// How many frames of `frame_duration_ms` milliseconds it takes to cover
/// `music_duration_sec` seconds of music: the quotient, rounded up.
pub open spec fn frame_count(music_duration_sec: u32, frame_duration_ms: u32) -> int {
    (music_duration_sec * 1000 + frame_duration_ms - 1) / (frame_duration_ms as int)
}

/// `frame_count` frames cover the music, and one frame fewer does not.
pub proof fn lemma_frame_count_is_least(music_duration_sec: u32, frame_duration_ms: u32)
    requires
        frame_duration_ms > 0,
    ensures
        frame_count(music_duration_sec, frame_duration_ms) * frame_duration_ms
            >= music_duration_sec * 1000,
        (frame_count(music_duration_sec, frame_duration_ms) - 1) * frame_duration_ms
            < music_duration_sec * 1000,
{
    let a: int = music_duration_sec * 1000 + frame_duration_ms - 1;
    let b: int = frame_duration_ms as int;
    assert(a == b * (a / b) + a % b && 0 <= a % b < b) by (nonlinear_arith)
        requires
            b > 0,
    ;
    assert((a / b - 1) * b == (a / b) * b - b) by (nonlinear_arith);
    assert((a / b) * b == b * (a / b)) by (nonlinear_arith);
}

impl SequenceSection {
    /// The name of the file that holds the section: the name of the
    /// sequence, then `_section`, then the number of the section.
    pub fn get_path_str(&self) -> (path: String)
        ensures
            path@ == self.seq_name@ + "_section"@ + decimal_text(self.index as nat),
    {
        let mut path = join(self.seq_name.as_str(), "_section");
        push_decimal(&mut path, self.index as u64);
        path
    }
}

impl Sequence {
    /// The one section of a sequence that is not divided: all its frames, on
    /// one channel, every value 0, and nobody editing it.
    pub fn first_section(&self) -> (section: SequenceSection)
        requires
            self.frame_duration_ms > 0,
            frame_count(self.music_duration_sec, self.frame_duration_ms) <= u32::MAX,
        ensures
            section.seq_name@ == self.name@,
            section.index == 1,
            section.num_frames == frame_count(self.music_duration_sec, self.frame_duration_ms),
            section.num_frames * self.frame_duration_ms >= self.music_duration_sec * 1000,
            (section.num_frames - 1) * self.frame_duration_ms < self.music_duration_sec * 1000,
            section.editor is None,
            section.data@.len() == 1,
            section.data@[0]@ == Seq::new(section.num_frames as nat, |i: int| 0u8),
    {
        proof {
            lemma_frame_count_is_least(self.music_duration_sec, self.frame_duration_ms);
        }
        let duration_ms: u64 = self.music_duration_sec as u64 * 1000;
        let frames: u64 = (duration_ms + self.frame_duration_ms as u64 - 1)
            / self.frame_duration_ms as u64;
        let num_frames: u32 = frames as u32;
        let mut row: Vec<u8> = Vec::new();
        let mut i: u32 = 0;
        while i < num_frames
            invariant
                i <= num_frames,
                row@ == Seq::new(i as nat, |k: int| 0u8),
            decreases num_frames - i,
        {
            row.push(0);
            assert(row@ =~= Seq::new((i + 1) as nat, |k: int| 0u8));
            i += 1;
        }
        let mut data: Vec<Vec<u8>> = Vec::new();
        data.push(row);
        SequenceSection {
            seq_name: self.name.clone(),
            index: 1,
            num_frames,
            editor: None,
            data,
        }
    }
}

} // verus!
