//! The frames of a sequence as they are played: one row for each DMX
//! channel.

use vstd::prelude::*;

verus! {

/// How many rows the frames of a sequence have: one for each of the 512
/// channels of a DMX universe, which are counted from 1, and one for the
/// channel 0 that is never played.
pub const DMX_SLOTS: usize = 513;

/// The low sixteen bits of `value`, as a number.
pub open spec fn low16(value: i32) -> u16 {
    (value as int % 0x1_0000) as u16
}

/// A row of `len` frames that are all dark.
pub open spec fn dark_row(len: nat) -> Seq<u16> {
    Seq::new(len, |i: int| 0u16)
}

/// The row that is played on `channel`: the frames of the last of `rows` that
/// is for this channel, each cut to its low sixteen bits, and `num_frames`
/// dark frames where none is.
pub open spec fn channel_row(rows: Seq<(i32, Seq<i32>)>, num_frames: u32, channel: int) -> Seq<u16>
    decreases rows.len(),
{
    if rows.len() == 0 {
        dark_row(num_frames as nat)
    } else if rows.last().0 == channel {
        rows.last().1.map_values(|value: i32| low16(value))
    } else {
        channel_row(rows.drop_last(), num_frames, channel)
    }
}

/// The rows as contracts see them.
pub open spec fn row_views(rows: Seq<(i32, Vec<i32>)>) -> Seq<(i32, Seq<i32>)> {
    rows.map_values(|row: (i32, Vec<i32>)| (row.0, row.1@))
}

/// Cuts `value` to its low sixteen bits.
pub fn to_u16(value: i32) -> (low: u16)
    ensures
        low == low16(value),
{
    let shifted: i64 = value as i64 + 0x1_0000_0000;
    assert(shifted % 0x1_0000 == value as int % 0x1_0000) by {
        vstd::arithmetic::div_mod::lemma_mod_multiples_vanish(0x1_0000, value as int, 0x1_0000);
    }
    (shifted % 0x1_0000) as u16
}

fn frames_to_u16(frames: &Vec<i32>) -> (row: Vec<u16>)
    ensures
        row@ == frames@.map_values(|value: i32| low16(value)),
{
    let mut row: Vec<u16> = Vec::new();
    let mut i: usize = 0;
    while i < frames.len()
        invariant
            i <= frames.len(),
            row@ == frames@.take(i as int).map_values(|value: i32| low16(value)),
        decreases frames.len() - i,
    {
        row.push(to_u16(frames[i]));
        assert(row@ =~= frames@.take(i + 1).map_values(|value: i32| low16(value)));
        i += 1;
    }
    assert(frames@.take(i as int) =~= frames@);
    row
}

fn dark(num_frames: u32) -> (row: Vec<u16>)
    ensures
        row@ == dark_row(num_frames as nat),
{
    let mut row: Vec<u16> = Vec::new();
    let mut i: u32 = 0;
    while i < num_frames
        invariant
            i <= num_frames,
            row@ == dark_row(i as nat),
        decreases num_frames - i,
    {
        row.push(0);
        assert(row@ =~= dark_row((i + 1) as nat));
        i += 1;
    }
    row
}

/// The frames of a sequence of `num_frames` frames, one row for each DMX
/// channel, from the rows that the database holds: each a channel and the
/// frames that are played on it. A channel for which the database holds
/// nothing stays dark.
pub fn channel_matrix(num_frames: u32, rows: &Vec<(i32, Vec<i32>)>) -> (matrix: Vec<Vec<u16>>)
    requires
        forall|i: int| 0 <= i < rows@.len() ==> 0 <= (#[trigger] rows@[i]).0 < DMX_SLOTS,
    ensures
        matrix@.len() == DMX_SLOTS,
        forall|channel: int|
            0 <= channel < DMX_SLOTS ==> (#[trigger] matrix@[channel])@ == channel_row(
                row_views(rows@),
                num_frames,
                channel,
            ),
{
    let ghost views = row_views(rows@);
    let mut matrix: Vec<Vec<u16>> = Vec::new();
    let mut channel: usize = 0;
    assert(views.take(0) =~= Seq::empty());
    while channel < DMX_SLOTS
        invariant
            channel <= DMX_SLOTS,
            matrix@.len() == channel,
            forall|c: int|
                0 <= c < channel ==> (#[trigger] matrix@[c])@ == dark_row(num_frames as nat),
        decreases DMX_SLOTS - channel,
    {
        matrix.push(dark(num_frames));
        channel += 1;
    }
    let mut i: usize = 0;
    while i < rows.len()
        invariant
            i <= rows.len(),
            views == row_views(rows@),
            matrix@.len() == DMX_SLOTS,
            forall|k: int| 0 <= k < rows@.len() ==> 0 <= (#[trigger] rows@[k]).0 < DMX_SLOTS,
            forall|c: int|
                0 <= c < DMX_SLOTS ==> (#[trigger] matrix@[c])@ == channel_row(
                    views.take(i as int),
                    num_frames,
                    c,
                ),
        decreases rows.len() - i,
    {
        let slot: usize = rows[i].0 as usize;
        let row = frames_to_u16(&rows[i].1);
        proof {
            assert(views.take(i + 1).drop_last() =~= views.take(i as int));
            assert(views.take(i + 1).last() == (rows@[i as int].0, rows@[i as int].1@));
        }
        matrix.set(slot, row);
        i += 1;
    }
    assert(views.take(i as int) =~= views);
    matrix
}

} // verus!
