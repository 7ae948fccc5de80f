//! Positions on a disc, counted in minutes, seconds and frames of 1/75 s.

use crate::text::{append_chars, padded_decimal, padded_decimal_chars};
use std::cmp::Ordering;
use vstd::prelude::*;
use vstd::std_specs::cmp::PartialOrdSpec;

verus! {

/// Frames in one second of disc time.
pub const FRAMES_PER_SECOND: u64 = 75;

/// A position on the disc. The fields are kept as they were written; two
/// positions are ordered by the frame they fall on.
#[derive(Debug, Default, Clone, Copy, PartialEq, Eq, Structural)]
pub struct CueDuration {
    pub minutes: u32,
    pub seconds: u32,
    pub frames: u32,
}

impl CueDuration {
    /// The frame on which the position falls, counted from the start.
    pub open spec fn frame_count(&self) -> nat {
        (self.minutes * 60 * 75 + self.seconds * 75 + self.frames) as nat
    }

    /// The whole seconds before the position, frames left aside.
    pub open spec fn whole_seconds(&self) -> nat {
        (self.minutes * 60 + self.seconds) as nat
    }

    /// The position as `hh:mm:ss.mmm`, the form in which a split command
    /// takes a time.
    pub open spec fn timestamp(&self) -> Seq<char> {
        padded_decimal((self.minutes / 60) as nat, 2) + seq![':'] + padded_decimal(
            (self.minutes % 60) as nat,
            2,
        ) + seq![':'] + padded_decimal(self.seconds as nat, 2) + seq!['.'] + padded_decimal(
            (self.frames * 1000 / 75) as nat,
            3,
        )
    }

    /// The position as `mm:ss:ff`, the form in which a cue sheet writes it.
    pub open spec fn cue_notation(&self) -> Seq<char> {
        padded_decimal(self.minutes as nat, 2) + seq![':'] + padded_decimal(
            self.seconds as nat,
            2,
        ) + seq![':'] + padded_decimal(self.frames as nat, 2)
    }

    /// The position written as these minutes, seconds and frames.
    pub fn new(minutes: u32, seconds: u32, frames: u32) -> (out: CueDuration)
        ensures
            out == (CueDuration { minutes, seconds, frames }),
    {
        CueDuration { minutes, seconds, frames }
    }

    /// The frame on which the position falls, counted from the start.
    pub fn total_frames(&self) -> (out: u64)
        ensures
            out as nat == self.frame_count(),
    {
        self.minutes as u64 * 60 * 75 + self.seconds as u64 * 75 + self.frames as u64
    }

    /// The whole seconds before the position, frames left aside.
    pub fn total_seconds(&self) -> (out: u64)
        ensures
            out as nat == self.whole_seconds(),
    {
        self.minutes as u64 * 60 + self.seconds as u64
    }

    /// The position as `hh:mm:ss.mmm`.
    pub fn timestamp_chars(&self) -> (out: Vec<char>)
        ensures
            out@ == self.timestamp(),
    {
        let mut out = padded_decimal_chars((self.minutes / 60) as u64, 2);
        out.push(':');
        append_chars(&mut out, &padded_decimal_chars((self.minutes % 60) as u64, 2));
        out.push(':');
        append_chars(&mut out, &padded_decimal_chars(self.seconds as u64, 2));
        out.push('.');
        append_chars(&mut out, &padded_decimal_chars(self.frames as u64 * 1000 / 75, 3));
        out
    }

    /// The position as `mm:ss:ff`.
    pub fn cue_notation_chars(&self) -> (out: Vec<char>)
        ensures
            out@ == self.cue_notation(),
    {
        let mut out = padded_decimal_chars(self.minutes as u64, 2);
        out.push(':');
        append_chars(&mut out, &padded_decimal_chars(self.seconds as u64, 2));
        out.push(':');
        append_chars(&mut out, &padded_decimal_chars(self.frames as u64, 2));
        out
    }
}

impl vstd::std_specs::cmp::PartialOrdSpecImpl for CueDuration {
    open spec fn obeys_partial_cmp_spec() -> bool {
        true
    }

    open spec fn partial_cmp_spec(&self, other: &CueDuration) -> Option<Ordering> {
        if self.frame_count() < other.frame_count() {
            Some(Ordering::Less)
        } else if self.frame_count() == other.frame_count() {
            Some(Ordering::Equal)
        } else {
            Some(Ordering::Greater)
        }
    }
}

impl PartialOrd for CueDuration {
    fn partial_cmp(&self, other: &CueDuration) -> (out: Option<Ordering>) {
        let a = self.total_frames();
        let b = other.total_frames();
        if a < b {
            Some(Ordering::Less)
        } else if a == b {
            Some(Ordering::Equal)
        } else {
            Some(Ordering::Greater)
        }
    }
}

/// Whether `a` falls on an earlier frame than `b`.
pub fn starts_before(a: &CueDuration, b: &CueDuration) -> (out: bool)
    ensures
        out == (a.frame_count() < b.frame_count()),
{
    a.total_frames() < b.total_frames()
}

/// With fewer than 75 frames and fewer than 60 seconds written, positions
/// are ordered as their (minutes, seconds, frames) triples are, field by
/// field from the left.
pub proof fn order_is_lexicographic(a: CueDuration, b: CueDuration)
    requires
        a.frames < 75,
        b.frames < 75,
        a.seconds < 60,
        b.seconds < 60,
    ensures
        a.frame_count() < b.frame_count() <==> (a.minutes < b.minutes || (a.minutes == b.minutes
            && (a.seconds < b.seconds || (a.seconds == b.seconds && a.frames < b.frames)))),
        a.frame_count() == b.frame_count() <==> a == b,
{
}

/// With fewer than 75 frames written on both sides, a position with more
/// whole seconds comes later, whatever the frames are.
pub proof fn later_second_is_later(a: CueDuration, b: CueDuration)
    requires
        a.frames < 75,
        b.frames < 75,
        a.whole_seconds() < b.whole_seconds(),
    ensures
        a.frame_count() < b.frame_count(),
        a.partial_cmp_spec(&b) == Some(Ordering::Less),
{
}

/// The order of positions is the order of their frame counts: it is total,
/// and `partial_cmp` never fails to decide.
pub proof fn order_follows_frame_count(a: CueDuration, b: CueDuration)
    ensures
        a.partial_cmp_spec(&b) == Some(Ordering::Less) <==> a.frame_count() < b.frame_count(),
        a.partial_cmp_spec(&b) == Some(Ordering::Equal) <==> a.frame_count() == b.frame_count(),
        a.partial_cmp_spec(&b) == Some(Ordering::Greater) <==> a.frame_count() > b.frame_count(),
        a.partial_cmp_spec(&b) is Some,
{
}

} // verus!
