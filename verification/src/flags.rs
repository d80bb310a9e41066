//! Channel masks and per-direction capability flags.

use vstd::prelude::*;

verus! {

/// Native speaker-position bit for the front-left channel.
pub const SPEAKER_FRONT_LEFT: u32 = 0x1;
/// Native speaker-position bit for the front-right channel.
pub const SPEAKER_FRONT_RIGHT: u32 = 0x2;
/// Native speaker-position bit for the front-center channel.
pub const SPEAKER_FRONT_CENTER: u32 = 0x4;

/// A set of named speaker positions. The design supports the three front
/// positions; a frame carries one sample per position in the set.
#[derive(Clone, Copy, PartialEq, Eq, Structural, Debug)]
pub struct ChannelMask {
    /// Front-left position present.
    pub front_left: bool,
    /// Front-right position present.
    pub front_right: bool,
    /// Front-center position present.
    pub front_center: bool,
}

impl ChannelMask {
    /// The mask with no positions: the empty set.
    pub fn empty() -> (r: ChannelMask)
        ensures
            r == (ChannelMask { front_left: false, front_right: false, front_center: false }),
    {
        ChannelMask { front_left: false, front_right: false, front_center: false }
    }

    /// True when no position is set.
    pub open spec fn spec_is_empty(self) -> bool {
        !self.front_left && !self.front_right && !self.front_center
    }

    /// True when no position is set.
    pub fn is_empty(&self) -> (r: bool)
        ensures
            r == self.spec_is_empty(),
    {
        !self.front_left && !self.front_right && !self.front_center
    }

    /// The union of two masks, position by position.
    pub open spec fn spec_union(self, other: ChannelMask) -> ChannelMask {
        ChannelMask {
            front_left: self.front_left || other.front_left,
            front_right: self.front_right || other.front_right,
            front_center: self.front_center || other.front_center,
        }
    }

    /// The union of two masks, position by position.
    pub fn union(&self, other: &ChannelMask) -> (r: ChannelMask)
        ensures
            r == self.spec_union(*other),
    {
        ChannelMask {
            front_left: self.front_left || other.front_left,
            front_right: self.front_right || other.front_right,
            front_center: self.front_center || other.front_center,
        }
    }

    /// The number of positions in the mask: the channel count of a frame.
    pub open spec fn spec_num_channels(self) -> int {
        (if self.front_left { 1int } else { 0 })
            + (if self.front_right { 1int } else { 0 })
            + (if self.front_center { 1int } else { 0 })
    }

    /// The number of positions in the mask: the channel count of a frame.
    pub fn num_channels(&self) -> (n: u16)
        ensures
            n == self.spec_num_channels(),
            n <= 3,
    {
        let mut n: u16 = 0;
        if self.front_left {
            n = n + 1;
        }
        if self.front_right {
            n = n + 1;
        }
        if self.front_center {
            n = n + 1;
        }
        n
    }

    /// The native speaker-position bitmask for this mask.
    pub open spec fn spec_bits(self) -> u32 {
        ((if self.front_left { SPEAKER_FRONT_LEFT as int } else { 0 })
            + (if self.front_right { SPEAKER_FRONT_RIGHT as int } else { 0 })
            + (if self.front_center { SPEAKER_FRONT_CENTER as int } else { 0 })) as u32
    }

    /// The native speaker-position bitmask for this mask.
    pub fn bits(&self) -> (b: u32)
        ensures
            b == self.spec_bits(),
            b < 8,
    {
        let mut b: u32 = 0;
        if self.front_left {
            b = b + SPEAKER_FRONT_LEFT;
        }
        if self.front_right {
            b = b + SPEAKER_FRONT_RIGHT;
        }
        if self.front_center {
            b = b + SPEAKER_FRONT_CENTER;
        }
        b
    }

    /// The mask whose positions are the recognized bits of a native
    /// speaker-position bitmask; unrecognized bits are ignored.
    pub open spec fn spec_from_bits(bits: u32) -> ChannelMask {
        ChannelMask {
            front_left: (bits as int / SPEAKER_FRONT_LEFT as int) % 2 == 1,
            front_right: (bits as int / SPEAKER_FRONT_RIGHT as int) % 2 == 1,
            front_center: (bits as int / SPEAKER_FRONT_CENTER as int) % 2 == 1,
        }
    }

    /// The mask whose positions are the recognized bits of a native
    /// speaker-position bitmask; unrecognized bits are ignored.
    pub fn from_bits(bits: u32) -> (r: ChannelMask)
        ensures
            r == ChannelMask::spec_from_bits(bits),
    {
        ChannelMask {
            front_left: (bits / SPEAKER_FRONT_LEFT) % 2 == 1,
            front_right: (bits / SPEAKER_FRONT_RIGHT) % 2 == 1,
            front_center: (bits / SPEAKER_FRONT_CENTER) % 2 == 1,
        }
    }
}

/// Round trip: the native bitmask of a mask decodes back to the same mask.
pub proof fn lemma_channel_mask_bits_round_trip(m: ChannelMask)
    ensures
        ChannelMask::spec_from_bits(m.spec_bits()) == m,
{
}

/// Per-direction capability flags of a physical device. One endpoint can
/// appear in both the capture and the render enumeration and then carries
/// both flags, merged into one record.
#[derive(Clone, Copy, PartialEq, Eq, Structural, Debug)]
pub struct StreamFlags {
    /// The endpoint can capture (record).
    pub input: bool,
    /// The endpoint can render (play).
    pub output: bool,
}

impl StreamFlags {
    /// No direction.
    pub fn none() -> (r: StreamFlags)
        ensures
            r == (StreamFlags { input: false, output: false }),
    {
        StreamFlags { input: false, output: false }
    }

    /// The capture-side flag alone.
    pub fn input_flag() -> (r: StreamFlags)
        ensures
            r == (StreamFlags { input: true, output: false }),
    {
        StreamFlags { input: true, output: false }
    }

    /// The render-side flag alone.
    pub fn output_flag() -> (r: StreamFlags)
        ensures
            r == (StreamFlags { input: false, output: true }),
    {
        StreamFlags { input: false, output: true }
    }

    /// The bitwise OR of two flag sets.
    pub open spec fn spec_union(self, other: StreamFlags) -> StreamFlags {
        StreamFlags { input: self.input || other.input, output: self.output || other.output }
    }

    /// The bitwise OR of two flag sets.
    pub fn union(&self, other: &StreamFlags) -> (r: StreamFlags)
        ensures
            r == self.spec_union(*other),
    {
        StreamFlags { input: self.input || other.input, output: self.output || other.output }
    }

    /// True when every flag of `other` is set in `self`.
    pub open spec fn spec_contains(self, other: StreamFlags) -> bool {
        (other.input ==> self.input) && (other.output ==> self.output)
    }

    /// True when every flag of `other` is set in `self`.
    pub fn contains(&self, other: &StreamFlags) -> (r: bool)
        ensures
            r == self.spec_contains(*other),
    {
        (!other.input || self.input) && (!other.output || self.output)
    }
}

/// The flag union is commutative, associative and idempotent, as a bitwise
/// OR must be: merging passes in either order yields the same capabilities.
pub proof fn lemma_stream_flags_union_is_or(a: StreamFlags, b: StreamFlags, c: StreamFlags)
    ensures
        a.spec_union(b) == b.spec_union(a),
        a.spec_union(b).spec_union(c) == a.spec_union(b.spec_union(c)),
        a.spec_union(a) == a,
{
}

} // verus!
