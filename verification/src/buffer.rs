//! The shared decoy buffer: a fixed 256-byte line that the refresher task
//! rewrites on every cycle and that every connection handler copies out and
//! sends. Its shape is invariant: a fixed marker byte, 253 sampled printable
//! bytes, and a trailing CRLF.

use vstd::prelude::*;
use rand::Rng;

verus! {

/// Total length of a decoy line, trailing CRLF included.
pub const DECOY_LEN: usize = 256;

/// The fixed marker standing in byte 0 of every decoy line: `x`. It differs
/// from `S`, so a decoy line can never be mistaken for a real SSH
/// identification string, which must begin with `SSH-`.
pub const DECOY_MARKER: u8 = 120;

/// Lowest byte value the refresher samples into positions [1, 254).
pub const SAMPLE_MIN: u8 = 32;

/// Highest byte value the refresher samples into positions [1, 254).
pub const SAMPLE_MAX: u8 = 127;

/// Carriage return, always at position 254.
pub const CARRIAGE_RETURN: u8 = 13;

/// Line feed, always at position 255.
pub const LINE_FEED: u8 = 10;

/// The decoy line determined by 253 bytes of sampled filler: the fixed
/// marker, then the filler, then CRLF.
pub open spec fn decoy_line(filler: Seq<u8>) -> Seq<u8>
    recommends
        filler.len() == 253,
{
    seq![DECOY_MARKER] + filler + seq![CARRIAGE_RETURN, LINE_FEED]
}

/// True when the first four bytes of `line` spell the `SSH-` prefix that a
/// real SSH identification string must carry.
pub open spec fn starts_with_ssh(line: Seq<u8>) -> bool {
    &&& line.len() >= 4
    &&& line[0] == 83  // S
    &&& line[1] == 83  // S
    &&& line[2] == 72  // H
    &&& line[3] == 45  // -
}

/// The shared decoy buffer. Exactly one writer role (the refresher) mutates
/// it; every handler only copies it out.
pub struct DecoyBuffer {
    bytes: Vec<u8>,
}

impl View for DecoyBuffer {
    type V = Seq<u8>;

    closed spec fn view(&self) -> Seq<u8> {
        self.bytes@
    }
}

impl DecoyBuffer {
    /// The buffer's invariant: 256 bytes, the fixed marker first, CRLF last,
    /// and every byte between them inside the sampled range.
    pub open spec fn wf(&self) -> bool {
        &&& self@.len() == 256
        &&& self@[0] == DECOY_MARKER
        &&& self@[254] == CARRIAGE_RETURN
        &&& self@[255] == LINE_FEED
        &&& forall|i: int| 1 <= i < 254 ==> SAMPLE_MIN <= #[trigger] self@[i] <= SAMPLE_MAX
    }

    /// A fresh buffer, filled with the lowest sampled byte until the first
    /// refresh overwrites it.
    pub fn new() -> (r: DecoyBuffer)
        ensures
            r.wf(),
            r@ == decoy_line(Seq::new(253, |i: int| SAMPLE_MIN)),
    {
        let mut bytes: Vec<u8> = Vec::new();
        bytes.push(DECOY_MARKER);
        let mut i: usize = 1;
        while i < 254
            invariant
                1 <= i <= 254,
                bytes@.len() == i,
                bytes@[0] == DECOY_MARKER,
                forall|j: int| 1 <= j < i ==> bytes@[j] == SAMPLE_MIN,
            decreases 254 - i,
        {
            bytes.push(SAMPLE_MIN);
            i += 1;
        }
        bytes.push(CARRIAGE_RETURN);
        bytes.push(LINE_FEED);
        let r = DecoyBuffer { bytes };
        proof {
            assert(r@ =~= decoy_line(Seq::new(253, |i: int| SAMPLE_MIN)));
        }
        r
    }

    /// Rewrite the line from the given filler: byte 0 becomes the marker,
    /// positions [1, 254) take the filler bytes in order, and the trailing
    /// CRLF is left untouched.
    pub fn refresh_with(&mut self, filler: &Vec<u8>)
        requires
            old(self).wf(),
            filler@.len() == 253,
            forall|i: int| 0 <= i < 253 ==> SAMPLE_MIN <= #[trigger] filler@[i] <= SAMPLE_MAX,
        ensures
            final(self).wf(),
            final(self)@ == decoy_line(filler@),
    {
        self.bytes.set(0, DECOY_MARKER);
        let mut i: usize = 1;
        while i < 254
            invariant
                1 <= i <= 254,
                self.bytes@.len() == 256,
                self.bytes@[0] == DECOY_MARKER,
                self.bytes@[254] == CARRIAGE_RETURN,
                self.bytes@[255] == LINE_FEED,
                filler@.len() == 253,
                forall|j: int| 1 <= j < i ==> self.bytes@[j] == filler@[j - 1],
            decreases 254 - i,
        {
            self.bytes.set(i, filler[i - 1]);
            i += 1;
        }
        proof {
            assert(self@ =~= decoy_line(filler@));
        }
    }

    /// One refresh cycle: resample every byte of [1, 254) and restore the
    /// marker. Whatever the sampler returned, the buffer stays well formed.
    pub fn refresh(&mut self)
        requires
            old(self).wf(),
        ensures
            final(self).wf(),
    {
        let filler = sample_filler();
        self.refresh_with(&filler);
    }

    /// Decide the invariant at run time: true exactly when the buffer is
    /// well formed. Callers outside verified code can test it before they
    /// rely on it.
    pub fn is_well_formed(&self) -> (r: bool)
        ensures
            r == self.wf(),
    {
        if self.bytes.len() != 256 {
            return false;
        }
        if self.bytes[0] != DECOY_MARKER {
            return false;
        }
        if self.bytes[254] != CARRIAGE_RETURN {
            return false;
        }
        if self.bytes[255] != LINE_FEED {
            return false;
        }
        let mut i: usize = 1;
        while i < 254
            invariant
                1 <= i <= 254,
                self.bytes@.len() == 256,
                self.bytes@[0] == DECOY_MARKER,
                self.bytes@[254] == CARRIAGE_RETURN,
                self.bytes@[255] == LINE_FEED,
                forall|j: int| 1 <= j < i ==> SAMPLE_MIN <= #[trigger] self.bytes@[j] <= SAMPLE_MAX,
            decreases 254 - i,
        {
            if self.bytes[i] < SAMPLE_MIN || self.bytes[i] > SAMPLE_MAX {
                return false;
            }
            i += 1;
        }
        true
    }

    /// Copy the whole current line out. The copy is taken in one piece, so a
    /// reader holds either the line wholly before or wholly after any given
    /// refresh, never a mixture.
    pub fn snapshot(&self) -> (r: Vec<u8>)
        ensures
            r@ == self@,
    {
        let mut out: Vec<u8> = Vec::new();
        let mut i: usize = 0;
        while i < self.bytes.len()
            invariant
                i <= self.bytes@.len(),
                out@.len() == i,
                forall|j: int| 0 <= j < i ==> out@[j] == self.bytes@[j],
            decreases self.bytes@.len() - i,
        {
            out.push(self.bytes[i]);
            i += 1;
        }
        proof {
            assert(out@ =~= self@);
        }
        out
    }
}

/// Every well-formed decoy buffer keeps its framing at every observation
/// point: the fixed marker at position 0 and CRLF at positions 254 and 255.
pub proof fn lemma_buffer_framing(buf: DecoyBuffer)
    requires
        buf.wf(),
    ensures
        buf@.len() == 256,
        buf@[0] == DECOY_MARKER,
        buf@[254] == CARRIAGE_RETURN,
        buf@[255] == LINE_FEED,
{
}

/// No well-formed decoy buffer begins with the `SSH-` prefix: its first byte
/// is the fixed marker, which differs from `S`. A handler only ever sends
/// snapshots of a well-formed buffer, so it never sends a line a peer could
/// take for a real identification string.
pub proof fn lemma_no_ssh_prefix(buf: DecoyBuffer)
    requires
        buf.wf(),
    ensures
        !starts_with_ssh(buf@),
{
}

/// Every well-formed observation of the buffer is one whole decoy line:
/// the fixed marker, then its 253 filler bytes, then CRLF. A reader that
/// copies a well-formed buffer therefore holds a complete line of some one
/// refresh, never a mixture of two.
pub proof fn lemma_observation_is_whole_line(buf: DecoyBuffer)
    requires
        buf.wf(),
    ensures
        buf@ == decoy_line(buf@.subrange(1, 254)),
{
    assert(buf@ =~= decoy_line(buf@.subrange(1, 254)));
}

/// 253 bytes drawn independently from the sampled range.
fn sample_filler() -> (r: Vec<u8>)
    ensures
        r@.len() == 253,
        forall|i: int| 0 <= i < 253 ==> SAMPLE_MIN <= #[trigger] r@[i] <= SAMPLE_MAX,
{
    let mut v: Vec<u8> = Vec::new();
    let mut i: usize = 0;
    while i < 253
        invariant
            i <= 253,
            v@.len() == i,
            forall|j: int| 0 <= j < i ==> SAMPLE_MIN <= #[trigger] v@[j] <= SAMPLE_MAX,
        decreases 253 - i,
    {
        let b = sample_printable_byte();
        v.push(b);
        i += 1;
    }
    v
}

/// Relies on rand's `thread_rng` and `Rng::sample` with
/// `Uniform::new_inclusive(32, 127)`: each call draws one byte uniformly
/// from the closed range [32, 127].
#[verifier::external_body]
fn sample_printable_byte() -> (r: u8)
    ensures
        SAMPLE_MIN <= r <= SAMPLE_MAX,
{
    rand::thread_rng().sample(rand::distributions::Uniform::new_inclusive(SAMPLE_MIN, SAMPLE_MAX))
}

} // verus!
