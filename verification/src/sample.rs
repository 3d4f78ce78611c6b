//! Sample types for the keying stream.
//!
//! A [`StreamSample`] is one record of the keying timeline.  It has exactly
//! two interpretations, kept apart at the type level: a *concrete* sample
//! (one time slice of paddle, key and edge state) or a *silence marker* that
//! compresses a run of identical idle ticks into a single record.  Either
//! form serialises to the same fixed four-byte width.

use vstd::prelude::*;

verus! {

/// Bit in [`GpioState::bits`] for the DIT paddle (1 = pressed).
pub const GPIO_DIT: u8 = 0x01;

/// Bit in [`GpioState::bits`] for the DAH paddle (1 = pressed).
pub const GPIO_DAH: u8 = 0x02;

/// GPIO paddle state: the raw hardware input lines as a bitset.
///
/// Bit 0 is the DIT paddle, bit 1 the DAH paddle; the remaining bits are
/// reserved.  Plain value semantics, copied freely.
#[derive(Clone, Copy, Debug, PartialEq, Eq, Structural)]
pub struct GpioState {
    /// Raw GPIO bits.  Public for direct construction in tests.
    pub bits: u8,
}

impl GpioState {
    /// Whether the DIT paddle is pressed.
    pub open spec fn spec_dit(self) -> bool {
        self.bits & GPIO_DIT != 0
    }

    /// Whether the DAH paddle is pressed.
    pub open spec fn spec_dah(self) -> bool {
        self.bits & GPIO_DAH != 0
    }

    /// Create GPIO state from a raw byte.
    pub fn from_bits(bits: u8) -> (r: Self)
        ensures
            r == (GpioState { bits }),
    {
        GpioState { bits }
    }

    /// Create a new idle GPIO state (no paddles pressed).
    pub fn new() -> (r: Self)
        ensures
            r == (GpioState { bits: 0 }),
    {
        GpioState { bits: 0 }
    }

    /// Check if the DIT paddle is pressed.
    pub fn dit(&self) -> (r: bool)
        ensures
            r == self.spec_dit(),
    {
        (self.bits & GPIO_DIT) != 0
    }

    /// Check if the DAH paddle is pressed.
    pub fn dah(&self) -> (r: bool)
        ensures
            r == self.spec_dah(),
    {
        (self.bits & GPIO_DAH) != 0
    }

    /// Check if no input line at all is active.
    pub fn is_idle(&self) -> (r: bool)
        ensures
            r == (self.bits == 0),
    {
        self.bits == 0
    }

    /// Check if both paddles are pressed (squeeze).
    pub fn both(&self) -> (r: bool)
        ensures
            r == (self.spec_dit() && self.spec_dah()),
    {
        let r = (self.bits & (GPIO_DIT | GPIO_DAH)) == (GPIO_DIT | GPIO_DAH);
        proof {
            let b = self.bits;
            assert(((b & (1u8 | 2u8)) == (1u8 | 2u8)) == ((b & 1 != 0) && (b & 2 != 0)))
                by (bit_vector);
        }
        r
    }

    /// Check if only DIT is pressed, with every other line idle.
    pub fn dit_only(&self) -> (r: bool)
        ensures
            r == (self.bits == GPIO_DIT),
    {
        self.bits == GPIO_DIT
    }

    /// Check if only DAH is pressed, with every other line idle.
    pub fn dah_only(&self) -> (r: bool)
        ensures
            r == (self.bits == GPIO_DAH),
    {
        self.bits == GPIO_DAH
    }

    /// Set the DIT paddle state, leaving every other line unchanged.
    pub fn set_dit(&mut self, pressed: bool)
        ensures
            final(self).spec_dit() == pressed,
            final(self).spec_dah() == old(self).spec_dah(),
            final(self).bits == if pressed {
                old(self).bits | GPIO_DIT
            } else {
                old(self).bits & !GPIO_DIT
            },
    {
        if pressed {
            self.bits = self.bits | GPIO_DIT;
        } else {
            self.bits = self.bits & !GPIO_DIT;
        }
        proof {
            let b = old(self).bits;
            assert((b | 1) & 1 != 0 && (b | 1) & 2 == b & 2) by (bit_vector);
            assert((b & !1u8) & 1 == 0 && (b & !1u8) & 2 == b & 2) by (bit_vector);
        }
    }

    /// Set the DAH paddle state, leaving every other line unchanged.
    pub fn set_dah(&mut self, pressed: bool)
        ensures
            final(self).spec_dah() == pressed,
            final(self).spec_dit() == old(self).spec_dit(),
            final(self).bits == if pressed {
                old(self).bits | GPIO_DAH
            } else {
                old(self).bits & !GPIO_DAH
            },
    {
        if pressed {
            self.bits = self.bits | GPIO_DAH;
        } else {
            self.bits = self.bits & !GPIO_DAH;
        }
        proof {
            let b = old(self).bits;
            assert((b | 2) & 2 != 0 && (b | 2) & 1 == b & 1) by (bit_vector);
            assert((b & !2u8) & 2 == 0 && (b & !2u8) & 1 == b & 1) by (bit_vector);
        }
    }
}

/// GPIO state changed at this sample (edge detected).
pub const FLAG_GPIO_EDGE: u8 = 0x01;

/// Configuration changed at this sample.
pub const FLAG_CONFIG_CHANGE: u8 = 0x02;

/// TX mode started at this sample.
pub const FLAG_TX_START: u8 = 0x04;

/// RX mode started at this sample.
pub const FLAG_RX_START: u8 = 0x08;

/// Marks the record as a silence marker in the serialised form.
pub const FLAG_SILENCE: u8 = 0x10;

/// Local key level changed at this sample (key up/down transition).
pub const FLAG_LOCAL_EDGE: u8 = 0x20;

/// Remote key level changed at this sample.
pub const FLAG_REMOTE_EDGE: u8 = 0x40;

/// Largest run of idle ticks one silence marker can carry (2^23 - 1).
///
/// Longer runs are written as several markers, never truncated.
pub const MAX_SILENCE_RUN: u32 = 0x7F_FFFF;

/// One record of the keying timeline.
///
/// The two variants are the two interpretations the four-byte wire format
/// admits: a run-length marker for idle time, or one concrete time slice.
/// Edge flags on a concrete sample are relative to the concrete sample that
/// immediately precedes it in the stream.
#[derive(Clone, Copy, Debug, PartialEq, Eq, Structural)]
pub enum StreamSample {
    /// A compressed run of `ticks` identical idle ticks.
    Silence { ticks: u32 },
    /// One concrete time slice of keyer state.
    Concrete { gpio: GpioState, local_key: bool, remote_key: bool, flags: u8 },
}

impl StreamSample {
    /// A sample is well formed when a silence run is within the range one
    /// marker can encode, and a concrete sample does not carry the marker
    /// flag that tells the two serialised forms apart.
    pub open spec fn wf(self) -> bool {
        match self {
            StreamSample::Silence { ticks } => 1 <= ticks <= MAX_SILENCE_RUN,
            StreamSample::Concrete { flags, .. } => flags & FLAG_SILENCE == 0,
        }
    }

    /// The GPIO state carried by the sample; a silence marker stands for
    /// idle input.
    pub open spec fn spec_gpio(self) -> GpioState {
        match self {
            StreamSample::Silence { .. } => GpioState { bits: 0 },
            StreamSample::Concrete { gpio, .. } => gpio,
        }
    }

    /// The local key level; a silence marker stands for key up.
    pub open spec fn spec_local_key(self) -> bool {
        match self {
            StreamSample::Silence { .. } => false,
            StreamSample::Concrete { local_key, .. } => local_key,
        }
    }

    /// The remote key level; a silence marker stands for key up.
    pub open spec fn spec_remote_key(self) -> bool {
        match self {
            StreamSample::Silence { .. } => false,
            StreamSample::Concrete { remote_key, .. } => remote_key,
        }
    }

    /// The flags byte as it appears in the serialised form.
    pub open spec fn spec_flags(self) -> u8 {
        match self {
            StreamSample::Silence { .. } => FLAG_SILENCE,
            StreamSample::Concrete { flags, .. } => flags,
        }
    }

    /// Whether the sample is a silence marker.
    pub open spec fn spec_is_silence(self) -> bool {
        self is Silence
    }

    /// The run length of a silence marker; zero for a concrete sample.
    pub open spec fn spec_silence_ticks(self) -> u32 {
        match self {
            StreamSample::Silence { ticks } => ticks,
            StreamSample::Concrete { .. } => 0,
        }
    }

    /// Create a concrete sample with all fields idle.
    pub fn zero() -> (r: Self)
        ensures
            r == (StreamSample::Concrete {
                gpio: GpioState { bits: 0 },
                local_key: false,
                remote_key: false,
                flags: 0,
            }),
    {
        StreamSample::Concrete {
            gpio: GpioState { bits: 0 },
            local_key: false,
            remote_key: false,
            flags: 0,
        }
    }

    /// The GPIO state carried by the sample.
    pub fn gpio(&self) -> (r: GpioState)
        ensures
            r == self.spec_gpio(),
    {
        match self {
            StreamSample::Silence { .. } => GpioState { bits: 0 },
            StreamSample::Concrete { gpio, .. } => *gpio,
        }
    }

    /// The local key level (true = key down).
    pub fn local_key(&self) -> (r: bool)
        ensures
            r == self.spec_local_key(),
    {
        match self {
            StreamSample::Silence { .. } => false,
            StreamSample::Concrete { local_key, .. } => *local_key,
        }
    }

    /// The remote key level (true = key down).
    pub fn remote_key(&self) -> (r: bool)
        ensures
            r == self.spec_remote_key(),
    {
        match self {
            StreamSample::Silence { .. } => false,
            StreamSample::Concrete { remote_key, .. } => *remote_key,
        }
    }

    /// The flags byte as it appears in the serialised form.
    pub fn flags(&self) -> (r: u8)
        ensures
            r == self.spec_flags(),
    {
        match self {
            StreamSample::Silence { .. } => FLAG_SILENCE,
            StreamSample::Concrete { flags, .. } => *flags,
        }
    }

    /// Check whether this sample represents silence: no paddle activity, both
    /// keys up and no GPIO edge.  Silent samples are what the stream
    /// compresses into markers.
    pub fn is_silent(&self) -> (r: bool)
        ensures
            r == (self.spec_gpio().bits == 0 && !self.spec_local_key()
                && !self.spec_remote_key() && self.spec_flags() & FLAG_GPIO_EDGE == 0),
    {
        match self {
            StreamSample::Silence { .. } => {
                proof {
                    assert(0x10u8 & 0x01u8 == 0) by (bit_vector);
                }
                true
            },
            StreamSample::Concrete { gpio, local_key, remote_key, flags } => {
                gpio.bits == 0 && !*local_key && !*remote_key && (*flags & FLAG_GPIO_EDGE) == 0
            },
        }
    }

    /// Check whether this sample is a silence marker.
    pub fn is_silence(&self) -> (r: bool)
        ensures
            r == self.spec_is_silence(),
    {
        match self {
            StreamSample::Silence { .. } => true,
            StreamSample::Concrete { .. } => false,
        }
    }

    /// Create a silence marker for a run of `ticks` idle ticks.
    pub fn silence(ticks: u32) -> (r: Self)
        requires
            1 <= ticks <= MAX_SILENCE_RUN,
        ensures
            r == (StreamSample::Silence { ticks }),
    {
        StreamSample::Silence { ticks }
    }

    /// The number of idle ticks a silence marker represents (zero for a
    /// concrete sample).
    pub fn silence_ticks(&self) -> (r: u32)
        ensures
            r == self.spec_silence_ticks(),
    {
        match self {
            StreamSample::Silence { ticks } => *ticks,
            StreamSample::Concrete { .. } => 0,
        }
    }

    /// Whether two concrete samples differ in any of the compared fields:
    /// GPIO state, local key or remote key.  Edge flags are not compared.
    pub open spec fn spec_has_change_from(self, other: Self) -> bool {
        self.spec_gpio() != other.spec_gpio()
            || self.spec_local_key() != other.spec_local_key()
            || self.spec_remote_key() != other.spec_remote_key()
    }

    /// Check whether this sample differs from `other` in GPIO state, local
    /// key or remote key.  Used by the stream for silence compression.
    pub fn has_change_from(&self, other: &Self) -> (r: bool)
        ensures
            r == self.spec_has_change_from(*other),
    {
        self.gpio().bits != other.gpio().bits || self.local_key() != other.local_key()
            || self.remote_key() != other.remote_key()
    }

    /// The sample as stored by the stream: same fields, with one edge flag
    /// set for each compared field that differs from `prev`.
    pub open spec fn spec_with_edges_from(self, prev: Self) -> StreamSample {
        StreamSample::Concrete {
            gpio: self.spec_gpio(),
            local_key: self.spec_local_key(),
            remote_key: self.spec_remote_key(),
            flags: (self.spec_flags()
                | (if self.spec_gpio() != prev.spec_gpio() { FLAG_GPIO_EDGE } else { 0 })
                | (if self.spec_local_key() != prev.spec_local_key() { FLAG_LOCAL_EDGE } else { 0 })
                | (if self.spec_remote_key() != prev.spec_remote_key() { FLAG_REMOTE_EDGE } else { 0 })),
        }
    }

    /// Copy of this sample with edge flags set relative to `prev`.
    ///
    /// The edge flags record which of GPIO, local key and remote key changed
    /// with respect to the immediately preceding concrete sample; flags that
    /// are already set are kept.
    pub fn with_edges_from(&self, prev: &Self) -> (r: Self)
        requires
            self is Concrete,
            prev is Concrete,
        ensures
            r == self.spec_with_edges_from(*prev),
            r.spec_flags() & FLAG_GPIO_EDGE != 0 == (self.spec_flags() & FLAG_GPIO_EDGE != 0
                || self.spec_gpio() != prev.spec_gpio()),
            r.spec_flags() & FLAG_LOCAL_EDGE != 0 == (self.spec_flags() & FLAG_LOCAL_EDGE != 0
                || self.spec_local_key() != prev.spec_local_key()),
            r.spec_flags() & FLAG_REMOTE_EDGE != 0 == (self.spec_flags() & FLAG_REMOTE_EDGE != 0
                || self.spec_remote_key() != prev.spec_remote_key()),
            self.wf() ==> r.wf(),
    {
        let gpio_changed = self.gpio().bits != prev.gpio().bits;
        let local_changed = self.local_key() != prev.local_key();
        let remote_changed = self.remote_key() != prev.remote_key();
        proof {
            assert(gpio_changed == (self.spec_gpio() != prev.spec_gpio()));
        }
        let flags = self.flags() | (if gpio_changed { FLAG_GPIO_EDGE } else { 0 })
            | (if local_changed { FLAG_LOCAL_EDGE } else { 0 })
            | (if remote_changed { FLAG_REMOTE_EDGE } else { 0 });
        proof {
            lemma_edge_flags(
                self.spec_flags(),
                self.spec_gpio() != prev.spec_gpio(),
                self.spec_local_key() != prev.spec_local_key(),
                self.spec_remote_key() != prev.spec_remote_key(),
            );
        }
        StreamSample::Concrete {
            gpio: self.gpio(),
            local_key: self.local_key(),
            remote_key: self.remote_key(),
            flags,
        }
    }

    /// Check if the local key level changed at this sample.
    pub fn has_local_edge(&self) -> (r: bool)
        ensures
            r == (self.spec_flags() & FLAG_LOCAL_EDGE != 0),
    {
        (self.flags() & FLAG_LOCAL_EDGE) != 0
    }

    /// Check if the GPIO state changed at this sample.
    pub fn has_gpio_edge(&self) -> (r: bool)
        ensures
            r == (self.spec_flags() & FLAG_GPIO_EDGE != 0),
    {
        (self.flags() & FLAG_GPIO_EDGE) != 0
    }

    /// Check if the remote key level changed at this sample.
    pub fn has_remote_edge(&self) -> (r: bool)
        ensures
            r == (self.spec_flags() & FLAG_REMOTE_EDGE != 0),
    {
        (self.flags() & FLAG_REMOTE_EDGE) != 0
    }

    /// Check if the configuration changed at this sample.
    pub fn config_changed(&self) -> (r: bool)
        ensures
            r == (self.spec_flags() & FLAG_CONFIG_CHANGE != 0),
    {
        (self.flags() & FLAG_CONFIG_CHANGE) != 0
    }

    /// Check if TX mode started at this sample.
    pub fn tx_started(&self) -> (r: bool)
        ensures
            r == (self.spec_flags() & FLAG_TX_START != 0),
    {
        (self.flags() & FLAG_TX_START) != 0
    }

    /// Check if RX mode started at this sample.
    pub fn rx_started(&self) -> (r: bool)
        ensures
            r == (self.spec_flags() & FLAG_RX_START != 0),
    {
        (self.flags() & FLAG_RX_START) != 0
    }

    /// The four-byte serialised form shared by both variants.
    ///
    /// A silence marker carries its run length in the first three bytes
    /// (little endian) and the marker flag in the last; a concrete sample
    /// carries GPIO, local key, remote key and flags, one byte each.
    pub open spec fn spec_encode(self) -> Seq<u8> {
        match self {
            StreamSample::Silence { ticks } => seq![
                (ticks & 0xFF) as u8,
                ((ticks >> 8) & 0xFF) as u8,
                ((ticks >> 16) & 0xFF) as u8,
                FLAG_SILENCE,
            ],
            StreamSample::Concrete { gpio, local_key, remote_key, flags } => seq![
                gpio.bits,
                if local_key { 1u8 } else { 0u8 },
                if remote_key { 1u8 } else { 0u8 },
                flags,
            ],
        }
    }

    /// The sample a four-byte record denotes, if the record is canonical:
    /// the inverse of [`StreamSample::spec_encode`] on well-formed samples.
    pub open spec fn spec_decode(b: Seq<u8>) -> Option<StreamSample> {
        if b.len() != 4 {
            None
        } else if b[3] & FLAG_SILENCE != 0 {
            if b[3] == FLAG_SILENCE {
                let ticks = (b[0] as u32) | ((b[1] as u32) << 8) | ((b[2] as u32) << 16);
                if 1 <= ticks <= MAX_SILENCE_RUN {
                    Some(StreamSample::Silence { ticks })
                } else {
                    None
                }
            } else {
                None
            }
        } else if (b[1] == 0 || b[1] == 1) && (b[2] == 0 || b[2] == 1) {
            Some(StreamSample::Concrete {
                gpio: GpioState { bits: b[0] },
                local_key: b[1] == 1,
                remote_key: b[2] == 1,
                flags: b[3],
            })
        } else {
            None
        }
    }

    /// Serialise the sample to its fixed four-byte form.
    pub fn encode(&self) -> (r: Vec<u8>)
        ensures
            r@ == self.spec_encode(),
            r@.len() == 4,
    {
        let mut out: Vec<u8> = Vec::new();
        match self {
            StreamSample::Silence { ticks } => {
                let t = *ticks;
                proof {
                    assert(t & 0xFF <= 0xFF && (t >> 8) & 0xFF <= 0xFF && (t >> 16) & 0xFF <= 0xFF)
                        by (bit_vector);
                }
                out.push((t & 0xFF) as u8);
                out.push(((t >> 8) & 0xFF) as u8);
                out.push(((t >> 16) & 0xFF) as u8);
                out.push(FLAG_SILENCE);
            },
            StreamSample::Concrete { gpio, local_key, remote_key, flags } => {
                out.push(gpio.bits);
                out.push(if *local_key { 1 } else { 0 });
                out.push(if *remote_key { 1 } else { 0 });
                out.push(*flags);
            },
        }
        proof {
            assert(out@ =~= self.spec_encode());
        }
        out
    }

    /// Parse a four-byte record back into a sample; `None` when the record
    /// is not a canonical encoding.
    pub fn decode(bytes: &[u8]) -> (r: Option<StreamSample>)
        ensures
            r == Self::spec_decode(bytes@),
    {
        if bytes.len() != 4 {
            return None;
        }
        let b0 = bytes[0];
        let b1 = bytes[1];
        let b2 = bytes[2];
        let b3 = bytes[3];
        if (b3 & FLAG_SILENCE) != 0 {
            if b3 == FLAG_SILENCE {
                let ticks = (b0 as u32) | ((b1 as u32) << 8) | ((b2 as u32) << 16);
                if 1 <= ticks && ticks <= MAX_SILENCE_RUN {
                    Some(StreamSample::Silence { ticks })
                } else {
                    None
                }
            } else {
                None
            }
        } else if (b1 == 0 || b1 == 1) && (b2 == 0 || b2 == 1) {
            Some(StreamSample::Concrete {
                gpio: GpioState { bits: b0 },
                local_key: b1 == 1,
                remote_key: b2 == 1,
                flags: b3,
            })
        } else {
            None
        }
    }
}

/// Round trip of the wire form: decoding the encoding of any well-formed
/// sample gives the sample back.
pub proof fn lemma_encode_decode(s: StreamSample)
    requires
        s.wf(),
    ensures
        StreamSample::spec_decode(s.spec_encode()) == Some(s),
{
    match s {
        StreamSample::Silence { ticks } => {
            let t = ticks;
            assert(t <= 0x7F_FFFF ==> ((t & 0xFF) as u8 as u32) | ((((t >> 8) & 0xFF) as u8 as u32)
                << 8) | ((((t >> 16) & 0xFF) as u8 as u32) << 16) == t) by (bit_vector);
            assert(0x10u8 & 0x10u8 != 0) by (bit_vector);
        },
        StreamSample::Concrete { gpio, local_key, remote_key, flags } => {
            assert(s.spec_encode()[3] == flags);
        },
    }
}

/// Edge flags are relative, not absolute: a fresh sample (no flags of its
/// own, as the keyer emits them) stored after a previous concrete sample
/// carries exactly one edge flag for each compared field that differs — in
/// particular, when only the local key differs, the stored sample has the
/// local edge flag set and the GPIO and remote edge flags clear.
pub proof fn lemma_edge_flags_relative(prev: StreamSample, next: StreamSample)
    requires
        prev is Concrete,
        next is Concrete,
        next.spec_flags() == 0,
    ensures
        ({
            let stored = next.spec_with_edges_from(prev);
            &&& (stored.spec_flags() & FLAG_GPIO_EDGE != 0) == (next.spec_gpio()
                != prev.spec_gpio())
            &&& (stored.spec_flags() & FLAG_LOCAL_EDGE != 0) == (next.spec_local_key()
                != prev.spec_local_key())
            &&& (stored.spec_flags() & FLAG_REMOTE_EDGE != 0) == (next.spec_remote_key()
                != prev.spec_remote_key())
        }),
{
    assert(0u8 & 0x01u8 == 0 && 0u8 & 0x20u8 == 0 && 0u8 & 0x40u8 == 0) by (bit_vector);
    lemma_edge_flags(
        0,
        next.spec_gpio() != prev.spec_gpio(),
        next.spec_local_key() != prev.spec_local_key(),
        next.spec_remote_key() != prev.spec_remote_key(),
    );
}

/// How the edge bits that `with_edges_from` may set distribute over the
/// flags byte: each decoded bit is the disjunction of the bit already set
/// and the corresponding change, and the silence bit is untouched.
proof fn lemma_edge_flags(f: u8, g: bool, l: bool, rm: bool)
    ensures
        ((f | (if g { 0x01u8 } else { 0u8 }) | (if l { 0x20u8 } else { 0u8 })
            | (if rm { 0x40u8 } else { 0u8 })) & 0x01 != 0) == (f & 0x01 != 0 || g),
        ((f | (if g { 0x01u8 } else { 0u8 }) | (if l { 0x20u8 } else { 0u8 })
            | (if rm { 0x40u8 } else { 0u8 })) & 0x20 != 0) == (f & 0x20 != 0 || l),
        ((f | (if g { 0x01u8 } else { 0u8 }) | (if l { 0x20u8 } else { 0u8 })
            | (if rm { 0x40u8 } else { 0u8 })) & 0x40 != 0) == (f & 0x40 != 0 || rm),
        ((f | (if g { 0x01u8 } else { 0u8 }) | (if l { 0x20u8 } else { 0u8 })
            | (if rm { 0x40u8 } else { 0u8 })) & 0x10) == (f & 0x10),
{
    let a: u8 = if g { 0x01 } else { 0 };
    let b: u8 = if l { 0x20 } else { 0 };
    let c: u8 = if rm { 0x40 } else { 0 };
    assert((a == 0x01 || a == 0) && (b == 0x20 || b == 0) && (c == 0x40 || c == 0));
    assert((a == 0x01 || a == 0) && (b == 0x20 || b == 0) && (c == 0x40 || c == 0) ==> {
        &&& ((f | a | b | c) & 0x01 != 0) == (f & 0x01 != 0 || a == 0x01)
        &&& ((f | a | b | c) & 0x20 != 0) == (f & 0x20 != 0 || b == 0x20)
        &&& ((f | a | b | c) & 0x40 != 0) == (f & 0x40 != 0 || c == 0x40)
        &&& ((f | a | b | c) & 0x10) == (f & 0x10)
    }) by (bit_vector);
}

} // verus!
