//! The byte-buffer writer at the bottom of the encoder.
//!
//! [`WasmEncoder`] owns a growable byte buffer and offers the primitive write
//! operations every other encoding builds on: raw bytes, fixed-width
//! little-endian integers, variable-length LEB128 integers, length-prefixed
//! names, and the length-splicing step used by the section framing protocol.
//! Each operation returns exactly the number of bytes it appended; higher
//! layers sum those counts instead of re-scanning the buffer.
//!
//! The byte layout itself is captured by spec functions ([`uleb128`],
//! [`sleb128`], [`le_bytes_u16`], ...) so that every contract states the
//! appended bytes exactly.

use vstd::prelude::*;
use vstd::string::StringSliceAdditionalSpecFns;

verus! {

/// The unsigned LEB128 encoding of `v`: 7 bits of payload per byte, low bits
/// first, with the high bit of a byte set exactly when more bytes follow.
/// The encoding is minimal; see [`lemma_uleb128_minimal`].
pub open spec fn uleb128(v: nat) -> Seq<u8>
    decreases v,
{
    if v < 128 {
        seq![v as u8]
    } else {
        seq![(v % 128 + 128) as u8] + uleb128(v / 128)
    }
}

/// The signed LEB128 encoding of `v`: 7 bits of payload per byte, low bits
/// first.  A group is final exactly when the remaining value is already
/// represented by sign-extending the group's 7-bit payload, which is the case
/// iff `v` lies in `[-64, 64)`.
pub open spec fn sleb128(v: int) -> Seq<u8>
    decreases (if v < 0 { -v } else { v }),
{
    if -64 <= v < 64 {
        seq![(v % 128) as u8]
    } else {
        seq![(v % 128 + 128) as u8] + sleb128(v / 128)
    }
}

/// The value that a little-endian base-128 reader recovers from `s`,
/// ignoring the continuation bits.
pub open spec fn uleb128_decode(s: Seq<u8>) -> nat
    decreases s.len(),
{
    if s.len() == 0 {
        0
    } else {
        (s[0] % 128) as nat + 128 * uleb128_decode(s.drop_first())
    }
}

/// The two bytes of `v` in little-endian order.
pub open spec fn le_bytes_u16(v: u16) -> Seq<u8> {
    seq![(v % 256) as u8, (v / 256) as u8]
}

/// The four bytes of `v` in little-endian order.
pub open spec fn le_bytes_u32(v: u32) -> Seq<u8> {
    seq![
        (v % 256) as u8,
        ((v / 256) % 256) as u8,
        ((v / 0x10000) % 256) as u8,
        (v / 0x1000000) as u8,
    ]
}

/// The eight bytes of `v` in little-endian order.
pub open spec fn le_bytes_u64(v: u64) -> Seq<u8> {
    le_bytes_u32((v % 0x1_0000_0000) as u32) + le_bytes_u32((v / 0x1_0000_0000) as u32)
}

/// The concatenation of the unsigned LEB128 encodings of the values of `s`,
/// in order.
pub open spec fn uleb128_seq(s: Seq<u32>) -> Seq<u8>
    decreases s.len(),
{
    if s.len() == 0 {
        Seq::empty()
    } else {
        uleb128(s[0] as nat) + uleb128_seq(s.drop_first())
    }
}

/// Peels the value at position `k` off the tail concatenation.
pub proof fn lemma_uleb128_seq_skip(s: Seq<u32>, k: int)
    requires
        0 <= k < s.len(),
    ensures
        uleb128_seq(s.skip(k)) == uleb128(s[k] as nat) + uleb128_seq(s.skip(k + 1)),
{
    assert(s.skip(k)[0] == s[k]);
    assert(s.skip(k).drop_first() =~= s.skip(k + 1));
}

/// A name as it appears in the binary format: the UTF-8 byte length as
/// unsigned LEB128, followed by the UTF-8 bytes themselves.
pub open spec fn name_enc(chars: Seq<char>) -> Seq<u8> {
    uleb128(vstd::utf8::encode_utf8(chars).len()) + vstd::utf8::encode_utf8(chars)
}

/// A section (or any length-framed region) as it appears in the binary
/// format: a one-byte id, the content's byte length as unsigned LEB128, and
/// the content itself.
pub open spec fn section_frame(id: u8, content: Seq<u8>) -> Seq<u8> {
    seq![id] + uleb128(content.len()) + content
}

/// 128 raised to the power `n`; the number of values an `n`-byte LEB128
/// encoding can carry.
spec fn pow128(n: nat) -> nat
    decreases n,
{
    if n == 0 {
        1
    } else {
        128 * pow128((n - 1) as nat)
    }
}

/// Unsigned LEB128 round-trip: decoding the encoding of any value yields
/// that value back.
pub proof fn lemma_uleb128_round_trip(v: nat)
    ensures
        uleb128_decode(uleb128(v)) == v,
    decreases v,
{
    if v < 128 {
        assert(seq![v as u8].drop_first() =~= Seq::<u8>::empty());
        assert(uleb128_decode(seq![v as u8]) == (v as u8 % 128) as nat + 128 * uleb128_decode(
            seq![v as u8].drop_first(),
        ));
    } else {
        lemma_uleb128_round_trip(v / 128);
        assert(uleb128(v).drop_first() =~= uleb128(v / 128));
        assert(uleb128(v)[0] == (v % 128 + 128) as u8);
        assert(uleb128_decode(uleb128(v)) == (uleb128(v)[0] % 128) as nat + 128 * uleb128_decode(
            uleb128(v).drop_first(),
        ));
    }
}

/// A sequence of `n` base-128 groups cannot carry a value of `pow128(n)` or
/// more.
proof fn lemma_uleb128_decode_bound(s: Seq<u8>)
    ensures
        uleb128_decode(s) < pow128(s.len()),
    decreases s.len(),
{
    if s.len() > 0 {
        lemma_uleb128_decode_bound(s.drop_first());
        let rest = uleb128_decode(s.drop_first());
        let cap = pow128(s.drop_first().len());
        vstd::arithmetic::mul::lemma_mul_inequality(rest as int, cap as int - 1, 128);
    }
}

/// A value that needs `n` encoded bytes is at least `pow128(n - 1)`, for
/// `n > 1`.
proof fn lemma_uleb128_len_lower(v: nat)
    ensures
        uleb128(v).len() > 1 ==> pow128((uleb128(v).len() - 1) as nat) <= v,
    decreases v,
{
    if v >= 128 {
        lemma_uleb128_len_lower(v / 128);
        let n = uleb128(v / 128).len();
        if n > 1 {
            vstd::arithmetic::mul::lemma_mul_inequality(
                pow128((n - 1) as nat) as int,
                (v / 128) as int,
                128,
            );
        }
    }
}

/// `pow128` is monotone.
proof fn lemma_pow128_monotone(m: nat, n: nat)
    requires
        m <= n,
    ensures
        pow128(m) <= pow128(n),
    decreases n,
{
    if m < n {
        lemma_pow128_monotone(m, (n - 1) as nat);
        vstd::arithmetic::mul::lemma_mul_inequality(1, 128, pow128((n - 1) as nat) as int);
    }
}

/// Unsigned LEB128 minimality: no byte sequence that decodes to `v` is
/// shorter than the encoding this crate produces.
pub proof fn lemma_uleb128_minimal(v: nat, s: Seq<u8>)
    requires
        s.len() >= 1,
        uleb128_decode(s) == v,
    ensures
        s.len() >= uleb128(v).len(),
{
    if s.len() < uleb128(v).len() {
        lemma_uleb128_len_lower(v);
        lemma_uleb128_decode_bound(s);
        lemma_pow128_monotone(s.len(), (uleb128(v).len() - 1) as nat);
        assert(false);
    }
}

/// Relates the buffer layout just before the length splice of a section:
/// with the placeholder byte still in place, everything before it is the
/// prior buffer contents plus the section id, and everything after it is the
/// framed content.
pub proof fn lemma_frame_splice(pre: Seq<u8>, id: u8, content: Seq<u8>)
    ensures
        ({
            let whole = pre + seq![id] + seq![0u8] + content;
            &&& whole.len() == pre.len() + 2 + content.len()
            &&& whole.subrange(0, whole.len() - content.len() - 1) == pre + seq![id]
            &&& whole.subrange(whole.len() - content.len(), whole.len() as int) == content
        }),
{
    let whole = pre + seq![id] + seq![0u8] + content;
    assert(whole.subrange(0, whole.len() - content.len() - 1) =~= pre + seq![id]);
    assert(whole.subrange(whole.len() - content.len(), whole.len() as int) =~= content);
}

/// The same, for a length-framed region without a leading id byte (a code
/// section function body).
pub proof fn lemma_body_splice(pre: Seq<u8>, content: Seq<u8>)
    ensures
        ({
            let whole = pre + seq![0u8] + content;
            &&& whole.len() == pre.len() + 1 + content.len()
            &&& whole.subrange(0, whole.len() - content.len() - 1) == pre
            &&& whole.subrange(whole.len() - content.len(), whole.len() as int) == content
        }),
{
    let whole = pre + seq![0u8] + content;
    assert(whole.subrange(0, whole.len() - content.len() - 1) =~= pre);
    assert(whole.subrange(whole.len() - content.len(), whole.len() as int) =~= content);
}

/// Section length-prefix correctness: in any framed region the length field
/// is the unsigned LEB128 encoding of the byte length of the content that
/// follows it, so decoding the length field yields exactly the length of the
/// rest.  This holds for content of any size, including content long enough
/// to force a multi-byte length field.
pub proof fn lemma_section_frame_length(id: u8, content: Seq<u8>)
    ensures
        ({
            let frame = section_frame(id, content);
            let length_field = uleb128(content.len());
            &&& frame.len() == 1 + length_field.len() + content.len()
            &&& frame[0] == id
            &&& frame.subrange(1, 1 + length_field.len() as int) == length_field
            &&& frame.subrange(1 + length_field.len() as int, frame.len() as int) == content
            &&& uleb128_decode(frame.subrange(1, 1 + length_field.len() as int)) == frame.subrange(
                1 + length_field.len() as int,
                frame.len() as int,
            ).len()
        }),
{
    let frame = section_frame(id, content);
    let length_field = uleb128(content.len());
    lemma_uleb128_round_trip(content.len());
    assert(frame.subrange(1, 1 + length_field.len() as int) =~= length_field);
    assert(frame.subrange(1 + length_field.len() as int, frame.len() as int) =~= content);
}

/// How long unsigned LEB128 encodings are: always at least one byte, and one
/// extra byte for every further 7 bits of the value.
pub proof fn lemma_uleb128_len(v: nat)
    ensures
        1 <= uleb128(v).len(),
        v < 0x80 ==> uleb128(v).len() == 1,
        v < 0x4000 ==> uleb128(v).len() <= 2,
        v < 0x20_0000 ==> uleb128(v).len() <= 3,
        v < 0x1000_0000 ==> uleb128(v).len() <= 4,
        v < 0x8_0000_0000 ==> uleb128(v).len() <= 5,
        v < 0x400_0000_0000 ==> uleb128(v).len() <= 6,
        v < 0x2_0000_0000_0000 ==> uleb128(v).len() <= 7,
        v < 0x100_0000_0000_0000 ==> uleb128(v).len() <= 8,
        v < 0x8000_0000_0000_0000 ==> uleb128(v).len() <= 9,
        v < 0x1_0000_0000_0000_0000 ==> uleb128(v).len() <= 10,
    decreases v,
{
    if v >= 128 {
        lemma_uleb128_len(v / 128);
    }
}

/// How long signed LEB128 encodings are, for values in the 32-bit and 64-bit
/// ranges.
pub proof fn lemma_sleb128_len(v: int)
    ensures
        1 <= sleb128(v).len(),
        -0x40 <= v < 0x40 ==> sleb128(v).len() == 1,
        -0x2000 <= v < 0x2000 ==> sleb128(v).len() <= 2,
        -0x10_0000 <= v < 0x10_0000 ==> sleb128(v).len() <= 3,
        -0x800_0000 <= v < 0x800_0000 ==> sleb128(v).len() <= 4,
        -0x4_0000_0000 <= v < 0x4_0000_0000 ==> sleb128(v).len() <= 5,
        -0x200_0000_0000 <= v < 0x200_0000_0000 ==> sleb128(v).len() <= 6,
        -0x1_0000_0000_0000 <= v < 0x1_0000_0000_0000 ==> sleb128(v).len() <= 7,
        -0x80_0000_0000_0000 <= v < 0x80_0000_0000_0000 ==> sleb128(v).len() <= 8,
        -0x4000_0000_0000_0000 <= v < 0x4000_0000_0000_0000 ==> sleb128(v).len() <= 9,
        -0x20_0000_0000_0000_0000 <= v < 0x20_0000_0000_0000_0000 ==> sleb128(v).len() <= 10,
    decreases (if v < 0 { -v } else { v }),
{
    if !(-64 <= v < 64) {
        lemma_sleb128_len(v / 128);
    }
}

/// The append-only byte buffer that all encoding writes into.  Its view is
/// the sequence of bytes written so far.
pub struct WasmEncoder {
    bytes: Vec<u8>,
}

impl View for WasmEncoder {
    type V = Seq<u8>;

    closed spec fn view(&self) -> Seq<u8> {
        self.bytes@
    }
}

impl WasmEncoder {
    /// A fresh, empty buffer.
    pub fn new() -> (encoder: WasmEncoder)
        ensures
            encoder@ == Seq::<u8>::empty(),
    {
        WasmEncoder { bytes: Vec::new() }
    }

    /// The bytes written so far.
    pub fn as_slice(&self) -> (bytes: &[u8])
        ensures
            bytes@ == self@,
    {
        self.bytes.as_slice()
    }

    /// Appends one byte.  Returns 1.
    pub fn push_u8(&mut self, byte: u8) -> (count: u32)
        ensures
            final(self)@ == old(self)@ + seq![byte],
            count == 1,
    {
        self.bytes.push(byte);
        1
    }

    /// Appends `value` as two little-endian bytes.  Returns 2.
    pub fn push_u16(&mut self, value: u16) -> (count: u32)
        ensures
            final(self)@ == old(self)@ + le_bytes_u16(value),
            count == 2,
    {
        self.bytes.push((value % 256) as u8);
        self.bytes.push((value / 256) as u8);
        proof {
            assert(final(self)@ =~= old(self)@ + le_bytes_u16(value));
        }
        2
    }

    /// Appends `value` as four little-endian bytes.  Returns 4.
    pub fn push_u32(&mut self, value: u32) -> (count: u32)
        ensures
            final(self)@ == old(self)@ + le_bytes_u32(value),
            count == 4,
    {
        self.bytes.push((value % 256) as u8);
        self.bytes.push(((value / 256) % 256) as u8);
        self.bytes.push(((value / 0x10000) % 256) as u8);
        self.bytes.push((value / 0x1000000) as u8);
        proof {
            assert(final(self)@ =~= old(self)@ + le_bytes_u32(value));
        }
        4
    }

    /// Appends the minimal unsigned LEB128 encoding of `value` and returns
    /// how many bytes that took (between 1 and 5).
    pub fn push_leb_u32(&mut self, value: u32) -> (count: u32)
        ensures
            final(self)@ == old(self)@ + uleb128(value as nat),
            count as int == uleb128(value as nat).len(),
            1 <= count <= 5,
    {
        proof {
            lemma_uleb128_len(value as nat);
        }
        self.push_leb_u64(value as u64)
    }

    /// Appends the minimal unsigned LEB128 encoding of `value` and returns
    /// how many bytes that took (between 1 and 10).
    pub fn push_leb_u64(&mut self, value: u64) -> (count: u32)
        ensures
            final(self)@ == old(self)@ + uleb128(value as nat),
            count as int == uleb128(value as nat).len(),
            1 <= count <= 10,
    {
        let ghost pre = self@;
        let mut v: u64 = value;
        let mut byte_count: u32 = 0;
        proof {
            lemma_uleb128_len(value as nat);
        }
        loop
            invariant
                pre == old(self)@,
                self@ + uleb128(v as nat) == pre + uleb128(value as nat),
                byte_count as int + pre.len() == self@.len(),
                pre.len() <= self@.len(),
                byte_count as int + uleb128(v as nat).len() == uleb128(value as nat).len(),
                uleb128(value as nat).len() <= 10,
            decreases v,
        {
            proof {
                lemma_uleb128_len(v as nat);
            }
            if v < 128 {
                self.bytes.push(v as u8);
                proof {
                    assert(self@ =~= pre + uleb128(value as nat));
                }
                return byte_count + 1;
            } else {
                let byte: u8 = ((v % 128) + 128) as u8;
                self.bytes.push(byte);
                byte_count = byte_count + 1;
                let ghost v0 = v;
                v = v / 128;
                proof {
                    assert(uleb128(v0 as nat) == seq![byte] + uleb128(v as nat));
                    assert(self@ + uleb128(v as nat) =~= pre + uleb128(value as nat));
                }
            }
        }
    }

    /// Appends the minimal signed LEB128 encoding of `value` and returns how
    /// many bytes that took (between 1 and 5).
    pub fn push_leb_i32(&mut self, value: i32) -> (count: u32)
        ensures
            final(self)@ == old(self)@ + sleb128(value as int),
            count as int == sleb128(value as int).len(),
            1 <= count <= 5,
    {
        proof {
            lemma_sleb128_len(value as int);
        }
        self.push_leb_i64(value as i64)
    }

    /// Appends the minimal signed LEB128 encoding of `value` and returns how
    /// many bytes that took (between 1 and 10).
    pub fn push_leb_i64(&mut self, value: i64) -> (count: u32)
        ensures
            final(self)@ == old(self)@ + sleb128(value as int),
            count as int == sleb128(value as int).len(),
            1 <= count <= 10,
    {
        let ghost pre = self@;
        let mut v: i64 = value;
        let mut byte_count: u32 = 0;
        proof {
            lemma_sleb128_len(value as int);
        }
        loop
            invariant
                pre == old(self)@,
                self@ + sleb128(v as int) == pre + sleb128(value as int),
                byte_count as int + pre.len() == self@.len(),
                pre.len() <= self@.len(),
                byte_count as int + sleb128(v as int).len() == sleb128(value as int).len(),
                sleb128(value as int).len() <= 10,
            decreases (if v < 0 { -(v as int) } else { v as int }),
        {
            proof {
                lemma_sleb128_len(v as int);
            }
            if -64 <= v && v < 64 {
                // The final group: its payload sign-extends back to `v`.
                let byte: u8 = if v < 0 {
                    (v + 128) as u8
                } else {
                    v as u8
                };
                self.bytes.push(byte);
                proof {
                    assert(byte == (v as int) % 128);
                    assert(self@ =~= pre + sleb128(value as int));
                }
                return byte_count + 1;
            } else if v >= 64 {
                // Positive with more significant bits to come.
                let u: u64 = v as u64;
                let byte: u8 = ((u % 128) + 128) as u8;
                self.bytes.push(byte);
                byte_count = byte_count + 1;
                let ghost v0 = v;
                v = (u / 128) as i64;
                proof {
                    assert(v as int == (v0 as int) / 128);
                    assert((byte - 128) as int == (v0 as int) % 128);
                    assert(sleb128(v0 as int) == seq![byte] + sleb128(v as int));
                    assert(self@ + sleb128(v as int) =~= pre + sleb128(value as int));
                }
            } else {
                // Negative with more significant bits to come.  Work on the
                // magnitude `m == -(v + 1)` so that all arithmetic stays in
                // range: with `m == 128 * a + b`, the group's payload is
                // `127 - b` and the arithmetically shifted value is `-(a + 1)`.
                let m: u64 = (-(v + 1)) as u64;
                let b: u64 = m % 128;
                let a: u64 = m / 128;
                let byte: u8 = ((127 - b) + 128) as u8;
                self.bytes.push(byte);
                byte_count = byte_count + 1;
                let ghost v0 = v;
                v = -(a as i64) - 1;
                proof {
                    vstd::arithmetic::div_mod::lemma_fundamental_div_mod_converse(
                        v0 as int, 128, -(a as int) - 1, 127 - (b as int));
                    assert(v as int == (v0 as int) / 128);
                    assert((byte - 128) as int == (v0 as int) % 128);
                    assert(sleb128(v0 as int) == seq![byte] + sleb128(v as int));
                    assert(self@ + sleb128(v as int) =~= pre + sleb128(value as int));
                }
            }
        }
    }

    /// Appends the byte length of `string` as unsigned LEB128, then its
    /// UTF-8 bytes, and returns the total number of bytes appended.
    pub fn push_str(&mut self, string: &str) -> (count: u32)
        requires
            old(self)@.len() + name_enc(string@).len() <= u32::MAX as int,
        ensures
            final(self)@ == old(self)@ + name_enc(string@),
            count as int == name_enc(string@).len(),
    {
        let bytes = string.as_bytes();
        proof {
            lemma_uleb128_len(bytes@.len());
        }
        let len_count = self.push_leb_u64(bytes.len() as u64);
        let ghost mid = self@;
        let mut i: usize = 0;
        while i < bytes.len()
            invariant
                mid == old(self)@ + uleb128(bytes@.len()),
                bytes@ == vstd::utf8::encode_utf8(string@),
                i <= bytes@.len(),
                self@ == mid + bytes@.take(i as int),
            decreases bytes@.len() - i,
        {
            self.bytes.push(bytes[i]);
            proof {
                assert(mid + bytes@.take(i as int) + seq![bytes@[i as int]] =~= mid + bytes@.take(
                    i as int + 1,
                ));
            }
            i = i + 1;
        }
        proof {
            assert(bytes@.take(bytes@.len() as int) =~= bytes@);
            assert(old(self)@ + uleb128(bytes@.len()) + bytes@ =~= old(self)@ + name_enc(
                string@,
            ));
        }
        len_count + (bytes.len() as u32)
    }

    /// Splices the unsigned LEB128 encoding of `length` over the single
    /// placeholder byte that sits immediately before the last `length` bytes
    /// of the buffer, and returns the width of the spliced length field.
    ///
    /// This is the reconciliation step of the length-framing protocol: a
    /// caller pushes a section id, one placeholder byte, then `length` bytes
    /// of content, and finally calls this function to replace the placeholder
    /// with the true length, however many bytes that takes.
    pub fn write_length(&mut self, length: u32) -> (count: u32)
        requires
            length + 1 <= old(self)@.len(),
        ensures
            final(self)@ == old(self)@.subrange(0, old(self)@.len() - length - 1) + uleb128(
                length as nat,
            ) + old(self)@.subrange(old(self)@.len() - length, old(self)@.len() as int),
            count as int == uleb128(length as nat).len(),
            1 <= count <= 5,
    {
        let splice_index = self.bytes.len() - (length as usize) - 1;
        let ghost prefix = old(self)@.subrange(0, splice_index as int);
        let ghost suffix = old(self)@.subrange(splice_index as int + 1, old(self)@.len() as int);
        let mut leb = WasmEncoder::new();
        let count = leb.push_leb_u32(length);
        self.bytes.remove(splice_index);
        proof {
            assert(self@ =~= prefix + suffix);
        }
        let mut i: usize = 0;
        while i < leb.bytes.len()
            invariant
                prefix.len() == splice_index,
                leb@ == uleb128(length as nat),
                i <= leb@.len(),
                splice_index + i <= self@.len(),
                self@ == prefix + leb@.take(i as int) + suffix,
            decreases leb@.len() - i,
        {
            let buffer_len = self.bytes.len();
            proof {
                assert(splice_index + i <= buffer_len);
            }
            self.bytes.insert(splice_index + i, leb.bytes[i]);
            proof {
                assert((prefix + leb@.take(i as int) + suffix).insert(
                    splice_index + i,
                    leb@[i as int],
                ) =~= prefix + leb@.take(i as int + 1) + suffix);
            }
            i = i + 1;
        }
        proof {
            assert(leb@.take(leb@.len() as int) =~= leb@);
        }
        count
    }
}

/// Types that know their own place in the binary module format.
///
/// `enc` is the mathematical description of the bytes a value serializes to;
/// `encode` produces exactly those bytes and reports how many it appended.
/// `wf` collects the structural bounds (collection lengths that must fit in
/// the 32-bit counts of the wire format) under which encoding is defined.
pub trait WasmEncode {
    /// The exact bytes this value encodes to.
    spec fn enc(&self) -> Seq<u8>;

    /// Structural bounds under which the value can be encoded.
    open spec fn wf(&self) -> bool {
        true
    }

    /// Appends this value's encoding to `encoder`; returns the number of
    /// bytes appended, which is exactly the length of [`Self::enc`].
    fn encode(&self, encoder: &mut WasmEncoder) -> (count: u32)
        requires
            self.wf(),
            old(encoder)@.len() + self.enc().len() <= u32::MAX as int,
        ensures
            final(encoder)@ == old(encoder)@ + self.enc(),
            count as int == self.enc().len(),
    ;
}

/// The concatenation of the encodings of the elements of `s`, in order.
pub open spec fn seq_enc<T: WasmEncode>(s: Seq<T>) -> Seq<u8>
    decreases s.len(),
{
    if s.len() == 0 {
        Seq::empty()
    } else {
        s[0].enc() + seq_enc(s.drop_first())
    }
}

/// Peels the element at position `k` off the tail concatenation.
pub proof fn lemma_seq_enc_skip<T: WasmEncode>(s: Seq<T>, k: int)
    requires
        0 <= k < s.len(),
    ensures
        seq_enc(s.skip(k)) == s[k].enc() + seq_enc(s.skip(k + 1)),
{
    assert(s.skip(k)[0] == s[k]);
    assert(s.skip(k).drop_first() =~= s.skip(k + 1));
}

impl<T: WasmEncode> WasmEncode for Vec<T> {
    open spec fn enc(&self) -> Seq<u8> {
        seq_enc(self@)
    }

    open spec fn wf(&self) -> bool {
        forall|i: int| 0 <= i < self@.len() ==> (#[trigger] self@[i]).wf()
    }

    fn encode(&self, encoder: &mut WasmEncoder) -> (count: u32) {
        let mut byte_count: u32 = 0;
        let mut i: usize = 0;
        proof {
            assert(self.enc() == seq_enc(self@));
            assert(self@.skip(0) =~= self@);
        }
        while i < self.len()
            invariant
                self.wf(),
                i <= self@.len(),
                old(encoder)@.len() + seq_enc(self@).len() <= u32::MAX as int,
                encoder@ + seq_enc(self@.skip(i as int)) == old(encoder)@ + seq_enc(self@),
                byte_count as int + old(encoder)@.len() == encoder@.len(),
                old(encoder)@.len() <= encoder@.len(),
            decreases self@.len() - i,
        {
            proof {
                lemma_seq_enc_skip(self@, i as int);
                assert((encoder@ + seq_enc(self@.skip(i as int))).len() == (old(encoder)@
                    + seq_enc(self@)).len());
                assert((self@[i as int].enc() + seq_enc(self@.skip(i as int + 1))).len()
                    == self@[i as int].enc().len() + seq_enc(self@.skip(i as int + 1)).len());
            }
            byte_count = byte_count + self[i].encode(encoder);
            proof {
                assert(encoder@ + seq_enc(self@.skip(i as int + 1)) =~= old(encoder)@ + seq_enc(
                    self@,
                ));
            }
            i = i + 1;
        }
        proof {
            assert(self@.skip(self@.len() as int) =~= Seq::<T>::empty());
            assert(encoder@ =~= old(encoder)@ + seq_enc(self@));
        }
        byte_count
    }
}

/// Encodes `item` into a fresh buffer and reports whether both the bytes
/// produced and their count are exactly those of `expected_bytes`.
pub fn assert_encoding_eq<T: WasmEncode>(item: T, expected_bytes: &[u8]) -> (same: bool)
    requires
        item.wf(),
        item.enc().len() <= u32::MAX as int,
    ensures
        same <==> item.enc() == expected_bytes@,
{
    let mut encoder = WasmEncoder::new();
    item.encode(&mut encoder);
    let actual = encoder.as_slice();
    if actual.len() != expected_bytes.len() {
        return false;
    }
    let mut i: usize = 0;
    while i < actual.len()
        invariant
            actual@ == item.enc(),
            expected_bytes@.len() == actual@.len(),
            i <= actual@.len(),
            forall|j: int| 0 <= j < i ==> actual@[j] == expected_bytes@[j],
        decreases actual@.len() - i,
    {
        if actual[i] != expected_bytes[i] {
            return false;
        }
        i = i + 1;
    }
    proof {
        assert(actual@ =~= expected_bytes@);
    }
    true
}

} // verus!
