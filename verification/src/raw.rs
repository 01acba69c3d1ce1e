//! The raw, C-level representation of an SDL event.

use vstd::prelude::*;

verus! {

/// Size in bytes of SDL's event union.
pub const RAW_EVENT_SIZE: usize = 56;

/// The unsigned 16-bit integer stored little-endian at `off`.
pub open spec fn read_u16(s: Seq<u8>, off: int) -> u16 {
    (s[off] as u16) | ((s[off + 1] as u16) << 8)
}

/// The unsigned 32-bit integer stored little-endian at `off`.
pub open spec fn read_u32(s: Seq<u8>, off: int) -> u32 {
    (s[off] as u32) | ((s[off + 1] as u32) << 8) | ((s[off + 2] as u32) << 16) | ((s[off + 3] as u32) << 24)
}

/// The unsigned 64-bit integer stored little-endian at `off`.
pub open spec fn read_u64(s: Seq<u8>, off: int) -> u64 {
    (read_u32(s, off) as u64) | ((read_u32(s, off + 4) as u64) << 32)
}

pub open spec fn read_i16(s: Seq<u8>, off: int) -> i16 {
    read_u16(s, off) as i16
}

pub open spec fn read_i32(s: Seq<u8>, off: int) -> i32 {
    read_u32(s, off) as i32
}

pub open spec fn read_i64(s: Seq<u8>, off: int) -> i64 {
    read_u64(s, off) as i64
}

/// `s` with `v` stored little-endian at `off`.
pub open spec fn write_u16(s: Seq<u8>, off: int, v: u16) -> Seq<u8> {
    s.update(off, (v & 0xff) as u8).update(off + 1, ((v >> 8) & 0xff) as u8)
}

pub open spec fn write_u32(s: Seq<u8>, off: int, v: u32) -> Seq<u8> {
    s.update(off, (v & 0xff) as u8)
        .update(off + 1, ((v >> 8) & 0xff) as u8)
        .update(off + 2, ((v >> 16) & 0xff) as u8)
        .update(off + 3, ((v >> 24) & 0xff) as u8)
}

pub open spec fn write_u64(s: Seq<u8>, off: int, v: u64) -> Seq<u8> {
    write_u32(write_u32(s, off, (v & 0xffff_ffff) as u32), off + 4, (v >> 32) as u32)
}

/// The 16-bit value read at `off` is `v` when the two bytes there are `v`'s bytes.
pub proof fn lemma_read_u16_bytes(s: Seq<u8>, off: int, v: u16)
    requires
        s[off] == (v & 0xff) as u8,
        s[off + 1] == ((v >> 8) & 0xff) as u8,
    ensures
        read_u16(s, off) == v,
{
    assert((v & 0xff) < 256 && ((v >> 8) & 0xff) < 256) by (bit_vector);
    assert(v == ((v & 0xff) | (((v >> 8) & 0xff) << 8))) by (bit_vector);
}

/// The 32-bit value read at `off` is `v` when the four bytes there are `v`'s bytes.
pub proof fn lemma_read_u32_bytes(s: Seq<u8>, off: int, v: u32)
    requires
        s[off] == (v & 0xff) as u8,
        s[off + 1] == ((v >> 8) & 0xff) as u8,
        s[off + 2] == ((v >> 16) & 0xff) as u8,
        s[off + 3] == ((v >> 24) & 0xff) as u8,
    ensures
        read_u32(s, off) == v,
{
    assert((v & 0xff) < 256 && ((v >> 8) & 0xff) < 256 && ((v >> 16) & 0xff) < 256 && ((v >> 24)
        & 0xff) < 256) by (bit_vector);
    assert(v == ((v & 0xff) | (((v >> 8) & 0xff) << 8) | (((v >> 16) & 0xff) << 16) | (((v >> 24)
        & 0xff) << 24))) by (bit_vector);
}

/// The 64-bit value read at `off` is `v` when the eight bytes there are `v`'s bytes, as
/// `write_u64` lays them out.
pub proof fn lemma_read_u64_bytes(s: Seq<u8>, off: int, v: u64)
    requires
        read_u32(s, off) == (v & 0xffff_ffff) as u32,
        read_u32(s, off + 4) == (v >> 32) as u32,
    ensures
        read_u64(s, off) == v,
{
    assert((v >> 32) <= 0xffff_ffff && (v & 0xffff_ffff) <= 0xffff_ffff) by (bit_vector);
    assert(v == ((v & 0xffff_ffff) | ((v >> 32) << 32))) by (bit_vector);
}

/// A 16-bit bit pattern read back as a signed value is the signed value it came from.
pub proof fn lemma_i16_bits(v: i16)
    ensures
        (v as u16) as i16 == v,
{
    assert((v as u16) as i16 == v) by (bit_vector);
}

/// A 32-bit bit pattern read back as a signed value is the signed value it came from.
pub proof fn lemma_i32_bits(v: i32)
    ensures
        (v as u32) as i32 == v,
{
    assert((v as u32) as i32 == v) by (bit_vector);
}

/// A 64-bit bit pattern read back as a signed value is the signed value it came from.
pub proof fn lemma_i64_bits(v: i64)
    ensures
        (v as u64) as i64 == v,
{
    assert((v as u64) as i64 == v) by (bit_vector);
}

/// The contents of a raw event: the bytes of SDL's event union and the bytes of the file
/// name that a drop event points to.
pub ghost struct RawEventView {
    pub bytes: Seq<u8>,
    pub dropped_file: Seq<u8>,
}

/// Fifty-six zero bytes.
pub open spec fn zero_bytes() -> Seq<u8> {
    Seq::new(56, |i: int| 0u8)
}

pub(crate) fn put_u8(buf: &mut Vec<u8>, off: usize, v: u8)
    requires
        old(buf)@.len() == RAW_EVENT_SIZE,
        off + 1 <= RAW_EVENT_SIZE,
    ensures
        final(buf)@ == old(buf)@.update(off as int, v),
{
    buf.set(off, v);
}

pub(crate) fn put_u16(buf: &mut Vec<u8>, off: usize, v: u16)
    requires
        old(buf)@.len() == RAW_EVENT_SIZE,
        off + 2 <= RAW_EVENT_SIZE,
    ensures
        final(buf)@ == write_u16(old(buf)@, off as int, v),
{
    put_u8(buf, off, (v & 0xff) as u8);
    put_u8(buf, off + 1, ((v >> 8) & 0xff) as u8);
}

pub(crate) fn put_u32(buf: &mut Vec<u8>, off: usize, v: u32)
    requires
        old(buf)@.len() == RAW_EVENT_SIZE,
        off + 4 <= RAW_EVENT_SIZE,
    ensures
        final(buf)@ == write_u32(old(buf)@, off as int, v),
{
    put_u8(buf, off, (v & 0xff) as u8);
    put_u8(buf, off + 1, ((v >> 8) & 0xff) as u8);
    put_u8(buf, off + 2, ((v >> 16) & 0xff) as u8);
    put_u8(buf, off + 3, ((v >> 24) & 0xff) as u8);
}

pub(crate) fn put_u64(buf: &mut Vec<u8>, off: usize, v: u64)
    requires
        old(buf)@.len() == RAW_EVENT_SIZE,
        off + 8 <= RAW_EVENT_SIZE,
    ensures
        final(buf)@ == write_u64(old(buf)@, off as int, v),
{
    put_u32(buf, off, (v & 0xffff_ffff) as u32);
    put_u32(buf, off + 4, (v >> 32) as u32);
}

/// Fifty-six zero bytes.
pub fn zeroed_bytes() -> (r: Vec<u8>)
    ensures
        r@ == zero_bytes(),
{
    let mut bytes: Vec<u8> = Vec::new();
    let mut i: usize = 0;
    while i < RAW_EVENT_SIZE
        invariant
            i <= RAW_EVENT_SIZE,
            bytes@ == Seq::new(i as nat, |j: int| 0u8),
        decreases RAW_EVENT_SIZE - i,
    {
        bytes.push(0u8);
        i = i + 1;
        assert(bytes@ =~= Seq::new(i as nat, |j: int| 0u8));
    }
    bytes
}

/// A vector holding the bytes of `s`.
pub fn copy_bytes(s: &[u8]) -> (r: Vec<u8>)
    ensures
        r@ == s@,
{
    let mut r: Vec<u8> = Vec::new();
    let mut i: usize = 0;
    while i < s.len()
        invariant
            i <= s@.len(),
            r@ == s@.take(i as int),
        decreases s@.len() - i,
    {
        r.push(s[i]);
        i = i + 1;
        assert(r@ =~= s@.take(i as int));
    }
    assert(s@.take(s@.len() as int) =~= s@);
    r
}

/// An SDL event as the bytes of SDL's event union, in the byte order of a little-endian
/// machine, together with the bytes of the file name that a drop event points to (the
/// string without its terminating NUL; empty for other events).
pub struct RawEvent {
    bytes: Vec<u8>,
    dropped_file: Vec<u8>,
}

impl View for RawEvent {
    type V = RawEventView;

    closed spec fn view(&self) -> RawEventView {
        RawEventView { bytes: self.bytes@, dropped_file: self.dropped_file@ }
    }
}

impl RawEvent {
    #[verifier::type_invariant]
    closed spec fn wf(self) -> bool {
        self.bytes@.len() == 56
    }

    /// The union's bytes have the size of SDL's event union.
    pub(crate) fn reveal_size(&self)
        ensures
            self@.bytes.len() == RAW_EVENT_SIZE,
    {
        proof {
            use_type_invariant(self);
        }
    }

    /// The raw event with the given union bytes that names no dropped file.
    pub(crate) fn from_vec(bytes: Vec<u8>) -> (r: RawEvent)
        requires
            bytes@.len() == RAW_EVENT_SIZE,
        ensures
            r@.bytes == bytes@,
            r@.dropped_file == Seq::<u8>::empty(),
    {
        RawEvent { bytes, dropped_file: Vec::new() }
    }

    /// The raw event with the given union bytes and dropped file name.
    pub fn from_bytes(bytes: &[u8], dropped_file: &[u8]) -> (r: RawEvent)
        requires
            bytes@.len() == RAW_EVENT_SIZE,
        ensures
            r@.bytes == bytes@,
            r@.dropped_file == dropped_file@,
    {
        RawEvent { bytes: copy_bytes(bytes), dropped_file: copy_bytes(dropped_file) }
    }

    /// The union's bytes.
    pub fn bytes(&self) -> (r: &[u8])
        ensures
            r@ == self@.bytes,
            r@.len() == RAW_EVENT_SIZE,
    {
        proof {
            use_type_invariant(self);
        }
        self.bytes.as_slice()
    }

    /// The bytes of the dropped file's name.
    pub fn dropped_file(&self) -> (r: &[u8])
        ensures
            r@ == self@.dropped_file,
    {
        self.dropped_file.as_slice()
    }

    pub(crate) fn get_u8(&self, off: usize) -> (r: u8)
        requires
            off + 1 <= RAW_EVENT_SIZE,
        ensures
            r == self@.bytes[off as int],
    {
        proof {
            use_type_invariant(self);
        }
        self.bytes[off]
    }

    pub(crate) fn get_u16(&self, off: usize) -> (r: u16)
        requires
            off + 2 <= RAW_EVENT_SIZE,
        ensures
            r == read_u16(self@.bytes, off as int),
    {
        proof {
            use_type_invariant(self);
        }
        (self.bytes[off] as u16) | ((self.bytes[off + 1] as u16) << 8)
    }

    pub(crate) fn get_u32(&self, off: usize) -> (r: u32)
        requires
            off + 4 <= RAW_EVENT_SIZE,
        ensures
            r == read_u32(self@.bytes, off as int),
    {
        proof {
            use_type_invariant(self);
        }
        (self.bytes[off] as u32) | ((self.bytes[off + 1] as u32) << 8) | ((self.bytes[off + 2] as u32) << 16)
            | ((self.bytes[off + 3] as u32) << 24)
    }

    pub(crate) fn get_u64(&self, off: usize) -> (r: u64)
        requires
            off + 8 <= RAW_EVENT_SIZE,
        ensures
            r == read_u64(self@.bytes, off as int),
    {
        let lo = self.get_u32(off);
        let hi = self.get_u32(off + 4);
        (lo as u64) | ((hi as u64) << 32)
    }
}

} // verus!
