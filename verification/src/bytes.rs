//! Fixed-width integers as bytes.

use vstd::prelude::*;

verus! {

/// Two bytes, least significant first.
pub open spec fn le16(x: u16) -> Seq<u8> {
    seq![(x % 0x100) as u8, (x / 0x100) as u8]
}

/// Four bytes, least significant first.
pub open spec fn le32(x: u32) -> Seq<u8> {
    seq![
        (x % 0x100) as u8,
        (x / 0x100 % 0x100) as u8,
        (x / 0x1_0000 % 0x100) as u8,
        (x / 0x100_0000) as u8,
    ]
}

/// Eight bytes, least significant first.
pub open spec fn le64(x: u64) -> Seq<u8> {
    le32((x % 0x1_0000_0000) as u32) + le32((x / 0x1_0000_0000) as u32)
}

/// Four bytes, most significant first.
pub open spec fn be32(x: u32) -> Seq<u8> {
    seq![
        (x / 0x100_0000) as u8,
        (x / 0x1_0000 % 0x100) as u8,
        (x / 0x100 % 0x100) as u8,
        (x % 0x100) as u8,
    ]
}

/// The number that the first four bytes of `s` stand for, most significant
/// first.
pub open spec fn be32_value(s: Seq<u8>) -> int {
    s[0] * 0x100_0000 + s[1] * 0x1_0000 + s[2] * 0x100 + s[3]
}

/// Appends `x` to `out`, least significant byte first.
pub fn put_le16(out: &mut Vec<u8>, x: u16)
    ensures
        final(out)@ == old(out)@ + le16(x),
{
    let ghost before = out@;
    out.push((x % 0x100) as u8);
    out.push((x / 0x100) as u8);
    assert(out@ =~= before + le16(x));
}

/// Appends `x` to `out`, least significant byte first.
pub fn put_le32(out: &mut Vec<u8>, x: u32)
    ensures
        final(out)@ == old(out)@ + le32(x),
{
    let ghost before = out@;
    out.push((x % 0x100) as u8);
    out.push((x / 0x100 % 0x100) as u8);
    out.push((x / 0x1_0000 % 0x100) as u8);
    out.push((x / 0x100_0000) as u8);
    assert(out@ =~= before + le32(x));
}

/// Appends `x` to `out`, least significant byte first.
pub fn put_le64(out: &mut Vec<u8>, x: u64)
    ensures
        final(out)@ == old(out)@ + le64(x),
{
    let ghost before = out@;
    put_le32(out, (x % 0x1_0000_0000) as u32);
    put_le32(out, (x / 0x1_0000_0000) as u32);
    assert(out@ =~= before + le64(x));
}

/// Appends `x` to `out`, most significant byte first.
pub fn put_be32(out: &mut Vec<u8>, x: u32)
    ensures
        final(out)@ == old(out)@ + be32(x),
{
    let ghost before = out@;
    out.push((x / 0x100_0000) as u8);
    out.push((x / 0x1_0000 % 0x100) as u8);
    out.push((x / 0x100 % 0x100) as u8);
    out.push((x % 0x100) as u8);
    assert(out@ =~= before + be32(x));
}

/// Reads four bytes, most significant first.
pub fn read_be32(bytes: &[u8]) -> (r: u32)
    requires
        bytes@.len() >= 4,
    ensures
        r == be32_value(bytes@),
{
    bytes[0] as u32 * 0x100_0000 + bytes[1] as u32 * 0x1_0000 + bytes[2] as u32 * 0x100
        + bytes[3] as u32
}

/// Reading gives back what was written, and every four bytes are the writing of
/// what they read as.
pub proof fn be32_round_trip(x: u32, s: Seq<u8>)
    ensures
        be32_value(be32(x)) == x,
        s.len() == 4 ==> be32(be32_value(s) as u32) == s,
{
    if s.len() == 4 {
        let v = be32_value(s) as u32;
        assert(v / 0x100_0000 == s[0]);
        assert(v / 0x1_0000 % 0x100 == s[1]);
        assert(v / 0x100 % 0x100 == s[2]);
        assert(v % 0x100 == s[3]);
        assert(be32(v) =~= s);
    }
}

/// A number written least significant byte first is the sum of its bytes, each
/// worth 256 times the one before it.
pub proof fn le_bytes_add_up(x: u16, y: u32)
    ensures
        le16(x).len() == 2,
        le16(x)[0] + le16(x)[1] * 0x100 == x,
        le32(y).len() == 4,
        le32(y)[0] + le32(y)[1] * 0x100 + le32(y)[2] * 0x1_0000 + le32(y)[3] * 0x100_0000 == y,
{
}

/// The eight bytes of a number, one by one.
pub proof fn le64_spells_every_byte(x: u64)
    ensures
        le64(x).len() == 8,
        le64(x)[0] == x as int % 0x100,
        le64(x)[1] == x as int / 0x100 % 0x100,
        le64(x)[2] == x as int / 0x1_0000 % 0x100,
        le64(x)[3] == x as int / 0x100_0000 % 0x100,
        le64(x)[4] == x as int / 0x1_0000_0000 % 0x100,
        le64(x)[5] == x as int / 0x100_0000_0000 % 0x100,
        le64(x)[6] == x as int / 0x1_0000_0000_0000 % 0x100,
        le64(x)[7] == x as int / 0x100_0000_0000_0000,
{
    let lo = (x % 0x1_0000_0000) as u32;
    let hi = (x / 0x1_0000_0000) as u32;
    lemma_low_half(x as int);
    lemma_high_half(x as int);
    assert(le64(x)[0] == le32(lo)[0] && le64(x)[1] == le32(lo)[1] && le64(x)[2] == le32(lo)[2]
        && le64(x)[3] == le32(lo)[3]);
    assert(le64(x)[4] == le32(hi)[0] && le64(x)[5] == le32(hi)[1] && le64(x)[6] == le32(hi)[2]
        && le64(x)[7] == le32(hi)[3]);
}

proof fn lemma_low_half(x: int)
    requires
        0 <= x,
    ensures
        x % 0x1_0000_0000 % 0x100 == x % 0x100,
        x % 0x1_0000_0000 / 0x100 % 0x100 == x / 0x100 % 0x100,
        x % 0x1_0000_0000 / 0x1_0000 % 0x100 == x / 0x1_0000 % 0x100,
        x % 0x1_0000_0000 / 0x100_0000 == x / 0x100_0000 % 0x100,
{
    let q = x / 0x1_0000_0000;
    let r = x % 0x1_0000_0000;
    assert(x == q * 0x1_0000_0000 + r);
    assert(x / 0x100 == q * 0x100_0000 + r / 0x100);
    assert(x / 0x1_0000 == q * 0x1_0000 + r / 0x1_0000);
    assert(x / 0x100_0000 == q * 0x100 + r / 0x100_0000);
}

proof fn lemma_high_half(x: int)
    requires
        0 <= x,
    ensures
        x / 0x1_0000_0000 / 0x100 == x / 0x100_0000_0000,
        x / 0x1_0000_0000 / 0x1_0000 == x / 0x1_0000_0000_0000,
        x / 0x1_0000_0000 / 0x100_0000 == x / 0x100_0000_0000_0000,
{
    vstd::arithmetic::div_mod::lemma_div_denominator(x, 0x1_0000_0000, 0x100);
    vstd::arithmetic::div_mod::lemma_div_denominator(x, 0x1_0000_0000, 0x1_0000);
    vstd::arithmetic::div_mod::lemma_div_denominator(x, 0x1_0000_0000, 0x100_0000);
}

/// A number written most significant byte first is the sum of its bytes, the first
/// of which is worth most.
pub proof fn be_bytes_add_up(x: u32)
    ensures
        be32(x).len() == 4,
        be32(x)[0] * 0x100_0000 + be32(x)[1] * 0x1_0000 + be32(x)[2] * 0x100 + be32(x)[3] == x,
{
}

/// Appending a number leaves the bytes before it alone, and reading gives back the
/// number whose bytes are there.
pub proof fn appended_numbers_stand_behind(x: u32, r: u32, s: &[u8])
    requires
        s@.len() >= 4,
        call_ensures(read_be32, (s,), r),
    ensures
        r == s@[0] * 0x100_0000 + s@[1] * 0x1_0000 + s@[2] * 0x100 + s@[3],
        forall|m: &mut Vec<u8>|
            #[trigger] call_ensures(put_be32, (m, x), ()) ==> final(m)@.len() == m@.len() + 4
                && final(m)@.take(m@.len() as int) == m@ && final(m)@[m@.len() as int] == x as int
                / 0x100_0000 && final(m)@[m@.len() as int + 3] == x as int % 0x100,
        forall|m: &mut Vec<u8>|
            #[trigger] call_ensures(put_le32, (m, x), ()) ==> final(m)@.len() == m@.len() + 4
                && final(m)@.take(m@.len() as int) == m@ && final(m)@[m@.len() as int] == x as int
                % 0x100 && final(m)@[m@.len() as int + 3] == x as int / 0x100_0000,
{
    assert forall|m: &mut Vec<u8>| #[trigger] call_ensures(put_be32, (m, x), ()) implies final(m)@.take(
        m@.len() as int,
    ) == m@ by {
        assert(final(m)@.take(m@.len() as int) =~= m@);
    }
    assert forall|m: &mut Vec<u8>| #[trigger] call_ensures(put_le32, (m, x), ()) implies final(m)@.take(
        m@.len() as int,
    ) == m@ by {
        assert(final(m)@.take(m@.len() as int) =~= m@);
    }
}

/// Short and long numbers are appended behind what is there, lowest byte first.
pub proof fn appended_numbers_start_with_their_lowest_byte(x: u16, y: u64)
    ensures
        forall|m: &mut Vec<u8>|
            #[trigger] call_ensures(put_le16, (m, x), ()) ==> final(m)@.len() == m@.len() + 2
                && final(m)@.take(m@.len() as int) == m@ && final(m)@[m@.len() as int] + 0x100
                * final(m)@[m@.len() as int + 1] == x,
        forall|m: &mut Vec<u8>|
            #[trigger] call_ensures(put_le64, (m, y), ()) ==> final(m)@.len() == m@.len() + 8
                && final(m)@.take(m@.len() as int) == m@ && final(m)@[m@.len() as int] == y as int
                % 0x100 && final(m)@[m@.len() as int + 7] == y as int / 0x100_0000_0000_0000,
{
    le_bytes_add_up(x, 0);
    le64_spells_every_byte(y);
    assert forall|m: &mut Vec<u8>| #[trigger] call_ensures(put_le16, (m, x), ()) implies final(m)@.take(
        m@.len() as int,
    ) == m@ by {
        assert(final(m)@.take(m@.len() as int) =~= m@);
    }
    assert forall|m: &mut Vec<u8>| #[trigger] call_ensures(put_le64, (m, y), ()) implies final(m)@.take(
        m@.len() as int,
    ) == m@ by {
        assert(final(m)@.take(m@.len() as int) =~= m@);
    }
}

} // verus!
