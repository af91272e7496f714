//! Dense binary primitives of the navigation wire format: LEB128 varints,
//! zigzag signed integers and little-endian 32-bit words.
use vstd::prelude::*;

verus! {

pub const U32_MAX: u64 = 4294967295;

pub const U64_MAX: u64 = 18446744073709551615;

/// The varint of `v`: seven bits per byte, low bits first, the high bit set on
/// every byte but the last.
pub open spec fn varint(v: nat) -> Seq<u8>
    decreases v,
{
    if v < 128 {
        seq![v as u8]
    } else {
        seq![(v % 128 + 128) as u8] + varint(v / 128)
    }
}

/// Reads a canonical varint at `pos` whose value is at most `max`; gives the
/// value and the position after it.
pub open spec fn parse_varint(b: Seq<u8>, pos: int, max: nat) -> Option<(nat, int)>
    decreases b.len() - pos,
{
    if pos < 0 || pos >= b.len() {
        None
    } else if b[pos] < 128 {
        if b[pos] as nat <= max {
            Some((b[pos] as nat, pos + 1))
        } else {
            None
        }
    } else if max < 128 {
        None
    } else {
        let lo = (b[pos] - 128) as nat;
        match parse_varint(b, pos + 1, ((max - lo) / 128) as nat) {
            Some((r, end)) => if r == 0 {
                None
            } else {
                Some((lo + 128 * r, end))
            },
            None => None,
        }
    }
}

/// Zigzag mapping of a signed integer onto the naturals: 0, -1, 1, -2, ...
pub open spec fn zigzag(x: int) -> nat {
    if x >= 0 {
        (2 * x) as nat
    } else {
        (-2 * x - 1) as nat
    }
}

pub open spec fn unzigzag(u: nat) -> int {
    if u % 2 == 0 {
        (u / 2) as int
    } else {
        -((u + 1) / 2)
    }
}

/// The four bytes of `w`, least significant first.
pub open spec fn le32(w: u32) -> Seq<u8> {
    seq![
        (w % 256) as u8,
        (w / 256 % 256) as u8,
        (w / 65536 % 256) as u8,
        (w / 16777216) as u8,
    ]
}

pub open spec fn parse_le32(b: Seq<u8>, pos: int) -> Option<(u32, int)> {
    if pos < 0 || pos + 4 > b.len() {
        None
    } else {
        Some(
            (
                (b[pos] + 256 * b[pos + 1] + 65536 * b[pos + 2] + 16777216 * b[pos + 3]) as u32,
                pos + 4,
            ),
        )
    }
}

pub open spec fn pow128(k: nat) -> nat
    decreases k,
{
    if k == 0 {
        1
    } else {
        128 * pow128((k - 1) as nat)
    }
}

pub proof fn lemma_varint_len_bound(v: nat, k: nat)
    requires
        v < pow128(k),
        k >= 1,
    ensures
        1 <= varint(v).len() <= k,
    decreases v,
{
    if v >= 128 {
        assert(k >= 2) by {
            if k == 0 {
            } else if k == 1 {
                assert(pow128(0) == 1);
            }
        }
        let p = pow128((k - 1) as nat);
        assert(v / 128 < p) by (nonlinear_arith)
            requires
                v < 128 * p,
        ;
        lemma_varint_len_bound(v / 128, (k - 1) as nat);
    }
}

pub proof fn lemma_varint_len(v: nat)
    ensures
        varint(v).len() >= 1,
        v <= U64_MAX ==> varint(v).len() <= 10,
        v <= U32_MAX ==> varint(v).len() <= 5,
{
    reveal_with_fuel(pow128, 11);
    if v <= U32_MAX {
        lemma_varint_len_bound(v, 5);
    } else if v <= U64_MAX {
        lemma_varint_len_bound(v, 10);
    }
}

/// `b` holds `x` at `pos`.
pub open spec fn holds_at(b: Seq<u8>, pos: int, x: Seq<u8>) -> bool {
    0 <= pos && pos + x.len() <= b.len() && b.subrange(pos, pos + x.len()) == x
}

pub proof fn lemma_holds_split(b: Seq<u8>, pos: int, x: Seq<u8>, y: Seq<u8>)
    requires
        holds_at(b, pos, x + y),
    ensures
        holds_at(b, pos, x),
        holds_at(b, pos + x.len(), y),
{
    let s = b.subrange(pos, pos + (x + y).len());
    assert(s == x + y);
    assert(b.subrange(pos, pos + x.len()) =~= s.subrange(0, x.len() as int));
    assert(s.subrange(0, x.len() as int) =~= x);
    assert(b.subrange(pos + x.len(), pos + x.len() + y.len()) =~= s.subrange(
        x.len() as int,
        (x.len() + y.len()) as int,
    ));
    assert(s.subrange(x.len() as int, (x.len() + y.len()) as int) =~= y);
}

pub proof fn lemma_holds_join(b: Seq<u8>, pos: int, x: Seq<u8>, y: Seq<u8>)
    requires
        holds_at(b, pos, x),
        holds_at(b, pos + x.len(), y),
    ensures
        holds_at(b, pos, x + y),
{
    assert(b.subrange(pos, pos + (x + y).len()) =~= x + y);
}

pub proof fn lemma_varint_parse(b: Seq<u8>, pos: int, v: nat, max: nat)
    requires
        holds_at(b, pos, varint(v)),
        v <= max,
    ensures
        parse_varint(b, pos, max) == Some((v, pos + varint(v).len())),
    decreases v,
{
    if v < 128 {
        assert(b[pos] == b.subrange(pos, pos + 1)[0]);
    } else {
        let lo = v % 128;
        let r = v / 128;
        let first = seq![(lo + 128) as u8];
        lemma_holds_split(b, pos, first, varint(r));
        assert(b[pos] == b.subrange(pos, pos + 1)[0]);
        assert(v == lo + 128 * r);
        assert(r <= ((max - lo) / 128) as nat) by (nonlinear_arith)
            requires
                v == lo + 128 * r,
                v <= max,
                lo < 128,
        ;
        lemma_varint_parse(b, pos + 1, r, ((max - lo) / 128) as nat);
    }
}

pub proof fn lemma_parse_varint_canonical(b: Seq<u8>, pos: int, max: nat)
    ensures
        parse_varint(b, pos, max) matches Some((v, end)) ==> {
            &&& v <= max
            &&& end == pos + varint(v).len()
            &&& holds_at(b, pos, varint(v))
        },
    decreases b.len() - pos,
{
    if pos < 0 || pos >= b.len() {
    } else if b[pos] < 128 {
        assert(b.subrange(pos, pos + 1) =~= seq![b[pos]]);
    } else if max < 128 {
    } else {
        let lo = (b[pos] - 128) as nat;
        let m2 = ((max - lo) / 128) as nat;
        lemma_parse_varint_canonical(b, pos + 1, m2);
        if let Some((r, end)) = parse_varint(b, pos + 1, m2) {
            if r != 0 {
                let v = lo + 128 * r;
                assert(v % 128 == lo && v / 128 == r) by (nonlinear_arith)
                    requires
                        v == lo + 128 * r,
                        lo < 128,
                ;
                assert(v <= max) by (nonlinear_arith)
                    requires
                        v == lo + 128 * r,
                        r <= m2,
                        m2 == (max - lo) / 128,
                        lo < 128,
                        max >= 128,
                ;
                assert(varint(v) == seq![(lo + 128) as u8] + varint(r));
                assert(b.subrange(pos, pos + 1) =~= seq![(lo + 128) as u8]);
                lemma_holds_join(b, pos, seq![(lo + 128) as u8], varint(r));
            }
        }
    }
}

pub proof fn lemma_zigzag_i64(x: int)
    requires
        -0x8000_0000_0000_0000 <= x < 0x8000_0000_0000_0000,
    ensures
        zigzag(x) <= U64_MAX,
        unzigzag(zigzag(x)) == x,
{
}

pub proof fn lemma_zigzag_i32(x: int)
    requires
        -0x8000_0000 <= x < 0x8000_0000,
    ensures
        zigzag(x) <= U32_MAX,
        unzigzag(zigzag(x)) == x,
{
}

pub proof fn lemma_unzigzag(u: nat)
    ensures
        zigzag(unzigzag(u)) == u,
        u <= U64_MAX ==> -0x8000_0000_0000_0000 <= unzigzag(u) < 0x8000_0000_0000_0000,
        u <= U32_MAX ==> -0x8000_0000 <= unzigzag(u) < 0x8000_0000,
{
}

pub proof fn lemma_le32(b: Seq<u8>, pos: int, w: u32)
    requires
        holds_at(b, pos, le32(w)),
    ensures
        parse_le32(b, pos) == Some((w, pos + 4)),
{
    assert(b[pos] == le32(w)[0] && b[pos + 1] == le32(w)[1] && b[pos + 2] == le32(w)[2] && b[pos
        + 3] == le32(w)[3]) by {
        assert(b.subrange(pos, pos + 4) == le32(w));
        assert(b[pos] == b.subrange(pos, pos + 4)[0]);
        assert(b[pos + 1] == b.subrange(pos, pos + 4)[1]);
        assert(b[pos + 2] == b.subrange(pos, pos + 4)[2]);
        assert(b[pos + 3] == b.subrange(pos, pos + 4)[3]);
    }
    let w0 = w as int;
    assert((w0 % 256) + 256 * (w0 / 256 % 256) + 65536 * (w0 / 65536 % 256) + 16777216 * (w0
        / 16777216) == w0) by (nonlinear_arith)
        requires
            0 <= w0,
    ;
}

pub proof fn lemma_le32_canonical(b: Seq<u8>, pos: int)
    ensures
        parse_le32(b, pos) matches Some((w, end)) ==> end == pos + 4 && holds_at(b, pos, le32(w)),
{
    if pos >= 0 && pos + 4 <= b.len() {
        let (b0, b1, b2, b3) = (b[pos] as int, b[pos + 1] as int, b[pos + 2] as int, b[pos
            + 3] as int);
        let w = b0 + 256 * b1 + 65536 * b2 + 16777216 * b3;
        assert(0 <= w < 0x1_0000_0000) by (nonlinear_arith)
            requires
                w == b0 + 256 * b1 + 65536 * b2 + 16777216 * b3,
                0 <= b0 < 256,
                0 <= b1 < 256,
                0 <= b2 < 256,
                0 <= b3 < 256,
        ;
        assert(w % 256 == b0 && w / 256 % 256 == b1 && w / 65536 % 256 == b2 && w / 16777216
            == b3) by (nonlinear_arith)
            requires
                w == b0 + 256 * b1 + 65536 * b2 + 16777216 * b3,
                0 <= b0 < 256,
                0 <= b1 < 256,
                0 <= b2 < 256,
                0 <= b3 < 256,
        ;
        assert(b.subrange(pos, pos + 4) =~= le32(w as u32));
    }
}

/// Appends the varint of `v`.
pub fn write_varint(out: &mut Vec<u8>, v: u64)
    ensures
        final(out)@ == old(out)@ + varint(v as nat),
    decreases v,
{
    if v < 128 {
        out.push(v as u8);
        assert(final(out)@ =~= old(out)@ + varint(v as nat));
    } else {
        out.push((v % 128 + 128) as u8);
        write_varint(out, v / 128);
        assert(final(out)@ =~= old(out)@ + varint(v as nat));
    }
}

/// Reads a varint at `pos` exactly as `parse_varint` does.
pub fn read_varint(b: &[u8], pos: usize, max: u64) -> (r: Option<(u64, usize)>)
    ensures
        match r {
            Some((v, end)) => parse_varint(b@, pos as int, max as nat) == Some((v as nat, end as int)),
            None => parse_varint(b@, pos as int, max as nat) is None,
        },
    decreases b@.len() - pos,
{
    if pos >= b.len() {
        None
    } else if b[pos] < 128 {
        if b[pos] as u64 <= max {
            Some((b[pos] as u64, pos + 1))
        } else {
            None
        }
    } else if max < 128 {
        None
    } else {
        let lo = (b[pos] - 128) as u64;
        match read_varint(b, pos + 1, (max - lo) / 128) {
            Some((r, end)) => if r == 0 {
                None
            } else {
                proof {
                    lemma_parse_varint_canonical(b@, pos + 1, ((max - lo) / 128) as nat);
                }
                assert(lo + 128 * r <= max) by (nonlinear_arith)
                    requires
                        r <= (max - lo) / 128,
                        lo < 128,
                        max >= 128,
                ;
                Some((lo + 128 * r, end))
            },
            None => None,
        }
    }
}

/// Appends the four bytes of `w`, least significant first.
pub fn write_le32(out: &mut Vec<u8>, w: u32)
    ensures
        final(out)@ == old(out)@ + le32(w),
{
    out.push((w % 256) as u8);
    out.push((w / 256 % 256) as u8);
    out.push((w / 65536 % 256) as u8);
    out.push((w / 16777216) as u8);
    assert(final(out)@ =~= old(out)@ + le32(w));
}

pub fn read_le32(b: &[u8], pos: usize) -> (r: Option<(u32, usize)>)
    ensures
        match r {
            Some((w, end)) => parse_le32(b@, pos as int) == Some((w, end as int)),
            None => parse_le32(b@, pos as int) is None,
        },
{
    if pos > b.len() || b.len() - pos < 4 {
        None
    } else {
        let (b0, b1, b2, b3) = (b[pos] as u32, b[pos + 1] as u32, b[pos + 2] as u32, b[pos
            + 3] as u32);
        assert(b0 + 256 * b1 + 65536 * b2 + 16777216 * b3 < 0x1_0000_0000) by (nonlinear_arith)
            requires
                b0 < 256,
                b1 < 256,
                b2 < 256,
                b3 < 256,
        ;
        Some((b0 + 256 * b1 + 65536 * b2 + 16777216 * b3, pos + 4))
    }
}

/// The zigzag code of a 64-bit signed integer.
pub fn zigzag_i64(x: i64) -> (r: u64)
    ensures
        r as nat == zigzag(x as int),
{
    if x >= 0 {
        (x as u64) * 2
    } else {
        (-(x + 1)) as u64 * 2 + 1
    }
}

pub fn unzigzag_i64(u: u64) -> (r: i64)
    ensures
        r as int == unzigzag(u as nat),
{
    proof {
        lemma_unzigzag(u as nat);
    }
    if u % 2 == 0 {
        (u / 2) as i64
    } else {
        -((u / 2) as i64) - 1
    }
}

pub fn zigzag_i32(x: i32) -> (r: u64)
    ensures
        r as nat == zigzag(x as int),
        r <= U32_MAX,
{
    if x >= 0 {
        (x as u64) * 2
    } else {
        (-(x as i64 + 1)) as u64 * 2 + 1
    }
}

pub fn unzigzag_i32(u: u64) -> (r: i32)
    requires
        u <= U32_MAX,
    ensures
        r as int == unzigzag(u as nat),
{
    proof {
        lemma_unzigzag(u as nat);
    }
    if u % 2 == 0 {
        (u / 2) as i32
    } else {
        -((u / 2) as i32) - 1
    }
}

} // verus!
