//! The .z80 snapshot format, version 1: a 30-byte register header followed
//! by the memory image, in which `ED ED xx yy` stands for `xx` copies of `yy`.

use vstd::prelude::*;
use crate::cpu::word;

verus! {

/// The registers stored in a snapshot's header.
#[derive(Clone, Copy, Debug, PartialEq, Eq, Structural)]
pub struct Z80Header {
    pub a: u8,
    pub f: u8,
    pub bc: u16,
    pub hl: u16,
    pub pc: u16,
    pub sp: u16,
    pub ir: u8,
    pub r: u8,
    pub misc1: u8,
    pub de: u16,
    pub bc_alt: u16,
    pub de_alt: u16,
    pub hl_alt: u16,
    pub af_alt: u16,
    pub iy: u16,
    pub ix: u16,
    pub iff1: bool,
    pub iff2: bool,
    pub misc2: u8,
}

/// Why a snapshot could not be read.
#[derive(Clone, Copy, Debug, PartialEq, Eq, Structural)]
pub enum SnapshotError {
    /// Fewer than the 30 header bytes.
    TooShort,
    /// A header and no memory image after it.
    NoData,
}

/// Length of the header.
pub const HEADER_LEN: usize = 30;

/// The little-endian word at `i`.
pub open spec fn le16_at(b: Seq<u8>, i: int) -> u16 {
    word(b[i + 1], b[i])
}

/// The big-endian word at `i`.
pub open spec fn be16_at(b: Seq<u8>, i: int) -> u16 {
    word(b[i], b[i + 1])
}

/// The header read from the first 30 bytes. Words are little-endian except
/// AF', stored A' first; R keeps its low seven bits; the interrupt flip-flops
/// are set when their byte is not zero.
pub open spec fn header_fields(b: Seq<u8>) -> Z80Header {
    Z80Header {
        a: b[0],
        f: b[1],
        bc: le16_at(b, 2),
        hl: le16_at(b, 4),
        pc: le16_at(b, 6),
        sp: le16_at(b, 8),
        ir: b[10],
        r: b[11] & 0x7F,
        misc1: b[12],
        de: le16_at(b, 13),
        bc_alt: le16_at(b, 15),
        de_alt: le16_at(b, 17),
        hl_alt: le16_at(b, 19),
        af_alt: be16_at(b, 21),
        iy: le16_at(b, 23),
        ix: le16_at(b, 25),
        iff1: b[27] != 0,
        iff2: b[28] != 0,
        misc2: b[29],
    }
}

/// The memory image encoded by `s`, read from the front: `ED ED xx yy` gives
/// `xx` copies of `yy`; the end marker `00 ED ED 00` is kept as it is; any
/// other byte stands for itself.
pub open spec fn decompress(s: Seq<u8>) -> Seq<u8>
    decreases s.len(),
{
    if s.len() == 0 {
        Seq::empty()
    } else if s.len() >= 4 && s[0] == 0xED && s[1] == 0xED {
        Seq::new(s[2] as nat, |j: int| s[3]) + decompress(s.skip(4))
    } else if s.len() >= 4 && s[0] == 0x00 && s[1] == 0xED && s[2] == 0xED && s[3] == 0x00 {
        s.take(4) + decompress(s.skip(4))
    } else {
        seq![s[0]] + decompress(s.skip(1))
    }
}

/// What reading a snapshot gives: the header and the memory image when there
/// is at least one byte after the header.
pub open spec fn snapshot_spec(input: Seq<u8>) -> Result<(Z80Header, Seq<u8>), SnapshotError> {
    if input.len() < 30 {
        Err(SnapshotError::TooShort)
    } else if input.len() == 30 {
        Err(SnapshotError::NoData)
    } else {
        Ok((header_fields(input), decompress(input.skip(30))))
    }
}

fn read_le16(input: &[u8], i: usize) -> (w: u16)
    requires
        i < 29,
        30 <= input@.len(),
    ensures
        w == le16_at(input@, i as int),
{
    let hi: u16 = input[i + 1] as u16;
    let lo: u16 = input[i] as u16;
    hi * 256 + lo
}

/// Appends `count` copies of `v`.
fn push_run(out: &mut Vec<u8>, count: u8, v: u8)
    ensures
        final(out)@ == old(out)@ + Seq::new(count as nat, |j: int| v),
{
    let mut k: u8 = 0;
    while k < count
        invariant
            k <= count,
            out@ == old(out)@ + Seq::new(k as nat, |j: int| v),
        decreases count - k,
    {
        out.push(v);
        k = k + 1;
        assert(out@ =~= old(out)@ + Seq::new(k as nat, |j: int| v));
    }
}

/// Expands the memory image that starts at `start`.
fn expand(input: &[u8], start: usize) -> (out: Vec<u8>)
    requires
        start <= input@.len(),
    ensures
        out@ == decompress(input@.skip(start as int)),
{
    let n: usize = input.len();
    let mut out: Vec<u8> = Vec::new();
    let mut i: usize = start;
    assert(out@ + decompress(input@.skip(start as int)) =~= decompress(input@.skip(start as int)));
    while i < n
        invariant
            start <= i <= n,
            n == input@.len(),
            out@ + decompress(input@.skip(i as int)) == decompress(input@.skip(start as int)),
        decreases n - i,
    {
        let ghost rest = input@.skip(i as int);
        let ghost before = out@;
        if n - i >= 4 && input[i] == 0xED && input[i + 1] == 0xED {
            push_run(&mut out, input[i + 2], input[i + 3]);
            assert(rest.skip(4) =~= input@.skip(i + 4));
            assert(before + decompress(rest) =~= out@ + decompress(rest.skip(4)));
            i = i + 4;
        } else if n - i >= 4 && input[i] == 0x00 && input[i + 1] == 0xED && input[i + 2] == 0xED && input[i + 3] == 0x00 {
            out.push(0x00);
            out.push(0xED);
            out.push(0xED);
            out.push(0x00);
            assert(rest.skip(4) =~= input@.skip(i + 4));
            assert(out@ =~= before + rest.take(4));
            assert(before + decompress(rest) =~= out@ + decompress(rest.skip(4)));
            i = i + 4;
        } else {
            out.push(input[i]);
            assert(rest.skip(1) =~= input@.skip(i + 1));
            assert(out@ =~= before + seq![rest[0]]);
            assert(before + decompress(rest) =~= out@ + decompress(rest.skip(1)));
            i = i + 1;
        }
    }
    assert(input@.skip(n as int) =~= Seq::<u8>::empty());
    assert(out@ + decompress(input@.skip(n as int)) =~= out@);
    out
}

/// Reads a snapshot: the header, and the expanded memory image after it.
pub fn header(input: &[u8]) -> (r: Result<(Z80Header, Vec<u8>), SnapshotError>)
    ensures
        match (r, snapshot_spec(input@)) {
            (Ok((h, data)), Ok((sh, sdata))) => h == sh && data@ == sdata,
            (Err(e), Err(se)) => e == se,
            _ => false,
        },
{
    if input.len() < HEADER_LEN {
        return Err(SnapshotError::TooShort);
    }
    if input.len() == HEADER_LEN {
        return Err(SnapshotError::NoData);
    }
    let h = Z80Header {
        a: input[0],
        f: input[1],
        bc: read_le16(input, 2),
        hl: read_le16(input, 4),
        pc: read_le16(input, 6),
        sp: read_le16(input, 8),
        ir: input[10],
        r: input[11] & 0x7F,
        misc1: input[12],
        de: read_le16(input, 13),
        bc_alt: read_le16(input, 15),
        de_alt: read_le16(input, 17),
        hl_alt: read_le16(input, 19),
        af_alt: (input[21] as u16) * 256 + input[22] as u16,
        iy: read_le16(input, 23),
        ix: read_le16(input, 25),
        iff1: input[27] != 0,
        iff2: input[28] != 0,
        misc2: input[29],
    };
    let data = expand(input, HEADER_LEN);
    Ok((h, data))
}

/// Reads a snapshot; `None` when it is too short to hold a header and at
/// least one byte of memory image.
pub fn parse(input: &[u8]) -> (r: Option<(Z80Header, Vec<u8>)>)
    ensures
        r is Some <==> input@.len() > 30,
        match r {
            Some((h, data)) => h == header_fields(input@) && data@ == decompress(input@.skip(30)),
            None => true,
        },
{
    match header(input) {
        Ok(snapshot) => Some(snapshot),
        Err(_) => None,
    }
}

/// An image without the byte 0xED is stored as it is: decompressing it
/// gives it back.
pub proof fn lemma_decompress_plain(s: Seq<u8>)
    requires
        forall|i: int| 0 <= i < s.len() ==> s[i] != 0xED,
    ensures
        decompress(s) == s,
    decreases s.len(),
{
    if s.len() > 0 {
        let rest = s.skip(1);
        assert forall|i: int| 0 <= i < rest.len() implies rest[i] != 0xED by {
            assert(rest[i] == s[i + 1]);
        }
        lemma_decompress_plain(rest);
        assert(seq![s[0]] + rest =~= s);
    }
}

/// `ED ED n v` stands for `n` copies of `v`.
pub proof fn lemma_decompress_run(n: u8, v: u8)
    ensures
        decompress(seq![0xEDu8, 0xEDu8, n, v]) == Seq::new(n as nat, |j: int| v),
{
    let s = seq![0xEDu8, 0xEDu8, n, v];
    assert(s.skip(4) =~= Seq::<u8>::empty());
    assert(decompress(s.skip(4)) == Seq::<u8>::empty());
    assert(Seq::new(n as nat, |j: int| v) + Seq::<u8>::empty() =~= Seq::new(n as nat, |j: int| v));
}

/// The .z80 header layout: A, F, then BC, HL, PC and SP as little-endian
/// words at bytes 2, 4, 6 and 8; I at 10; R's low seven bits at 11; byte
/// 12; DE at 13; BC', DE', HL' at 15, 17, 19; AF' at 21 with A' first; IY at
/// 23; IX at 25; IFF1 and IFF2 at 27 and 28 (set when not zero); byte 29.
/// Everything after byte 30 is the memory image.
pub proof fn lemma_header_layout(input: Seq<u8>)
    requires
        input.len() > 30,
    ensures
        match snapshot_spec(input) {
            Ok((h, data)) => {
                &&& h.a == input[0]
                &&& h.f == input[1]
                &&& h.bc == input[3] * 256 + input[2]
                &&& h.hl == input[5] * 256 + input[4]
                &&& h.pc == input[7] * 256 + input[6]
                &&& h.sp == input[9] * 256 + input[8]
                &&& h.ir == input[10]
                &&& h.r == input[11] % 128
                &&& h.misc1 == input[12]
                &&& h.de == input[14] * 256 + input[13]
                &&& h.bc_alt == input[16] * 256 + input[15]
                &&& h.de_alt == input[18] * 256 + input[17]
                &&& h.hl_alt == input[20] * 256 + input[19]
                &&& h.af_alt == input[21] * 256 + input[22]
                &&& h.iy == input[24] * 256 + input[23]
                &&& h.ix == input[26] * 256 + input[25]
                &&& h.iff1 == (input[27] != 0)
                &&& h.iff2 == (input[28] != 0)
                &&& h.misc2 == input[29]
                &&& data == decompress(input.skip(30))
            },
            Err(_) => false,
        },
{
    let r = input[11];
    assert(r & 0x7F == r % 128) by (bit_vector);
}

} // verus!
