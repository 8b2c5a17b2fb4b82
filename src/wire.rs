//! Little-endian byte layout of 32-bit and 64-bit words.
use vstd::prelude::*;

verus! {

/// The 32-bit little-endian value stored at byte offset `off` of `s`.
pub open spec fn le_u32(s: Seq<u8>, off: int) -> u32 {
    (s[off] as u32) | ((s[off + 1] as u32) << 8u32) | ((s[off + 2] as u32) << 16u32) | ((s[off + 3]
        as u32) << 24u32)
}

/// The `k`-th 32-bit word of `s`.
pub open spec fn word_at(s: Seq<u8>, k: int) -> u32 {
    le_u32(s, 4 * k)
}

/// The 64-bit value made of words `k` (low half) and `k + 1` (high half).
pub open spec fn dword_at(s: Seq<u8>, k: int) -> u64 {
    (word_at(s, k) as u64) | ((word_at(s, k + 1) as u64) << 32u64)
}

/// The four little-endian bytes of `v`.
pub open spec fn u32_bytes(v: u32) -> Seq<u8> {
    seq![(v & 0xff) as u8, ((v >> 8u32) & 0xff) as u8, ((v >> 16u32) & 0xff) as u8, ((v >> 24u32) & 0xff) as u8]
}

/// The bytes of a sequence of words, each little-endian, in order.
pub open spec fn words_bytes(ws: Seq<u32>) -> Seq<u8>
    decreases ws.len(),
{
    if ws.len() == 0 {
        Seq::empty()
    } else {
        words_bytes(ws.drop_last()) + u32_bytes(ws.last())
    }
}

/// The low and high 32-bit halves of a 64-bit value.
pub open spec fn lo32(v: u64) -> u32 {
    (v & 0xffff_ffff) as u32
}

pub open spec fn hi32(v: u64) -> u32 {
    (v >> 32u64) as u32
}

pub proof fn lemma_u32_bytes_round_trip(v: u32)
    ensures
        u32_bytes(v).len() == 4,
        le_u32(u32_bytes(v), 0) == v,
{
    let b = u32_bytes(v);
    assert(b[0] == (v & 0xff) as u8);
    assert(b[1] == ((v >> 8u32) & 0xff) as u8);
    assert(b[2] == ((v >> 16u32) & 0xff) as u8);
    assert(b[3] == ((v >> 24u32) & 0xff) as u8);
    assert(((((v & 0xff) as u8) as u32) | ((((v >> 8u32) & 0xff) as u8 as u32) << 8u32) | ((((v
        >> 16u32) & 0xff) as u8 as u32) << 16u32) | ((((v >> 24u32) & 0xff) as u8 as u32)
        << 24u32)) == v) by (bit_vector);
}

pub proof fn lemma_halves(v: u64)
    ensures
        (lo32(v) as u64) | ((hi32(v) as u64) << 32u64) == v,
{
    assert((((v & 0xffff_ffff) as u32) as u64) | ((((v >> 32u64) as u32) as u64) << 32u64) == v)
        by (bit_vector);
}

/// Every word of `ws` can be read back from the bytes of `ws`.
pub proof fn lemma_words_bytes(ws: Seq<u32>)
    ensures
        words_bytes(ws).len() == 4 * ws.len(),
        forall|k: int| 0 <= k < ws.len() ==> #[trigger] word_at(words_bytes(ws), k) == ws[k],
    decreases ws.len(),
{
    if ws.len() > 0 {
        let init = ws.drop_last();
        lemma_words_bytes(init);
        lemma_u32_bytes_round_trip(ws.last());
        let a = words_bytes(init);
        let b = u32_bytes(ws.last());
        let s = words_bytes(ws);
        assert(s == a + b);
        assert forall|k: int| 0 <= k < ws.len() implies #[trigger] word_at(s, k) == ws[k] by {
            if k < init.len() {
                assert(word_at(a, k) == init[k]);
                assert(s[4 * k] == a[4 * k]);
                assert(s[4 * k + 1] == a[4 * k + 1]);
                assert(s[4 * k + 2] == a[4 * k + 2]);
                assert(s[4 * k + 3] == a[4 * k + 3]);
            } else {
                assert(s[4 * k] == b[0]);
                assert(s[4 * k + 1] == b[1]);
                assert(s[4 * k + 2] == b[2]);
                assert(s[4 * k + 3] == b[3]);
            }
        }
    }
}

/// Reads the little-endian 32-bit value at byte offset `off`.
pub fn read_u32(data: &[u8], off: usize) -> (r: u32)
    requires
        off + 4 <= data@.len(),
    ensures
        r == le_u32(data@, off as int),
{
    (data[off] as u32) | ((data[off + 1] as u32) << 8u32) | ((data[off + 2] as u32) << 16u32) | ((
    data[off + 3] as u32) << 24u32)
}

/// Reads word `k` of `data`.
pub fn read_word(data: &[u8], k: usize) -> (r: u32)
    requires
        4 * k + 4 <= data@.len(),
    ensures
        r == word_at(data@, k as int),
{
    let _n = data.len();
    read_u32(data, 4 * k)
}

/// Reads the 64-bit value made of words `k` and `k + 1`.
pub fn read_dword(data: &[u8], k: usize) -> (r: u64)
    requires
        4 * k + 8 <= data@.len(),
    ensures
        r == dword_at(data@, k as int),
{
    let _n = data.len();
    let lo = read_word(data, k);
    let hi = read_word(data, k + 1);
    (lo as u64) | ((hi as u64) << 32u64)
}

/// Appends the four little-endian bytes of `v`.
pub fn push_u32(buf: &mut Vec<u8>, v: u32)
    ensures
        final(buf)@ == old(buf)@ + u32_bytes(v),
{
    buf.push((v & 0xff) as u8);
    buf.push(((v >> 8u32) & 0xff) as u8);
    buf.push(((v >> 16u32) & 0xff) as u8);
    buf.push(((v >> 24u32) & 0xff) as u8);
    assert(final(buf)@ =~= old(buf)@ + u32_bytes(v));
}

/// The bytes of `ws`, each word little-endian.
pub fn encode_words(ws: &[u32]) -> (r: Vec<u8>)
    ensures
        r@ == words_bytes(ws@),
{
    let mut out: Vec<u8> = Vec::new();
    let mut i: usize = 0;
    while i < ws.len()
        invariant
            i <= ws@.len(),
            out@ == words_bytes(ws@.subrange(0, i as int)),
        decreases ws@.len() - i,
    {
        push_u32(&mut out, ws[i]);
        assert(ws@.subrange(0, i as int + 1).drop_last() =~= ws@.subrange(0, i as int));
        i += 1;
    }
    assert(ws@.subrange(0, ws@.len() as int) =~= ws@);
    out
}

} // verus!
