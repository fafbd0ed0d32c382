//! Byte and text encodings: lowercase hex, little-endian integers and the
//! canonical (BCS) framing of an intent envelope.

use vstd::prelude::*;

verus! {

/// The sixteen lowercase hex digits, in order.
pub open spec fn hex_alphabet() -> Seq<char> {
    seq!['0', '1', '2', '3', '4', '5', '6', '7', '8', '9', 'a', 'b', 'c', 'd', 'e', 'f']
}

/// Lowercase hex text of a byte string: two digits per byte, high nibble first.
pub open spec fn hex_text(b: Seq<u8>) -> Seq<char>
    decreases b.len(),
{
    if b.len() == 0 {
        Seq::empty()
    } else {
        let last = b.last();
        hex_text(b.drop_last()) + seq![hex_alphabet()[(last / 16) as int], hex_alphabet()[(last % 16) as int]]
    }
}

/// Decimal text of a natural number, most significant digit first, no leading zeros.
pub open spec fn decimal_text(n: nat) -> Seq<char>
    decreases n,
{
    if n < 10 {
        seq![hex_alphabet()[n as int]]
    } else {
        decimal_text(n / 10) + seq![hex_alphabet()[(n % 10) as int]]
    }
}

/// The eight bytes of `v`, least significant first.
pub open spec fn u64_le_bytes(v: u64) -> Seq<u8> {
    seq![
        (v & 0xff) as u8,
        ((v >> 8u64) & 0xff) as u8,
        ((v >> 16u64) & 0xff) as u8,
        ((v >> 24u64) & 0xff) as u8,
        ((v >> 32u64) & 0xff) as u8,
        ((v >> 40u64) & 0xff) as u8,
        ((v >> 48u64) & 0xff) as u8,
        ((v >> 56u64) & 0xff) as u8,
    ]
}

/// The canonical bytes of an envelope: the intent byte, the timestamp as
/// eight little-endian bytes, then the canonical bytes of the payload.
pub open spec fn envelope_bytes(intent: u8, timestamp_ms: u64, data: Seq<u8>) -> Seq<u8> {
    seq![intent] + u64_le_bytes(timestamp_ms) + data
}

/// Relies on hex::encode: two lowercase digits per byte, in order.
#[verifier::external_body]
pub(crate) fn hex_encode(b: &Vec<u8>) -> (r: String)
    ensures
        r@ == hex_text(b@),
{
    hex::encode(b)
}

/// The one-digit text of `d`.
fn digit_str(d: usize) -> (r: &'static str)
    requires
        d < 10,
    ensures
        r@ == seq![hex_alphabet()[d as int]],
{
    proof {
        reveal_strlit("0");
        reveal_strlit("1");
        reveal_strlit("2");
        reveal_strlit("3");
        reveal_strlit("4");
        reveal_strlit("5");
        reveal_strlit("6");
        reveal_strlit("7");
        reveal_strlit("8");
        reveal_strlit("9");
    }
    let r = match d {
        0 => "0",
        1 => "1",
        2 => "2",
        3 => "3",
        4 => "4",
        5 => "5",
        6 => "6",
        7 => "7",
        8 => "8",
        _ => "9",
    };
    assert(r@ =~= seq![hex_alphabet()[d as int]]);
    r
}

/// The decimal digits of `n`.
pub(crate) fn usize_text(n: usize) -> (r: String)
    ensures
        r@ == decimal_text(n as nat),
    decreases n,
{
    if n < 10 {
        String::from_str(digit_str(n))
    } else {
        let mut s = usize_text(n / 10);
        s.append(digit_str(n % 10));
        s
    }
}

/// Relies on bcs::to_bytes: a tuple is its fields in order, a `u8` is one
/// byte and a `u64` is eight little-endian bytes; neither can fail.
#[verifier::external_body]
fn bcs_header(intent: u8, timestamp_ms: u64) -> (r: Vec<u8>)
    ensures
        r@ == seq![intent] + u64_le_bytes(timestamp_ms),
{
    bcs::to_bytes(&(intent, timestamp_ms)).unwrap()
}

/// Hex text has two digits per byte.
pub proof fn lemma_hex_text_len(b: Seq<u8>)
    ensures
        hex_text(b).len() == 2 * b.len(),
    decreases b.len(),
{
    if b.len() > 0 {
        lemma_hex_text_len(b.drop_last());
    }
}

/// Two timestamps with the same little-endian bytes are equal.
pub proof fn lemma_u64_le_bytes_injective(a: u64, b: u64)
    requires
        u64_le_bytes(a) == u64_le_bytes(b),
    ensures
        a == b,
{
    let sa = u64_le_bytes(a);
    let sb = u64_le_bytes(b);
    assert(sa[0] == sb[0] && sa[1] == sb[1] && sa[2] == sb[2] && sa[3] == sb[3]);
    assert(sa[4] == sb[4] && sa[5] == sb[5] && sa[6] == sb[6] && sa[7] == sb[7]);
    assert(a == b) by (bit_vector)
        requires
            (a & 0xff) as u8 == (b & 0xff) as u8,
            ((a >> 8u64) & 0xff) as u8 == ((b >> 8u64) & 0xff) as u8,
            ((a >> 16u64) & 0xff) as u8 == ((b >> 16u64) & 0xff) as u8,
            ((a >> 24u64) & 0xff) as u8 == ((b >> 24u64) & 0xff) as u8,
            ((a >> 32u64) & 0xff) as u8 == ((b >> 32u64) & 0xff) as u8,
            ((a >> 40u64) & 0xff) as u8 == ((b >> 40u64) & 0xff) as u8,
            ((a >> 48u64) & 0xff) as u8 == ((b >> 48u64) & 0xff) as u8,
            ((a >> 56u64) & 0xff) as u8 == ((b >> 56u64) & 0xff) as u8,
    ;
}

/// The canonical envelope encoding is unambiguous: equal bytes come only
/// from equal intent, timestamp and payload bytes.
pub proof fn lemma_envelope_bytes_injective(
    i1: u8,
    t1: u64,
    d1: Seq<u8>,
    i2: u8,
    t2: u64,
    d2: Seq<u8>,
)
    requires
        envelope_bytes(i1, t1, d1) == envelope_bytes(i2, t2, d2),
    ensures
        i1 == i2,
        t1 == t2,
        d1 == d2,
{
    let e1 = envelope_bytes(i1, t1, d1);
    let e2 = envelope_bytes(i2, t2, d2);
    assert(e1[0] == i1);
    assert(e2[0] == i2);
    assert(e1.subrange(1, 9) =~= u64_le_bytes(t1));
    assert(e2.subrange(1, 9) =~= u64_le_bytes(t2));
    lemma_u64_le_bytes_injective(t1, t2);
    assert(e1.subrange(9, e1.len() as int) =~= d1);
    assert(e2.subrange(9, e2.len() as int) =~= d2);
}

/// Frames an envelope into its canonical bytes; `data` is the payload's own
/// canonical (BCS) encoding.
pub fn canonical_envelope_bytes(intent: u8, timestamp_ms: u64, data: &Vec<u8>) -> (r: Vec<u8>)
    ensures
        r@ == envelope_bytes(intent, timestamp_ms, data@),
{
    let mut out = bcs_header(intent, timestamp_ms);
    let mut i: usize = 0;
    while i < data.len()
        invariant
            i <= data@.len(),
            out@ == seq![intent] + u64_le_bytes(timestamp_ms) + data@.subrange(0, i as int),
        decreases data@.len() - i,
    {
        out.push(data[i]);
        i = i + 1;
        assert(data@.subrange(0, i as int) =~= data@.subrange(0, (i - 1) as int).push(data@[i - 1]));
    }
    assert(data@.subrange(0, data@.len() as int) =~= data@);
    out
}

} // verus!
