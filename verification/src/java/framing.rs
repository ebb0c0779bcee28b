//! Buffers exchanged with Java: length-prefixed byte buffers, and the
//! conversion between Rust bytes and Java's signed bytes.
use vstd::prelude::*;

verus! {

/// The four little-endian bytes of `n` modulo 2^32, which is what `n as u32`
/// keeps.
pub open spec fn le_u32_bytes(n: nat) -> Seq<u8> {
    seq![
        (n % 256) as u8,
        ((n / 256) % 256) as u8,
        ((n / 65536) % 256) as u8,
        ((n / 16777216) % 256) as u8,
    ]
}

/// The number that four little-endian bytes stand for.
pub open spec fn le_u32_value(b: Seq<u8>) -> nat {
    (b[0] + 256 * b[1] + 65536 * b[2] + 16777216 * b[3]) as nat
}

/// A buffer prefixed with its length: the length as a little-endian `u32`,
/// then the data.
pub open spec fn length_prefixed(data: Seq<u8>) -> Seq<u8> {
    le_u32_bytes(data.len()) + data
}

/// Prefixes `data` with its length as a little-endian `u32`. A length of 2^32
/// or more is written modulo 2^32, as a cast to `u32` writes it.
pub fn encode_with_length(data: Vec<u8>) -> (r: Vec<u8>)
    ensures
        r@ == length_prefixed(data@),
{
    let n = data.len();
    let mut r: Vec<u8> = Vec::new();
    r.push((n % 256) as u8);
    r.push(((n / 256) % 256) as u8);
    r.push(((n / 65536) % 256) as u8);
    r.push(((n / 16777216) % 256) as u8);
    let ghost header = r@;
    let mut data = data;
    let ghost payload = data@;
    r.append(&mut data);
    assert(header =~= le_u32_bytes(n as nat));
    assert(r@ =~= length_prefixed(payload));
    r
}

/// Reading the length back from a length-prefixed buffer gives the length of
/// the data modulo 2^32, and the rest of the buffer is the data.
pub proof fn law_length_prefix_round_trip(data: Seq<u8>)
    ensures
        le_u32_value(length_prefixed(data).take(4)) == data.len() % 4294967296,
        length_prefixed(data).skip(4) == data,
{
    let n = data.len() as int;
    let b = length_prefixed(data);
    assert(b.skip(4) =~= data);
    assert(b[0] == n % 256);
    assert(b[1] == (n / 256) % 256);
    assert(b[2] == (n / 65536) % 256);
    assert(b[3] == (n / 16777216) % 256);
    assert(n % 256 + 256 * ((n / 256) % 256) + 65536 * ((n / 65536) % 256) + 16777216 * ((n
        / 16777216) % 256) == n % 4294967296) by (nonlinear_arith)
        requires
            n >= 0,
    {
        let q1 = n / 256;
        let q2 = n / 65536;
        let q3 = n / 16777216;
        assert(q2 == q1 / 256);
        assert(q3 == q2 / 256);
    }
}

/// Java's signed bytes for Rust bytes (`b as i8`).
pub fn to_java_bytes(bytes: &Vec<u8>) -> (r: Vec<i8>)
    ensures
        r@.len() == bytes@.len(),
        forall|i: int| 0 <= i < bytes@.len() ==> #[trigger] r@[i] == bytes@[i] as i8,
{
    let mut r: Vec<i8> = Vec::new();
    let mut i: usize = 0;
    while i < bytes.len()
        invariant
            i <= bytes@.len(),
            r@.len() == i,
            forall|j: int| 0 <= j < i ==> #[trigger] r@[j] == bytes@[j] as i8,
        decreases bytes@.len() - i,
    {
        r.push(bytes[i] as i8);
        i += 1;
    }
    r
}

/// Rust bytes for Java's signed bytes (`b as u8`).
pub fn from_java_bytes(bytes: &Vec<i8>) -> (r: Vec<u8>)
    ensures
        r@.len() == bytes@.len(),
        forall|i: int| 0 <= i < bytes@.len() ==> #[trigger] r@[i] == bytes@[i] as u8,
{
    let mut r: Vec<u8> = Vec::new();
    let mut i: usize = 0;
    while i < bytes.len()
        invariant
            i <= bytes@.len(),
            r@.len() == i,
            forall|j: int| 0 <= j < i ==> #[trigger] r@[j] == bytes@[j] as u8,
        decreases bytes@.len() - i,
    {
        r.push(bytes[i] as u8);
        i += 1;
    }
    r
}

/// Bytes sent to Java as signed bytes and read back are the bytes sent.
pub proof fn law_java_bytes_round_trip(bytes: Seq<u8>, signed: Seq<i8>, back: Seq<u8>)
    requires
        signed.len() == bytes.len(),
        forall|i: int| 0 <= i < bytes.len() ==> #[trigger] signed[i] == bytes[i] as i8,
        back.len() == signed.len(),
        forall|i: int| 0 <= i < signed.len() ==> #[trigger] back[i] == signed[i] as u8,
    ensures
        back == bytes,
{
    assert forall|i: int| 0 <= i < bytes.len() implies back[i] == bytes[i] by {
        let b = bytes[i];
        assert(back[i] == signed[i] as u8);
        assert(((b as i8) as u8) == b) by (bit_vector);
    }
    assert(back =~= bytes);
}

} // verus!
