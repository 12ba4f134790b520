use vstd::prelude::*;

verus! {

/// The four bytes that hold a 32-bit signed value in a host-shareable
/// buffer: two's complement, least significant byte first.
pub open spec fn value_bytes(v: i32) -> Seq<u8> {
    let x = v as u32;
    seq![
        (x & 0xff) as u8,
        ((x >> 8u32) & 0xff) as u8,
        ((x >> 16u32) & 0xff) as u8,
        ((x >> 24u32) & 0xff) as u8,
    ]
}

/// The 32-bit signed value held by four bytes, least significant byte first.
pub open spec fn value_of_bytes(b: Seq<u8>) -> i32
    recommends
        b.len() == 4,
{
    ((b[0] as u32) | ((b[1] as u32) << 8u32) | ((b[2] as u32) << 16u32) | ((b[3] as u32)
        << 24u32)) as i32
}

/// Reading back the bytes written for a value gives that value.
pub proof fn lemma_value_bytes_round_trip(v: i32)
    ensures
        value_bytes(v).len() == 4,
        value_of_bytes(value_bytes(v)) == v,
{
    let x = v as u32;
    let b0 = (x & 0xff) as u8;
    let b1 = ((x >> 8u32) & 0xff) as u8;
    let b2 = ((x >> 16u32) & 0xff) as u8;
    let b3 = ((x >> 24u32) & 0xff) as u8;
    assert(((b0 as u32) | ((b1 as u32) << 8u32) | ((b2 as u32) << 16u32) | ((b3 as u32) << 24u32))
        == x) by (bit_vector)
        requires
            b0 == (x & 0xff) as u8,
            b1 == ((x >> 8u32) & 0xff) as u8,
            b2 == ((x >> 16u32) & 0xff) as u8,
            b3 == ((x >> 24u32) & 0xff) as u8,
    ;
    assert((x as i32) == v) by (bit_vector)
        requires
            x == v as u32,
    ;
}

/// Encodes a value as the bytes that a uniform buffer holds for it.
pub fn encode_value(v: i32) -> (r: Vec<u8>)
    ensures
        r@ == value_bytes(v),
{
    let x = v as u32;
    let r = vec![
        (x & 0xff) as u8,
        ((x >> 8u32) & 0xff) as u8,
        ((x >> 16u32) & 0xff) as u8,
        ((x >> 24u32) & 0xff) as u8,
    ];
    assert(r@ =~= value_bytes(v));
    r
}

/// Reads back the value held by the bytes of a uniform buffer; `None` when
/// the bytes are not exactly four.
pub fn decode_value(b: &[u8]) -> (r: Option<i32>)
    ensures
        b@.len() == 4 ==> r == Some(value_of_bytes(b@)),
        b@.len() != 4 ==> r.is_none(),
{
    if b.len() != 4 {
        return None;
    }
    let x = (b[0] as u32) | ((b[1] as u32) << 8u32) | ((b[2] as u32) << 16u32) | ((b[3] as u32)
        << 24u32);
    Some(x as i32)
}

} // verus!
