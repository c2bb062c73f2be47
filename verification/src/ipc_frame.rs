//! IPC wire framing: a 4-byte little-endian length, then the JSON body.

use vstd::prelude::*;
use crate::error::AvixError;
use crate::text::owned;

verus! {

/// Largest body a frame may carry (16 MiB).
pub const MAX_FRAME_BYTES: usize = 16777216;

/// Little-endian bytes of a 32-bit length.
pub open spec fn le_bytes(n: nat) -> Seq<u8> {
    seq![(n % 256) as u8, ((n / 256) % 256) as u8, ((n / 65536) % 256) as u8, ((n / 16777216) % 256) as u8]
}

/// The value four little-endian bytes denote.
pub open spec fn le_value(b: Seq<u8>) -> nat {
    b[0] as nat + b[1] as nat * 256 + b[2] as nat * 65536 + b[3] as nat * 16777216
}

/// The frame for a body: its length in four little-endian bytes, then the body.
pub open spec fn frame_of(body: Seq<u8>) -> Seq<u8> {
    le_bytes(body.len()) + body
}

/// Wrap an encoded body in a frame. Bodies over 16 MiB are refused.
pub fn encode(body: &[u8]) -> (r: Result<Vec<u8>, AvixError>)
    ensures
        r is Ok <==> body@.len() <= MAX_FRAME_BYTES,
        r matches Ok(buf) ==> buf@ == frame_of(body@),
        r matches Err(e) ==> (e matches AvixError::ConfigParse(m) && m@ == "message exceeds 16 MB limit"@),
{
    if body.len() > MAX_FRAME_BYTES {
        return Err(AvixError::ConfigParse(owned("message exceeds 16 MB limit")));
    }
    let n: usize = body.len();
    let mut buf: Vec<u8> = Vec::new();
    buf.push((n % 256) as u8);
    buf.push(((n / 256) % 256) as u8);
    buf.push(((n / 65536) % 256) as u8);
    buf.push(((n / 16777216) % 256) as u8);
    let mut i: usize = 0;
    while i < body.len()
        invariant
            n == body@.len(),
            i <= n,
            buf@ == le_bytes(n as nat) + body@.take(i as int),
        decreases n - i,
    {
        buf.push(body[i]);
        assert(body@.take(i + 1) =~= body@.take(i as int).push(body@[i as int]));
        assert(le_bytes(n as nat) + body@.take(i + 1) =~= (le_bytes(n as nat) + body@.take(i as int)).push(body@[i as int]));
        i += 1;
    }
    assert(body@.take(n as int) =~= body@);
    Ok(buf)
}

/// The body of a frame: everything after the 4-byte header (the header's
/// value is not consulted). Fewer than four bytes is an error.
pub fn decode(bytes: &[u8]) -> (r: Result<Vec<u8>, AvixError>)
    ensures
        r is Ok <==> bytes@.len() >= 4,
        r matches Ok(b) ==> b@ == bytes@.skip(4),
        r matches Err(e) ==> (e matches AvixError::ConfigParse(m) && m@ == "frame too short"@),
{
    if bytes.len() < 4 {
        return Err(AvixError::ConfigParse(owned("frame too short")));
    }
    let mut out: Vec<u8> = Vec::new();
    let mut i: usize = 4;
    while i < bytes.len()
        invariant
            4 <= i <= bytes@.len(),
            out@ == bytes@.subrange(4, i as int),
        decreases bytes@.len() - i,
    {
        out.push(bytes[i]);
        assert(bytes@.subrange(4, i + 1) =~= bytes@.subrange(4, i as int).push(bytes@[i as int]));
        i += 1;
    }
    assert(bytes@.subrange(4, bytes@.len() as int) =~= bytes@.skip(4));
    Ok(out)
}

/// The body length announced by a frame header, refused above 16 MiB.
pub fn body_len(header: &[u8]) -> (r: Result<usize, AvixError>)
    requires
        header@.len() == 4,
    ensures
        r is Ok <==> le_value(header@) <= MAX_FRAME_BYTES,
        r matches Ok(n) ==> n as nat == le_value(header@),
        r matches Err(e) ==> (e matches AvixError::ConfigParse(m) && m@ == "frame too large"@),
{
    let v: u64 = header[0] as u64 + header[1] as u64 * 256 + header[2] as u64 * 65536
        + header[3] as u64 * 16777216;
    if v > MAX_FRAME_BYTES as u64 {
        return Err(AvixError::ConfigParse(owned("frame too large")));
    }
    Ok(v as usize)
}

/// The header of a frame announces exactly the length of its body.
pub proof fn law_header_announces_body_len(n: nat)
    requires
        n < 4294967296,
    ensures
        le_value(le_bytes(n)) == n,
{
    let b = le_bytes(n);
    assert(b[0] as nat == n % 256);
    assert(b[1] as nat == (n / 256) % 256);
    assert(b[2] as nat == (n / 65536) % 256);
    assert(b[3] as nat == (n / 16777216) % 256);
    assert((n % 256) + ((n / 256) % 256) * 256 + ((n / 65536) % 256) * 65536
        + ((n / 16777216) % 256) * 16777216 == n) by (nonlinear_arith)
        requires n < 4294967296;
}

/// Decoding an encoded frame gives back the body, and its header gives
/// back the body's length.
pub proof fn law_frame_roundtrip(body: Seq<u8>)
    requires
        body.len() <= MAX_FRAME_BYTES,
    ensures
        frame_of(body).skip(4) == body,
        le_value(frame_of(body).take(4)) == body.len(),
        frame_of(body).len() >= 4,
{
    assert(frame_of(body).skip(4) =~= body);
    assert(frame_of(body).take(4) =~= le_bytes(body.len()));
    law_header_announces_body_len(body.len());
}

} // verus!
