//! The request decoder: the binary argument record of the one supported
//! operation, its strict decoder, and the matching encoder.
//!
//! The record is length-prefixed and field-ordered: fixed-width integers are
//! little-endian, and each text field is its byte length as an unsigned
//! 32-bit little-endian integer followed by that many bytes of UTF-8 text.
//! Decoding is strict: truncated input or a text field that is not valid
//! UTF-8 fails rather than being reinterpreted. Bytes after the record are
//! ignored.

use vstd::prelude::*;
use vstd::slice::{slice_subrange, slice_to_vec};
use crate::error::MintError;

verus! {

/// Whether a byte sequence is a valid UTF-8 encoding. The name stands for
/// what `core::str::from_utf8` decides; nothing in this crate defines it.
pub uninterp spec fn is_utf8(bytes: Seq<u8>) -> bool;

/// Relies on core::str::from_utf8: it returns `Ok` exactly when the bytes
/// are a valid UTF-8 encoding, and on nothing but the bytes.
#[verifier::external_body]
pub(crate) fn utf8_check(bytes: &[u8]) -> (r: bool)
    ensures
        r == is_utf8(bytes@),
{
    core::str::from_utf8(bytes).is_ok()
}

/// The mathematical content of a decoded request: what the argument record
/// denotes, with text fields as their UTF-8 bytes.
pub ghost struct RequestModel {
    pub seller_fee_bp: u16,
    pub name: Seq<u8>,
    pub symbol: Seq<u8>,
    pub uri: Seq<u8>,
    pub supply: u16,
}

impl RequestModel {
    /// A request the decoder can produce: text fields are valid UTF-8 and
    /// short enough for their 32-bit length prefixes.
    pub open spec fn wf(self) -> bool {
        &&& is_utf8(self.name)
        &&& is_utf8(self.symbol)
        &&& is_utf8(self.uri)
        &&& self.name.len() < 0x1_0000_0000
        &&& self.symbol.len() < 0x1_0000_0000
        &&& self.uri.len() < 0x1_0000_0000
    }
}

/// The decoded argument record of the mint-master-edition operation.
/// Immutable once decoded; it lives only for one invocation.
#[derive(Clone, Debug, PartialEq, Eq)]
pub struct MintMasterEditionRequest {
    /// Royalty in basis points (0-10000 semantically, not enforced).
    pub seller_fee_bp: u16,
    /// The asset's name, as UTF-8 bytes.
    pub name: Vec<u8>,
    /// The asset's symbol, as UTF-8 bytes.
    pub symbol: Vec<u8>,
    /// The asset's metadata URI, as UTF-8 bytes.
    pub uri: Vec<u8>,
    /// The maximum number of printable copies of the master edition.
    pub supply: u16,
}

impl View for MintMasterEditionRequest {
    type V = RequestModel;

    open spec fn view(&self) -> RequestModel {
        RequestModel {
            seller_fee_bp: self.seller_fee_bp,
            name: self.name@,
            symbol: self.symbol@,
            uri: self.uri@,
            supply: self.supply,
        }
    }
}

// ---------------------------------------------------------------------------
// The encoding, as mathematics.
// ---------------------------------------------------------------------------

/// The two little-endian bytes of a 16-bit integer.
pub open spec fn le_bytes2(v: u16) -> Seq<u8> {
    seq![(v % 256) as u8, (v / 256) as u8]
}

/// The four little-endian bytes of a length below 2^32.
pub open spec fn le_bytes4(n: int) -> Seq<u8> {
    seq![
        (n % 256) as u8,
        ((n / 256) % 256) as u8,
        (((n / 256) / 256) % 256) as u8,
        ((((n / 256) / 256) / 256) % 256) as u8,
    ]
}

/// A length-prefixed field: four length bytes, then the field's bytes.
pub open spec fn encode_field(f: Seq<u8>) -> Seq<u8> {
    le_bytes4(f.len() as int) + f
}

/// The whole argument record: seller fee, the three text fields, supply.
pub open spec fn encode_spec(m: RequestModel) -> Seq<u8> {
    le_bytes2(m.seller_fee_bp) + encode_field(m.name) + encode_field(m.symbol) + encode_field(m.uri)
        + le_bytes2(m.supply)
}

/// The 16-bit integer whose little-endian bytes sit at position `i`.
pub open spec fn read_u16(s: Seq<u8>, i: int) -> int {
    s[i] + s[i + 1] * 256
}

/// The 32-bit length whose little-endian bytes sit at position `i`.
pub open spec fn read_len(s: Seq<u8>, i: int) -> int {
    s[i] + s[i + 1] * 256 + s[i + 2] * 65536 + s[i + 3] * 16777216
}

/// Where the length-prefixed field that starts at `i` ends.
pub open spec fn field_end(s: Seq<u8>, i: int) -> int {
    i + 4 + read_len(s, i)
}

/// The bytes of the length-prefixed field that starts at `i`.
pub open spec fn field_at(s: Seq<u8>, i: int) -> Seq<u8> {
    s.subrange(i + 4, field_end(s, i))
}

/// What decoding a payload yields: the request it denotes, or nothing when
/// the payload is truncated or a text field is not UTF-8. Bytes past the
/// record do not disturb it.
pub open spec fn decode_spec(s: Seq<u8>) -> Option<RequestModel> {
    if s.len() < 2 {
        None
    } else if !(2 + 4 <= s.len() && field_end(s, 2) <= s.len()) {
        None
    } else {
        let i2 = field_end(s, 2);
        if !(i2 + 4 <= s.len() && field_end(s, i2) <= s.len()) {
            None
        } else {
            let i3 = field_end(s, i2);
            if !(i3 + 4 <= s.len() && field_end(s, i3) <= s.len()) {
                None
            } else {
                let i4 = field_end(s, i3);
                if s.len() < i4 + 2 {
                    None
                } else if !(is_utf8(field_at(s, 2)) && is_utf8(field_at(s, i2)) && is_utf8(
                    field_at(s, i3),
                )) {
                    None
                } else {
                    Some(
                        RequestModel {
                            seller_fee_bp: read_u16(s, 0) as u16,
                            name: field_at(s, 2),
                            symbol: field_at(s, i2),
                            uri: field_at(s, i3),
                            supply: read_u16(s, i4) as u16,
                        },
                    )
                }
            }
        }
    }
}

// ---------------------------------------------------------------------------
// The executable decoder.
// ---------------------------------------------------------------------------

fn byte_at(s: &[u8], i: usize) -> (r: u8)
    requires
        i < s@.len(),
    ensures
        r == s@[i as int],
{
    *vstd::slice::slice_index_get(s, i)
}

fn read_u16_at(s: &[u8], i: usize) -> (r: u16)
    requires
        i + 2 <= s@.len(),
    ensures
        r as int == read_u16(s@, i as int),
{
    let n = s.len();
    assert(i + 2 <= n);
    let b0 = byte_at(s, i);
    let b1 = byte_at(s, i + 1);
    b0 as u16 + b1 as u16 * 256
}

fn read_len_at(s: &[u8], i: usize) -> (r: u32)
    requires
        i + 4 <= s@.len(),
    ensures
        r as int == read_len(s@, i as int),
{
    let n = s.len();
    assert(i + 4 <= n);
    let b0 = byte_at(s, i);
    let b1 = byte_at(s, i + 1);
    let b2 = byte_at(s, i + 2);
    let b3 = byte_at(s, i + 3);
    b0 as u32 + b1 as u32 * 256 + b2 as u32 * 65536 + b3 as u32 * 16777216
}

/// Reads the length-prefixed field that starts at `i`: its bytes and the
/// position just after it, or nothing when the input is too short.
fn read_field(s: &[u8], i: usize) -> (r: Option<(Vec<u8>, usize)>)
    requires
        i <= s@.len(),
    ensures
        r is Some <==> (i + 4 <= s@.len() && field_end(s@, i as int) <= s@.len()),
        r matches Some(p) ==> p.0@ == field_at(s@, i as int) && p.1 as int == field_end(
            s@,
            i as int,
        ),
{
    if s.len() - i < 4 {
        return None;
    }
    let len = read_len_at(s, i) as usize;
    if s.len() - (i + 4) < len {
        return None;
    }
    let end = i + 4 + len;
    let bytes = slice_to_vec(slice_subrange(s, i + 4, end));
    Some((bytes, end))
}

/// Decodes the argument record. Strict: a truncated record or a text field
/// that is not valid UTF-8 is a `MalformedArgumentRecord` failure; nothing is
/// interpreted loosely. Pure: no side effects.
pub fn decode_request(payload: &[u8]) -> (r: Result<MintMasterEditionRequest, MintError>)
    ensures
        decode_spec(payload@) is None ==> r == Err::<MintMasterEditionRequest, MintError>(
            MintError::MalformedArgumentRecord,
        ),
        decode_spec(payload@) matches Some(m) ==> (r matches Ok(req) && req@ == m && m.wf()),
{
    let n = payload.len();
    if n < 2 {
        return Err(MintError::MalformedArgumentRecord);
    }
    let seller_fee_bp = read_u16_at(payload, 0);
    let (name, i2) = match read_field(payload, 2) {
        Some(p) => p,
        None => { return Err(MintError::MalformedArgumentRecord) },
    };
    let (symbol, i3) = match read_field(payload, i2) {
        Some(p) => p,
        None => { return Err(MintError::MalformedArgumentRecord) },
    };
    let (uri, i4) = match read_field(payload, i3) {
        Some(p) => p,
        None => { return Err(MintError::MalformedArgumentRecord) },
    };
    if n - i4 < 2 {
        return Err(MintError::MalformedArgumentRecord);
    }
    let supply = read_u16_at(payload, i4);
    if !(utf8_check(name.as_slice()) && utf8_check(symbol.as_slice()) && utf8_check(
        uri.as_slice(),
    )) {
        return Err(MintError::MalformedArgumentRecord);
    }
    Ok(MintMasterEditionRequest { seller_fee_bp, name, symbol, uri, supply })
}

// ---------------------------------------------------------------------------
// The executable encoder.
// ---------------------------------------------------------------------------

fn push_u16(out: &mut Vec<u8>, v: u16)
    ensures
        final(out)@ == old(out)@ + le_bytes2(v),
{
    out.push((v % 256) as u8);
    out.push((v / 256) as u8);
    proof {
        assert(out@ =~= old(out)@ + le_bytes2(v));
    }
}

fn push_field(out: &mut Vec<u8>, f: &Vec<u8>)
    requires
        f@.len() < 0x1_0000_0000,
    ensures
        final(out)@ == old(out)@ + encode_field(f@),
{
    let len = f.len() as u32;
    out.push((len % 256) as u8);
    out.push((len / 256 % 256) as u8);
    out.push((len / 256 / 256 % 256) as u8);
    out.push((len / 256 / 256 / 256 % 256) as u8);
    proof {
        assert(out@ =~= old(out)@ + le_bytes4(f@.len() as int));
    }
    let ghost with_len = out@;
    let m = f.len();
    let mut j: usize = 0;
    while j < m
        invariant
            j <= m,
            m == f@.len(),
            out@ == with_len + f@.subrange(0, j as int),
        decreases m - j,
    {
        out.push(f[j]);
        j = j + 1;
        proof {
            assert(f@.subrange(0, j as int) =~= f@.subrange(0, j - 1).push(f@[j - 1]));
        }
    }
    proof {
        assert(f@.subrange(0, m as int) =~= f@);
    }
}

// ---------------------------------------------------------------------------
// Round trip: decoding reads back exactly what encoding wrote.
// ---------------------------------------------------------------------------

proof fn lemma_le2_value(s: Seq<u8>, i: int, v: u16)
    requires
        0 <= i,
        i + 2 <= s.len(),
        s.subrange(i, i + 2) == le_bytes2(v),
    ensures
        read_u16(s, i) == v,
{
    assert(s[i] == le_bytes2(v)[0]);
    assert(s[i + 1] == le_bytes2(v)[1]);
    vstd::arithmetic::div_mod::lemma_fundamental_div_mod(v as int, 256);
}

proof fn lemma_le4_value(s: Seq<u8>, i: int, n: int)
    requires
        0 <= i,
        i + 4 <= s.len(),
        0 <= n < 0x1_0000_0000,
        s.subrange(i, i + 4) == le_bytes4(n),
    ensures
        read_len(s, i) == n,
{
    assert(s[i] == le_bytes4(n)[0]);
    assert(s[i + 1] == le_bytes4(n)[1]);
    assert(s[i + 2] == le_bytes4(n)[2]);
    assert(s[i + 3] == le_bytes4(n)[3]);
    let q1 = n / 256;
    let q2 = q1 / 256;
    let q3 = q2 / 256;
    vstd::arithmetic::div_mod::lemma_fundamental_div_mod(n, 256);
    vstd::arithmetic::div_mod::lemma_fundamental_div_mod(q1, 256);
    vstd::arithmetic::div_mod::lemma_fundamental_div_mod(q2, 256);
    assert(q3 < 256);
    vstd::arithmetic::div_mod::lemma_small_mod(q3 as nat, 256);
}

/// Round trip: encoding a well-formed request and decoding the result yields
/// the request unchanged, whatever its text fields (empty included) and
/// whatever its two integer fields.
#[verifier::rlimit(80)]
pub proof fn lemma_encode_decode_round_trip(m: RequestModel)
    requires
        m.wf(),
    ensures
        decode_spec(encode_spec(m)) == Some(m),
{
    let s = encode_spec(m);
    let n = m.name.len() as int;
    let k = m.symbol.len() as int;
    let u = m.uri.len() as int;
    let i2 = 6 + n;
    let i3 = i2 + 4 + k;
    let i4 = i3 + 4 + u;
    assert(s.len() == i4 + 2);
    assert(s.subrange(0, 2) =~= le_bytes2(m.seller_fee_bp));
    assert(s.subrange(2, 6) =~= le_bytes4(n));
    assert(s.subrange(6, i2) =~= m.name);
    assert(s.subrange(i2, i2 + 4) =~= le_bytes4(k));
    assert(s.subrange(i2 + 4, i3) =~= m.symbol);
    assert(s.subrange(i3, i3 + 4) =~= le_bytes4(u));
    assert(s.subrange(i3 + 4, i4) =~= m.uri);
    assert(s.subrange(i4, i4 + 2) =~= le_bytes2(m.supply));
    lemma_le2_value(s, 0, m.seller_fee_bp);
    lemma_le4_value(s, 2, n);
    assert(field_end(s, 2) == i2);
    assert(field_at(s, 2) == m.name);
    lemma_le4_value(s, i2, k);
    assert(field_end(s, i2) == i3);
    assert(field_at(s, i2) == m.symbol);
    lemma_le4_value(s, i3, u);
    assert(field_end(s, i3) == i4);
    assert(field_at(s, i3) == m.uri);
    lemma_le2_value(s, i4, m.supply);
    assert(decode_spec(s) == Some(m));
}

/// Encodes a request into the binary argument record that `decode_request`
/// reads back. The length bounds are what the 32-bit length prefixes force.
pub fn encode_request(req: &MintMasterEditionRequest) -> (r: Vec<u8>)
    requires
        req.name@.len() < 0x1_0000_0000,
        req.symbol@.len() < 0x1_0000_0000,
        req.uri@.len() < 0x1_0000_0000,
    ensures
        r@ == encode_spec(req@),
{
    let mut out: Vec<u8> = Vec::new();
    push_u16(&mut out, req.seller_fee_bp);
    push_field(&mut out, &req.name);
    push_field(&mut out, &req.symbol);
    push_field(&mut out, &req.uri);
    push_u16(&mut out, req.supply);
    proof {
        assert(out@ =~= encode_spec(req@));
    }
    out
}

} // verus!
