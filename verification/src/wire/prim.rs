//! Integers, byte strings and text on the wire.
//!
//! For each kind of value `x` there are five items. The spec function `enc_x` says how a
//! value is written. The spec function `dec_x` says how one is read at a position: it
//! gives the value and the position behind it, or nothing if no value stands there.
//! The lemma `lemma_dec_enc_x` shows that reading gives back what was written. The
//! functions `put_x` and `get_x` write and read as `enc_x` and `dec_x` say.

use vstd::bytes::*;
use vstd::prelude::*;
use vstd::slice::*;
use vstd::utf8::*;

verus! {

/// `enc` stands in `bytes` at position `pos`.
pub open spec fn holds_at(bytes: Seq<u8>, pos: int, enc: Seq<u8>) -> bool {
    &&& 0 <= pos
    &&& pos + enc.len() <= bytes.len()
    &&& bytes.subrange(pos, pos + enc.len()) == enc
}

/// A concatenation stands at `pos` exactly when its parts stand one after the other.
pub proof fn lemma_holds_at_concat(bytes: Seq<u8>, pos: int, a: Seq<u8>, b: Seq<u8>)
    ensures
        holds_at(bytes, pos, a + b) <==> holds_at(bytes, pos, a) && holds_at(
            bytes,
            pos + a.len(),
            b,
        ),
{
    if 0 <= pos && pos + a.len() + b.len() <= bytes.len() {
        let whole = bytes.subrange(pos, pos + a.len() + b.len());
        let left = bytes.subrange(pos, pos + a.len());
        let right = bytes.subrange(pos + a.len(), pos + a.len() + b.len());
        assert(whole =~= left + right);
        if whole == a + b {
            assert(left =~= (a + b).subrange(0, a.len() as int));
            assert((a + b).subrange(0, a.len() as int) =~= a);
            assert(right =~= (a + b).subrange(a.len() as int, (a + b).len() as int));
            assert((a + b).subrange(a.len() as int, (a + b).len() as int) =~= b);
        }
    }
}

/// Whatever is appended to `bytes` leaves what stands in it where it is.
pub proof fn lemma_holds_at_extend(bytes: Seq<u8>, tail: Seq<u8>, pos: int, enc: Seq<u8>)
    requires
        holds_at(bytes, pos, enc),
    ensures
        holds_at(bytes + tail, pos, enc),
{
    assert((bytes + tail).subrange(pos, pos + enc.len()) =~= bytes.subrange(pos, pos + enc.len()));
}

// ---------------------------------------------------------------------------
// Single bytes

pub open spec fn enc_u8(x: u8) -> Seq<u8> {
    seq![x]
}

pub open spec fn dec_u8(bytes: Seq<u8>, pos: int) -> Option<(u8, int)> {
    if 0 <= pos < bytes.len() {
        Some((bytes[pos], pos + 1))
    } else {
        None
    }
}

pub proof fn lemma_dec_enc_u8(bytes: Seq<u8>, pos: int, x: u8)
    requires
        holds_at(bytes, pos, enc_u8(x)),
    ensures
        dec_u8(bytes, pos) == Some((x, pos + 1)),
{
    assert(bytes.subrange(pos, pos + 1)[0] == x);
}

pub fn put_u8(out: &mut Vec<u8>, x: u8)
    ensures
        final(out)@ == old(out)@ + enc_u8(x),
{
    out.push(x);
    assert(out@ =~= old(out)@ + enc_u8(x));
}

pub fn get_u8(bytes: &[u8], pos: usize) -> (r: Option<(u8, usize)>)
    ensures
        r matches Some((v, p)) ==> dec_u8(bytes@, pos as int) == Some((v, p as int)),
        r is None ==> dec_u8(bytes@, pos as int) is None,
{
    if pos < bytes.len() {
        Some((bytes[pos], pos + 1))
    } else {
        None
    }
}

// ---------------------------------------------------------------------------
// Booleans: one byte, zero or one

pub open spec fn enc_bool(b: bool) -> Seq<u8> {
    seq![if b { 1u8 } else { 0u8 }]
}

pub open spec fn dec_bool(bytes: Seq<u8>, pos: int) -> Option<(bool, int)> {
    match dec_u8(bytes, pos) {
        Some((v, p)) => if v == 0 {
            Some((false, p))
        } else if v == 1 {
            Some((true, p))
        } else {
            None
        },
        None => None,
    }
}

pub proof fn lemma_dec_enc_bool(bytes: Seq<u8>, pos: int, b: bool)
    requires
        holds_at(bytes, pos, enc_bool(b)),
    ensures
        dec_bool(bytes, pos) == Some((b, pos + 1)),
{
    assert(bytes.subrange(pos, pos + 1)[0] == enc_bool(b)[0]);
}

pub fn put_bool(out: &mut Vec<u8>, b: bool)
    ensures
        final(out)@ == old(out)@ + enc_bool(b),
{
    out.push(if b { 1u8 } else { 0u8 });
    assert(out@ =~= old(out)@ + enc_bool(b));
}

pub fn get_bool(bytes: &[u8], pos: usize) -> (r: Option<(bool, usize)>)
    ensures
        r matches Some((v, p)) ==> dec_bool(bytes@, pos as int) == Some((v, p as int)),
        r is None ==> dec_bool(bytes@, pos as int) is None,
{
    match get_u8(bytes, pos) {
        Some((v, p)) => if v == 0 {
            Some((false, p))
        } else if v == 1 {
            Some((true, p))
        } else {
            None
        },
        None => None,
    }
}

// ---------------------------------------------------------------------------
// 32-bit integers

pub open spec fn enc_u32(x: u32) -> Seq<u8> {
    spec_u32_to_le_bytes(x)
}

pub open spec fn dec_u32(bytes: Seq<u8>, pos: int) -> Option<(u32, int)> {
    if 0 <= pos && pos + 4 <= bytes.len() {
        Some((spec_u32_from_le_bytes(bytes.subrange(pos, pos + 4)), pos + 4))
    } else {
        None
    }
}

pub proof fn lemma_enc_u32_len(x: u32)
    ensures
        enc_u32(x).len() == 4,
{
    lemma_auto_spec_u32_to_from_le_bytes();
}

pub proof fn lemma_dec_enc_u32(bytes: Seq<u8>, pos: int, x: u32)
    requires
        holds_at(bytes, pos, enc_u32(x)),
    ensures
        dec_u32(bytes, pos) == Some((x, pos + 4)),
{
    lemma_auto_spec_u32_to_from_le_bytes();
}

pub fn put_u32(out: &mut Vec<u8>, x: u32)
    ensures
        final(out)@ == old(out)@ + enc_u32(x),
{
    let mut b = u32_to_le_bytes(x);
    out.append(&mut b);
}

pub fn get_u32(bytes: &[u8], pos: usize) -> (r: Option<(u32, usize)>)
    ensures
        r matches Some((v, p)) ==> dec_u32(bytes@, pos as int) == Some((v, p as int)),
        r is None ==> dec_u32(bytes@, pos as int) is None,
{
    if bytes.len() >= 4 && pos <= bytes.len() - 4 {
        let v = u32_from_le_bytes(slice_subrange(bytes, pos, pos + 4));
        Some((v, pos + 4))
    } else {
        None
    }
}

pub open spec fn enc_i32(x: i32) -> Seq<u8> {
    enc_u32(x as u32)
}

pub open spec fn dec_i32(bytes: Seq<u8>, pos: int) -> Option<(i32, int)> {
    match dec_u32(bytes, pos) {
        Some((v, p)) => Some((v as i32, p)),
        None => None,
    }
}

pub proof fn lemma_dec_enc_i32(bytes: Seq<u8>, pos: int, x: i32)
    requires
        holds_at(bytes, pos, enc_i32(x)),
    ensures
        dec_i32(bytes, pos) == Some((x, pos + 4)),
{
    lemma_dec_enc_u32(bytes, pos, x as u32);
    assert((x as u32) as i32 == x) by (bit_vector);
}

pub fn put_i32(out: &mut Vec<u8>, x: i32)
    ensures
        final(out)@ == old(out)@ + enc_i32(x),
{
    put_u32(out, x as u32);
}

pub fn get_i32(bytes: &[u8], pos: usize) -> (r: Option<(i32, usize)>)
    ensures
        r matches Some((v, p)) ==> dec_i32(bytes@, pos as int) == Some((v, p as int)),
        r is None ==> dec_i32(bytes@, pos as int) is None,
{
    match get_u32(bytes, pos) {
        Some((v, p)) => Some((v as i32, p)),
        None => None,
    }
}

// ---------------------------------------------------------------------------
// 64-bit integers

pub open spec fn enc_u64(x: u64) -> Seq<u8> {
    spec_u64_to_le_bytes(x)
}

pub open spec fn dec_u64(bytes: Seq<u8>, pos: int) -> Option<(u64, int)> {
    if 0 <= pos && pos + 8 <= bytes.len() {
        Some((spec_u64_from_le_bytes(bytes.subrange(pos, pos + 8)), pos + 8))
    } else {
        None
    }
}

pub proof fn lemma_enc_u64_len(x: u64)
    ensures
        enc_u64(x).len() == 8,
{
    lemma_auto_spec_u64_to_from_le_bytes();
}

pub proof fn lemma_dec_enc_u64(bytes: Seq<u8>, pos: int, x: u64)
    requires
        holds_at(bytes, pos, enc_u64(x)),
    ensures
        dec_u64(bytes, pos) == Some((x, pos + 8)),
{
    lemma_auto_spec_u64_to_from_le_bytes();
}

pub fn put_u64(out: &mut Vec<u8>, x: u64)
    ensures
        final(out)@ == old(out)@ + enc_u64(x),
{
    let mut b = u64_to_le_bytes(x);
    out.append(&mut b);
}

pub fn get_u64(bytes: &[u8], pos: usize) -> (r: Option<(u64, usize)>)
    ensures
        r matches Some((v, p)) ==> dec_u64(bytes@, pos as int) == Some((v, p as int)),
        r is None ==> dec_u64(bytes@, pos as int) is None,
{
    if bytes.len() >= 8 && pos <= bytes.len() - 8 {
        let v = u64_from_le_bytes(slice_subrange(bytes, pos, pos + 8));
        Some((v, pos + 8))
    } else {
        None
    }
}

pub open spec fn enc_i64(x: i64) -> Seq<u8> {
    enc_u64(x as u64)
}

pub open spec fn dec_i64(bytes: Seq<u8>, pos: int) -> Option<(i64, int)> {
    match dec_u64(bytes, pos) {
        Some((v, p)) => Some((v as i64, p)),
        None => None,
    }
}

pub proof fn lemma_dec_enc_i64(bytes: Seq<u8>, pos: int, x: i64)
    requires
        holds_at(bytes, pos, enc_i64(x)),
    ensures
        dec_i64(bytes, pos) == Some((x, pos + 8)),
{
    lemma_dec_enc_u64(bytes, pos, x as u64);
    assert((x as u64) as i64 == x) by (bit_vector);
}

pub fn put_i64(out: &mut Vec<u8>, x: i64)
    ensures
        final(out)@ == old(out)@ + enc_i64(x),
{
    put_u64(out, x as u64);
}

pub fn get_i64(bytes: &[u8], pos: usize) -> (r: Option<(i64, usize)>)
    ensures
        r matches Some((v, p)) ==> dec_i64(bytes@, pos as int) == Some((v, p as int)),
        r is None ==> dec_i64(bytes@, pos as int) is None,
{
    match get_u64(bytes, pos) {
        Some((v, p)) => Some((v as i64, p)),
        None => None,
    }
}

// ---------------------------------------------------------------------------
// Byte strings: a 32-bit length, then the bytes

/// Appends a copy of `data` to `out`.
pub fn append_slice(out: &mut Vec<u8>, data: &[u8])
    ensures
        final(out)@ == old(out)@ + data@,
{
    out.extend_from_slice(data);
    assert(out@ =~= old(out)@ + data@);
}

pub open spec fn enc_bytes(b: Seq<u8>) -> Seq<u8> {
    enc_u32(b.len() as u32) + b
}

pub open spec fn dec_bytes(bytes: Seq<u8>, pos: int) -> Option<(Seq<u8>, int)> {
    match dec_u32(bytes, pos) {
        Some((n, p)) => if p + n <= bytes.len() {
            Some((bytes.subrange(p, p + n), p + n))
        } else {
            None
        },
        None => None,
    }
}

pub proof fn lemma_enc_bytes_len(b: Seq<u8>)
    ensures
        enc_bytes(b).len() == 4 + b.len(),
{
    lemma_enc_u32_len(b.len() as u32);
}

pub proof fn lemma_dec_enc_bytes(bytes: Seq<u8>, pos: int, b: Seq<u8>)
    requires
        b.len() <= u32::MAX,
        holds_at(bytes, pos, enc_bytes(b)),
    ensures
        dec_bytes(bytes, pos) == Some((b, pos + 4 + b.len())),
{
    let n = b.len() as u32;
    lemma_enc_u32_len(n);
    lemma_holds_at_concat(bytes, pos, enc_u32(n), b);
    lemma_dec_enc_u32(bytes, pos, n);
}

/// Writes `data` with its length in front; refuses data whose length does not fit in 32 bits.
pub fn put_bytes(out: &mut Vec<u8>, data: &[u8]) -> (ok: bool)
    ensures
        ok <==> data@.len() <= u32::MAX,
        ok ==> final(out)@ == old(out)@ + enc_bytes(data@),
        !ok ==> final(out)@ == old(out)@,
{
    if data.len() > u32::MAX as usize {
        return false;
    }
    put_u32(out, data.len() as u32);
    append_slice(out, data);
    assert(out@ =~= old(out)@ + enc_bytes(data@));
    true
}

pub fn get_bytes(bytes: &[u8], pos: usize) -> (r: Option<(Vec<u8>, usize)>)
    ensures
        r matches Some((v, p)) ==> dec_bytes(bytes@, pos as int) == Some((v@, p as int)),
        r is None ==> dec_bytes(bytes@, pos as int) is None,
{
    match get_u32(bytes, pos) {
        Some((n, p)) => {
            if n as usize <= bytes.len() - p {
                let end = p + n as usize;
                let v = slice_to_vec(slice_subrange(bytes, p, end));
                Some((v, end))
            } else {
                None
            }
        },
        None => None,
    }
}

// ---------------------------------------------------------------------------
// Text: the UTF-8 bytes as a byte string

/// `String::from_utf8`, which accepts exactly the byte sequences that are
/// well-formed UTF-8 and then holds the characters they spell.
#[verifier::external_body]
fn string_from_utf8(bytes: Vec<u8>) -> (r: Option<String>)
    ensures
        r is Some <==> valid_utf8(bytes@),
        r matches Some(s) ==> s@ == decode_utf8(bytes@),
{
    String::from_utf8(bytes).ok()
}

pub open spec fn enc_string(s: Seq<char>) -> Seq<u8> {
    enc_bytes(encode_utf8(s))
}

pub open spec fn dec_string(bytes: Seq<u8>, pos: int) -> Option<(Seq<char>, int)> {
    match dec_bytes(bytes, pos) {
        Some((b, p)) => if valid_utf8(b) {
            Some((decode_utf8(b), p))
        } else {
            None
        },
        None => None,
    }
}

/// Text can be written when its UTF-8 form has a length that fits in 32 bits.
pub open spec fn string_fits(s: Seq<char>) -> bool {
    encode_utf8(s).len() <= u32::MAX
}

pub proof fn lemma_dec_enc_string(bytes: Seq<u8>, pos: int, s: Seq<char>)
    requires
        string_fits(s),
        holds_at(bytes, pos, enc_string(s)),
    ensures
        dec_string(bytes, pos) == Some((s, pos + enc_string(s).len())),
{
    let b = encode_utf8(s);
    lemma_enc_bytes_len(b);
    lemma_dec_enc_bytes(bytes, pos, b);
    encode_utf8_valid_utf8(s);
    encode_utf8_decode_utf8(s);
}

pub fn put_string(out: &mut Vec<u8>, s: &str) -> (ok: bool)
    ensures
        ok <==> string_fits(s@),
        ok ==> final(out)@ == old(out)@ + enc_string(s@),
        !ok ==> final(out)@ == old(out)@,
{
    put_bytes(out, s.as_bytes())
}

pub fn get_string(bytes: &[u8], pos: usize) -> (r: Option<(String, usize)>)
    ensures
        r matches Some((v, p)) ==> dec_string(bytes@, pos as int) == Some((v@, p as int)),
        r is None ==> dec_string(bytes@, pos as int) is None,
{
    match get_bytes(bytes, pos) {
        Some((b, p)) => match string_from_utf8(b) {
            Some(s) => Some((s, p)),
            None => None,
        },
        None => None,
    }
}

// ---------------------------------------------------------------------------
// Rows of 64-bit integers

pub open spec fn enc_words(ws: Seq<u64>) -> Seq<u8>
    decreases ws.len(),
{
    if ws.len() == 0 {
        Seq::empty()
    } else {
        enc_words(ws.drop_last()) + enc_u64(ws.last())
    }
}

/// Reads `n` integers one after the other, starting at `pos`.
pub open spec fn dec_words(bytes: Seq<u8>, pos: int, n: nat) -> Option<(Seq<u64>, int)>
    decreases n,
{
    if n == 0 {
        Some((Seq::empty(), pos))
    } else {
        match dec_words(bytes, pos, (n - 1) as nat) {
            Some((ws, p)) => match dec_u64(bytes, p) {
                Some((w, q)) => Some((ws.push(w), q)),
                None => None,
            },
            None => None,
        }
    }
}

pub proof fn lemma_enc_words_len(ws: Seq<u64>)
    ensures
        enc_words(ws).len() == 8 * ws.len(),
    decreases ws.len(),
{
    if ws.len() > 0 {
        lemma_enc_words_len(ws.drop_last());
        lemma_enc_u64_len(ws.last());
    }
}

/// Once reading has failed, reading more integers fails too.
pub proof fn lemma_dec_words_fails_on(bytes: Seq<u8>, pos: int, i: nat, n: nat)
    requires
        i <= n,
        dec_words(bytes, pos, i) is None,
    ensures
        dec_words(bytes, pos, n) is None,
    decreases n,
{
    if i < n {
        lemma_dec_words_fails_on(bytes, pos, i, (n - 1) as nat);
    }
}

pub proof fn lemma_dec_enc_words(bytes: Seq<u8>, pos: int, ws: Seq<u64>)
    requires
        holds_at(bytes, pos, enc_words(ws)),
    ensures
        dec_words(bytes, pos, ws.len()) == Some((ws, pos + 8 * ws.len())),
    decreases ws.len(),
{
    if ws.len() > 0 {
        let front = ws.drop_last();
        lemma_enc_words_len(front);
        lemma_enc_u64_len(ws.last());
        lemma_holds_at_concat(bytes, pos, enc_words(front), enc_u64(ws.last()));
        lemma_dec_enc_words(bytes, pos, front);
        lemma_dec_enc_u64(bytes, pos + 8 * front.len(), ws.last());
        assert(front.push(ws.last()) =~= ws);
    }
}

pub fn put_words(out: &mut Vec<u8>, ws: &Vec<u64>)
    ensures
        final(out)@ == old(out)@ + enc_words(ws@),
{
    let mut i: usize = 0;
    assert(out@ =~= old(out)@ + enc_words(ws@.take(0)));
    while i < ws.len()
        invariant
            i <= ws.len(),
            out@ == old(out)@ + enc_words(ws@.take(i as int)),
        decreases ws.len() - i,
    {
        put_u64(out, ws[i]);
        proof {
            let next = ws@.take(i + 1);
            assert(next.drop_last() =~= ws@.take(i as int));
            assert(out@ =~= old(out)@ + enc_words(next));
        }
        i += 1;
    }
    assert(ws@.take(i as int) =~= ws@);
}

pub fn get_words(bytes: &[u8], pos: usize, n: usize) -> (r: Option<(Vec<u64>, usize)>)
    ensures
        r matches Some((v, p)) ==> dec_words(bytes@, pos as int, n as nat) == Some(
            (v@, p as int),
        ),
        r is None ==> dec_words(bytes@, pos as int, n as nat) is None,
{
    let mut out: Vec<u64> = Vec::new();
    let mut cur: usize = pos;
    let mut i: usize = 0;
    while i < n
        invariant
            i <= n,
            dec_words(bytes@, pos as int, i as nat) == Some((out@, cur as int)),
        decreases n - i,
    {
        match get_u64(bytes, cur) {
            Some((w, q)) => {
                out.push(w);
                cur = q;
            },
            None => {
                proof {
                    lemma_dec_words_fails_on(bytes@, pos as int, (i + 1) as nat, n as nat);
                }
                return None;
            },
        }
        i += 1;
    }
    Some((out, cur))
}

} // verus!
