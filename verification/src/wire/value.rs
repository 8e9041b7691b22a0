//! Typed values on the wire: one tag byte, then the value.
//!
//! The items are named as those of the integers are: `enc_`, `dec_`, `lemma_dec_enc_`,
//! `put_` and `get_`, each followed by the kind of value.

use crate::types::{
    ParameterData, ParameterType, ParameterValue, ReturnData, ReturnType, ReturnValue,
};
use crate::wire::prim::{
    dec_bool, dec_bytes, dec_i32, dec_i64, dec_string, dec_u32, dec_u64, dec_u8, enc_bool,
    enc_bytes, enc_i32, enc_i64, enc_string, enc_u32, enc_u64, enc_u8, get_bool, get_bytes,
    get_i32, get_i64, get_string, get_u32, get_u64, get_u8, holds_at, lemma_dec_enc_bool,
    lemma_dec_enc_bytes, lemma_dec_enc_i32, lemma_dec_enc_i64, lemma_dec_enc_string,
    lemma_dec_enc_u32, lemma_dec_enc_u64, lemma_dec_enc_u8, lemma_enc_bytes_len,
    lemma_enc_u32_len, lemma_enc_u64_len, lemma_holds_at_concat, put_bool, put_bytes, put_i32,
    put_i64, put_string, put_u32, put_u64, put_u8, string_fits,
};
use vstd::prelude::*;

verus! {

/// The tag of each discriminator.
pub const TAG_VOID: u8 = 0;

pub const TAG_INT: u8 = 1;

pub const TAG_UINT: u8 = 2;

pub const TAG_LONG: u8 = 3;

pub const TAG_ULONG: u8 = 4;

pub const TAG_STRING: u8 = 5;

pub const TAG_BOOL: u8 = 6;

pub const TAG_VECBYTES: u8 = 7;

// ---------------------------------------------------------------------------
// Discriminators

pub open spec fn param_type_tag(t: ParameterType) -> u8 {
    match t {
        ParameterType::Int => TAG_INT,
        ParameterType::UInt => TAG_UINT,
        ParameterType::Long => TAG_LONG,
        ParameterType::ULong => TAG_ULONG,
        ParameterType::String => TAG_STRING,
        ParameterType::Bool => TAG_BOOL,
        ParameterType::VecBytes => TAG_VECBYTES,
    }
}

pub open spec fn param_type_of_tag(tag: u8) -> Option<ParameterType> {
    if tag == TAG_INT {
        Some(ParameterType::Int)
    } else if tag == TAG_UINT {
        Some(ParameterType::UInt)
    } else if tag == TAG_LONG {
        Some(ParameterType::Long)
    } else if tag == TAG_ULONG {
        Some(ParameterType::ULong)
    } else if tag == TAG_STRING {
        Some(ParameterType::String)
    } else if tag == TAG_BOOL {
        Some(ParameterType::Bool)
    } else if tag == TAG_VECBYTES {
        Some(ParameterType::VecBytes)
    } else {
        None
    }
}

pub open spec fn return_type_tag(t: ReturnType) -> u8 {
    match t {
        ReturnType::Void => TAG_VOID,
        ReturnType::Int => TAG_INT,
        ReturnType::UInt => TAG_UINT,
        ReturnType::Long => TAG_LONG,
        ReturnType::ULong => TAG_ULONG,
        ReturnType::String => TAG_STRING,
        ReturnType::Bool => TAG_BOOL,
        ReturnType::VecBytes => TAG_VECBYTES,
    }
}

pub open spec fn return_type_of_tag(tag: u8) -> Option<ReturnType> {
    if tag == TAG_VOID {
        Some(ReturnType::Void)
    } else {
        match param_type_of_tag(tag) {
            Some(ParameterType::Int) => Some(ReturnType::Int),
            Some(ParameterType::UInt) => Some(ReturnType::UInt),
            Some(ParameterType::Long) => Some(ReturnType::Long),
            Some(ParameterType::ULong) => Some(ReturnType::ULong),
            Some(ParameterType::String) => Some(ReturnType::String),
            Some(ParameterType::Bool) => Some(ReturnType::Bool),
            Some(ParameterType::VecBytes) => Some(ReturnType::VecBytes),
            None => None,
        }
    }
}

/// Every discriminator is found again from its tag.
pub proof fn lemma_type_tags(p: ParameterType, r: ReturnType)
    ensures
        param_type_of_tag(param_type_tag(p)) == Some(p),
        return_type_of_tag(return_type_tag(r)) == Some(r),
{
}

impl ParameterType {
    /// The tag under which this discriminator is written.
    pub fn tag(self) -> (tag: u8)
        ensures
            tag == param_type_tag(self),
    {
        match self {
            ParameterType::Int => TAG_INT,
            ParameterType::UInt => TAG_UINT,
            ParameterType::Long => TAG_LONG,
            ParameterType::ULong => TAG_ULONG,
            ParameterType::String => TAG_STRING,
            ParameterType::Bool => TAG_BOOL,
            ParameterType::VecBytes => TAG_VECBYTES,
        }
    }

    /// The discriminator that is written under `tag`.
    pub fn from_tag(tag: u8) -> (t: Option<ParameterType>)
        ensures
            t == param_type_of_tag(tag),
    {
        if tag == TAG_INT {
            Some(ParameterType::Int)
        } else if tag == TAG_UINT {
            Some(ParameterType::UInt)
        } else if tag == TAG_LONG {
            Some(ParameterType::Long)
        } else if tag == TAG_ULONG {
            Some(ParameterType::ULong)
        } else if tag == TAG_STRING {
            Some(ParameterType::String)
        } else if tag == TAG_BOOL {
            Some(ParameterType::Bool)
        } else if tag == TAG_VECBYTES {
            Some(ParameterType::VecBytes)
        } else {
            None
        }
    }
}

impl ReturnType {
    /// The tag under which this discriminator is written.
    pub fn tag(self) -> (tag: u8)
        ensures
            tag == return_type_tag(self),
    {
        match self {
            ReturnType::Void => TAG_VOID,
            ReturnType::Int => TAG_INT,
            ReturnType::UInt => TAG_UINT,
            ReturnType::Long => TAG_LONG,
            ReturnType::ULong => TAG_ULONG,
            ReturnType::String => TAG_STRING,
            ReturnType::Bool => TAG_BOOL,
            ReturnType::VecBytes => TAG_VECBYTES,
        }
    }

    /// The discriminator that is written under `tag`.
    pub fn from_tag(tag: u8) -> (t: Option<ReturnType>)
        ensures
            t == return_type_of_tag(tag),
    {
        if tag == TAG_VOID {
            Some(ReturnType::Void)
        } else if tag == TAG_INT {
            Some(ReturnType::Int)
        } else if tag == TAG_UINT {
            Some(ReturnType::UInt)
        } else if tag == TAG_LONG {
            Some(ReturnType::Long)
        } else if tag == TAG_ULONG {
            Some(ReturnType::ULong)
        } else if tag == TAG_STRING {
            Some(ReturnType::String)
        } else if tag == TAG_BOOL {
            Some(ReturnType::Bool)
        } else if tag == TAG_VECBYTES {
            Some(ReturnType::VecBytes)
        } else {
            None
        }
    }
}

// ---------------------------------------------------------------------------
// Parameter values

/// A value can be written when its text or bytes have a length that fits in 32 bits.
pub open spec fn param_fits(p: ParameterData) -> bool {
    match p {
        ParameterData::String(s) => string_fits(s),
        ParameterData::VecBytes(b) => b.len() <= u32::MAX,
        _ => true,
    }
}

pub open spec fn enc_param_body(p: ParameterData) -> Seq<u8> {
    match p {
        ParameterData::Int(i) => enc_i32(i),
        ParameterData::UInt(i) => enc_u32(i),
        ParameterData::Long(i) => enc_i64(i),
        ParameterData::ULong(i) => enc_u64(i),
        ParameterData::String(s) => enc_string(s),
        ParameterData::Bool(b) => enc_bool(b),
        ParameterData::VecBytes(b) => enc_bytes(b),
    }
}

pub open spec fn enc_param(p: ParameterData) -> Seq<u8> {
    enc_u8(param_type_tag(p.param_type())) + enc_param_body(p)
}

pub open spec fn dec_param_body(t: ParameterType, bytes: Seq<u8>, pos: int) -> Option<
    (ParameterData, int),
> {
    match t {
        ParameterType::Int => match dec_i32(bytes, pos) {
            Some((v, p)) => Some((ParameterData::Int(v), p)),
            None => None,
        },
        ParameterType::UInt => match dec_u32(bytes, pos) {
            Some((v, p)) => Some((ParameterData::UInt(v), p)),
            None => None,
        },
        ParameterType::Long => match dec_i64(bytes, pos) {
            Some((v, p)) => Some((ParameterData::Long(v), p)),
            None => None,
        },
        ParameterType::ULong => match dec_u64(bytes, pos) {
            Some((v, p)) => Some((ParameterData::ULong(v), p)),
            None => None,
        },
        ParameterType::String => match dec_string(bytes, pos) {
            Some((v, p)) => Some((ParameterData::String(v), p)),
            None => None,
        },
        ParameterType::Bool => match dec_bool(bytes, pos) {
            Some((v, p)) => Some((ParameterData::Bool(v), p)),
            None => None,
        },
        ParameterType::VecBytes => match dec_bytes(bytes, pos) {
            Some((v, p)) => Some((ParameterData::VecBytes(v), p)),
            None => None,
        },
    }
}

pub open spec fn dec_param(bytes: Seq<u8>, pos: int) -> Option<(ParameterData, int)> {
    match dec_u8(bytes, pos) {
        Some((tag, p)) => match param_type_of_tag(tag) {
            Some(t) => dec_param_body(t, bytes, p),
            None => None,
        },
        None => None,
    }
}

pub proof fn lemma_dec_enc_param(bytes: Seq<u8>, pos: int, p: ParameterData)
    requires
        param_fits(p),
        holds_at(bytes, pos, enc_param(p)),
    ensures
        dec_param(bytes, pos) == Some((p, pos + enc_param(p).len())),
{
    let tag = param_type_tag(p.param_type());
    let body = enc_param_body(p);
    lemma_holds_at_concat(bytes, pos, enc_u8(tag), body);
    lemma_dec_enc_u8(bytes, pos, tag);
    lemma_type_tags(p.param_type(), ReturnType::Void);
    match p {
        ParameterData::Int(i) => {
            lemma_enc_u32_len(i as u32);
            lemma_dec_enc_i32(bytes, pos + 1, i);
        },
        ParameterData::UInt(i) => {
            lemma_enc_u32_len(i);
            lemma_dec_enc_u32(bytes, pos + 1, i);
        },
        ParameterData::Long(i) => {
            lemma_enc_u64_len(i as u64);
            lemma_dec_enc_i64(bytes, pos + 1, i);
        },
        ParameterData::ULong(i) => {
            lemma_enc_u64_len(i);
            lemma_dec_enc_u64(bytes, pos + 1, i);
        },
        ParameterData::String(s) => {
            lemma_dec_enc_string(bytes, pos + 1, s);
        },
        ParameterData::Bool(b) => {
            lemma_dec_enc_bool(bytes, pos + 1, b);
        },
        ParameterData::VecBytes(b) => {
            lemma_enc_bytes_len(b);
            lemma_dec_enc_bytes(bytes, pos + 1, b);
        },
    }
}

/// Writes one value; refuses a value that does not fit, after which `out` holds no more
/// than a part of it.
pub fn put_param(out: &mut Vec<u8>, p: &ParameterValue) -> (ok: bool)
    ensures
        ok <==> param_fits(p@),
        ok ==> final(out)@ == old(out)@ + enc_param(p@),
{
    put_u8(out, p.get_type().tag());
    let ghost mid = out@;
    let ok = match p {
        ParameterValue::Int(i) => {
            put_i32(out, *i);
            true
        },
        ParameterValue::UInt(i) => {
            put_u32(out, *i);
            true
        },
        ParameterValue::Long(i) => {
            put_i64(out, *i);
            true
        },
        ParameterValue::ULong(i) => {
            put_u64(out, *i);
            true
        },
        ParameterValue::String(s) => put_string(out, s.as_str()),
        ParameterValue::Bool(b) => {
            put_bool(out, *b);
            true
        },
        ParameterValue::VecBytes(v) => put_bytes(out, v.as_slice()),
    };
    proof {
        if ok {
            assert(out@ == mid + enc_param_body(p@));
            assert(out@ =~= old(out)@ + enc_param(p@));
        }
    }
    ok
}

pub fn get_param(bytes: &[u8], pos: usize) -> (r: Option<(ParameterValue, usize)>)
    ensures
        r matches Some((v, p)) ==> dec_param(bytes@, pos as int) == Some((v@, p as int)),
        r is None ==> dec_param(bytes@, pos as int) is None,
{
    let (tag, p) = match get_u8(bytes, pos) {
        Some(x) => x,
        None => return None,
    };
    let t = match ParameterType::from_tag(tag) {
        Some(t) => t,
        None => return None,
    };
    match t {
        ParameterType::Int => match get_i32(bytes, p) {
            Some((v, q)) => Some((ParameterValue::Int(v), q)),
            None => None,
        },
        ParameterType::UInt => match get_u32(bytes, p) {
            Some((v, q)) => Some((ParameterValue::UInt(v), q)),
            None => None,
        },
        ParameterType::Long => match get_i64(bytes, p) {
            Some((v, q)) => Some((ParameterValue::Long(v), q)),
            None => None,
        },
        ParameterType::ULong => match get_u64(bytes, p) {
            Some((v, q)) => Some((ParameterValue::ULong(v), q)),
            None => None,
        },
        ParameterType::String => match get_string(bytes, p) {
            Some((v, q)) => Some((ParameterValue::String(v), q)),
            None => None,
        },
        ParameterType::Bool => match get_bool(bytes, p) {
            Some((v, q)) => Some((ParameterValue::Bool(v), q)),
            None => None,
        },
        ParameterType::VecBytes => match get_bytes(bytes, p) {
            Some((v, q)) => Some((ParameterValue::VecBytes(v), q)),
            None => None,
        },
    }
}

// ---------------------------------------------------------------------------
// Return values: the tag of `Void` alone, or the value as a parameter is written

impl ReturnData {
    /// The same value as an argument; `Void` has none.
    pub open spec fn as_param(self) -> Option<ParameterData> {
        match self {
            ReturnData::Void => None,
            ReturnData::Int(i) => Some(ParameterData::Int(i)),
            ReturnData::UInt(i) => Some(ParameterData::UInt(i)),
            ReturnData::Long(i) => Some(ParameterData::Long(i)),
            ReturnData::ULong(i) => Some(ParameterData::ULong(i)),
            ReturnData::String(s) => Some(ParameterData::String(s)),
            ReturnData::Bool(b) => Some(ParameterData::Bool(b)),
            ReturnData::VecBytes(b) => Some(ParameterData::VecBytes(b)),
        }
    }
}

impl ParameterData {
    /// The same value as a result.
    pub open spec fn as_return(self) -> ReturnData {
        match self {
            ParameterData::Int(i) => ReturnData::Int(i),
            ParameterData::UInt(i) => ReturnData::UInt(i),
            ParameterData::Long(i) => ReturnData::Long(i),
            ParameterData::ULong(i) => ReturnData::ULong(i),
            ParameterData::String(s) => ReturnData::String(s),
            ParameterData::Bool(b) => ReturnData::Bool(b),
            ParameterData::VecBytes(b) => ReturnData::VecBytes(b),
        }
    }
}

impl ParameterValue {
    /// Turns an argument into the result that holds the same value.
    pub fn into_return(self) -> (r: ReturnValue)
        ensures
            r@ == self@.as_return(),
    {
        match self {
            ParameterValue::Int(i) => ReturnValue::Int(i),
            ParameterValue::UInt(i) => ReturnValue::UInt(i),
            ParameterValue::Long(i) => ReturnValue::Long(i),
            ParameterValue::ULong(i) => ReturnValue::ULong(i),
            ParameterValue::String(s) => ReturnValue::String(s),
            ParameterValue::Bool(b) => ReturnValue::Bool(b),
            ParameterValue::VecBytes(v) => ReturnValue::VecBytes(v),
        }
    }
}

pub open spec fn return_fits(r: ReturnData) -> bool {
    match r.as_param() {
        Some(p) => param_fits(p),
        None => true,
    }
}

pub open spec fn enc_return(r: ReturnData) -> Seq<u8> {
    match r.as_param() {
        Some(p) => enc_param(p),
        None => enc_u8(TAG_VOID),
    }
}

pub open spec fn dec_return(bytes: Seq<u8>, pos: int) -> Option<(ReturnData, int)> {
    match dec_u8(bytes, pos) {
        Some((tag, p)) => if tag == TAG_VOID {
            Some((ReturnData::Void, p))
        } else {
            match dec_param(bytes, pos) {
                Some((v, q)) => Some((v.as_return(), q)),
                None => None,
            }
        },
        None => None,
    }
}

pub proof fn lemma_dec_enc_return(bytes: Seq<u8>, pos: int, r: ReturnData)
    requires
        return_fits(r),
        holds_at(bytes, pos, enc_return(r)),
    ensures
        dec_return(bytes, pos) == Some((r, pos + enc_return(r).len())),
{
    match r.as_param() {
        Some(p) => {
            let tag = param_type_tag(p.param_type());
            lemma_holds_at_concat(bytes, pos, enc_u8(tag), enc_param_body(p));
            lemma_dec_enc_u8(bytes, pos, tag);
            lemma_dec_enc_param(bytes, pos, p);
        },
        None => {
            lemma_dec_enc_u8(bytes, pos, TAG_VOID);
        },
    }
}

/// Writes one result; refuses a value that does not fit, after which `out` holds no more
/// than a part of it.
pub fn put_return(out: &mut Vec<u8>, r: &ReturnValue) -> (ok: bool)
    ensures
        ok <==> return_fits(r@),
        ok ==> final(out)@ == old(out)@ + enc_return(r@),
{
    put_u8(out, r.get_type().tag());
    let ghost mid = out@;
    let ok = match r {
        ReturnValue::Void => true,
        ReturnValue::Int(i) => {
            put_i32(out, *i);
            true
        },
        ReturnValue::UInt(i) => {
            put_u32(out, *i);
            true
        },
        ReturnValue::Long(i) => {
            put_i64(out, *i);
            true
        },
        ReturnValue::ULong(i) => {
            put_u64(out, *i);
            true
        },
        ReturnValue::String(s) => put_string(out, s.as_str()),
        ReturnValue::Bool(b) => {
            put_bool(out, *b);
            true
        },
        ReturnValue::VecBytes(v) => put_bytes(out, v.as_slice()),
    };
    proof {
        if ok {
            match r@.as_param() {
                Some(p) => {
                    assert(out@ == mid + enc_param_body(p));
                    assert(out@ =~= old(out)@ + enc_param(p));
                },
                None => {},
            }
        }
    }
    ok
}

pub fn get_return(bytes: &[u8], pos: usize) -> (r: Option<(ReturnValue, usize)>)
    ensures
        r matches Some((v, p)) ==> dec_return(bytes@, pos as int) == Some((v@, p as int)),
        r is None ==> dec_return(bytes@, pos as int) is None,
{
    match get_u8(bytes, pos) {
        Some((tag, p)) => if tag == TAG_VOID {
            Some((ReturnValue::Void, p))
        } else {
            match get_param(bytes, pos) {
                Some((v, q)) => Some((v.into_return(), q)),
                None => None,
            }
        },
        None => None,
    }
}

// ---------------------------------------------------------------------------
// Lists of parameter values, one after the other

pub open spec fn params_fit(ps: Seq<ParameterData>) -> bool {
    forall|i: int| 0 <= i < ps.len() ==> param_fits(#[trigger] ps[i])
}

pub open spec fn enc_params(ps: Seq<ParameterData>) -> Seq<u8>
    decreases ps.len(),
{
    if ps.len() == 0 {
        Seq::empty()
    } else {
        enc_params(ps.drop_last()) + enc_param(ps.last())
    }
}

/// Reads `n` values one after the other, starting at `pos`.
pub open spec fn dec_params(bytes: Seq<u8>, pos: int, n: nat) -> Option<
    (Seq<ParameterData>, int),
>
    decreases n,
{
    if n == 0 {
        Some((Seq::empty(), pos))
    } else {
        match dec_params(bytes, pos, (n - 1) as nat) {
            Some((ps, p)) => match dec_param(bytes, p) {
                Some((v, q)) => Some((ps.push(v), q)),
                None => None,
            },
            None => None,
        }
    }
}

/// Once reading has failed, reading more values fails too.
pub proof fn lemma_dec_params_fails_on(bytes: Seq<u8>, pos: int, i: nat, n: nat)
    requires
        i <= n,
        dec_params(bytes, pos, i) is None,
    ensures
        dec_params(bytes, pos, n) is None,
    decreases n,
{
    if i < n {
        lemma_dec_params_fails_on(bytes, pos, i, (n - 1) as nat);
    }
}

pub proof fn lemma_dec_enc_params(bytes: Seq<u8>, pos: int, ps: Seq<ParameterData>)
    requires
        params_fit(ps),
        holds_at(bytes, pos, enc_params(ps)),
    ensures
        dec_params(bytes, pos, ps.len()) == Some((ps, pos + enc_params(ps).len())),
    decreases ps.len(),
{
    if ps.len() > 0 {
        let front = ps.drop_last();
        lemma_holds_at_concat(bytes, pos, enc_params(front), enc_param(ps.last()));
        lemma_dec_enc_params(bytes, pos, front);
        lemma_dec_enc_param(bytes, pos + enc_params(front).len(), ps.last());
        assert(front.push(ps.last()) =~= ps);
    }
}

/// Writes the values one after the other; refuses a list with a value that does not fit,
/// after which `out` holds no more than a part of it.
pub fn put_params(out: &mut Vec<u8>, ps: &Vec<ParameterValue>) -> (ok: bool)
    ensures
        ok <==> params_fit(ps.deep_view()),
        ok ==> final(out)@ == old(out)@ + enc_params(ps.deep_view()),
{
    let ghost all = ps.deep_view();
    let mut i: usize = 0;
    while i < ps.len()
        invariant
            i <= ps.len(),
            all == ps.deep_view(),
            params_fit(all.take(i as int)),
            out@ == old(out)@ + enc_params(all.take(i as int)),
        decreases ps.len() - i,
    {
        let ghost before = out@;
        let ok = put_param(out, &ps[i]);
        assert(all[i as int] == ps[i as int]@);
        if !ok {
            return false;
        }
        proof {
            let next = all.take(i + 1);
            assert(next.drop_last() =~= all.take(i as int));
            assert(next.last() == all[i as int]);
            assert(out@ =~= old(out)@ + enc_params(next));
            assert forall|j: int| 0 <= j < next.len() implies param_fits(#[trigger] next[j]) by {
                if j < i {
                    assert(all.take(i as int)[j] == next[j]);
                }
            }
        }
        i += 1;
    }
    assert(all.take(i as int) =~= all);
    true
}

pub fn get_params(bytes: &[u8], pos: usize, n: u32) -> (r: Option<(Vec<ParameterValue>, usize)>)
    ensures
        r matches Some((v, p)) ==> dec_params(bytes@, pos as int, n as nat) == Some(
            (v.deep_view(), p as int),
        ),
        r is None ==> dec_params(bytes@, pos as int, n as nat) is None,
{
    let mut out: Vec<ParameterValue> = Vec::new();
    let mut cur: usize = pos;
    let mut i: u32 = 0;
    assert(out.deep_view() =~= Seq::empty());
    while i < n
        invariant
            i <= n,
            dec_params(bytes@, pos as int, i as nat) == Some((out.deep_view(), cur as int)),
        decreases n - i,
    {
        let ghost before = out.deep_view();
        match get_param(bytes, cur) {
            Some((v, q)) => {
                let ghost vv = v@;
                out.push(v);
                assert(out.deep_view() =~= before.push(vv));
                cur = q;
            },
            None => {
                proof {
                    lemma_dec_params_fails_on(bytes@, pos as int, (i + 1) as nat, n as nat);
                }
                return None;
            },
        }
        i += 1;
    }
    Some((out, cur))
}

} // verus!
