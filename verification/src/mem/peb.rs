//! The header record at the start of guest memory, from which the guest learns where
//! everything lies.
//!
//! The record is a row of 64-bit integers: the context that goes with calls out of the
//! guest when they are made through a function, then the offsets and sizes of the
//! layout.

use crate::mem::layout::{GuestMemoryLayout, PEB_SIZE};
use crate::wire::prim::{
    dec_words, enc_words, get_words, lemma_dec_enc_words, lemma_enc_words_len,
    lemma_holds_at_extend, put_words,
};
use vstd::prelude::*;

verus! {

/// How many integers the record holds.
pub const PEB_WORDS: usize = 13;

/// The integers of the record for `l` and `outb_context`.
pub open spec fn peb_words(l: GuestMemoryLayout, outb_context: u64) -> Seq<u64> {
    seq![
        outb_context,
        l.code_addr as u64,
        l.code_size as u64,
        l.shared_input_addr as u64,
        l.shared_input_capacity as u64,
        l.shared_output_addr as u64,
        l.shared_output_capacity as u64,
        l.heap_addr as u64,
        l.heap_size as u64,
        l.stack_cookie_addr as u64,
        l.stack_limit as u64,
        l.stack_base as u64,
        l.total_size as u64,
    ]
}

/// The context and the layout that a row of integers stands for: there are as many as
/// the record holds, each offset and size fits the address space, and the layout is
/// well-formed.
pub open spec fn layout_of_words(ws: Seq<u64>) -> Option<(u64, GuestMemoryLayout)> {
    if ws.len() == PEB_WORDS && (forall|i: int| 1 <= i < ws.len() ==> #[trigger] ws[i]
        <= usize::MAX) {
        let l = GuestMemoryLayout {
            peb_addr: 0,
            code_addr: ws[1] as usize,
            code_size: ws[2] as usize,
            shared_input_addr: ws[3] as usize,
            shared_input_capacity: ws[4] as usize,
            shared_output_addr: ws[5] as usize,
            shared_output_capacity: ws[6] as usize,
            heap_addr: ws[7] as usize,
            heap_size: ws[8] as usize,
            stack_cookie_addr: ws[9] as usize,
            stack_limit: ws[10] as usize,
            stack_base: ws[11] as usize,
            total_size: ws[12] as usize,
        };
        if l.wf() {
            Some((ws[0], l))
        } else {
            None
        }
    } else {
        None
    }
}

/// The record for `l` and `outb_context`.
pub open spec fn peb_record(l: GuestMemoryLayout, outb_context: u64) -> Seq<u8> {
    enc_words(peb_words(l, outb_context))
}

/// The context and the layout that the record at the start of `bytes` stands for.
pub open spec fn layout_of_peb(bytes: Seq<u8>) -> Option<(u64, GuestMemoryLayout)> {
    match dec_words(bytes, 0, PEB_WORDS as nat) {
        Some((ws, _)) => layout_of_words(ws),
        None => None,
    }
}

/// The record fits the room that the layout leaves for it.
pub proof fn lemma_peb_record_len(l: GuestMemoryLayout, outb_context: u64)
    ensures
        peb_record(l, outb_context).len() == 8 * PEB_WORDS,
        peb_record(l, outb_context).len() <= PEB_SIZE,
{
    lemma_enc_words_len(peb_words(l, outb_context));
}

/// A well-formed layout and its context are read back from their record, whatever
/// follows the record.
pub proof fn peb_round_trip(l: GuestMemoryLayout, outb_context: u64, tail: Seq<u8>)
    requires
        l.wf(),
    ensures
        layout_of_peb(peb_record(l, outb_context) + tail) == Some((outb_context, l)),
{
    let ws = peb_words(l, outb_context);
    let rec = peb_record(l, outb_context);
    lemma_enc_words_len(ws);
    assert(rec.subrange(0, rec.len() as int) =~= rec);
    lemma_holds_at_extend(rec, tail, 0, rec);
    lemma_dec_enc_words(rec + tail, 0, ws);
    let (ctx, back) = layout_of_words(ws)->Some_0;
    assert(back == l);
}

/// An integer as an offset, if it fits the address space.
fn to_offset(w: u64) -> (r: Option<usize>)
    ensures
        r matches Some(x) ==> x == w,
        r is None ==> w > usize::MAX,
{
    if w <= usize::MAX as u64 {
        Some(w as usize)
    } else {
        None
    }
}

impl GuestMemoryLayout {
    /// The header record of this layout.
    pub fn to_peb(&self, outb_context: u64) -> (r: Vec<u8>)
        ensures
            r@ == peb_record(*self, outb_context),
    {
        let words: Vec<u64> = vec![
            outb_context,
            self.code_addr as u64,
            self.code_size as u64,
            self.shared_input_addr as u64,
            self.shared_input_capacity as u64,
            self.shared_output_addr as u64,
            self.shared_output_capacity as u64,
            self.heap_addr as u64,
            self.heap_size as u64,
            self.stack_cookie_addr as u64,
            self.stack_limit as u64,
            self.stack_base as u64,
            self.total_size as u64,
        ];
        assert(words@ =~= peb_words(*self, outb_context));
        let mut out: Vec<u8> = Vec::new();
        put_words(&mut out, &words);
        assert(out@ =~= peb_record(*self, outb_context));
        out
    }

    /// The context and the layout that the record at the start of `bytes` stands for.
    pub fn from_peb(bytes: &[u8]) -> (r: Option<(u64, GuestMemoryLayout)>)
        ensures
            r == layout_of_peb(bytes@),
    {
        let (ws, _) = get_words(bytes, 0, PEB_WORDS)?;
        assert(ws@.len() == PEB_WORDS) by {
            lemma_dec_words_len(bytes@, 0, PEB_WORDS as nat);
        }
        let l = GuestMemoryLayout {
            peb_addr: 0,
            code_addr: to_offset(ws[1])?,
            code_size: to_offset(ws[2])?,
            shared_input_addr: to_offset(ws[3])?,
            shared_input_capacity: to_offset(ws[4])?,
            shared_output_addr: to_offset(ws[5])?,
            shared_output_capacity: to_offset(ws[6])?,
            heap_addr: to_offset(ws[7])?,
            heap_size: to_offset(ws[8])?,
            stack_cookie_addr: to_offset(ws[9])?,
            stack_limit: to_offset(ws[10])?,
            stack_base: to_offset(ws[11])?,
            total_size: to_offset(ws[12])?,
        };
        if l.is_valid() {
            Some((ws[0], l))
        } else {
            None
        }
    }
}

/// Reading `n` integers gives `n` integers.
pub proof fn lemma_dec_words_len(bytes: Seq<u8>, pos: int, n: nat)
    ensures
        dec_words(bytes, pos, n) matches Some((ws, _)) ==> ws.len() == n,
    decreases n,
{
    if n > 0 {
        lemma_dec_words_len(bytes, pos, (n - 1) as nat);
    }
}

} // verus!
