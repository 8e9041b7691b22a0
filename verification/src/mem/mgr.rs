//! The host's view of guest memory.

use crate::error::{wire_error_data, ErrorData, HyperlightError};
use crate::mem::layout::{
    lemma_buffers_apart, Buffer, GuestMemoryLayout, PEB_SIZE, STACK_COOKIE_LEN,
};
use crate::mem::peb::{
    layout_of_peb, lemma_peb_record_len, peb_record, peb_round_trip, PEB_WORDS,
};
use crate::types::{
    CallData, ErrorCode, FunctionCall, FunctionCallType, GuestError, GuestErrorData, GuestLogData,
    LogData, ReturnData, ReturnValue,
};
use crate::wire::call::{
    call_frame, call_frame_fits, call_of_frame, error_frame, error_frame_fits, error_of_frame,
    error_of_payload, error_payload, frame, frame_payload, function_call_round_trip,
    guest_error_round_trip, lemma_frame_payload, log_of_frame, read_frame, return_frame,
    return_frame_fits, return_of_frame, return_value_round_trip, write_frame, WireError,
    KIND_ERROR,
};
use crate::wire::prim::{dec_u8, dec_words, get_u8, lemma_enc_bytes_len};
use vstd::prelude::*;
use vstd::slice::*;

verus! {

/// `bytes` with `data` written over what stood at `addr`.
pub open spec fn splice(bytes: Seq<u8>, addr: int, data: Seq<u8>) -> Seq<u8> {
    bytes.subrange(0, addr) + data + bytes.subrange(addr + data.len(), bytes.len() as int)
}

/// Writing inside a region changes that region alone: a region that the write does not
/// reach holds what it held.
pub proof fn lemma_splice_elsewhere(bytes: Seq<u8>, addr: int, data: Seq<u8>, a: int, len: int)
    requires
        0 <= addr,
        addr + data.len() <= bytes.len(),
        0 <= a,
        0 <= len,
        a + len <= bytes.len(),
        a + len <= addr || addr + data.len() <= a,
    ensures
        splice(bytes, addr, data).subrange(a, a + len) == bytes.subrange(a, a + len),
{
    assert(splice(bytes, addr, data).subrange(a, a + len) =~= bytes.subrange(a, a + len));
}

/// A region that is written from its start holds the data, then what it held behind it.
pub proof fn lemma_splice_region(bytes: Seq<u8>, addr: int, data: Seq<u8>, cap: int)
    requires
        0 <= addr,
        data.len() <= cap,
        addr + cap <= bytes.len(),
    ensures
        splice(bytes, addr, data).len() == bytes.len(),
        splice(bytes, addr, data).subrange(addr, addr + cap) == data + bytes.subrange(
            addr + data.len(),
            addr + cap,
        ),
{
    assert(splice(bytes, addr, data).subrange(addr, addr + cap) =~= data + bytes.subrange(
        addr + data.len(),
        addr + cap,
    ));
}

/// Copies `data` over what stands in `mem` at `addr`.
fn copy_into(mem: &mut Vec<u8>, addr: usize, data: &[u8])
    requires
        addr + data@.len() <= old(mem)@.len(),
    ensures
        final(mem)@ == splice(old(mem)@, addr as int, data@),
{
    let total = mem.len();
    let mut i: usize = 0;
    while i < data.len()
        invariant
            i <= data@.len(),
            addr + data@.len() <= mem@.len(),
            mem@.len() == old(mem)@.len(),
            mem@.len() == total,
            data.len() == data@.len(),
            mem@ == splice(old(mem)@, addr as int, data@.take(i as int)),
        decreases data.len() - i,
    {
        mem.set(addr + i, data[i]);
        assert(mem@ =~= splice(old(mem)@, addr as int, data@.take(i + 1)));
        i += 1;
    }
    assert(data@.take(i as int) =~= data@);
}

/// Whether two byte strings hold the same bytes.
pub fn bytes_equal(a: &[u8], b: &[u8]) -> (eq: bool)
    ensures
        eq == (a@ == b@),
{
    if a.len() != b.len() {
        return false;
    }
    let mut i: usize = 0;
    while i < a.len()
        invariant
            i <= a@.len(),
            a.len() == a@.len(),
            a@.len() == b@.len(),
            a@.take(i as int) == b@.take(i as int),
        decreases a.len() - i,
    {
        if a[i] != b[i] {
            assert(a@[i as int] != b@[i as int]);
            return false;
        }
        assert(a@.take(i + 1) =~= a@.take(i as int).push(a@[i as int]));
        assert(b@.take(i + 1) =~= b@.take(i as int).push(b@[i as int]));
        i += 1;
    }
    assert(a@.take(i as int) =~= a@);
    assert(b@.take(i as int) =~= b@);
    true
}

// ---------------------------------------------------------------------------
// What a buffer holds

/// The call that the guest left in `buf`; a call that does not ask the host is no such call.
pub open spec fn host_call_of(buf: Seq<u8>) -> Result<CallData, ErrorData> {
    match call_of_frame(buf) {
        Ok(c) => if c.function_call_type == FunctionCallType::Host {
            Ok(c)
        } else {
            Err(ErrorData::InvalidEncoding)
        },
        Err(e) => Err(wire_error_data(e)),
    }
}

/// The return value that `buf` holds.
pub open spec fn return_value_of(buf: Seq<u8>) -> Result<ReturnData, ErrorData> {
    match return_of_frame(buf) {
        Ok(v) => Ok(v),
        Err(e) => Err(wire_error_data(e)),
    }
}

/// The log record that `buf` holds.
pub open spec fn log_record_of(buf: Seq<u8>) -> Result<LogData, ErrorData> {
    match log_of_frame(buf) {
        Ok(v) => Ok(v),
        Err(e) => Err(wire_error_data(e)),
    }
}

/// The message that goes with a request to be stopped: the message of the reported error
/// that `buf` holds, if it holds one.
pub open spec fn abort_message_of(buf: Seq<u8>) -> Option<Seq<char>> {
    match error_of_frame(buf) {
        Ok(e) => Some(e.message),
        Err(_) => None,
    }
}

/// Whether a payload says of itself that it holds a reported error.
pub open spec fn is_error_payload(payload: Seq<u8>) -> bool {
    dec_u8(payload, 0) matches Some((kind, _)) && kind == KIND_ERROR
}

/// The error that one side has left for the other in `buf`, if it has left one: a frame
/// that holds something else, or nothing, holds no error.
pub open spec fn reported_error_of(buf: Seq<u8>) -> Result<Option<GuestErrorData>, ErrorData> {
    match frame_payload(buf) {
        Ok(payload) => if is_error_payload(payload) {
            match error_of_payload(payload) {
                Some(e) => Ok(Some(e)),
                None => Err(ErrorData::InvalidEncoding),
            }
        } else {
            Ok(None)
        },
        Err(e) => Err(wire_error_data(e)),
    }
}

/// The error that the guest reported in `buf`; where it reported none, the code is
/// `NoError`.
pub open spec fn guest_error_of(buf: Seq<u8>) -> Result<GuestErrorData, ErrorData> {
    match reported_error_of(buf) {
        Ok(Some(e)) => Ok(e),
        Ok(None) => Ok(GuestErrorData { code: ErrorCode::NoError, message: Seq::empty() }),
        Err(e) => Err(e),
    }
}

/// The error that one side has left for the other in `buf`, if it has left one.
pub fn read_reported_error(buf: &[u8]) -> (r: Result<Option<GuestError>, HyperlightError>)
    ensures
        r matches Ok(v) ==> reported_error_of(buf@) == Ok::<Option<GuestErrorData>, ErrorData>(
            v.deep_view(),
        ),
        r matches Err(e) ==> reported_error_of(buf@) == Err::<Option<GuestErrorData>, ErrorData>(
            e@,
        ),
{
    let payload = match read_frame(buf) {
        Ok(p) => p,
        Err(e) => return Err(HyperlightError::from_wire(e)),
    };
    match get_u8(payload, 0) {
        Some((kind, _)) => {
            if kind != KIND_ERROR {
                return Ok(None);
            }
        },
        None => return Ok(None),
    }
    match GuestError::decode(buf) {
        Ok(e) => Ok(Some(e)),
        Err(e) => Err(HyperlightError::from_wire(e)),
    }
}

/// A frame that holds an error is found again as the error that was left.
pub proof fn lemma_reported_error(e: GuestErrorData, tail: Seq<u8>)
    requires
        error_frame_fits(e),
    ensures
        reported_error_of(error_frame(e) + tail) == Ok::<Option<GuestErrorData>, ErrorData>(
            Some(e),
        ),
{
    let payload = error_payload(e);
    guest_error_round_trip(e, tail);
    lemma_frame_payload(payload, tail);
    assert(payload[0] == KIND_ERROR);
}

/// The empty frame holds no error.
pub proof fn lemma_no_reported_error(tail: Seq<u8>)
    ensures
        reported_error_of(frame(Seq::empty()) + tail) == Ok::<Option<GuestErrorData>, ErrorData>(
            None,
        ),
{
    lemma_frame_payload(Seq::empty(), tail);
}

/// Memory for `layout` that nobody has written to: both shared buffers hold the empty
/// frame, every other byte is zero.
pub open spec fn fresh_bytes(layout: GuestMemoryLayout) -> Seq<u8> {
    splice(
        splice(
            Seq::new(layout.total_size as nat, |i: int| 0u8),
            layout.shared_input_addr as int,
            frame(Seq::empty()),
        ),
        layout.shared_output_addr as int,
        frame(Seq::empty()),
    )
}

// ---------------------------------------------------------------------------
// Guest memory

/// Guest memory as the host sees it while the guest is stopped, with the snapshot that
/// a reset goes back to.
#[derive(Debug)]
pub struct SandboxMemoryManager {
    layout: GuestMemoryLayout,
    mem: Vec<u8>,
    snapshot: Option<Vec<u8>>,
}

impl SandboxMemoryManager {
    /// The layout that this memory was made for.
    pub closed spec fn layout(&self) -> GuestMemoryLayout {
        self.layout
    }

    /// All of guest memory.
    pub closed spec fn bytes(&self) -> Seq<u8> {
        self.mem@
    }

    /// The memory that a reset restores, once a snapshot was taken.
    pub closed spec fn snapshot(&self) -> Option<Seq<u8>> {
        match self.snapshot {
            Some(s) => Some(s@),
            None => None,
        }
    }

    /// The layout is well-formed, and memory and snapshot have its size.
    pub open spec fn wf(&self) -> bool {
        &&& self.layout().wf()
        &&& self.bytes().len() == self.layout().total_size
        &&& self.snapshot() matches Some(s) ==> s.len() == self.layout().total_size
    }

    /// What `buffer` holds, over its whole capacity.
    pub open spec fn buffer(&self, buffer: Buffer) -> Seq<u8> {
        self.bytes().subrange(
            self.layout().spec_buffer_addr(buffer) as int,
            self.layout().spec_buffer_addr(buffer) + self.layout().spec_buffer_capacity(buffer),
        )
    }

    /// What shared input holds, over its whole capacity.
    pub open spec fn shared_input(&self) -> Seq<u8> {
        self.buffer(Buffer::SharedInput)
    }

    /// What shared output holds, over its whole capacity.
    pub open spec fn shared_output(&self) -> Seq<u8> {
        self.buffer(Buffer::SharedOutput)
    }

    /// The bytes right below the stack.
    pub open spec fn stack_cookie(&self) -> Seq<u8> {
        self.bytes().subrange(
            self.layout().stack_cookie_addr as int,
            self.layout().stack_cookie_addr + STACK_COOKIE_LEN,
        )
    }

    /// Both shared buffers and the cookie are as they are in `before`.
    pub open spec fn same_buffers(&self, before: &Self) -> bool {
        &&& self.stack_cookie() == before.stack_cookie()
        &&& self.shared_input() == before.shared_input()
        &&& self.shared_output() == before.shared_output()
    }

    /// The memory after `data` has been written to the start of `buffer`.
    pub open spec fn with_buffer(&self, buffer: Buffer, data: Seq<u8>) -> Seq<u8> {
        splice(self.bytes(), self.layout().spec_buffer_addr(buffer) as int, data)
    }

    /// The memory after `frame` has been written to the start of shared input.
    pub open spec fn with_shared_input(&self, frame: Seq<u8>) -> Seq<u8> {
        self.with_buffer(Buffer::SharedInput, frame)
    }

    /// Memory for `layout` with both shared buffers empty and every other byte zero;
    /// none if the layout is not well-formed.
    pub fn new(layout: GuestMemoryLayout) -> (r: Option<SandboxMemoryManager>)
        ensures
            r is Some <==> layout.wf(),
            r matches Some(m) ==> {
                &&& m.wf()
                &&& m.layout() == layout
                &&& m.snapshot() is None
                &&& m.bytes() == fresh_bytes(layout)
                &&& reported_error_of(m.shared_input()) == Ok::<
                    Option<GuestErrorData>,
                    ErrorData,
                >(None)
                &&& reported_error_of(m.shared_output()) == Ok::<
                    Option<GuestErrorData>,
                    ErrorData,
                >(None)
            },
    {
        if !layout.is_valid() {
            return None;
        }
        let mem = vec![0u8; layout.total_size];
        assert(mem@ =~= Seq::new(layout.total_size as nat, |i: int| 0u8));
        let mut m = SandboxMemoryManager { layout, mem, snapshot: None };
        m.clear_buffers();
        Some(m)
    }

    /// The layout that this memory was made for.
    pub fn get_layout(&self) -> (l: &GuestMemoryLayout)
        ensures
            *l == self.layout(),
    {
        &self.layout
    }

    /// All of guest memory.
    pub fn as_slice(&self) -> (s: &[u8])
        ensures
            s@ == self.bytes(),
    {
        self.mem.as_slice()
    }

    /// Takes over what the guest left in its memory.
    pub fn load_guest_memory(&mut self, bytes: &[u8]) -> (r: Result<(), HyperlightError>)
        requires
            old(self).wf(),
        ensures
            final(self).wf(),
            final(self).layout() == old(self).layout(),
            final(self).snapshot() == old(self).snapshot(),
            bytes@.len() == old(self).layout().total_size ==> r is Ok && final(self).bytes()
                == bytes@,
            bytes@.len() != old(self).layout().total_size ==> final(self).bytes() == old(
                self,
            ).bytes() && (r matches Err(e) && e@ == ErrorData::MemorySizeMismatch),
    {
        if bytes.len() != self.mem.len() {
            return Err(HyperlightError::MemorySizeMismatch);
        }
        copy_into(&mut self.mem, 0, bytes);
        assert(self.mem@ =~= bytes@);
        Ok(())
    }

    /// Another part of memory holds what it held before a write to `[addr, addr + cap)`.
    proof fn lemma_write_keeps(&self, addr: int, cap: int, data: Seq<u8>)
        requires
            self.wf(),
            data.len() <= cap,
            0 <= addr,
            addr + cap <= self.layout().total_size,
        ensures
            forall|a: int, len: int|
                0 <= a && 0 <= len && a + len <= self.layout().total_size && (a + len <= addr
                    || addr + cap <= a) ==> #[trigger] splice(
                    self.bytes(),
                    addr,
                    data,
                ).subrange(a, a + len) == self.bytes().subrange(a, a + len),
    {
        assert forall|a: int, len: int|
            0 <= a && 0 <= len && a + len <= self.layout().total_size && (a + len <= addr || addr
                + cap <= a) implies #[trigger] splice(self.bytes(), addr, data).subrange(
            a,
            a + len,
        ) == self.bytes().subrange(a, a + len) by {
            lemma_splice_elsewhere(self.bytes(), addr, data, a, len);
        }
    }

    /// Writes `data` to the start of the region `[addr, addr + cap)`, if it fits there.
    fn write_at(&mut self, addr: usize, cap: usize, data: &[u8]) -> (ok: bool)
        requires
            old(self).wf(),
            addr + cap <= old(self).layout().total_size,
        ensures
            final(self).wf(),
            final(self).layout() == old(self).layout(),
            final(self).snapshot() == old(self).snapshot(),
            ok <==> data@.len() <= cap,
            ok ==> final(self).bytes() == splice(old(self).bytes(), addr as int, data@),
            !ok ==> final(self).bytes() == old(self).bytes(),
    {
        if data.len() > cap {
            return false;
        }
        copy_into(&mut self.mem, addr, data);
        proof {
            lemma_splice_region(old(self).bytes(), addr as int, data@, cap as int);
        }
        true
    }

    /// What `buffer` holds, over its whole capacity.
    pub fn read_buffer(&self, buffer: Buffer) -> (s: &[u8])
        requires
            self.wf(),
        ensures
            s@ == self.buffer(buffer),
    {
        proof {
            lemma_buffers_apart(self.layout, buffer, buffer);
        }
        let addr = self.layout.buffer_addr(buffer);
        let cap = self.layout.buffer_capacity(buffer);
        slice_subrange(self.mem.as_slice(), addr, addr + cap)
    }

    /// Writes `data` to the start of `buffer`, if it fits there. The other buffer and the
    /// cookie stay as they are.
    pub fn write_buffer(&mut self, buffer: Buffer, data: &[u8]) -> (ok: bool)
        requires
            old(self).wf(),
        ensures
            final(self).wf(),
            final(self).layout() == old(self).layout(),
            final(self).snapshot() == old(self).snapshot(),
            ok <==> data@.len() <= old(self).layout().spec_buffer_capacity(buffer),
            ok ==> {
                &&& final(self).bytes() == old(self).with_buffer(buffer, data@)
                &&& final(self).buffer(buffer) == data@ + old(self).buffer(buffer).skip(
                    data@.len() as int,
                )
            },
            !ok ==> final(self).bytes() == old(self).bytes(),
            final(self).stack_cookie() == old(self).stack_cookie(),
            layout_of_peb(final(self).bytes()) == layout_of_peb(old(self).bytes()),
            forall|other: Buffer|
                other != buffer ==> #[trigger] final(self).buffer(other) == old(self).buffer(other),
    {
        let addr = self.layout.buffer_addr(buffer);
        let cap = self.layout.buffer_capacity(buffer);
        proof {
            lemma_buffers_apart(self.layout, buffer, buffer);
        }
        let ok = self.write_at(addr, cap, data);
        proof {
            if ok {
                old(self).lemma_write_keeps(addr as int, cap as int, data@);
                lemma_splice_region(old(self).bytes(), addr as int, data@, cap as int);
                assert(old(self).bytes().subrange(addr + data@.len(), addr + cap) =~= old(
                    self,
                ).buffer(buffer).skip(data@.len() as int));
                assert forall|other: Buffer| other != buffer implies #[trigger] self.buffer(other)
                    == old(self).buffer(other) by {
                    lemma_buffers_apart(self.layout, other, buffer);
                }
                lemma_peb_kept(old(self).bytes(), self.bytes());
            }
        }
        ok
    }

    /// Writes a frame to the start of `buffer`, or reports why there is none to write.
    fn write_frame_to(&mut self, buffer: Buffer, frame: Result<Vec<u8>, WireError>) -> (r: Result<
        (),
        HyperlightError,
    >)
        requires
            old(self).wf(),
        ensures
            final(self).wf(),
            final(self).layout() == old(self).layout(),
            final(self).snapshot() == old(self).snapshot(),
            r is Ok <==> (frame matches Ok(f) && f@.len() <= old(
                self,
            ).layout().spec_buffer_capacity(buffer)),
            r is Ok ==> {
                &&& final(self).bytes() == old(self).with_buffer(buffer, frame->Ok_0@)
                &&& final(self).buffer(buffer) == frame->Ok_0@ + old(self).buffer(buffer).skip(
                    frame->Ok_0@.len() as int,
                )
            },
            r matches Err(e) ==> e@ == ErrorData::FrameTooLarge && final(self).bytes() == old(
                self,
            ).bytes(),
            final(self).stack_cookie() == old(self).stack_cookie(),
            layout_of_peb(final(self).bytes()) == layout_of_peb(old(self).bytes()),
            forall|other: Buffer|
                other != buffer ==> #[trigger] final(self).buffer(other) == old(self).buffer(other),
    {
        match frame {
            Ok(f) => {
                if self.write_buffer(buffer, f.as_slice()) {
                    Ok(())
                } else {
                    Err(HyperlightError::FrameTooLarge)
                }
            },
            Err(_) => Err(HyperlightError::FrameTooLarge),
        }
    }

    /// Puts a call for the guest into shared input.
    pub fn write_guest_function_call(&mut self, call: &FunctionCall) -> (r: Result<
        (),
        HyperlightError,
    >)
        requires
            old(self).wf(),
        ensures
            final(self).wf(),
            final(self).layout() == old(self).layout(),
            final(self).snapshot() == old(self).snapshot(),
            r is Ok <==> call_frame_fits(call@) && call_frame(call@).len() <= old(
                self,
            ).layout().shared_input_capacity,
            r is Ok ==> {
                &&& final(self).bytes() == old(self).with_shared_input(call_frame(call@))
                &&& call_of_frame(final(self).shared_input()) == Ok::<CallData, WireError>(call@)
            },
            r matches Err(e) ==> e@ == ErrorData::FrameTooLarge && final(self).bytes() == old(
                self,
            ).bytes(),
            final(self).stack_cookie() == old(self).stack_cookie(),
            final(self).shared_output() == old(self).shared_output(),
    {
        let r = self.write_frame_to(Buffer::SharedInput, call.encode());
        proof {
            if r is Ok {
                function_call_round_trip(
                    call@,
                    old(self).shared_input().skip(call_frame(call@).len() as int),
                );
            }
            assert(self.buffer(Buffer::SharedOutput) == old(self).buffer(Buffer::SharedOutput));
        }
        r
    }

    /// Puts the result of a host function into shared input.
    pub fn write_response_from_host_method_call(&mut self, res: &ReturnValue) -> (r: Result<
        (),
        HyperlightError,
    >)
        requires
            old(self).wf(),
        ensures
            final(self).wf(),
            final(self).layout() == old(self).layout(),
            final(self).snapshot() == old(self).snapshot(),
            r is Ok <==> return_frame_fits(res@) && return_frame(res@).len() <= old(
                self,
            ).layout().shared_input_capacity,
            r is Ok ==> {
                &&& final(self).bytes() == old(self).with_shared_input(return_frame(res@))
                &&& return_of_frame(final(self).shared_input()) == Ok::<ReturnData, WireError>(
                    res@,
                )
            },
            r matches Err(e) ==> e@ == ErrorData::FrameTooLarge && final(self).bytes() == old(
                self,
            ).bytes(),
            final(self).stack_cookie() == old(self).stack_cookie(),
            final(self).shared_output() == old(self).shared_output(),
    {
        let r = self.write_frame_to(Buffer::SharedInput, res.encode());
        proof {
            if r is Ok {
                return_value_round_trip(
                    res@,
                    old(self).shared_input().skip(return_frame(res@).len() as int),
                );
            }
            assert(self.buffer(Buffer::SharedOutput) == old(self).buffer(Buffer::SharedOutput));
        }
        r
    }

    /// Puts an error for the guest into shared input, in place of a result.
    pub fn write_error_response(&mut self, err: &GuestError) -> (r: Result<(), HyperlightError>)
        requires
            old(self).wf(),
        ensures
            final(self).wf(),
            final(self).layout() == old(self).layout(),
            final(self).snapshot() == old(self).snapshot(),
            r is Ok <==> error_frame_fits(err@) && error_frame(err@).len() <= old(
                self,
            ).layout().shared_input_capacity,
            r is Ok ==> {
                &&& final(self).bytes() == old(self).with_shared_input(error_frame(err@))
                &&& error_of_frame(final(self).shared_input()) == Ok::<GuestErrorData, WireError>(
                    err@,
                )
                &&& reported_error_of(final(self).shared_input()) == Ok::<
                    Option<GuestErrorData>,
                    ErrorData,
                >(Some(err@))
            },
            r matches Err(e) ==> e@ == ErrorData::FrameTooLarge && final(self).bytes() == old(
                self,
            ).bytes(),
            final(self).stack_cookie() == old(self).stack_cookie(),
            final(self).shared_output() == old(self).shared_output(),
    {
        let r = self.write_frame_to(Buffer::SharedInput, err.encode());
        proof {
            if r is Ok {
                let tail = old(self).shared_input().skip(error_frame(err@).len() as int);
                guest_error_round_trip(err@, tail);
                lemma_reported_error(err@, tail);
            }
            assert(self.buffer(Buffer::SharedOutput) == old(self).buffer(Buffer::SharedOutput));
        }
        r
    }

    /// Empties `buffer`: the empty frame stands at its start afterwards.
    pub fn clear_buffer(&mut self, buffer: Buffer)
        requires
            old(self).wf(),
        ensures
            final(self).wf(),
            final(self).layout() == old(self).layout(),
            final(self).snapshot() == old(self).snapshot(),
            final(self).bytes() == old(self).with_buffer(buffer, frame(Seq::empty())),
            frame_payload(final(self).buffer(buffer)) == Ok::<Seq<u8>, WireError>(Seq::empty()),
            reported_error_of(final(self).buffer(buffer)) == Ok::<
                Option<GuestErrorData>,
                ErrorData,
            >(None),
            final(self).stack_cookie() == old(self).stack_cookie(),
            layout_of_peb(final(self).bytes()) == layout_of_peb(old(self).bytes()),
            forall|other: Buffer|
                other != buffer ==> #[trigger] final(self).buffer(other) == old(self).buffer(other),
    {
        let empty = match write_frame(Vec::new()) {
            Ok(f) => f,
            Err(_) => return,
        };
        proof {
            lemma_enc_bytes_len(Seq::<u8>::empty());
            lemma_buffers_apart(self.layout, buffer, buffer);
        }
        self.write_buffer(buffer, empty.as_slice());
        proof {
            let tail = old(self).buffer(buffer).skip(empty@.len() as int);
            lemma_frame_payload(Seq::<u8>::empty(), tail);
            lemma_no_reported_error(tail);
        }
    }

    /// Empties both shared buffers.
    pub fn clear_buffers(&mut self)
        requires
            old(self).wf(),
        ensures
            final(self).wf(),
            final(self).layout() == old(self).layout(),
            final(self).snapshot() == old(self).snapshot(),
            final(self).bytes() == splice(
                splice(
                    old(self).bytes(),
                    old(self).layout().shared_input_addr as int,
                    frame(Seq::empty()),
                ),
                old(self).layout().shared_output_addr as int,
                frame(Seq::empty()),
            ),
            frame_payload(final(self).shared_input()) == Ok::<Seq<u8>, WireError>(Seq::empty()),
            frame_payload(final(self).shared_output()) == Ok::<Seq<u8>, WireError>(Seq::empty()),
            reported_error_of(final(self).shared_input()) == Ok::<
                Option<GuestErrorData>,
                ErrorData,
            >(None),
            reported_error_of(final(self).shared_output()) == Ok::<
                Option<GuestErrorData>,
                ErrorData,
            >(None),
            final(self).stack_cookie() == old(self).stack_cookie(),
            layout_of_peb(final(self).bytes()) == layout_of_peb(old(self).bytes()),
    {
        self.clear_buffer(Buffer::SharedInput);
        let ghost mid = *self;
        self.clear_buffer(Buffer::SharedOutput);
        assert(self.buffer(Buffer::SharedInput) == mid.buffer(Buffer::SharedInput));
    }

    /// The call that the guest left in shared output.
    pub fn get_host_function_call(&self) -> (r: Result<FunctionCall, HyperlightError>)
        requires
            self.wf(),
        ensures
            r matches Ok(c) ==> host_call_of(self.shared_output()) == Ok::<CallData, ErrorData>(
                c@,
            ),
            r matches Err(e) ==> host_call_of(self.shared_output()) == Err::<CallData, ErrorData>(
                e@,
            ),
    {
        match FunctionCall::decode(self.read_buffer(Buffer::SharedOutput)) {
            Ok(c) => match c.function_call_type {
                FunctionCallType::Host => Ok(c),
                FunctionCallType::Guest => Err(HyperlightError::InvalidEncoding),
            },
            Err(e) => Err(HyperlightError::from_wire(e)),
        }
    }

    /// The return value that the guest left in shared output.
    pub fn get_return_value(&self) -> (r: Result<ReturnValue, HyperlightError>)
        requires
            self.wf(),
        ensures
            r matches Ok(v) ==> return_value_of(self.shared_output()) == Ok::<
                ReturnData,
                ErrorData,
            >(v@),
            r matches Err(e) ==> return_value_of(self.shared_output()) == Err::<
                ReturnData,
                ErrorData,
            >(e@),
    {
        match ReturnValue::decode(self.read_buffer(Buffer::SharedOutput)) {
            Ok(v) => Ok(v),
            Err(e) => Err(HyperlightError::from_wire(e)),
        }
    }

    /// The error that the guest left in shared output, with the code `NoError` where it
    /// left none.
    pub fn get_guest_error(&self) -> (r: Result<GuestError, HyperlightError>)
        requires
            self.wf(),
        ensures
            r matches Ok(v) ==> guest_error_of(self.shared_output()) == Ok::<
                GuestErrorData,
                ErrorData,
            >(v@),
            r matches Err(e) ==> guest_error_of(self.shared_output()) == Err::<
                GuestErrorData,
                ErrorData,
            >(e@),
    {
        match read_reported_error(self.read_buffer(Buffer::SharedOutput)) {
            Ok(Some(e)) => Ok(e),
            Ok(None) => Ok(GuestError::new(ErrorCode::NoError, String::new())),
            Err(e) => Err(e),
        }
    }

    /// The error that the host left in shared input for the guest, if it left one.
    pub fn get_host_error(&self) -> (r: Result<Option<GuestError>, HyperlightError>)
        requires
            self.wf(),
        ensures
            r matches Ok(v) ==> reported_error_of(self.shared_input()) == Ok::<
                Option<GuestErrorData>,
                ErrorData,
            >(v.deep_view()),
            r matches Err(e) ==> reported_error_of(self.shared_input()) == Err::<
                Option<GuestErrorData>,
                ErrorData,
            >(e@),
    {
        read_reported_error(self.read_buffer(Buffer::SharedInput))
    }

    /// The log record that the guest left in shared output.
    pub fn get_guest_log_data(&self) -> (r: Result<GuestLogData, HyperlightError>)
        requires
            self.wf(),
        ensures
            r matches Ok(v) ==> log_record_of(self.shared_output()) == Ok::<LogData, ErrorData>(
                v@,
            ),
            r matches Err(e) ==> log_record_of(self.shared_output()) == Err::<LogData, ErrorData>(
                e@,
            ),
    {
        match GuestLogData::decode(self.read_buffer(Buffer::SharedOutput)) {
            Ok(v) => Ok(v),
            Err(e) => Err(HyperlightError::from_wire(e)),
        }
    }

    /// The message that the guest left in shared output before it asked to be stopped.
    pub fn get_abort_message(&self) -> (r: Option<String>)
        requires
            self.wf(),
        ensures
            r.deep_view() == abort_message_of(self.shared_output()),
    {
        match GuestError::decode(self.read_buffer(Buffer::SharedOutput)) {
            Ok(e) => Some(e.message),
            Err(_) => None,
        }
    }

    /// Stamps the cookie right below the stack.
    pub fn set_stack_guard(&mut self, cookie: &[u8; STACK_COOKIE_LEN])
        requires
            old(self).wf(),
        ensures
            final(self).wf(),
            final(self).layout() == old(self).layout(),
            final(self).snapshot() == old(self).snapshot(),
            final(self).bytes() == splice(
                old(self).bytes(),
                old(self).layout().stack_cookie_addr as int,
                cookie@,
            ),
            final(self).stack_cookie() == cookie@,
            final(self).shared_input() == old(self).shared_input(),
            final(self).shared_output() == old(self).shared_output(),
            layout_of_peb(final(self).bytes()) == layout_of_peb(old(self).bytes()),
    {
        let addr = self.layout.stack_cookie_addr;
        self.write_at(addr, STACK_COOKIE_LEN, cookie.as_slice());
        proof {
            old(self).lemma_write_keeps(addr as int, STACK_COOKIE_LEN as int, cookie@);
            lemma_splice_region(old(self).bytes(), addr as int, cookie@, STACK_COOKIE_LEN as int);
            assert(cookie@ + old(self).bytes().subrange(
                addr + STACK_COOKIE_LEN,
                addr + STACK_COOKIE_LEN,
            ) =~= cookie@);
            lemma_peb_kept(old(self).bytes(), self.bytes());
        }
    }

    /// Whether the bytes right below the stack are still `cookie`.
    pub fn check_stack_guard(&self, cookie: &[u8; STACK_COOKIE_LEN]) -> (ok: bool)
        requires
            self.wf(),
        ensures
            ok == (self.stack_cookie() == cookie@),
    {
        let found = slice_subrange(
            self.mem.as_slice(),
            self.layout.stack_cookie_addr,
            self.layout.stack_cookie_addr + STACK_COOKIE_LEN,
        );
        bytes_equal(found, cookie.as_slice())
    }

    /// Keeps a copy of memory as it is now, for `restore_state` to go back to.
    pub fn snapshot_state(&mut self)
        requires
            old(self).wf(),
        ensures
            final(self).wf(),
            final(self).layout() == old(self).layout(),
            final(self).bytes() == old(self).bytes(),
            final(self).snapshot() == Some(old(self).bytes()),
    {
        let copy = slice_to_vec(self.mem.as_slice());
        self.snapshot = Some(copy);
    }

    /// Puts memory back to what it was when the snapshot was taken.
    pub fn restore_state(&mut self) -> (r: Result<(), HyperlightError>)
        requires
            old(self).wf(),
        ensures
            final(self).wf(),
            final(self).layout() == old(self).layout(),
            final(self).snapshot() == old(self).snapshot(),
            old(self).snapshot() matches Some(s) ==> r is Ok && final(self).bytes() == s,
            old(self).snapshot() is None ==> final(self).bytes() == old(self).bytes() && (
            r matches Err(e) && e@ == ErrorData::NoSnapshot),
    {
        match &self.snapshot {
            Some(s) => {
                let copy = slice_to_vec(s.as_slice());
                self.mem = copy;
                Ok(())
            },
            None => Err(HyperlightError::NoSnapshot),
        }
    }

    /// Writes the header record, from which the guest learns the layout and
    /// `outb_context`.
    pub fn write_peb(&mut self, outb_context: u64)
        requires
            old(self).wf(),
        ensures
            final(self).wf(),
            final(self).layout() == old(self).layout(),
            final(self).snapshot() == old(self).snapshot(),
            final(self).bytes() == splice(
                old(self).bytes(),
                0,
                peb_record(old(self).layout(), outb_context),
            ),
            layout_of_peb(final(self).bytes()) == Some((outb_context, old(self).layout())),
            final(self).same_buffers(old(self)),
    {
        let record = self.layout.to_peb(outb_context);
        proof {
            lemma_peb_record_len(self.layout, outb_context);
        }
        self.write_at(0, PEB_SIZE, record.as_slice());
        proof {
            old(self).lemma_write_keeps(0, PEB_SIZE as int, record@);
            peb_round_trip(
                self.layout,
                outb_context,
                old(self).bytes().subrange(record@.len() as int, old(self).bytes().len() as int),
            );
            assert(self.bytes() =~= record@ + old(self).bytes().subrange(
                record@.len() as int,
                old(self).bytes().len() as int,
            ));
        }
    }

    /// Copies the guest's code to where it runs from, if it fits there.
    pub fn load_code(&mut self, code: &[u8]) -> (ok: bool)
        requires
            old(self).wf(),
        ensures
            final(self).wf(),
            final(self).layout() == old(self).layout(),
            final(self).snapshot() == old(self).snapshot(),
            ok <==> code@.len() <= old(self).layout().code_size,
            ok ==> final(self).bytes() == splice(
                old(self).bytes(),
                old(self).layout().code_addr as int,
                code@,
            ),
            !ok ==> final(self).bytes() == old(self).bytes(),
            final(self).same_buffers(old(self)),
            layout_of_peb(final(self).bytes()) == layout_of_peb(old(self).bytes()),
    {
        let addr = self.layout.code_addr;
        let cap = self.layout.code_size;
        let ok = self.write_at(addr, cap, code);
        proof {
            if ok {
                old(self).lemma_write_keeps(addr as int, cap as int, code@);
                lemma_peb_kept(old(self).bytes(), self.bytes());
            }
        }
        ok
    }
}

/// The header record is read from the first bytes of memory alone.
pub proof fn lemma_peb_kept(a: Seq<u8>, b: Seq<u8>)
    requires
        a.len() == b.len(),
        a.len() >= PEB_SIZE,
        a.subrange(0, PEB_SIZE as int) == b.subrange(0, PEB_SIZE as int),
    ensures
        layout_of_peb(a) == layout_of_peb(b),
{
    lemma_words_from_prefix(a, b, PEB_WORDS as nat);
}

/// Integers that are read from the start of memory depend on the bytes they cover.
proof fn lemma_words_from_prefix(a: Seq<u8>, b: Seq<u8>, n: nat)
    requires
        a.len() == b.len(),
        a.len() >= PEB_SIZE,
        8 * n <= PEB_SIZE,
        a.subrange(0, PEB_SIZE as int) == b.subrange(0, PEB_SIZE as int),
    ensures
        dec_words(a, 0, n) == dec_words(b, 0, n),
        dec_words(a, 0, n) matches Some((_, p)) ==> p == 8 * n,
    decreases n,
{
    if n > 0 {
        lemma_words_from_prefix(a, b, (n - 1) as nat);
        let p = 8 * (n - 1);
        assert(a.subrange(p, p + 8) =~= a.subrange(0, PEB_SIZE as int).subrange(p, p + 8));
        assert(b.subrange(p, p + 8) =~= b.subrange(0, PEB_SIZE as int).subrange(p, p + 8));
    }
}

} // verus!
