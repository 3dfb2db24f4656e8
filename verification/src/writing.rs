//! Writing text into fixed byte buffers without allocating: the text is copied as far as it
//! fits, and the outcome says whether all of it was written.
use vstd::prelude::*;
use vstd::math::min;
use vstd::string::StringSliceAdditionalSpecFns;

verus! {

#[verifier::external_type_specification]
#[verifier::external_body]
pub struct ExIoError(std::io::Error);

/// Tells whether an I/O error is of kind `WriteZero`, the kind a full buffer reports.
/// Calls `std::io::Error::kind`; nothing is stated of the answer.
#[verifier::external_body]
fn io_error_is_write_zero(e: &std::io::Error) -> bool {
    e.kind() == std::io::ErrorKind::WriteZero
}

/// The outcome of writing into a fixed buffer.
pub enum WriteResult {
    /// Everything was written; this many bytes.
    AllWritten(usize),
    /// The buffer filled up; this many bytes were written.
    TruncatedAt(usize),
    /// Writing failed for another reason.
    Error { bytes_written: usize, error: std::io::Error },
}

impl WriteResult {
    /// The number of bytes written, whatever the outcome.
    pub open spec fn spec_bytes_written(&self) -> usize {
        match self {
            WriteResult::AllWritten(v) => *v,
            WriteResult::TruncatedAt(v) => *v,
            WriteResult::Error { bytes_written, .. } => *bytes_written,
        }
    }

    /// The outcome of a write of `bytes_written` bytes that failed with `error`: where the error
    /// says nothing more could be written (`write_zero`), the buffer filled up; any other error
    /// is kept.
    pub fn classify(bytes_written: usize, write_zero: bool, error: std::io::Error) -> (r: WriteResult)
        ensures
            write_zero ==> r == WriteResult::TruncatedAt(bytes_written),
            !write_zero ==> r == (WriteResult::Error { bytes_written, error }),
    {
        if write_zero {
            WriteResult::TruncatedAt(bytes_written)
        } else {
            WriteResult::Error { bytes_written, error }
        }
    }

    /// The outcome of a write of `bytes_written` bytes that ended with `result`: success means
    /// everything was written; a failure is sorted by `classify` on whether the error is of kind
    /// `WriteZero`.
    pub fn from(bytes_written: usize, result: std::io::Result<()>) -> (r: WriteResult)
        ensures
            result is Ok ==> r == WriteResult::AllWritten(bytes_written),
            result matches Err(e) ==> (r == WriteResult::TruncatedAt(bytes_written)
                || r == (WriteResult::Error { bytes_written, error: e })),
    {
        match result {
            Ok(()) => WriteResult::AllWritten(bytes_written),
            Err(e) => {
                let write_zero = io_error_is_write_zero(&e);
                WriteResult::classify(bytes_written, write_zero, e)
            },
        }
    }

    /// The number of bytes written, whatever the outcome.
    pub fn bytes_written(&self) -> (r: usize)
        ensures
            r == self.spec_bytes_written(),
    {
        match self {
            WriteResult::AllWritten(v) => *v,
            WriteResult::TruncatedAt(v) => *v,
            WriteResult::Error { bytes_written, .. } => *bytes_written,
        }
    }

    /// Everything was written.
    pub fn is_ok(&self) -> (r: bool)
        ensures
            r == (self is AllWritten),
    {
        match self {
            WriteResult::AllWritten(_) => true,
            _ => false,
        }
    }
}

/// A write position within a buffer of fixed length. Writes past the end of the buffer write
/// nothing.
pub struct NonAllocatingCursor {
    len: usize,
    pos: u64,
}

impl NonAllocatingCursor {
    pub closed spec fn spec_len(&self) -> nat { self.len as nat }
    pub closed spec fn spec_pos(&self) -> nat { self.pos as nat }

    /// A cursor at the start of `buffer`.
    pub fn new(buffer: &[u8]) -> (r: NonAllocatingCursor)
        ensures
            r.spec_len() == buffer@.len(),
            r.spec_pos() == 0,
    {
        NonAllocatingCursor { len: buffer.len(), pos: 0 }
    }

    /// How many bytes have been written, at most the buffer's length.
    pub fn position(&self) -> (r: usize)
        ensures
            r == (if self.spec_pos() <= self.spec_len() { self.spec_pos() } else { self.spec_len() }),
    {
        if self.pos <= self.len as u64 { self.pos as usize } else { self.len }
    }

    /// Copies as much of `data` as fits after the cursor, moves the cursor past it, and returns
    /// how many bytes were copied.
    pub fn write(&mut self, buffer: &mut [u8], data: &[u8]) -> (n: usize)
        requires
            old(buffer)@.len() == old(self).spec_len(),
            old(self).spec_pos() + data@.len() <= u64::MAX,
        ensures
            final(self).spec_len() == old(self).spec_len(),
            n == min(data@.len() as int, old(self).spec_len() - min(old(self).spec_pos() as int, old(self).spec_len() as int)),
            final(self).spec_pos() == old(self).spec_pos() + n,
            final(buffer)@ == copied_into(old(buffer)@, min(old(self).spec_pos() as int, old(self).spec_len() as int), data@, n as int),
    {
        let start = self.position();
        let limit = buffer.len();
        let n = copy_into(buffer, start, limit, data);
        self.pos = self.pos + n as u64;
        n
    }

    /// Copies all of `data` after the cursor if it fits; otherwise copies what fits and reports a full buffer.
    pub fn write_all(&mut self, buffer: &mut [u8], data: &[u8]) -> (r: Result<(), ()>)
        requires
            old(buffer)@.len() == old(self).spec_len(),
            old(self).spec_pos() + data@.len() <= u64::MAX,
        ensures
            final(self).spec_len() == old(self).spec_len(),
            r is Ok <==> data@.len() <= old(self).spec_len() - min(old(self).spec_pos() as int, old(self).spec_len() as int),
            final(buffer)@ == copied_into(old(buffer)@, min(old(self).spec_pos() as int, old(self).spec_len() as int), data@,
                min(data@.len() as int, old(self).spec_len() - min(old(self).spec_pos() as int, old(self).spec_len() as int))),
            final(self).spec_pos() == cursor_step(old(self).spec_pos() as int, old(self).spec_len() as int, data@.len() as int),
    {
        let n = self.write(buffer, data);
        if n < data.len() { Err(()) } else { Ok(()) }
    }
}

/// The cursor position after writing `d` bytes at position `pos` of a buffer of `len` bytes:
/// it moves by what fits.
pub open spec fn cursor_step(pos: int, len: int, d: int) -> int {
    pos + min(d, len - min(pos, len))
}

/// The cursor position after writes of the given lengths, in order, from position `pos`.
pub open spec fn cursor_after(pos: int, len: int, lens: Seq<int>) -> int
    decreases lens.len(),
{
    if lens.len() == 0 {
        pos
    } else {
        cursor_step(cursor_after(pos, len, lens.drop_last()), len, lens.last())
    }
}

/// The sum of the lengths.
pub open spec fn total_len(lens: Seq<int>) -> int
    decreases lens.len(),
{
    if lens.len() == 0 { 0 } else { total_len(lens.drop_last()) + lens.last() }
}

/// A cursor that starts at the beginning of a buffer and is written to any number of times
/// stands at the total length written, or at the end of the buffer where that is less.
pub proof fn lemma_cursor_position_after_writes(len: nat, lens: Seq<int>)
    requires
        forall|i: int| 0 <= i < lens.len() ==> #[trigger] lens[i] >= 0,
    ensures
        cursor_after(0, len as int, lens) == min(total_len(lens), len as int),
        0 <= cursor_after(0, len as int, lens) <= len,
    decreases lens.len(),
{
    if lens.len() > 0 {
        let rest = lens.drop_last();
        assert forall|i: int| 0 <= i < rest.len() implies #[trigger] rest[i] >= 0 by {
            assert(rest[i] == lens[i]);
        }
        lemma_cursor_position_after_writes(len, rest);
        assert(lens.last() == lens[lens.len() - 1]);
        assert(total_len(rest) >= 0) by {
            lemma_total_len_nonnegative(rest);
        }
    }
}

/// Lengths that are not negative add up to a total that is not negative.
proof fn lemma_total_len_nonnegative(lens: Seq<int>)
    requires
        forall|i: int| 0 <= i < lens.len() ==> #[trigger] lens[i] >= 0,
    ensures
        total_len(lens) >= 0,
    decreases lens.len(),
{
    if lens.len() > 0 {
        let rest = lens.drop_last();
        assert forall|i: int| 0 <= i < rest.len() implies #[trigger] rest[i] >= 0 by {
            assert(rest[i] == lens[i]);
        }
        lemma_total_len_nonnegative(rest);
        assert(lens.last() == lens[lens.len() - 1]);
    }
}

/// `buf` with `n` bytes of `data` copied over it from `start` on.
pub open spec fn copied_into(buf: Seq<u8>, start: int, data: Seq<u8>, n: int) -> Seq<u8> {
    Seq::new(buf.len(), |i: int| if start <= i < start + n { data[i - start] } else { buf[i] })
}

/// Copies as much of `data` as fits between `start` and `limit` into `buffer`; returns the count.
fn copy_into(buffer: &mut [u8], start: usize, limit: usize, data: &[u8]) -> (n: usize)
    requires
        start <= limit <= old(buffer)@.len(),
    ensures
        n == min(data@.len() as int, limit - start),
        final(buffer)@ == copied_into(old(buffer)@, start as int, data@, n as int),
{
    let room = limit - start;
    let n = if data.len() <= room { data.len() } else { room };
    let mut i: usize = 0;
    while i < n
        invariant
            n <= data@.len(),
            start + n <= limit <= old(buffer)@.len(),
            i <= n,
            buffer@.len() == old(buffer)@.len(),
            forall|j: int| 0 <= j < buffer@.len() ==> #[trigger] buffer@[j] == (if start <= j < start + i {
                data@[j - start]
            } else {
                old(buffer)@[j]
            }),
        decreases n - i,
    {
        buffer[start + i] = data[i];
        i = i + 1;
    }
    assert(buffer@ =~= copied_into(old(buffer)@, start as int, data@, n as int));
    n
}

/// What writing `n` bytes of text into room for `cap` bytes comes to: all of it, or the buffer full.
pub open spec fn fit_result(n: nat, cap: nat) -> WriteResult {
    if n <= cap { WriteResult::AllWritten(n as usize) } else { WriteResult::TruncatedAt(cap as usize) }
}

/// The bytes of an optional text to append when truncating; none when there is no such text.
pub open spec fn appended_bytes(append: Option<&str>) -> Seq<u8> {
    match append {
        Some(s) => s.spec_bytes(),
        None => Seq::empty(),
    }
}

/// The outcome of writing `text` into the first `limit` bytes of a buffer, with room kept at the
/// end for the text to append when truncating.
pub open spec fn truncating_result(text: Seq<u8>, append: Option<&str>, limit: nat) -> WriteResult {
    let reserve = appended_bytes(append).len();
    if reserve >= limit {
        WriteResult::TruncatedAt(0)
    } else if text.len() <= limit - reserve {
        WriteResult::AllWritten(text.len() as usize)
    } else if append is Some {
        WriteResult::TruncatedAt(reserve as usize)
    } else {
        WriteResult::TruncatedAt((limit - reserve) as usize)
    }
}

/// The first `limit` bytes of `buf` once `text` (and, when truncated, the text to append) is written there.
pub open spec fn truncating_buffer(text: Seq<u8>, append: Option<&str>, buf: Seq<u8>, limit: nat) -> Seq<u8> {
    let reserve = appended_bytes(append).len();
    let room = (limit - reserve) as int;
    if reserve >= limit {
        buf
    } else if text.len() <= room {
        copied_into(buf, 0, text, text.len() as int)
    } else if append is Some {
        copied_into(copied_into(buf, 0, text, room), room, appended_bytes(append), reserve as int)
    } else {
        copied_into(buf, 0, text, room)
    }
}

/// Writes a piece of text into byte buffers without allocating.
pub struct NonAllocatingFormatter<'a>(pub &'a str);

impl<'a> NonAllocatingFormatter<'a> {
    /// The bytes of the text.
    pub open spec fn text(&self) -> Seq<u8> {
        self.0.spec_bytes()
    }

    /// Writes the text into `buffer` as far as it fits.
    pub fn write_to_slice(&self, buffer: &mut [u8]) -> (r: WriteResult)
        ensures
            r == fit_result(self.text().len(), old(buffer)@.len()),
            final(buffer)@ == copied_into(old(buffer)@, 0, self.text(), r.spec_bytes_written() as int),
    {
        let limit = buffer.len();
        self.write_within(buffer, limit)
    }

    /// Writes the text into the first `limit` bytes of `buffer` as far as it fits.
    fn write_within(&self, buffer: &mut [u8], limit: usize) -> (r: WriteResult)
        requires
            limit <= old(buffer)@.len(),
        ensures
            r == fit_result(self.text().len(), limit as nat),
            final(buffer)@ == copied_into(old(buffer)@, 0, self.text(), r.spec_bytes_written() as int),
    {
        let text = self.0.as_bytes();
        let n = copy_into(buffer, 0, limit, text);
        if n < text.len() { WriteResult::TruncatedAt(n) } else { WriteResult::AllWritten(n) }
    }

    /// Writes the text into `buffer`, keeping room at the end for `append_when_truncated`; when
    /// the text does not fit, that text is written after what fits, and the outcome counts the
    /// bytes of that appended text. When the room to keep is the whole buffer or more, nothing is written.
    pub fn write_and_write_errors_to_slice(&self, buffer: &mut [u8], append_when_truncated: Option<&str>)
        -> (r: WriteResult)
        ensures
            r == truncating_result(self.text(), append_when_truncated, old(buffer)@.len()),
            final(buffer)@ == truncating_buffer(self.text(), append_when_truncated, old(buffer)@, old(buffer)@.len()),
    {
        let limit = buffer.len();
        let r = self.errors_within(buffer, limit, append_when_truncated);
        proof {
            assert(buffer@ =~= buffer@.subrange(0, limit as int));
            assert(old(buffer)@ =~= old(buffer)@.subrange(0, limit as int));
        }
        r
    }

    /// `write_and_write_errors_to_slice` on the first `limit` bytes of `buffer`.
    fn errors_within(&self, buffer: &mut [u8], limit: usize, append_when_truncated: Option<&str>)
        -> (r: WriteResult)
        requires
            limit <= old(buffer)@.len(),
        ensures
            r == truncating_result(self.text(), append_when_truncated, limit as nat),
            final(buffer)@.subrange(0, limit as int)
                == truncating_buffer(self.text(), append_when_truncated, old(buffer)@.subrange(0, limit as int), limit as nat),
            final(buffer)@.len() == old(buffer)@.len(),
            forall|i: int| limit <= i < old(buffer)@.len() ==> #[trigger] final(buffer)@[i] == old(buffer)@[i],
    {
        let ghost orig = buffer@;
        let reserve = match append_when_truncated {
            Some(s) => s.as_bytes().len(),
            None => 0,
        };
        if reserve >= limit {
            return WriteResult::TruncatedAt(0);
        }
        let room = limit - reserve;
        let r = self.write_within(buffer, room);
        let ghost mid = buffer@;
        let ghost sub = orig.subrange(0, limit as int);
        proof {
            assert(reserve == appended_bytes(append_when_truncated).len());
            assert forall|j: int| 0 <= j < limit implies
                #[trigger] mid[j] == copied_into(sub, 0, self.text(), r.spec_bytes_written() as int)[j] by {
                assert(sub[j] == orig[j]);
            }
        }
        match r {
            WriteResult::TruncatedAt(bytes_written) => {
                match append_when_truncated {
                    Some(s) => {
                        let n = copy_into(buffer, bytes_written, limit, s.as_bytes());
                        proof {
                            assert(buffer@.subrange(0, limit as int) =~= truncating_buffer(self.text(),
                                append_when_truncated, orig.subrange(0, limit as int), limit as nat));
                        }
                        WriteResult::TruncatedAt(n)
                    },
                    None => {
                        proof {
                            assert(buffer@.subrange(0, limit as int) =~= truncating_buffer(self.text(),
                                append_when_truncated, orig.subrange(0, limit as int), limit as nat));
                        }
                        r
                    },
                }
            },
            _ => {
                proof {
                    assert(buffer@.subrange(0, limit as int) =~= truncating_buffer(self.text(),
                        append_when_truncated, orig.subrange(0, limit as int), limit as nat));
                }
                r
            },
        }
    }

    /// Writes the text as a C string: as `write_and_write_errors_to_slice` into all but the last
    /// byte, then every zero byte written is replaced by a space and a zero byte ends the string.
    /// A buffer of fewer than two bytes is left as it is.
    pub fn write_and_write_errors_to_cstring_slice(&self, buffer: &mut [u8], append_when_truncated: Option<&str>)
        -> (r: WriteResult)
        ensures
            old(buffer)@.len() < 2 ==> r == WriteResult::TruncatedAt(0) && final(buffer)@ == old(buffer)@,
            old(buffer)@.len() >= 2 ==> {
                let limit = (old(buffer)@.len() - 1) as nat;
                let written = truncating_buffer(self.text(), append_when_truncated, old(buffer)@.subrange(0, limit as int), limit);
                &&& r == truncating_result(self.text(), append_when_truncated, limit)
                &&& final(buffer)@ == cstring_of(written, r.spec_bytes_written() as int, old(buffer)@)
                &&& r.spec_bytes_written() < old(buffer)@.len()
                &&& final(buffer)@[r.spec_bytes_written() as int] == 0
                &&& forall|i: int| 0 <= i < r.spec_bytes_written() ==> #[trigger] final(buffer)@[i] != 0
            },
    {
        let cap = buffer.len();
        if cap < 2 {
            return WriteResult::TruncatedAt(0);
        }
        let ghost orig = buffer@;
        let r = self.errors_within(buffer, cap - 1, append_when_truncated);
        let ghost mid = buffer@;
        let bw = r.bytes_written();
        proof {
            let reserve = appended_bytes(append_when_truncated).len();
            assert(bw <= cap - 1);
        }
        let mut i: usize = 0;
        while i < bw
            invariant
                bw < cap,
                cap == buffer@.len(),
                buffer@.len() == mid.len(),
                i <= bw,
                forall|j: int| 0 <= j < buffer@.len() ==> #[trigger] buffer@[j] == (if j < i {
                    if mid[j] == 0 { 32u8 } else { mid[j] }
                } else {
                    mid[j]
                }),
            decreases bw - i,
        {
            if buffer[i] == 0 {
                buffer[i] = 32;
            }
            i = i + 1;
        }
        buffer[bw] = 0;
        proof {
            let limit = (cap - 1) as nat;
            let written = truncating_buffer(self.text(), append_when_truncated, orig.subrange(0, limit as int), limit);
            assert forall|j: int| 0 <= j < limit implies #[trigger] mid[j] == written[j] by {
                assert(mid.subrange(0, limit as int)[j] == mid[j]);
            }
            assert(mid[cap - 1] == orig[cap - 1]);
            assert(buffer@ =~= cstring_of(written, bw as int, orig));
        }
        r
    }
}

/// The buffer once a C string of `n` bytes is made of `written` (all but the last byte of `buf`):
/// zero bytes among the first `n` become spaces, byte `n` becomes zero, the rest is unchanged.
pub open spec fn cstring_of(written: Seq<u8>, n: int, buf: Seq<u8>) -> Seq<u8> {
    Seq::new(buf.len(), |i: int|
        if i < n {
            if written[i] == 0 { 32u8 } else { written[i] }
        } else if i == n {
            0u8
        } else if i < written.len() {
            written[i]
        } else {
            buf[i]
        })
}

} // verus!
