//! `FlowError`: an error kind, a message, and the source locations through which it passed.
use vstd::prelude::*;
use smallvec::SmallVec;
use crate::errors::{
    CategorizedError, CodeLocation, ErrorCategory, ErrorKind, category_name, kind_category,
    kind_text, location_text,
};
use crate::text::push_decimal_u64;
use crate::error::json_error_text;
use crate::json_context::{json_context_text, json_error_context, utf8_decoded};

verus! {

/// The stack of recorded locations of an error, held in a `SmallVec` with room for one
/// location inline. Verus does not accept a declaration of `SmallVec` itself (its parameter
/// is bound by smallvec's `Array` trait), so the vector is held in this opaque wrapper.
#[verifier::external_body]
#[derive(Debug)]
pub struct LocationStack {
    inner: SmallVec<[CodeLocation; 1]>,
}

/// The locations held by a location stack, oldest first.
pub uninterp spec fn stack_contents(v: LocationStack) -> Seq<CodeLocation>;

/// `SmallVec::new`: an empty stack.
#[verifier::external_body]
fn stack_new() -> (r: LocationStack)
    ensures
        stack_contents(r) == Seq::<CodeLocation>::empty(),
{
    LocationStack { inner: SmallVec::new() }
}

/// `SmallVec::len`: the number of locations held.
#[verifier::external_body]
fn stack_len(v: &LocationStack) -> (r: usize)
    ensures
        r == stack_contents(*v).len(),
{
    v.inner.len()
}

/// `SmallVec::capacity`: how many locations fit without reallocating. The value depends on
/// allocations made so far, so nothing is claimed of it beyond being at least the length.
#[verifier::external_body]
fn stack_capacity(v: &LocationStack) -> (r: usize)
    ensures
        r >= stack_contents(*v).len(),
{
    v.inner.capacity()
}

/// `SmallVec::grow`: reserves room; the held locations are unchanged.
#[verifier::external_body]
fn stack_grow(v: &mut LocationStack, new_cap: usize)
    ensures
        stack_contents(*final(v)) == stack_contents(*old(v)),
{
    v.inner.grow(new_cap)
}

/// `SmallVec::push`: appends a location at the end.
#[verifier::external_body]
fn stack_push(v: &mut LocationStack, c: CodeLocation)
    ensures
        stack_contents(*final(v)) == stack_contents(*old(v)).push(c),
{
    v.inner.push(c)
}

/// `SmallVec::get`: the location at position `i`.
#[verifier::external_body]
fn stack_get(v: &LocationStack, i: usize) -> (r: CodeLocation)
    requires
        i < stack_contents(*v).len(),
    ensures
        r == stack_contents(*v)[i as int],
{
    v.inner[i]
}

/// The most widely-used error type: a kind, an optional message, and the recorded
/// source locations. Allocation-free unless a message is used or more than one location is recorded.
#[derive(Debug)]
pub struct FlowError {
    pub kind: ErrorKind,
    pub message: String,
    pub at: LocationStack,
}

impl FlowError {
    /// The recorded locations, oldest first.
    pub open spec fn locations(&self) -> Seq<CodeLocation> {
        stack_contents(self.at)
    }

    /// An error of the given kind, with no message and no recorded location.
    pub fn new(kind: ErrorKind) -> (r: FlowError)
        ensures
            r.kind == kind,
            r.message@ == Seq::<char>::empty(),
            r.locations() == Seq::<CodeLocation>::empty(),
    {
        FlowError { kind, message: String::new(), at: stack_new() }
    }

    /// Create a FlowError without a recorded stack location.
    pub fn without_location(kind: ErrorKind, message: String) -> (r: FlowError)
        ensures
            r.kind == kind,
            r.message@ == message@,
            r.locations() == Seq::<CodeLocation>::empty(),
    {
        FlowError { kind, message, at: stack_new() }
    }

    /// An error whose message is the kind's text, `": "`, then `detail`.
    pub fn with_message(kind: ErrorKind, detail: &str) -> (r: FlowError)
        ensures
            r.kind == kind,
            r.message@ == kind_text(kind) + ": "@ + detail@,
            r.locations() == Seq::<CodeLocation>::empty(),
    {
        let mut message = String::new();
        kind.push_text(&mut message);
        message.append(": ");
        message.append(detail);
        FlowError { kind, message, at: stack_new() }
    }

    /// Appends the given stack location. An out-of-memory error comes back unchanged, so that
    /// recording a location never allocates for it.
    pub fn at(self, c: CodeLocation) -> (r: FlowError)
        ensures
            kind_category(self.kind) != ErrorCategory::OutOfMemory ==> {
                &&& r.kind == self.kind
                &&& r.message@ == self.message@
                &&& r.locations() == self.locations().push(c)
            },
            kind_category(self.kind) == ErrorCategory::OutOfMemory ==> r == self,
    {
        let mut e = self;
        if e.kind.is_oom() {
            e
        } else {
            if stack_capacity(&e.at) < 16 {
                stack_grow(&mut e.at, 16);
            }
            stack_push(&mut e.at, c);
            e
        }
    }

    /// Errors are never recoverable through the FFI interface.
    pub fn recoverable(&self) -> (r: bool)
        ensures
            !r,
    {
        false
    }

    /// The category of this error's kind.
    pub fn category(&self) -> (r: ErrorCategory)
        ensures
            r == kind_category(self.kind),
    {
        self.kind.category()
    }

    /// The text of an error's `Debug` form: the message (or the kind, when there is no
    /// message), `" at\n"`, then each location as `file:line:col` on its own line.
    pub open spec fn debug_text(&self) -> Seq<char> {
        (if self.message@.len() == 0 { kind_text(self.kind) } else { self.message@ }) + " at\n"@
            + locations_text(self.locations())
    }

    /// The text of an error's `Display` form: the category name, `": "`, then the `Debug` text.
    pub open spec fn display_text(&self) -> Seq<char> {
        category_name(kind_category(self.kind)) + ": "@ + self.debug_text()
    }

    /// Renders the `Debug` form of this error.
    pub fn to_debug_string(&self) -> (r: String)
        ensures
            r@ == self.debug_text(),
    {
        let mut s = String::new();
        if self.message.as_str().is_empty() {
            self.kind.push_text(&mut s);
        } else {
            s.append(self.message.as_str());
        }
        s.append(" at\n");
        let n = stack_len(&self.at);
        let mut i: usize = 0;
        while i < n
            invariant
                n == self.locations().len(),
                i <= n,
                s@ == (if self.message@.len() == 0 { kind_text(self.kind) } else { self.message@ })
                    + " at\n"@ + locations_text(self.locations().take(i as int)),
            decreases n - i,
        {
            let c = stack_get(&self.at, i);
            let ghost before = s@;
            s.append(c.file());
            s.append(":");
            push_decimal_u64(&mut s, c.line() as u64);
            s.append(":");
            push_decimal_u64(&mut s, c.col() as u64);
            s.append("\n");
            proof {
                assert(self.locations().take(i + 1).drop_last() =~= self.locations().take(
                    i as int,
                ));
                assert(s@ =~= before + location_text(c) + "\n"@);
            }
            i = i + 1;
        }
        proof {
            assert(self.locations().take(n as int) =~= self.locations());
        }
        s
    }

    /// Renders the `Display` form of this error: the category, then the `Debug` form.
    pub fn to_display_string(&self) -> (r: String)
        ensures
            r@ == self.display_text(),
    {
        let mut s = String::new();
        s.append(self.category().name());
        s.append(": ");
        let d = self.to_debug_string();
        s.append(d.as_str());
        proof {
            assert(s@ =~= self.display_text());
        }
        s
    }
}

/// Calls `serde_json::Error::line`: the one-based line at which the error was detected. The
/// error is opaque here, so nothing is stated of the answer.
#[verifier::external_body]
fn json_error_line(e: &serde_json::Error) -> usize {
    e.line()
}

/// Calls `serde_json::Error::column`: the one-based column at which the error was detected (0
/// in some cases). The error is opaque here, so nothing is stated of the answer.
#[verifier::external_body]
fn json_error_column(e: &serde_json::Error) -> usize {
    e.column()
}

/// The message of a JSON error at `line` and `column` of `json`, whose own text is `text`:
/// `Json Error: <text>: <context>` for UTF-8 input, `InvalidJson: <text>` otherwise.
pub open spec fn serde_message(json: Seq<u8>, line: usize, column: usize, text: Seq<char>) -> Seq<char> {
    if utf8_decoded(json) is Some {
        "Json Error: "@ + text + ": "@ + json_context_text(json, line, column)
    } else {
        "InvalidJson: "@ + text
    }
}

impl FlowError {
    /// An invalid-JSON error from a `serde_json` error on `json_bytes`, whose message shows the
    /// line of the input where the error was detected, marked at its column. The line, column and
    /// text of the `serde_json` error are whatever it reports.
    pub fn from_serde(e: serde_json::Error, json_bytes: &[u8]) -> (r: FlowError)
        ensures
            r.kind == ErrorKind::Category(ErrorCategory::InvalidJson),
            r.locations() == Seq::<CodeLocation>::empty(),
            exists|line: usize, column: usize, text: Seq<char>|
                r.message@ == #[trigger] serde_message(json_bytes@, line, column, text),
    {
        let line = json_error_line(&e);
        let column = json_error_column(&e);
        let text = json_error_text(&e);
        let mut message = String::new();
        match json_error_context(json_bytes, line, column) {
            Some(context) => {
                message.append("Json Error: ");
                message.append(text.as_str());
                message.append(": ");
                message.append(context.as_str());
            },
            None => {
                message.append("InvalidJson: ");
                message.append(text.as_str());
            },
        }
        proof {
            assert(message@ =~= serde_message(json_bytes@, line, column, text@));
        }
        FlowError { kind: ErrorKind::Category(ErrorCategory::InvalidJson), message, at: stack_new() }
    }
}

/// Calls `std::io::Error::kind` and compares the kind with `InvalidInput`. The error is opaque
/// here, so nothing is stated of the answer.
#[verifier::external_body]
fn io_error_is_invalid_input(e: &std::io::Error) -> bool {
    e.kind() == std::io::ErrorKind::InvalidInput
}

/// The `Debug` text of an I/O error. Nothing is stated of it.
#[verifier::external_body]
fn io_error_debug_text(e: &std::io::Error) -> String {
    format!("{:?}", e)
}

impl FlowError {
    /// The error for a codec's failed I/O: `InternalError` where the I/O error says the codec was
    /// given invalid input, `io_kind` otherwise; the I/O error's text is the message.
    pub fn from_io_failure(invalid_input: bool, io_kind: ErrorKind, text: String) -> (r: FlowError)
        ensures
            r.kind == (if invalid_input { ErrorKind::InternalError } else { io_kind }),
            r.message@ == text@,
            r.locations() == Seq::<CodeLocation>::empty(),
    {
        let kind = if invalid_input { ErrorKind::InternalError } else { io_kind };
        FlowError::without_location(kind, text)
    }

    /// The error for a decoder's failed I/O: `InternalError` for invalid input, `DecodingIoError`
    /// otherwise, with the I/O error's text.
    pub fn from_decoder(e: std::io::Error) -> (r: FlowError)
        ensures
            r.kind == ErrorKind::InternalError || r.kind == ErrorKind::DecodingIoError,
            r.locations() == Seq::<CodeLocation>::empty(),
    {
        let invalid_input = io_error_is_invalid_input(&e);
        FlowError::from_io_failure(invalid_input, ErrorKind::DecodingIoError, io_error_debug_text(&e))
    }

    /// The error for an encoder's failed I/O: `InternalError` for invalid input, `EncodingIoError`
    /// otherwise, with the I/O error's text.
    pub fn from_encoder(e: std::io::Error) -> (r: FlowError)
        ensures
            r.kind == ErrorKind::InternalError || r.kind == ErrorKind::EncodingIoError,
            r.locations() == Seq::<CodeLocation>::empty(),
    {
        let invalid_input = io_error_is_invalid_input(&e);
        FlowError::from_io_failure(invalid_input, ErrorKind::EncodingIoError, io_error_debug_text(&e))
    }
}

/// Each location as `file:line:col` followed by a newline.
pub open spec fn locations_text(locs: Seq<CodeLocation>) -> Seq<char>
    decreases locs.len(),
{
    if locs.len() == 0 {
        Seq::empty()
    } else {
        locations_text(locs.drop_last()) + location_text(locs.last()) + "\n"@
    }
}

impl CategorizedError for FlowError {
    open spec fn spec_category(&self) -> ErrorCategory {
        kind_category(self.kind)
    }

    fn category(&self) -> (c: ErrorCategory) {
        self.kind.category()
    }
}

} // verus!
