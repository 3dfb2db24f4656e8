//! The context shown with a JSON error: the line of the input where the error was detected,
//! with `>` marking the column.
use vstd::prelude::*;

verus! {

/// What `std::str::from_utf8` decodes the bytes to: the characters, or None when the bytes are
/// not UTF-8.
pub uninterp spec fn utf8_decoded(bytes: Seq<u8>) -> Option<Seq<char>>;

/// Calls `std::str::from_utf8`: the text the bytes encode, or None when they are not UTF-8.
#[verifier::external_body]
fn utf8_str(bytes: &[u8]) -> (r: Option<&str>)
    ensures
        r matches Some(s) ==> utf8_decoded(bytes@) == Some(s@),
        r is None ==> utf8_decoded(bytes@) is None,
{
    std::str::from_utf8(bytes).ok()
}

/// The position of the first newline byte at or after `from`, or the length when there is none.
pub open spec fn next_newline(b: Seq<u8>, from: int) -> int
    decreases b.len() - from,
{
    if from < 0 || from >= b.len() {
        b.len() as int
    } else if b[from] == 10 {
        from
    } else {
        next_newline(b, from + 1)
    }
}

/// Where line `n` (counted from 0) of `b` starts, if there is such a line: a line ends at a
/// newline, and a newline at the very end starts no further line.
pub open spec fn line_start(b: Seq<u8>, n: nat) -> Option<int>
    decreases n,
{
    if n == 0 {
        if b.len() > 0 { Some(0int) } else { None }
    } else {
        match line_start(b, (n - 1) as nat) {
            Some(s) => {
                let e = next_newline(b, s);
                if e + 1 < b.len() { Some(e + 1) } else { None }
            },
            None => None,
        }
    }
}

/// Line `n` of `b` without its ending: a newline, or a carriage return and a newline (the last
/// line keeps a carriage return that no newline follows).
pub open spec fn nth_line(b: Seq<u8>, n: nat) -> Option<Seq<u8>> {
    match line_start(b, n) {
        Some(s) => {
            let e = next_newline(b, s);
            if e < b.len() && e > s && b[e - 1] == 13 {
                Some(b.subrange(s, e - 1))
            } else {
                Some(b.subrange(s, e))
            }
        },
        None => None,
    }
}

/// A byte that continues a multi-byte UTF-8 character.
pub open spec fn is_continuation(v: u8) -> bool {
    128 <= v < 192
}

/// The line with `>` inserted before byte `col`, when `col` lies within the line at the start of
/// a character; otherwise the line as it is.
pub open spec fn marked_line(line: Seq<u8>, col: int) -> Seq<u8> {
    if 0 <= col < line.len() && !is_continuation(line[col]) {
        line.take(col) + seq![62u8] + line.skip(col)
    } else {
        line
    }
}

/// The context of an error at the one-based `line` and `column` of `json`: that line marked at
/// the column, or a note that the line is not there. (A line or column of 0 counts from the
/// largest index, and so finds no line or no column.)
pub open spec fn json_context_text(json: Seq<u8>, line: usize, column: usize) -> Seq<char> {
    let line_ix: nat = if line == 0 { usize::MAX as nat } else { (line - 1) as nat };
    let col_ix: int = if column == 0 { usize::MAX as int } else { column - 1 };
    match nth_line(json, line_ix) {
        Some(l) => match utf8_decoded(marked_line(l, col_ix)) {
            Some(t) => t,
            None => Seq::empty(),
        },
        None => "[input line not found]"@,
    }
}

/// Once line `m` is missing, so is every later line.
proof fn lemma_no_line_after(b: Seq<u8>, m: nat, n: nat)
    requires
        line_start(b, m) is None,
        m <= n,
    ensures
        line_start(b, n) is None,
    decreases n - m,
{
    if m < n {
        lemma_no_line_after(b, m, (n - 1) as nat);
    }
}

/// The position of the first newline at or after `from`.
fn find_newline(b: &[u8], from: usize) -> (r: usize)
    requires
        from <= b@.len(),
    ensures
        r == next_newline(b@, from as int),
        from <= r <= b@.len(),
{
    let len = b.len();
    let mut i = from;
    while i < len && b[i] != 10
        invariant
            len == b@.len(),
            from <= i <= len,
            next_newline(b@, i as int) == next_newline(b@, from as int),
        decreases len - i,
    {
        i = i + 1;
    }
    i
}

/// Where line `n` starts and where its newline (or the end) lies.
fn find_line(b: &[u8], n: usize) -> (r: Option<(usize, usize)>)
    ensures
        r matches Some(p) ==> line_start(b@, n as nat) == Some(p.0 as int) && p.1 == next_newline(b@, p.0 as int)
            && p.0 <= p.1 <= b@.len(),
        r is None ==> line_start(b@, n as nat) is None,
{
    let len = b.len();
    if len == 0 {
        proof {
            lemma_no_line_after(b@, 0, n as nat);
        }
        return None;
    }
    let mut start: usize = 0;
    let mut k: usize = 0;
    while k < n
        invariant
            len == b@.len(),
            k <= n,
            start <= len,
            line_start(b@, k as nat) == Some(start as int),
        decreases n - k,
    {
        let e = find_newline(b, start);
        if e < len - 1 {
            start = e + 1;
            k = k + 1;
        } else {
            proof {
                lemma_no_line_after(b@, (k + 1) as nat, n as nat);
            }
            return None;
        }
    }
    let e = find_newline(b, start);
    Some((start, e))
}

/// Appends bytes `from..to` of `b` to `v`.
fn push_range(v: &mut Vec<u8>, b: &[u8], from: usize, to: usize)
    requires
        from <= to <= b@.len(),
    ensures
        final(v)@ == old(v)@ + b@.subrange(from as int, to as int),
{
    let mut i = from;
    while i < to
        invariant
            from <= i <= to <= b@.len(),
            v@ == old(v)@ + b@.subrange(from as int, i as int),
        decreases to - i,
    {
        v.push(b[i]);
        proof {
            assert(b@.subrange(from as int, i + 1) =~= b@.subrange(from as int, i as int).push(b@[i as int]));
        }
        i = i + 1;
    }
}

/// The context of an error at the one-based `line` and `column` of `json`, as
/// `json_context_text` describes it; None when `json` is not UTF-8.
pub fn json_error_context(json: &[u8], line: usize, column: usize) -> (r: Option<String>)
    ensures
        utf8_decoded(json@) is None ==> r is None,
        utf8_decoded(json@) is Some ==> (r matches Some(t) && t@ == json_context_text(json@, line, column)),
{
    if utf8_str(json).is_none() {
        return None;
    }
    let line_ix: usize = if line == 0 { usize::MAX } else { line - 1 };
    let col_ix: usize = if column == 0 { usize::MAX } else { column - 1 };
    let len = json.len();
    match find_line(json, line_ix) {
        None => {
            let mut out = String::new();
            out.append("[input line not found]");
            Some(out)
        },
        Some((s, e)) => {
            let end = if e < len && e > s && json[e - 1] == 13 { e - 1 } else { e };
            let ghost l = json@.subrange(s as int, end as int);
            let mut v: Vec<u8> = Vec::new();
            if col_ix < end - s && !(128 <= json[s + col_ix] && json[s + col_ix] < 192) {
                push_range(&mut v, json, s, s + col_ix);
                v.push(62);
                push_range(&mut v, json, s + col_ix, end);
                proof {
                    assert(l.take(col_ix as int) =~= json@.subrange(s as int, (s + col_ix) as int));
                    assert(l.skip(col_ix as int) =~= json@.subrange((s + col_ix) as int, end as int));
                    assert(v@ =~= marked_line(l, col_ix as int));
                }
            } else {
                push_range(&mut v, json, s, end);
                proof {
                    assert(v@ =~= marked_line(l, col_ix as int));
                }
            }
            let mut out = String::new();
            match utf8_str(v.as_slice()) {
                Some(t) => {
                    out.append(t);
                },
                None => {},
            }
            Some(out)
        },
    }
}

} // verus!
