//! Character-level dissection of the request bytes: lossy decoding, the first
//! line, and its whitespace-delimited tokens.

use vstd::prelude::*;
use vstd::string::StrSliceExecFns;
use vstd::string::StringExecFns;

verus! {

/// What `String::from_utf8_lossy` returns for the given bytes: the result
/// depends on the bytes alone.
pub uninterp spec fn lossy_utf8(b: Seq<u8>) -> Seq<char>;

/// Relies on std's `String::from_utf8_lossy`: decodes the bytes as UTF-8,
/// substituting the replacement character for invalid sequences; the result
/// is a function of the bytes alone.
#[verifier::external_body]
pub(crate) fn lossy_decode(b: &[u8]) -> (r: String)
    ensures
        r@ == lossy_utf8(b@),
{
    String::from_utf8_lossy(b).into_owned()
}

/// The view of an optional owned string.
pub open spec fn opt_str_view(o: Option<String>) -> Option<Seq<char>> {
    match o {
        Option::Some(s) => Option::Some(s@),
        Option::None => Option::None,
    }
}

/// Whitespace as the host language's `char::is_whitespace` has it: the
/// Unicode `White_Space` code points.
pub open spec fn is_space_char(c: char) -> bool {
    let u = c as u32;
    ||| u == 0x09
    ||| u == 0x0A
    ||| u == 0x0B
    ||| u == 0x0C
    ||| u == 0x0D
    ||| u == 0x20
    ||| u == 0x85
    ||| u == 0xA0
    ||| u == 0x1680
    ||| (0x2000 <= u && u <= 0x200A)
    ||| u == 0x2028
    ||| u == 0x2029
    ||| u == 0x202F
    ||| u == 0x205F
    ||| u == 0x3000
}

/// Executable test for `is_space_char`.
pub fn is_space(c: char) -> (r: bool)
    ensures
        r == is_space_char(c),
{
    let u = c as u32;
    u == 0x09 || u == 0x0A || u == 0x0B || u == 0x0C || u == 0x0D || u == 0x20 || u == 0x85
        || u == 0xA0 || u == 0x1680 || (0x2000 <= u && u <= 0x200A) || u == 0x2028 || u == 0x2029
        || u == 0x202F || u == 0x205F || u == 0x3000
}

/// First position at or after `from` whose character's spaceness equals `ws`
/// (the length of `s` when there is none).
pub open spec fn seek(s: Seq<char>, from: nat, ws: bool) -> nat
    decreases s.len() - from
        when from <= s.len()
{
    if from >= s.len() {
        s.len()
    } else if is_space_char(s[from as int]) == ws {
        from
    } else {
        seek(s, from + 1, ws)
    }
}

/// What characterizes `seek`: everything before it misses, and it hits when
/// inside the sequence.
pub proof fn lemma_seek(s: Seq<char>, from: nat, ws: bool)
    requires
        from <= s.len(),
    ensures
        from <= seek(s, from, ws) <= s.len(),
        forall|j: int| from <= j < seek(s, from, ws) ==> is_space_char(s[j]) != ws,
        seek(s, from, ws) < s.len() ==> is_space_char(s[seek(s, from, ws) as int]) == ws,
    decreases s.len() - from,
{
    if from < s.len() && is_space_char(s[from as int]) != ws {
        lemma_seek(s, from + 1, ws);
    }
}

/// Scan forward from `from` for the first character whose spaceness is `ws`.
fn seek_exec(s: &str, len: usize, from: usize, ws: bool) -> (r: usize)
    requires
        len == s@.len(),
        from <= len,
    ensures
        r == seek(s@, from as nat, ws),
        from <= r <= len,
{
    let mut i: usize = from;
    loop
        invariant
            from <= i <= len,
            len == s@.len(),
            forall|j: int| from <= j < i ==> is_space_char(s@[j]) != ws,
        decreases len - i,
    {
        proof {
            lemma_seek(s@, from as nat, ws);
        }
        if i == len {
            assert(seek(s@, from as nat, ws) == i);
            return i;
        }
        let c = s.get_char(i);
        if is_space(c) == ws {
            assert(seek(s@, from as nat, ws) == i);
            return i;
        }
        i = i + 1;
    }
}

/// First position at or after `from` holding a newline (the length of `s`
/// when there is none).
pub open spec fn find_nl(s: Seq<char>, from: nat) -> nat
    decreases s.len() - from
        when from <= s.len()
{
    if from >= s.len() {
        s.len()
    } else if s[from as int] == '\n' {
        from
    } else {
        find_nl(s, from + 1)
    }
}

/// What characterizes `find_nl`: no newline before it, a newline at it when
/// inside the sequence.
pub proof fn lemma_find_nl(s: Seq<char>, from: nat)
    requires
        from <= s.len(),
    ensures
        from <= find_nl(s, from) <= s.len(),
        forall|j: int| from <= j < find_nl(s, from) ==> s[j] != '\n',
        find_nl(s, from) < s.len() ==> s[find_nl(s, from) as int] == '\n',
    decreases s.len() - from,
{
    if from < s.len() && s[from as int] != '\n' {
        lemma_find_nl(s, from + 1);
    }
}

/// Scan forward from `from` for the first newline.
fn find_nl_exec(s: &str, len: usize, from: usize) -> (r: usize)
    requires
        len == s@.len(),
        from <= len,
    ensures
        r == find_nl(s@, from as nat),
        from <= r <= len,
{
    let mut i: usize = from;
    loop
        invariant
            from <= i <= len,
            len == s@.len(),
            forall|j: int| from <= j < i ==> s@[j] != '\n',
        decreases len - i,
    {
        proof {
            lemma_find_nl(s@, from as nat);
        }
        if i == len {
            assert(find_nl(s@, from as nat) == i);
            return i;
        }
        let c = s.get_char(i);
        if c == '\n' {
            assert(find_nl(s@, from as nat) == i);
            return i;
        }
        i = i + 1;
    }
}

/// The first line of the decoded request: everything before the first
/// newline, with a carriage return stripped when a newline follows it.
pub open spec fn first_line(s: Seq<char>) -> Seq<char> {
    let e = find_nl(s, 0);
    if e < s.len() && e > 0 && s[e - 1] == '\r' {
        s.subrange(0, e - 1)
    } else {
        s.subrange(0, e as int)
    }
}

/// The second whitespace-delimited token of `line`, when the line has at
/// least two.
pub open spec fn second_token(line: Seq<char>) -> Option<Seq<char>> {
    let a = seek(line, 0, false);
    let b = seek(line, a, true);
    let c = seek(line, b, false);
    let d = seek(line, c, true);
    if c < line.len() {
        Option::Some(line.subrange(c as int, d as int))
    } else {
        Option::None
    }
}

/// Extract the request target: the second whitespace-delimited token of the
/// request's first line.
pub fn request_target(s: &str) -> (r: Option<String>)
    ensures
        opt_str_view(r) == second_token(first_line(s@)),
{
    let len = s.unicode_len();
    let e = find_nl_exec(s, len, 0);
    proof {
        lemma_find_nl(s@, 0);
    }
    let line_end: usize = if e < len && e > 0 && s.get_char(e - 1) == '\r' {
        e - 1
    } else {
        e
    };
    let line = s.substring_char(0, line_end);
    proof {
        assert(line@ =~= first_line(s@));
    }
    let llen = line.unicode_len();
    let a = seek_exec(line, llen, 0, false);
    let b = seek_exec(line, llen, a, true);
    let c = seek_exec(line, llen, b, false);
    let d = seek_exec(line, llen, c, true);
    if c < llen {
        let t = line.substring_char(c, d);
        Some(String::from_str(t))
    } else {
        None
    }
}

} // verus!
