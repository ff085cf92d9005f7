//! Small operations on text that the parsers and the method table share.

use vstd::prelude::*;
use vstd::string::StrSliceExecFns;
use vstd::string::StringExecFns;

verus! {

/// Place of the first character `mark` in `s` at or after `from`; the length
/// of `s` where there is none.
pub open spec fn next_mark(s: Seq<char>, mark: char, from: int) -> int
    decreases s.len() - from,
{
    if from >= s.len() {
        s.len() as int
    } else if s[from] == mark {
        from
    } else {
        next_mark(s, mark, from + 1)
    }
}

/// Where the piece of number `k` begins when `s` is cut at every colon. A
/// text has as many pieces as it has colons, and one more; for a `k` past
/// the last piece this lies beyond the end of `s`.
pub open spec fn piece_start(s: Seq<char>, k: nat) -> int
    decreases k,
{
    if k == 0 {
        0
    } else {
        next_mark(s, ':', piece_start(s, (k - 1) as nat)) + 1
    }
}

/// Whether `s`, cut at every colon, has a piece of number `k`.
pub open spec fn has_piece(s: Seq<char>, k: nat) -> bool {
    piece_start(s, k) <= s.len()
}

/// Where the piece of number `k` ends: at the next colon, or at the end.
pub open spec fn piece_end(s: Seq<char>, k: nat) -> int {
    next_mark(s, ':', piece_start(s, k))
}

/// The piece of number `k` of `s`, cut at every colon.
pub open spec fn piece(s: Seq<char>, k: nat) -> Seq<char> {
    s.subrange(piece_start(s, k), piece_end(s, k))
}

/// Tells whether two texts hold the same characters.
pub fn same_text(a: &str, b: &str) -> (out: bool)
    ensures
        out == (a@ == b@),
{
    let n = a.unicode_len();
    if n != b.unicode_len() {
        return false;
    }
    let mut i: usize = 0;
    while i < n
        invariant
            i <= n,
            n == a@.len(),
            n == b@.len(),
            forall|j: int| 0 <= j < i ==> a@[j] == b@[j],
        decreases n - i,
    {
        if a.get_char(i) != b.get_char(i) {
            return false;
        }
        i = i + 1;
    }
    assert(a@ =~= b@);
    true
}

/// The characters of a text, one by one.
pub fn chars_of(text: &str) -> (out: Vec<char>)
    ensures
        out@ == text@,
{
    let n = text.unicode_len();
    let mut chars: Vec<char> = Vec::new();
    let mut i: usize = 0;
    while i < n
        invariant
            i <= n,
            n == text@.len(),
            chars@ == text@.subrange(0, i as int),
        decreases n - i,
    {
        chars.push(text.get_char(i));
        assert(chars@ =~= text@.subrange(0, i + 1));
        i = i + 1;
    }
    assert(text@.subrange(0, n as int) =~= text@);
    chars
}

/// What `pieces_of` says of the piece of number `k`.
pub proof fn lemma_piece(pieces: Seq<&str>, s: Seq<char>, k: nat)
    requires
        pieces_of(pieces, s),
        k < pieces.len(),
    ensures
        has_piece(s, k),
        pieces[k as int]@ == piece(s, k),
{
    assert(has_piece(s, k));
}

/// The pieces of a text are numbered without a gap: where a piece is
/// missing, every later one is missing too.
pub proof fn lemma_no_later_piece(s: Seq<char>, k: nat, later: nat)
    requires
        !has_piece(s, k),
        k <= later,
    ensures
        !has_piece(s, later),
    decreases later - k,
{
    if k < later {
        lemma_no_later_piece(s, k, (later - 1) as nat);
    }
}

/// Place of the first `mark` in `chars` at or after `from`; the length of
/// `chars` where there is none.
pub fn find_from(chars: &Vec<char>, mark: char, from: usize) -> (out: usize)
    requires
        from <= chars@.len(),
    ensures
        from <= out <= chars@.len(),
        out == next_mark(chars@, mark, from as int),
{
    let mut i: usize = from;
    while i < chars.len()
        invariant
            from <= i <= chars@.len(),
            next_mark(chars@, mark, from as int) == next_mark(chars@, mark, i as int),
        decreases chars.len() - i,
    {
        if chars[i] == mark {
            return i;
        }
        i = i + 1;
    }
    i
}

/// Whether `pieces` are the first pieces of `s`, cut at every colon, in
/// order.
pub open spec fn pieces_of(pieces: Seq<&str>, s: Seq<char>) -> bool {
    forall|k: nat|
        #![trigger has_piece(s, k)]
        k < pieces.len() ==> has_piece(s, k) && pieces[k as int]@ == piece(s, k)
}

/// Cuts `input` at every colon. There is always a first piece; a colon at
/// the end is followed by an empty piece.
pub fn split_colons<'a>(input: &'a str) -> (out: Vec<&'a str>)
    ensures
        out@.len() >= 1,
        pieces_of(out@, input@),
        !has_piece(input@, out@.len()),
{
    let chars = chars_of(input);
    let len = chars.len();
    let mut pieces: Vec<&'a str> = Vec::new();
    let mut start: usize = 0;
    loop
        invariant_except_break
            start == piece_start(input@, pieces@.len()),
        invariant
            chars@ == input@,
            len == chars@.len(),
            start <= len,
            pieces_of(pieces@, input@),
        ensures
            pieces@.len() >= 1,
            !has_piece(input@, pieces@.len()),
        decreases len - start,
    {
        let end = find_from(&chars, ':', start);
        let ghost k = pieces@.len();
        let ghost before = pieces@;
        pieces.push(input.substring_char(start, end));
        proof {
            assert(piece_end(input@, k) == end);
            assert(pieces@[k as int]@ == piece(input@, k));
            assert(has_piece(input@, k));
            assert forall|j: nat|
                #![trigger has_piece(input@, j)]
                j < pieces@.len() implies has_piece(input@, j) && pieces@[j as int]@ == piece(
                input@,
                j,
            ) by {
                if j < k {
                    assert(has_piece(input@, j));
                    assert(pieces@[j as int] == before[j as int]);
                }
            }
            assert(piece_start(input@, k + 1) == end + 1);
        }
        if end == len {
            break;
        }
        start = end + 1;
    }
    pieces
}

/// The text `prefix`, then `part`, then ` (of `, `whole` and a closing
/// bracket: the form in which a part of an input is named that could not be
/// read.
pub open spec fn part_of_text(prefix: Seq<char>, part: Seq<char>, whole: Seq<char>) -> Seq<char> {
    prefix + part + " (of "@ + whole + ")"@
}

/// Names a part of an input that could not be read.
pub fn part_of(prefix: &str, part: &str, whole: &str) -> (out: String)
    ensures
        out@ == part_of_text(prefix@, part@, whole@),
{
    let mut text = String::from_str(prefix);
    text.append(part);
    text.append(" (of ");
    text.append(whole);
    text.append(")");
    text
}

/// The text `head` followed by `tail`.
pub fn join(head: &str, tail: &str) -> (out: String)
    ensures
        out@ == head@ + tail@,
{
    let mut text = String::from_str(head);
    text.append(tail);
    text
}

} // verus!
