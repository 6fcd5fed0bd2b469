//! Small executable helpers on strings and characters that the rest of the
//! library builds on: comparison, scanning and character-level construction.
use vstd::prelude::*;

verus! {

/// Compares two string slices character by character.
pub fn str_eq(a: &str, b: &str) -> (r: bool)
    ensures
        r == (a@ == b@),
{
    let alen = a.unicode_len();
    let blen = b.unicode_len();
    if alen != blen {
        proof {
            assert(a@.len() != b@.len());
        }
        return false;
    }
    let mut i: usize = 0;
    while i < alen
        invariant
            alen == a@.len(),
            blen == b@.len(),
            alen == blen,
            i <= alen,
            forall|j: int| 0 <= j < i ==> a@[j] == b@[j],
        decreases alen - i,
    {
        if a.get_char(i) != b.get_char(i) {
            return false;
        }
        i = i + 1;
    }
    proof {
        assert(a@ =~= b@);
    }
    true
}

/// Relies on String::push from std: appends exactly one character.
#[verifier::external_body]
pub fn push_char(s: &mut String, c: char)
    ensures
        final(s)@ == old(s)@.push(c),
{
    s.push(c);
}

/// Whether a sequence of characters contains the given character.
pub open spec fn seq_contains_char(s: Seq<char>, c: char) -> bool {
    exists|i: int| 0 <= i < s.len() && s[i] == c
}

/// Scans a string slice for a character.
pub fn str_contains_char(s: &str, c: char) -> (r: bool)
    ensures
        r == seq_contains_char(s@, c),
{
    let len = s.unicode_len();
    let mut i: usize = 0;
    while i < len
        invariant
            len == s@.len(),
            i <= len,
            forall|j: int| 0 <= j < i ==> s@[j] != c,
        decreases len - i,
    {
        if s.get_char(i) == c {
            return true;
        }
        i = i + 1;
    }
    false
}

/// A string value that can sit on one line of the configuration file.
pub open spec fn line_free(s: Seq<char>) -> bool {
    !seq_contains_char(s, '\n')
}

/// Copies a string slice into an owned string.
pub fn str_to_string(s: &str) -> (r: String)
    ensures
        r@ == s@,
{
    let mut out = String::new();
    out.append(s);
    out
}

/// The position of the first line break at or after `from`, or the length.
pub open spec fn line_end(s: Seq<char>, from: int) -> int
    decreases s.len() - from,
{
    if from < 0 || from >= s.len() {
        s.len() as int
    } else if s[from] == '\n' {
        from
    } else {
        line_end(s, from + 1)
    }
}

/// `line_end` finds exactly the first line break.
pub proof fn lemma_line_end_at(s: Seq<char>, from: int, k: int)
    requires
        0 <= from <= k <= s.len(),
        forall|j: int| from <= j < k ==> s[j] != '\n',
        k == s.len() || s[k] == '\n',
    ensures
        line_end(s, from) == k,
    decreases k - from,
{
    if from < k {
        lemma_line_end_at(s, from + 1, k);
    }
}

/// Whether `prefix` occurs in `s` at position `from`.
pub open spec fn starts_with(s: Seq<char>, from: int, prefix: Seq<char>) -> bool {
    &&& 0 <= from
    &&& from + prefix.len() <= s.len()
    &&& s.subrange(from, from + prefix.len()) == prefix
}

/// Whether `prefix` occurs in `s` at character position `pos`.
pub fn starts_at(s: &str, pos: usize, prefix: &str) -> (r: bool)
    requires
        pos <= s@.len(),
    ensures
        r == starts_with(s@, pos as int, prefix@),
{
    let n = s.unicode_len();
    let plen = prefix.unicode_len();
    if plen > n - pos {
        return false;
    }
    let mut j: usize = 0;
    while j < plen
        invariant
            n == s@.len(),
            plen == prefix@.len(),
            pos + plen <= n,
            j <= plen,
            forall|t: int| 0 <= t < j ==> s@[pos + t] == prefix@[t],
        decreases plen - j,
    {
        if s.get_char(pos + j) != prefix.get_char(j) {
            proof {
                assert(s@.subrange(pos as int, pos + plen)[j as int] == s@[pos + j]);
            }
            return false;
        }
        j = j + 1;
    }
    proof {
        assert(s@.subrange(pos as int, pos + plen) =~= prefix@);
    }
    true
}

/// Reads the value part of a line: the characters up to the next line break.
pub fn read_line_value(s: &str, pos: usize) -> (r: (String, usize))
    requires
        pos <= s@.len(),
    ensures
        r.1 == line_end(s@, pos as int),
        r.0@ == s@.subrange(pos as int, r.1 as int),
        pos <= r.1 <= s@.len(),
    {
    let n = s.unicode_len();
    let mut j: usize = pos;
    let mut value = String::new();
    while j < n && s.get_char(j) != '\n'
        invariant
            n == s@.len(),
            pos <= j <= n,
            forall|t: int| pos <= t < j ==> s@[t] != '\n',
            value@ == s@.subrange(pos as int, j as int),
        decreases n - j,
    {
        let c = s.get_char(j);
        crate::strutil::push_char(&mut value, c);
        proof {
            assert(value@ =~= s@.subrange(pos as int, j + 1));
        }
        j = j + 1;
    }
    proof {
        if j < n {
            lemma_line_end_at(s@, pos as int, j as int);
        } else {
            lemma_line_end_at(s@, pos as int, n as int);
        }
    }
    (value, j)
}

/// The decimal digits of `n`, most significant first.
pub open spec fn dec_rep(n: nat) -> Seq<char>
    decreases n,
{
    if n < 10 {
        seq![((48 + n) as u8) as char]
    } else {
        dec_rep(n / 10).push(((48 + n % 10) as u8) as char)
    }
}

/// Renders a number in decimal.
pub fn usize_to_string(n: usize) -> (r: String)
    ensures
        r@ == dec_rep(n as nat),
    decreases n,
{
    if n < 10 {
        let mut s = String::new();
        let d: u8 = 48 + (n as u8);
        push_char(&mut s, d as char);
        proof {
            assert(s@ =~= dec_rep(n as nat));
        }
        s
    } else {
        let mut s = usize_to_string(n / 10);
        let d: u8 = 48 + ((n % 10) as u8);
        push_char(&mut s, d as char);
        s
    }
}

} // verus!
