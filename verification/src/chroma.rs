//! ANSI text styling. Each style wraps its text in an opening and a closing
//! code; where the text already carries the closing code, its first occurrence
//! is rewritten so the style resumes instead of ending early.
use crate::strutil::{starts_at, starts_with};
use vstd::prelude::*;

verus! {

/// The first position at or after `from` where `pat` occurs in `s`, or the
/// length when it occurs nowhere.
pub open spec fn find_at(s: Seq<char>, pat: Seq<char>, from: int) -> int
    decreases s.len() - from,
{
    if from < 0 || from > s.len() {
        s.len() as int
    } else if starts_with(s, from, pat) {
        from
    } else if from == s.len() {
        s.len() as int
    } else {
        find_at(s, pat, from + 1)
    }
}

/// What wrapping `input` in `open` and `close` yields: the first occurrence
/// of `close` inside the text, if any, is replaced by `repl`.
pub open spec fn formatter_spec(
    open: Seq<char>,
    close: Seq<char>,
    repl: Seq<char>,
    input: Seq<char>,
) -> Seq<char> {
    let i = find_at(input, close, 0);
    if i < input.len() {
        open + input.subrange(0, i) + repl + input.subrange(i + close.len(), input.len() as int)
            + close
    } else {
        open + input + close
    }
}

/// `find_at` finds no occurrence before its result.
proof fn lemma_find_at_first(s: Seq<char>, pat: Seq<char>, from: int, k: int)
    requires
        0 <= from <= k <= s.len(),
        forall|j: int| from <= j < k ==> !starts_with(s, j, pat),
        k == s.len() || starts_with(s, k, pat),
    ensures
        find_at(s, pat, from) == k,
    decreases k - from,
{
    if from < k {
        lemma_find_at_first(s, pat, from + 1, k);
    }
}

/// Finds the first occurrence of `pat` in `s`, as `find_at` describes it.
fn find_sub(s: &str, pat: &str) -> (r: usize)
    ensures
        r == find_at(s@, pat@, 0),
        r <= s@.len(),
        r < s@.len() ==> starts_with(s@, r as int, pat@),
{
    let n = s.unicode_len();
    let mut i: usize = 0;
    while i < n
        invariant
            n == s@.len(),
            i <= n,
            forall|j: int| 0 <= j < i ==> !starts_with(s@, j, pat@),
        decreases n - i,
    {
        if starts_at(s, i, pat) {
            proof {
                lemma_find_at_first(s@, pat@, 0, i as int);
            }
            return i;
        }
        i = i + 1;
    }
    proof {
        lemma_find_at_first(s@, pat@, 0, n as int);
    }
    n
}

/// A styling handle, carrying whether the terminal takes color at all.
/// Deciding that is the surrounding program's concern; the handle is built
/// from the answer.
pub struct Chroma {
    is_color_supported: bool,
}

impl Chroma {
    /// A handle for a terminal whose color support is already known.
    pub fn new(is_color_supported: bool) -> (r: Self)
        ensures
            r.color_supported() == is_color_supported,
    {
        Self { is_color_supported }
    }

    /// Whether this handle colors at all.
    pub closed spec fn color_supported(&self) -> bool {
        self.is_color_supported
    }

    /// A handle with the same color support.
    pub fn create_colors(&self) -> (r: Self)
        ensures
            r.color_supported() == self.color_supported(),
    {
        let enabled = self.is_color_supported;
        Self { is_color_supported: enabled }
    }

    /// Wraps `input` in `open` and `close`, rewriting the first occurrence of
    /// `close` inside the text to `replace` (or to `close` itself when no
    /// rewrite is given) so the style resumes there.
    pub fn formatter(&self, open: &str, close: &str, replace: Option<&str>, input: &str) -> (r:
        String)
        ensures
            r@ == formatter_spec(
                open@,
                close@,
                match replace {
                    Some(rep) => rep@,
                    None => close@,
                },
                input@,
            ),
    {
        let repl: &str = match replace {
            Some(rep) => rep,
            None => close,
        };
        let n = s_len(input);
        let i = find_sub(input, close);
        let mut out = String::new();
        out.append(open);
        if i < n {
            let clen = s_len(close);
            let pre = input.substring_char(0, i);
            out.append(pre);
            out.append(repl);
            let post = input.substring_char(i + clen, n);
            out.append(post);
            out.append(close);
            proof {
                assert(out@ =~= formatter_spec(
                    open@,
                    close@,
                    match replace {
                        Some(rep) => rep@,
                        None => close@,
                    },
                    input@,
                ));
            }
        } else {
            out.append(input);
            out.append(close);
            proof {
                assert(out@ =~= formatter_spec(
                    open@,
                    close@,
                    match replace {
                        Some(rep) => rep@,
                        None => close@,
                    },
                    input@,
                ));
            }
        }
        out
    }

    /// Resets all styling around `s` when color is supported; hands the text
    /// back untouched otherwise.
    pub fn reset(&self, s: &str) -> (r: String)
        ensures
            self.color_supported() ==> r@ == "\u{1b}[0m"@ + s@ + "\u{1b}[0m"@ + "\u{1b}[0m"@,
            !self.color_supported() ==> r@ == s@,
    {
        if self.is_color_supported {
            let mut out = String::new();
            out.append("\u{1b}[0m");
            out.append(s);
            out.append("\u{1b}[0m");
            out.append("\u{1b}[0m");
            proof {
                assert(out@ =~= "\u{1b}[0m"@ + s@ + "\u{1b}[0m"@ + "\u{1b}[0m"@);
            }
            out
        } else {
            crate::strutil::str_to_string(s)
        }
    }

    pub fn bold(&self, s: &str) -> (r: String)
        ensures
            r@ == formatter_spec("\u{1b}[1m"@, "\u{1b}[22m"@, "\u{1b}[22m\u{1b}[1m"@, s@),
    {
        self.formatter("\u{1b}[1m", "\u{1b}[22m", Some("\u{1b}[22m\u{1b}[1m"), s)
    }

    pub fn dim(&self, s: &str) -> (r: String)
        ensures
            r@ == formatter_spec("\u{1b}[2m"@, "\u{1b}[22m"@, "\u{1b}[22m\u{1b}[2m"@, s@),
    {
        self.formatter("\u{1b}[2m", "\u{1b}[22m", Some("\u{1b}[22m\u{1b}[2m"), s)
    }

    pub fn italic(&self, s: &str) -> (r: String)
        ensures
            r@ == formatter_spec("\u{1b}[3m"@, "\u{1b}[23m"@, "\u{1b}[23m"@, s@),
    {
        self.formatter("\u{1b}[3m", "\u{1b}[23m", None, s)
    }

    pub fn underline(&self, s: &str) -> (r: String)
        ensures
            r@ == formatter_spec("\u{1b}[4m"@, "\u{1b}[24m"@, "\u{1b}[24m"@, s@),
    {
        self.formatter("\u{1b}[4m", "\u{1b}[24m", None, s)
    }

    pub fn inverse(&self, s: &str) -> (r: String)
        ensures
            r@ == formatter_spec("\u{1b}[7m"@, "\u{1b}[27m"@, "\u{1b}[27m"@, s@),
    {
        self.formatter("\u{1b}[7m", "\u{1b}[27m", None, s)
    }

    pub fn hidden(&self, s: &str) -> (r: String)
        ensures
            r@ == formatter_spec("\u{1b}[8m"@, "\u{1b}[28m"@, "\u{1b}[28m"@, s@),
    {
        self.formatter("\u{1b}[8m", "\u{1b}[28m", None, s)
    }

    pub fn strikethrough(&self, s: &str) -> (r: String)
        ensures
            r@ == formatter_spec("\u{1b}[9m"@, "\u{1b}[29m"@, "\u{1b}[29m"@, s@),
    {
        self.formatter("\u{1b}[9m", "\u{1b}[29m", None, s)
    }

    pub fn black(&self, s: &str) -> (r: String)
        ensures
            r@ == formatter_spec("\u{1b}[30m"@, "\u{1b}[39m"@, "\u{1b}[39m"@, s@),
    {
        self.formatter("\u{1b}[30m", "\u{1b}[39m", None, s)
    }

    pub fn red(&self, s: &str) -> (r: String)
        ensures
            r@ == formatter_spec("\u{1b}[31m"@, "\u{1b}[39m"@, "\u{1b}[39m"@, s@),
    {
        self.formatter("\u{1b}[31m", "\u{1b}[39m", None, s)
    }

    pub fn green(&self, s: &str) -> (r: String)
        ensures
            r@ == formatter_spec("\u{1b}[32m"@, "\u{1b}[39m"@, "\u{1b}[39m"@, s@),
    {
        self.formatter("\u{1b}[32m", "\u{1b}[39m", None, s)
    }

    pub fn yellow(&self, s: &str) -> (r: String)
        ensures
            r@ == formatter_spec("\u{1b}[33m"@, "\u{1b}[39m"@, "\u{1b}[39m"@, s@),
    {
        self.formatter("\u{1b}[33m", "\u{1b}[39m", None, s)
    }

    pub fn blue(&self, s: &str) -> (r: String)
        ensures
            r@ == formatter_spec("\u{1b}[34m"@, "\u{1b}[39m"@, "\u{1b}[39m"@, s@),
    {
        self.formatter("\u{1b}[34m", "\u{1b}[39m", None, s)
    }

    pub fn magenta(&self, s: &str) -> (r: String)
        ensures
            r@ == formatter_spec("\u{1b}[35m"@, "\u{1b}[39m"@, "\u{1b}[39m"@, s@),
    {
        self.formatter("\u{1b}[35m", "\u{1b}[39m", None, s)
    }

    pub fn cyan(&self, s: &str) -> (r: String)
        ensures
            r@ == formatter_spec("\u{1b}[36m"@, "\u{1b}[39m"@, "\u{1b}[39m"@, s@),
    {
        self.formatter("\u{1b}[36m", "\u{1b}[39m", None, s)
    }

    pub fn white(&self, s: &str) -> (r: String)
        ensures
            r@ == formatter_spec("\u{1b}[37m"@, "\u{1b}[39m"@, "\u{1b}[39m"@, s@),
    {
        self.formatter("\u{1b}[37m", "\u{1b}[39m", None, s)
    }

    pub fn gray(&self, s: &str) -> (r: String)
        ensures
            r@ == formatter_spec("\u{1b}[90m"@, "\u{1b}[39m"@, "\u{1b}[39m"@, s@),
    {
        self.formatter("\u{1b}[90m", "\u{1b}[39m", None, s)
    }

    pub fn bg_black(&self, s: &str) -> (r: String)
        ensures
            r@ == formatter_spec("\u{1b}[40m"@, "\u{1b}[49m"@, "\u{1b}[49m"@, s@),
    {
        self.formatter("\u{1b}[40m", "\u{1b}[49m", None, s)
    }

    pub fn bg_red(&self, s: &str) -> (r: String)
        ensures
            r@ == formatter_spec("\u{1b}[41m"@, "\u{1b}[49m"@, "\u{1b}[49m"@, s@),
    {
        self.formatter("\u{1b}[41m", "\u{1b}[49m", None, s)
    }

    pub fn bg_green(&self, s: &str) -> (r: String)
        ensures
            r@ == formatter_spec("\u{1b}[42m"@, "\u{1b}[49m"@, "\u{1b}[49m"@, s@),
    {
        self.formatter("\u{1b}[42m", "\u{1b}[49m", None, s)
    }

    pub fn bg_yellow(&self, s: &str) -> (r: String)
        ensures
            r@ == formatter_spec("\u{1b}[43m"@, "\u{1b}[49m"@, "\u{1b}[49m"@, s@),
    {
        self.formatter("\u{1b}[43m", "\u{1b}[49m", None, s)
    }

    pub fn bg_blue(&self, s: &str) -> (r: String)
        ensures
            r@ == formatter_spec("\u{1b}[44m"@, "\u{1b}[49m"@, "\u{1b}[49m"@, s@),
    {
        self.formatter("\u{1b}[44m", "\u{1b}[49m", None, s)
    }

    pub fn bg_magenta(&self, s: &str) -> (r: String)
        ensures
            r@ == formatter_spec("\u{1b}[45m"@, "\u{1b}[49m"@, "\u{1b}[49m"@, s@),
    {
        self.formatter("\u{1b}[45m", "\u{1b}[49m", None, s)
    }

    pub fn bg_cyan(&self, s: &str) -> (r: String)
        ensures
            r@ == formatter_spec("\u{1b}[46m"@, "\u{1b}[49m"@, "\u{1b}[49m"@, s@),
    {
        self.formatter("\u{1b}[46m", "\u{1b}[49m", None, s)
    }

    pub fn bg_white(&self, s: &str) -> (r: String)
        ensures
            r@ == formatter_spec("\u{1b}[47m"@, "\u{1b}[49m"@, "\u{1b}[49m"@, s@),
    {
        self.formatter("\u{1b}[47m", "\u{1b}[49m", None, s)
    }
}

/// The character length of a string slice.
fn s_len(s: &str) -> (r: usize)
    ensures
        r == s@.len(),
{
    s.unicode_len()
}

} // verus!
