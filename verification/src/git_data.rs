//! The plain-data side of the repository gateway: what comes back from the
//! version-control tool, and the computations the session makes on it. The
//! tool itself is driven by the surrounding program.
use crate::strutil::{line_end, read_line_value, starts_at, starts_with};
use vstd::prelude::*;

verus! {

/// What one commit summarizes to, for display.
pub struct CommitSummary {
    pub branch_name: String,
    pub commit_hash: String,
    pub author_name: String,
    pub author_email: String,
    pub commit_count: usize,
    pub files_changed: usize,
    pub insertions: usize,
    pub deletions: usize,
}

impl CommitSummary {
    /// The cell texts of the summary table, row by row: a heading and a value
    /// row for the branch and hash, the author and count, and the change
    /// figures.
    pub fn get_table(&self) -> (r: Vec<Vec<String>>)
        ensures
            r@.len() == 6,
            r@[0].deep_view() =~= seq!["Branch"@, "Commit Hash"@],
            r@[1].deep_view() =~= seq![self.branch_name@, self.commit_hash@],
            r@[2].deep_view() =~= seq!["Author"@, "Email"@, "Commit Count"@],
            r@[3].deep_view() =~= seq![
                self.author_name@,
                self.author_email@,
                crate::strutil::dec_rep(self.commit_count as nat),
            ],
            r@[4].deep_view() =~= seq!["Files Changed"@, "Insertions"@, "Deletions"@],
            r@[5].deep_view() =~= seq![
                crate::strutil::dec_rep(self.files_changed as nat),
                crate::strutil::dec_rep(self.insertions as nat),
                crate::strutil::dec_rep(self.deletions as nat),
            ],
    {
        let mut rows: Vec<Vec<String>> = Vec::new();
        let mut row: Vec<String> = Vec::new();
        row.push(crate::strutil::str_to_string("Branch"));
        row.push(crate::strutil::str_to_string("Commit Hash"));
        rows.push(row);
        let mut row: Vec<String> = Vec::new();
        row.push(self.branch_name.clone());
        row.push(self.commit_hash.clone());
        rows.push(row);
        let mut row: Vec<String> = Vec::new();
        row.push(crate::strutil::str_to_string("Author"));
        row.push(crate::strutil::str_to_string("Email"));
        row.push(crate::strutil::str_to_string("Commit Count"));
        rows.push(row);
        let mut row: Vec<String> = Vec::new();
        row.push(self.author_name.clone());
        row.push(self.author_email.clone());
        row.push(crate::strutil::usize_to_string(self.commit_count));
        rows.push(row);
        let mut row: Vec<String> = Vec::new();
        row.push(crate::strutil::str_to_string("Files Changed"));
        row.push(crate::strutil::str_to_string("Insertions"));
        row.push(crate::strutil::str_to_string("Deletions"));
        rows.push(row);
        let mut row: Vec<String> = Vec::new();
        row.push(crate::strutil::usize_to_string(self.files_changed));
        row.push(crate::strutil::usize_to_string(self.insertions));
        row.push(crate::strutil::usize_to_string(self.deletions));
        rows.push(row);
        rows
    }
}

/// The non-empty lines of `s` from `pos` on, in order.
pub open spec fn nonempty_lines_from(s: Seq<char>, pos: int) -> Seq<Seq<char>>
    decreases s.len() - pos,
{
    if pos < 0 || pos >= s.len() {
        Seq::<Seq<char>>::empty()
    } else {
        let e = line_end(s, pos);
        if pos <= e && e <= s.len() {
            let rest = if e < s.len() {
                nonempty_lines_from(s, e + 1)
            } else {
                Seq::<Seq<char>>::empty()
            };
            if e == pos {
                rest
            } else {
                seq![s.subrange(pos, e)] + rest
            }
        } else {
            Seq::<Seq<char>>::empty()
        }
    }
}

/// The non-empty lines of a whole listing.
pub open spec fn nonempty_lines(s: Seq<char>) -> Seq<Seq<char>> {
    nonempty_lines_from(s, 0)
}

/// Splits a file listing, one name per line, dropping empty lines.
pub fn parse_file_list(s: &str) -> (r: Vec<String>)
    ensures
        r.deep_view() == nonempty_lines(s@),
{
    let n = s.unicode_len();
    let mut out: Vec<String> = Vec::new();
    let mut pos: usize = 0;
    while pos < n
        invariant
            n == s@.len(),
            pos <= n,
            nonempty_lines(s@) == out.deep_view() + nonempty_lines_from(s@, pos as int),
        decreases n - pos,
    {
        let (value, e) = read_line_value(s, pos);
        let ghost rest = if e < n {
            nonempty_lines_from(s@, e + 1)
        } else {
            Seq::<Seq<char>>::empty()
        };
        proof {
            assert(nonempty_lines_from(s@, pos as int) == (if e == pos {
                rest
            } else {
                seq![s@.subrange(pos as int, e as int)] + rest
            }));
        }
        if e > pos {
            let ghost prev = out.deep_view();
            out.push(value);
            proof {
                assert(out.deep_view() =~= prev.push(s@.subrange(pos as int, e as int)));
                assert(prev + (seq![s@.subrange(pos as int, e as int)] + rest) =~= out.deep_view()
                    + rest);
            }
        }
        if e < n {
            pos = e + 1;
        } else {
            pos = n;
            proof {
                assert(nonempty_lines_from(s@, pos as int) =~= Seq::<Seq<char>>::empty());
                assert(out.deep_view() + Seq::<Seq<char>>::empty() =~= out.deep_view());
            }
        }
    }
    proof {
        assert(nonempty_lines_from(s@, pos as int) =~= Seq::<Seq<char>>::empty());
        assert(out.deep_view() + Seq::<Seq<char>>::empty() =~= out.deep_view());
    }
    out
}

/// Whether a name ends in the lock-file suffix, which the diff excludes.
pub open spec fn is_lock_file(name: Seq<char>) -> bool {
    name.len() >= (".lock"@).len() && name.subrange(
        name.len() - (".lock"@).len(),
        name.len() as int,
    ) == ".lock"@
}

/// Whether a name ends with the given suffix.
fn ends_with(s: &str, suffix: &str) -> (r: bool)
    ensures
        r == (s@.len() >= suffix@.len() && s@.subrange(
            s@.len() - suffix@.len(),
            s@.len() as int,
        ) == suffix@),
{
    let n = s.unicode_len();
    let m = suffix.unicode_len();
    if m > n {
        return false;
    }
    let r = starts_at(s, n - m, suffix);
    proof {
        assert(starts_with(s@, s@.len() - suffix@.len(), suffix@) == (s@.subrange(
            s@.len() - suffix@.len(),
            s@.len() as int,
        ) == suffix@));
    }
    r
}

/// The names that are not lock files, kept for the diff, among the first `i`.
pub open spec fn kept_upto(files: Seq<Seq<char>>, i: int) -> Seq<Seq<char>>
    decreases i,
{
    if i <= 0 {
        Seq::<Seq<char>>::empty()
    } else {
        kept_upto(files, i - 1) + (if is_lock_file(files[i - 1]) {
            Seq::<Seq<char>>::empty()
        } else {
            seq![files[i - 1]]
        })
    }
}

/// The lock files among the first `i`, which the diff excludes.
pub open spec fn locks_upto(files: Seq<Seq<char>>, i: int) -> Seq<Seq<char>>
    decreases i,
{
    if i <= 0 {
        Seq::<Seq<char>>::empty()
    } else {
        locks_upto(files, i - 1) + (if is_lock_file(files[i - 1]) {
            seq![files[i - 1]]
        } else {
            Seq::<Seq<char>>::empty()
        })
    }
}

/// Splits the staged files into the ones the diff covers and the lock files
/// it excludes, keeping each side's order.
pub fn partition_lock_files(files: &Vec<String>) -> (r: (Vec<String>, Vec<String>))
    ensures
        r.0.deep_view() == kept_upto(files.deep_view(), files.deep_view().len() as int),
        r.1.deep_view() == locks_upto(files.deep_view(), files.deep_view().len() as int),
{
    let mut kept: Vec<String> = Vec::new();
    let mut locks: Vec<String> = Vec::new();
    let mut i: usize = 0;
    while i < files.len()
        invariant
            i <= files@.len(),
            kept.deep_view() == kept_upto(files.deep_view(), i as int),
            locks.deep_view() == locks_upto(files.deep_view(), i as int),
        decreases files@.len() - i,
    {
        let name = &files[i];
        proof {
            assert(files.deep_view()[i as int] == files@[i as int]@);
        }
        if ends_with(name.as_str(), ".lock") {
            let ghost prev = locks.deep_view();
            locks.push(name.clone());
            proof {
                assert(locks.deep_view() =~= prev.push(files.deep_view()[i as int]));
                assert(locks.deep_view() =~= locks_upto(files.deep_view(), i + 1));
            }
        } else {
            let ghost prev = kept.deep_view();
            kept.push(name.clone());
            proof {
                assert(kept.deep_view() =~= prev.push(files.deep_view()[i as int]));
                assert(kept.deep_view() =~= kept_upto(files.deep_view(), i + 1));
            }
        }
        proof {
            if is_lock_file(files.deep_view()[i as int]) {
                assert(kept.deep_view() =~= kept_upto(files.deep_view(), i + 1));
            } else {
                assert(locks.deep_view() =~= locks_upto(files.deep_view(), i + 1));
            }
        }
        i = i + 1;
    }
    (kept, locks)
}

/// The working-tree state of one file, as the repository reports it.
pub struct FileStatusFlags {
    pub wt_new: bool,
    pub wt_modified: bool,
    pub wt_deleted: bool,
    pub index_new: bool,
    pub index_modified: bool,
    pub index_deleted: bool,
}

/// The label a status listing shows for the given flags, in the listing's
/// priority order; `None` for a file the listing skips.
pub open spec fn status_label_spec(f: FileStatusFlags) -> Option<Seq<char>> {
    if f.wt_new {
        Some("Untracked"@)
    } else if f.wt_modified {
        Some("Modified"@)
    } else if f.wt_deleted {
        Some("Deleted"@)
    } else if f.index_new {
        Some("Added"@)
    } else if f.index_modified {
        Some("Staged"@)
    } else if f.index_deleted {
        Some("Removed"@)
    } else {
        None
    }
}

/// Picks the label a status listing shows for one file.
pub fn status_label(f: &FileStatusFlags) -> (r: Option<String>)
    ensures
        match r {
            Some(label) => status_label_spec(*f) == Some(label@),
            None => status_label_spec(*f) is None,
        },
{
    if f.wt_new {
        Some(crate::strutil::str_to_string("Untracked"))
    } else if f.wt_modified {
        Some(crate::strutil::str_to_string("Modified"))
    } else if f.wt_deleted {
        Some(crate::strutil::str_to_string("Deleted"))
    } else if f.index_new {
        Some(crate::strutil::str_to_string("Added"))
    } else if f.index_modified {
        Some(crate::strutil::str_to_string("Staged"))
    } else if f.index_deleted {
        Some(crate::strutil::str_to_string("Removed"))
    } else {
        None
    }
}

} // verus!
