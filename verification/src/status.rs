//! The status snapshot and its rendering: the per-family change counters
//! plus the branch, tag and upstream identity, turned into one prompt line
//! of fixed category order.
use vstd::prelude::*;
use crate::text::{
    append_all, append_part, chars_to_string, dec_rep, join2, push_dec, str_to_chars, trim_chars,
    trim_spec,
};

verus! {

/// Single-bit per-entry status flags, as libgit2 defines them.
pub const STATUS_INDEX_NEW: u32 = 0x0001;

pub const STATUS_INDEX_MODIFIED: u32 = 0x0002;

pub const STATUS_INDEX_DELETED: u32 = 0x0004;

pub const STATUS_INDEX_RENAMED: u32 = 0x0008;

pub const STATUS_INDEX_TYPECHANGE: u32 = 0x0010;

pub const STATUS_WT_NEW: u32 = 0x0080;

pub const STATUS_WT_MODIFIED: u32 = 0x0100;

pub const STATUS_WT_DELETED: u32 = 0x0200;

pub const STATUS_WT_TYPECHANGE: u32 = 0x0400;

pub const STATUS_WT_RENAMED: u32 = 0x0800;

pub const STATUS_IGNORED: u32 = 0x4000;

pub const STATUS_CONFLICTED: u32 = 0x8000;

/// How many entries of `s` are exactly `v`. Classification is by exact
/// match: an entry whose flag word combines several bits counts nowhere.
pub open spec fn count_eq(s: Seq<u32>, v: u32) -> nat
    decreases s.len(),
{
    if s.len() == 0 {
        0
    } else {
        count_eq(s.drop_last(), v) + if s.last() == v {
            1nat
        } else {
            0nat
        }
    }
}

/// One snapshot of a repository's state, taken fresh for every prompt.
/// Every counter is a count of status entries (or of commits, for
/// `ahead` and `behind`) and so is never negative.
pub struct GitStatus {
    /// Display identity: branch name, short commit hash, or a fallback.
    pub branch: String,
    /// Most recent reachable tag, empty when none is known.
    pub tag: String,
    /// Name of the tracked upstream branch, empty when unset or unreadable.
    pub remote: String,
    pub index_new: usize,
    pub index_modified: usize,
    pub index_deleted: usize,
    pub index_renamed: usize,
    pub index_typechange: usize,
    pub wt_new: usize,
    pub wt_modified: usize,
    pub wt_deleted: usize,
    pub wt_renamed: usize,
    pub wt_typechange: usize,
    pub ignored: usize,
    pub conflicted: usize,
    pub ahead: usize,
    pub behind: usize,
}

/// One counter's rendered segment: its literal prefix followed by the
/// decimal count, or nothing at all when the count is zero.
pub open spec fn seg_spec(prefix: Seq<char>, n: nat) -> Seq<char> {
    if n == 0 {
        Seq::empty()
    } else {
        prefix + dec_rep(n)
    }
}

/// The staged family: new, modified, renamed, type-changed.
pub open spec fn green_spec(s: GitStatus) -> Seq<char> {
    join2(
        join2(
            join2(
                seg_spec(seq!['+'], s.index_new as nat),
                seg_spec(seq!['+', '~'], s.index_modified as nat),
            ),
            seg_spec(seq!['+', '-', '>'], s.index_renamed as nat),
        ),
        seg_spec(seq!['+', 't'], s.index_typechange as nat),
    )
}

/// The unstaged family plus divergence: new, modified, renamed,
/// type-changed, commits ahead, commits behind.
pub open spec fn yellow_spec(s: GitStatus) -> Seq<char> {
    join2(
        join2(
            join2(
                join2(
                    join2(
                        seg_spec(seq!['?'], s.wt_new as nat),
                        seg_spec(seq!['~'], s.wt_modified as nat),
                    ),
                    seg_spec(seq!['-', '>'], s.wt_renamed as nat),
                ),
                seg_spec(seq!['t'], s.wt_typechange as nat),
            ),
            seg_spec(seq!['\u{2191}'], s.ahead as nat),
        ),
        seg_spec(seq!['\u{2193}'], s.behind as nat),
    )
}

/// The ignored count, the only segment of its category.
pub open spec fn gray_spec(s: GitStatus) -> Seq<char> {
    seg_spec(seq!['!'], s.ignored as nat)
}

/// The deletion and conflict family: staged deletions, unstaged deletions,
/// conflicted entries.
pub open spec fn red_spec(s: GitStatus) -> Seq<char> {
    join2(
        join2(
            seg_spec(seq!['+', '-'], s.index_deleted as nat),
            seg_spec(seq!['-'], s.wt_deleted as nat),
        ),
        seg_spec(seq!['c'], s.conflicted as nat),
    )
}

/// The identity shown on the line: the tag when one is known, else the
/// branch.
pub open spec fn branch_or_tag_spec(s: GitStatus) -> Seq<char> {
    if s.tag@.len() == 0 {
        s.branch@
    } else {
        s.tag@
    }
}

/// The reserved leading remote-indicator slot. It renders as nothing
/// whatever `remote` holds; the observable behavior keeps this slot empty.
pub open spec fn remote_indicator_spec(s: GitStatus) -> Seq<char> {
    Seq::empty()
}

/// The whole line: the categories in fixed order joined by single spaces,
/// surrounding whitespace trimmed, and one leading space put back.
pub open spec fn render_spec(s: GitStatus) -> Seq<char> {
    seq![' '] + trim_spec(
        join2(
            join2(
                join2(
                    join2(
                        join2(remote_indicator_spec(s), branch_or_tag_spec(s)),
                        green_spec(s),
                    ),
                    yellow_spec(s),
                ),
                gray_spec(s),
            ),
            red_spec(s),
        ),
    )
}

/// One counter's segment, materialized.
fn seg_chars(prefix: &Vec<char>, n: usize) -> (r: Vec<char>)
    ensures
        r@ == seg_spec(prefix@, n as nat),
{
    let mut r: Vec<char> = Vec::new();
    if n > 0 {
        append_all(&mut r, prefix);
        push_dec(&mut r, n);
        assert(r@ =~= seg_spec(prefix@, n as nat));
    }
    r
}

impl GitStatus {
    fn green_chars(&self) -> (r: Vec<char>)
        ensures
            r@ == green_spec(*self),
    {
        let mut out: Vec<char> = Vec::new();
        let s1 = seg_chars(&vec!['+'], self.index_new);
        append_part(&mut out, &s1);
        let s2 = seg_chars(&vec!['+', '~'], self.index_modified);
        append_part(&mut out, &s2);
        let s3 = seg_chars(&vec!['+', '-', '>'], self.index_renamed);
        append_part(&mut out, &s3);
        let s4 = seg_chars(&vec!['+', 't'], self.index_typechange);
        append_part(&mut out, &s4);
        out
    }

    fn yellow_file_chars(&self) -> (r: Vec<char>)
        ensures
            r@ == join2(
                join2(
                    join2(
                        seg_spec(seq!['?'], self.wt_new as nat),
                        seg_spec(seq!['~'], self.wt_modified as nat),
                    ),
                    seg_spec(seq!['-', '>'], self.wt_renamed as nat),
                ),
                seg_spec(seq!['t'], self.wt_typechange as nat),
            ),
    {
        let mut out: Vec<char> = Vec::new();
        let s1 = seg_chars(&vec!['?'], self.wt_new);
        append_part(&mut out, &s1);
        let s2 = seg_chars(&vec!['~'], self.wt_modified);
        append_part(&mut out, &s2);
        let s3 = seg_chars(&vec!['-', '>'], self.wt_renamed);
        append_part(&mut out, &s3);
        let s4 = seg_chars(&vec!['t'], self.wt_typechange);
        append_part(&mut out, &s4);
        out
    }

    fn yellow_chars(&self) -> (r: Vec<char>)
        ensures
            r@ == yellow_spec(*self),
    {
        let mut out = self.yellow_file_chars();
        let s5 = seg_chars(&vec!['\u{2191}'], self.ahead);
        append_part(&mut out, &s5);
        let s6 = seg_chars(&vec!['\u{2193}'], self.behind);
        append_part(&mut out, &s6);
        out
    }

    fn gray_chars(&self) -> (r: Vec<char>)
        ensures
            r@ == gray_spec(*self),
    {
        seg_chars(&vec!['!'], self.ignored)
    }

    fn red_chars(&self) -> (r: Vec<char>)
        ensures
            r@ == red_spec(*self),
    {
        let mut out: Vec<char> = Vec::new();
        let s1 = seg_chars(&vec!['+', '-'], self.index_deleted);
        append_part(&mut out, &s1);
        let s2 = seg_chars(&vec!['-'], self.wt_deleted);
        append_part(&mut out, &s2);
        let s3 = seg_chars(&vec!['c'], self.conflicted);
        append_part(&mut out, &s3);
        out
    }

    /// The staged family as a string: `+n`, `+~n`, `+->n`, `+tn`.
    pub fn get_green(&self) -> (r: String)
        ensures
            r@ == green_spec(*self),
    {
        let v = self.green_chars();
        chars_to_string(&v)
    }

    /// The unstaged family as a string: `?n`, `~n`, `->n`, `tn`, and the
    /// divergence arrows.
    pub fn get_yellow(&self) -> (r: String)
        ensures
            r@ == yellow_spec(*self),
    {
        let v = self.yellow_chars();
        chars_to_string(&v)
    }

    /// The ignored count as a string: `!n`, or nothing.
    pub fn get_gray(&self) -> (r: String)
        ensures
            r@ == gray_spec(*self),
    {
        let v = self.gray_chars();
        chars_to_string(&v)
    }

    /// The deletion and conflict family as a string: `+-n`, `-n`, `cn`.
    pub fn get_red(&self) -> (r: String)
        ensures
            r@ == red_spec(*self),
    {
        let v = self.red_chars();
        chars_to_string(&v)
    }

    /// The whole prompt line for this snapshot. A pure function of the
    /// snapshot: the same snapshot always renders to the same string.
    pub fn render(&self) -> (r: String)
        ensures
            r@ == render_spec(*self),
    {
        let bt: Vec<char> = if self.tag.as_str().is_empty() {
            str_to_chars(self.branch.as_str())
        } else {
            str_to_chars(self.tag.as_str())
        };
        let mut body: Vec<char> = Vec::new();
        append_part(&mut body, &bt);
        let g = self.green_chars();
        append_part(&mut body, &g);
        let y = self.yellow_chars();
        append_part(&mut body, &y);
        let gr = self.gray_chars();
        append_part(&mut body, &gr);
        let rd = self.red_chars();
        append_part(&mut body, &rd);
        let trimmed = trim_chars(&body);
        let mut line: Vec<char> = Vec::new();
        line.push(' ');
        append_all(&mut line, &trimmed);
        chars_to_string(&line)
    }

    /// Builds a snapshot from the identity strings, the per-entry status
    /// flag words, and the divergence counts. Each flag word feeds exactly
    /// the one counter whose single-bit value it equals; composite words
    /// feed none.
    pub fn from_parts(
        branch: String,
        tag: String,
        remote: String,
        flags: &Vec<u32>,
        ahead: usize,
        behind: usize,
    ) -> (s: GitStatus)
        ensures
            s.branch@ == branch@,
            s.tag@ == tag@,
            s.remote@ == remote@,
            s.ahead == ahead,
            s.behind == behind,
            s.index_new == count_eq(flags@, STATUS_INDEX_NEW),
            s.index_modified == count_eq(flags@, STATUS_INDEX_MODIFIED),
            s.index_deleted == count_eq(flags@, STATUS_INDEX_DELETED),
            s.index_renamed == count_eq(flags@, STATUS_INDEX_RENAMED),
            s.index_typechange == count_eq(flags@, STATUS_INDEX_TYPECHANGE),
            s.wt_new == count_eq(flags@, STATUS_WT_NEW),
            s.wt_modified == count_eq(flags@, STATUS_WT_MODIFIED),
            s.wt_deleted == count_eq(flags@, STATUS_WT_DELETED),
            s.wt_renamed == count_eq(flags@, STATUS_WT_RENAMED),
            s.wt_typechange == count_eq(flags@, STATUS_WT_TYPECHANGE),
            s.ignored == count_eq(flags@, STATUS_IGNORED),
            s.conflicted == count_eq(flags@, STATUS_CONFLICTED),
    {
        let mut index_new: usize = 0;
        let mut index_modified: usize = 0;
        let mut index_deleted: usize = 0;
        let mut index_renamed: usize = 0;
        let mut index_typechange: usize = 0;
        let mut wt_new: usize = 0;
        let mut wt_modified: usize = 0;
        let mut wt_deleted: usize = 0;
        let mut wt_renamed: usize = 0;
        let mut wt_typechange: usize = 0;
        let mut ignored: usize = 0;
        let mut conflicted: usize = 0;
        let mut k: usize = 0;
        proof {
            assert(flags@.subrange(0, 0) =~= Seq::<u32>::empty());
        }
        while k < flags.len()
            invariant
                k <= flags@.len(),
                index_new == count_eq(flags@.subrange(0, k as int), STATUS_INDEX_NEW),
                index_modified == count_eq(flags@.subrange(0, k as int), STATUS_INDEX_MODIFIED),
                index_deleted == count_eq(flags@.subrange(0, k as int), STATUS_INDEX_DELETED),
                index_renamed == count_eq(flags@.subrange(0, k as int), STATUS_INDEX_RENAMED),
                index_typechange == count_eq(
                    flags@.subrange(0, k as int),
                    STATUS_INDEX_TYPECHANGE,
                ),
                wt_new == count_eq(flags@.subrange(0, k as int), STATUS_WT_NEW),
                wt_modified == count_eq(flags@.subrange(0, k as int), STATUS_WT_MODIFIED),
                wt_deleted == count_eq(flags@.subrange(0, k as int), STATUS_WT_DELETED),
                wt_renamed == count_eq(flags@.subrange(0, k as int), STATUS_WT_RENAMED),
                wt_typechange == count_eq(flags@.subrange(0, k as int), STATUS_WT_TYPECHANGE),
                ignored == count_eq(flags@.subrange(0, k as int), STATUS_IGNORED),
                conflicted == count_eq(flags@.subrange(0, k as int), STATUS_CONFLICTED),
                index_new <= k,
                index_modified <= k,
                index_deleted <= k,
                index_renamed <= k,
                index_typechange <= k,
                wt_new <= k,
                wt_modified <= k,
                wt_deleted <= k,
                wt_renamed <= k,
                wt_typechange <= k,
                ignored <= k,
                conflicted <= k,
            decreases flags@.len() - k,
        {
            let f = flags[k];
            proof {
                assert(flags@.subrange(0, k + 1 as int).drop_last() =~= flags@.subrange(
                    0,
                    k as int,
                ));
                assert(flags@.subrange(0, k + 1 as int).last() == flags@[k as int]);
            }
            if f == STATUS_INDEX_NEW {
                index_new = index_new + 1;
            }
            if f == STATUS_INDEX_MODIFIED {
                index_modified = index_modified + 1;
            }
            if f == STATUS_INDEX_DELETED {
                index_deleted = index_deleted + 1;
            }
            if f == STATUS_INDEX_RENAMED {
                index_renamed = index_renamed + 1;
            }
            if f == STATUS_INDEX_TYPECHANGE {
                index_typechange = index_typechange + 1;
            }
            if f == STATUS_WT_NEW {
                wt_new = wt_new + 1;
            }
            if f == STATUS_WT_MODIFIED {
                wt_modified = wt_modified + 1;
            }
            if f == STATUS_WT_DELETED {
                wt_deleted = wt_deleted + 1;
            }
            if f == STATUS_WT_RENAMED {
                wt_renamed = wt_renamed + 1;
            }
            if f == STATUS_WT_TYPECHANGE {
                wt_typechange = wt_typechange + 1;
            }
            if f == STATUS_IGNORED {
                ignored = ignored + 1;
            }
            if f == STATUS_CONFLICTED {
                conflicted = conflicted + 1;
            }
            k = k + 1;
        }
        proof {
            assert(flags@.subrange(0, flags@.len() as int) =~= flags@);
        }
        GitStatus {
            branch,
            tag,
            remote,
            index_new,
            index_modified,
            index_deleted,
            index_renamed,
            index_typechange,
            wt_new,
            wt_modified,
            wt_deleted,
            wt_renamed,
            wt_typechange,
            ignored,
            conflicted,
            ahead,
            behind,
        }
    }
}

/// The pre-render guard on repository metadata size: above one billion
/// bytes of regular files under the metadata directory, the prompt
/// segment is suppressed.
pub fn metadata_too_large(total_bytes: u64) -> (r: bool)
    ensures
        r == (total_bytes > 1000000000),
{
    total_bytes > 1000000000
}

} // verus!
