//! Properties of the rendered line, stated and proved once for every
//! snapshot: determinism, the tag override, the shape of counter segments,
//! and the absence of doubled spaces.
use vstd::prelude::*;
use crate::text::{dec_digit, dec_rep, is_wspace, join2, trim_end_spec, trim_spec, trim_start_spec};
use crate::status::{
    GitStatus, branch_or_tag_spec, gray_spec, green_spec, red_spec, remote_indicator_spec,
    render_spec, seg_spec, yellow_spec,
};

verus! {

/// No character of `s` is whitespace.
pub open spec fn ws_free(s: Seq<char>) -> bool {
    forall|k: int| 0 <= k < s.len() ==> !is_wspace(#[trigger] s[k])
}

/// `s` neither starts nor ends with whitespace, and holds no two adjacent
/// whitespace characters.
pub open spec fn sep_clean(s: Seq<char>) -> bool {
    &&& s.len() > 0 ==> !is_wspace(s.first()) && !is_wspace(s.last())
    &&& forall|k: int|
        0 <= k && k + 1 < s.len() ==> !(is_wspace(#[trigger] s[k]) && is_wspace(s[k + 1]))
}

/// The decimal representation is never empty, holds no whitespace, and has
/// no leading zero for a positive number.
pub proof fn lemma_dec_rep_props(n: nat)
    ensures
        dec_rep(n).len() >= 1,
        ws_free(dec_rep(n)),
        n > 0 ==> dec_rep(n).first() != '0',
    decreases n,
{
    if n < 10 {
        assert forall|k: int| 0 <= k < dec_rep(n).len() implies !is_wspace(
            #[trigger] dec_rep(n)[k],
        ) by {
            assert(dec_rep(n)[k] == dec_digit(n));
            assert(!is_wspace(dec_digit(n)));
        }
    } else {
        lemma_dec_rep_props(n / 10);
        let rest = dec_rep(n / 10);
        assert(dec_rep(n) == rest.push(dec_digit(n % 10)));
        assert forall|k: int| 0 <= k < dec_rep(n).len() implies !is_wspace(
            #[trigger] dec_rep(n)[k],
        ) by {
            if k < rest.len() {
                assert(dec_rep(n)[k] == rest[k]);
            } else {
                assert(dec_rep(n)[k] == dec_digit(n % 10));
                assert(!is_wspace(dec_digit(n % 10)));
            }
        }
        assert(dec_rep(n).first() == rest.first());
    }
}

/// A string without whitespace at all trivially has clean separation.
pub proof fn lemma_ws_free_sep_clean(s: Seq<char>)
    requires
        ws_free(s),
    ensures
        sep_clean(s),
{
    if s.len() > 0 {
        assert(!is_wspace(s[0]));
        assert(!is_wspace(s[s.len() - 1]));
    }
}

/// A counter segment holds no whitespace when its prefix holds none.
pub proof fn lemma_seg_ws_free(prefix: Seq<char>, n: nat)
    requires
        ws_free(prefix),
    ensures
        ws_free(seg_spec(prefix, n)),
        sep_clean(seg_spec(prefix, n)),
{
    if n > 0 {
        lemma_dec_rep_props(n);
        let s = seg_spec(prefix, n);
        assert forall|k: int| 0 <= k < s.len() implies !is_wspace(#[trigger] s[k]) by {
            if k < prefix.len() {
                assert(s[k] == prefix[k]);
            } else {
                assert(s[k] == dec_rep(n)[k - prefix.len()]);
            }
        }
    }
    lemma_ws_free_sep_clean(seg_spec(prefix, n));
}

/// Joining two cleanly separated parts with a single space keeps the
/// separation clean: the new space stands between two non-whitespace
/// characters.
pub proof fn lemma_join2_sep_clean(a: Seq<char>, b: Seq<char>)
    requires
        sep_clean(a),
        sep_clean(b),
    ensures
        sep_clean(join2(a, b)),
{
    if b.len() == 0 || a.len() == 0 {
    } else {
        let s = join2(a, b);
        assert(s == a + seq![' '] + b);
        assert(s.len() == a.len() + 1 + b.len());
        assert forall|k: int| 0 <= k < s.len() implies s[k] == (if k < a.len() {
            a[k]
        } else if k == a.len() {
            ' '
        } else {
            b[k - a.len() - 1]
        }) by {}
        assert(s.first() == a.first());
        assert(s.last() == b.last());
        assert forall|k: int| 0 <= k && k + 1 < s.len() implies !(is_wspace(#[trigger] s[k])
            && is_wspace(s[k + 1])) by {
            if k + 1 < a.len() {
                assert(s[k] == a[k] && s[k + 1] == a[k + 1]);
            } else if k + 1 == a.len() {
                assert(s[k] == a[a.len() - 1]);
                assert(!is_wspace(a.last()));
            } else if k == a.len() {
                assert(s[k + 1] == b[0]);
                assert(!is_wspace(b.first()));
            } else {
                assert(s[k] == b[k - a.len() - 1] && s[k + 1] == b[k - a.len()]);
            }
        }
    }
}

/// Trimming a string that neither starts nor ends with whitespace changes
/// nothing.
pub proof fn lemma_trim_clean_noop(s: Seq<char>)
    requires
        sep_clean(s),
    ensures
        trim_spec(s) == s,
{
    assert(trim_start_spec(s) == s);
    assert(trim_end_spec(s) == s);
}

proof fn lemma_single_ws_free(c0: char)
    requires
        !is_wspace(c0),
    ensures
        ws_free(seq![c0]),
{
    let s = seq![c0];
    assert forall|k: int| 0 <= k < s.len() implies !is_wspace(#[trigger] s[k]) by {
        assert(s[k] == c0);
    }
}

proof fn lemma_pair_ws_free(c0: char, c1: char)
    requires
        !is_wspace(c0),
        !is_wspace(c1),
    ensures
        ws_free(seq![c0, c1]),
{
    let s = seq![c0, c1];
    assert forall|k: int| 0 <= k < s.len() implies !is_wspace(#[trigger] s[k]) by {
        if k == 0 {
            assert(s[k] == c0);
        } else {
            assert(s[k] == c1);
        }
    }
}

proof fn lemma_triple_ws_free(c0: char, c1: char, c2: char)
    requires
        !is_wspace(c0),
        !is_wspace(c1),
        !is_wspace(c2),
    ensures
        ws_free(seq![c0, c1, c2]),
{
    let s = seq![c0, c1, c2];
    assert forall|k: int| 0 <= k < s.len() implies !is_wspace(#[trigger] s[k]) by {
        if k == 0 {
            assert(s[k] == c0);
        } else if k == 1 {
            assert(s[k] == c1);
        } else {
            assert(s[k] == c2);
        }
    }
}

/// The staged category is cleanly separated.
pub proof fn lemma_green_sep_clean(s: GitStatus)
    ensures
        sep_clean(green_spec(s)),
{
    lemma_single_ws_free('+');
    lemma_seg_ws_free(seq!['+'], s.index_new as nat);
    lemma_pair_ws_free('+', '~');
    lemma_seg_ws_free(seq!['+', '~'], s.index_modified as nat);
    lemma_triple_ws_free('+', '-', '>');
    lemma_seg_ws_free(seq!['+', '-', '>'], s.index_renamed as nat);
    lemma_pair_ws_free('+', 't');
    lemma_seg_ws_free(seq!['+', 't'], s.index_typechange as nat);
    let s1 = seg_spec(seq!['+'], s.index_new as nat);
    let s2 = seg_spec(seq!['+', '~'], s.index_modified as nat);
    let s3 = seg_spec(seq!['+', '-', '>'], s.index_renamed as nat);
    let s4 = seg_spec(seq!['+', 't'], s.index_typechange as nat);
    lemma_join2_sep_clean(s1, s2);
    lemma_join2_sep_clean(join2(s1, s2), s3);
    lemma_join2_sep_clean(join2(join2(s1, s2), s3), s4);
}

/// The unstaged category is cleanly separated.
pub proof fn lemma_yellow_sep_clean(s: GitStatus)
    ensures
        sep_clean(yellow_spec(s)),
{
    lemma_single_ws_free('?');
    lemma_seg_ws_free(seq!['?'], s.wt_new as nat);
    lemma_single_ws_free('~');
    lemma_seg_ws_free(seq!['~'], s.wt_modified as nat);
    lemma_pair_ws_free('-', '>');
    lemma_seg_ws_free(seq!['-', '>'], s.wt_renamed as nat);
    lemma_single_ws_free('t');
    lemma_seg_ws_free(seq!['t'], s.wt_typechange as nat);
    lemma_single_ws_free('\u{2191}');
    lemma_seg_ws_free(seq!['\u{2191}'], s.ahead as nat);
    lemma_single_ws_free('\u{2193}');
    lemma_seg_ws_free(seq!['\u{2193}'], s.behind as nat);
    let s1 = seg_spec(seq!['?'], s.wt_new as nat);
    let s2 = seg_spec(seq!['~'], s.wt_modified as nat);
    let s3 = seg_spec(seq!['-', '>'], s.wt_renamed as nat);
    let s4 = seg_spec(seq!['t'], s.wt_typechange as nat);
    let s5 = seg_spec(seq!['\u{2191}'], s.ahead as nat);
    let s6 = seg_spec(seq!['\u{2193}'], s.behind as nat);
    lemma_join2_sep_clean(s1, s2);
    lemma_join2_sep_clean(join2(s1, s2), s3);
    lemma_join2_sep_clean(join2(join2(s1, s2), s3), s4);
    lemma_join2_sep_clean(join2(join2(join2(s1, s2), s3), s4), s5);
    lemma_join2_sep_clean(join2(join2(join2(join2(s1, s2), s3), s4), s5), s6);
}

/// The ignored category is cleanly separated.
pub proof fn lemma_gray_sep_clean(s: GitStatus)
    ensures
        sep_clean(gray_spec(s)),
{
    lemma_single_ws_free('!');
    lemma_seg_ws_free(seq!['!'], s.ignored as nat);
}

/// The deletion and conflict category is cleanly separated.
pub proof fn lemma_red_sep_clean(s: GitStatus)
    ensures
        sep_clean(red_spec(s)),
{
    lemma_pair_ws_free('+', '-');
    lemma_seg_ws_free(seq!['+', '-'], s.index_deleted as nat);
    lemma_single_ws_free('-');
    lemma_seg_ws_free(seq!['-'], s.wt_deleted as nat);
    lemma_single_ws_free('c');
    lemma_seg_ws_free(seq!['c'], s.conflicted as nat);
    let s1 = seg_spec(seq!['+', '-'], s.index_deleted as nat);
    let s2 = seg_spec(seq!['-'], s.wt_deleted as nat);
    let s3 = seg_spec(seq!['c'], s.conflicted as nat);
    lemma_join2_sep_clean(s1, s2);
    lemma_join2_sep_clean(join2(s1, s2), s3);
}

/// Law: rendering is deterministic. The line is a function of the snapshot
/// alone, so two renders of one snapshot are one and the same string.
pub proof fn lemma_render_deterministic(s: GitStatus, r1: Seq<char>, r2: Seq<char>)
    requires
        r1 == render_spec(s),
        r2 == render_spec(s),
    ensures
        r1 == r2,
{
}

/// Law: no counter of a snapshot is ever negative; each counts entries or
/// commits in an unsigned field.
pub proof fn lemma_counters_nonnegative(s: GitStatus)
    ensures
        s.index_new >= 0,
        s.index_modified >= 0,
        s.index_deleted >= 0,
        s.index_renamed >= 0,
        s.index_typechange >= 0,
        s.wt_new >= 0,
        s.wt_modified >= 0,
        s.wt_deleted >= 0,
        s.wt_renamed >= 0,
        s.wt_typechange >= 0,
        s.ignored >= 0,
        s.conflicted >= 0,
        s.ahead >= 0,
        s.behind >= 0,
{
}

/// Law: a non-empty tag displaces the branch in the identity slot; the
/// branch shows only when no tag is known.
pub proof fn lemma_tag_overrides_branch(s: GitStatus)
    requires
        s.tag@.len() > 0,
    ensures
        branch_or_tag_spec(s) == s.tag@,
{
}

/// Law: a counter at zero contributes nothing at all to the line — not a
/// prefix, not a `0`.
pub proof fn lemma_zero_counter_no_segment(prefix: Seq<char>)
    ensures
        seg_spec(prefix, 0) == Seq::<char>::empty(),
{
}

/// Law: a positive counter renders as exactly its own literal prefix
/// followed by its decimal digits, which never start with `0`.
pub proof fn lemma_positive_counter_segment(prefix: Seq<char>, n: nat)
    requires
        n > 0,
    ensures
        seg_spec(prefix, n) == prefix + dec_rep(n),
        dec_rep(n).len() >= 1,
        dec_rep(n).first() != '0',
{
    lemma_dec_rep_props(n);
}

/// Law: the rendered line never holds two consecutive spaces, as long as
/// the branch and tag names themselves hold no whitespace. (When every
/// category is empty the line is the single guaranteed leading space.)
pub proof fn lemma_render_no_double_space(s: GitStatus)
    requires
        ws_free(s.branch@),
        ws_free(s.tag@),
    ensures
        forall|k: int|
            0 <= k && k + 1 < render_spec(s).len() ==> !(#[trigger] render_spec(s)[k] == ' '
                && render_spec(s)[k + 1] == ' '),
{
    let bt = branch_or_tag_spec(s);
    lemma_ws_free_sep_clean(bt);
    lemma_green_sep_clean(s);
    lemma_yellow_sep_clean(s);
    lemma_gray_sep_clean(s);
    lemma_red_sep_clean(s);
    let b1 = join2(remote_indicator_spec(s), bt);
    assert(b1 == bt);
    let b2 = join2(b1, green_spec(s));
    lemma_join2_sep_clean(b1, green_spec(s));
    let b3 = join2(b2, yellow_spec(s));
    lemma_join2_sep_clean(b2, yellow_spec(s));
    let b4 = join2(b3, gray_spec(s));
    lemma_join2_sep_clean(b3, gray_spec(s));
    let body = join2(b4, red_spec(s));
    lemma_join2_sep_clean(b4, red_spec(s));
    lemma_trim_clean_noop(body);
    let line = render_spec(s);
    assert(line == seq![' '] + body);
    assert(line.len() == 1 + body.len());
    assert forall|k: int| 0 <= k && k + 1 < line.len() implies !(#[trigger] line[k] == ' '
        && line[k + 1] == ' ') by {
        if k == 0 {
            assert(line[1] == body[0]);
            assert(!is_wspace(body.first()));
        } else {
            assert(line[k] == body[k - 1] && line[k + 1] == body[k]);
            assert(!(is_wspace(body[k - 1]) && is_wspace(body[k])));
        }
    }
}

} // verus!
