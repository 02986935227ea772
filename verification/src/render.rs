//! Composition of the status badge: the signals, each possibly absent, are
//! rendered in fixed order into colored text segments, and the segments
//! are joined with single spaces. An absent signal is omitted outright,
//! never shown as a zero or as an error.

use vstd::prelude::*;
use crate::action::{label_spec, OperationTag};
use crate::file_status::FileStatusCounts;
use crate::head::{head_display_spec, HeadRef};
use crate::icons::Icons;
use crate::text::{dec_str, join_strings, join_with, lemma_dec_str_nonempty, str_views, usize_to_string};

verus! {

/// The semantic color of one rendered segment; the mapping to concrete
/// terminal codes is the caller's concern.
#[derive(Clone, Copy, Debug, PartialEq, Eq, Structural)]
pub enum SegmentColor {
    Cyan,
    Green,
    Red,
    BrightYellow,
    Purple,
}

/// One piece of the status line: its text and its color role.
pub struct Segment {
    pub text: String,
    pub color: SegmentColor,
}

/// Commits ahead of and behind the configured upstream. The pair is
/// meaningful only when an upstream resolved; without one the whole signal
/// is absent rather than zero.
#[derive(Clone, Copy, Debug, PartialEq, Eq, Structural)]
pub struct AheadBehind {
    pub ahead: usize,
    pub behind: usize,
}

/// The views of rendered segments: text and color of each.
pub open spec fn seg_views(v: Seq<Segment>) -> Seq<(Seq<char>, SegmentColor)>
    decreases v.len(),
{
    if v.len() == 0 {
        Seq::empty()
    } else {
        seg_views(v.drop_last()).push((v.last().text@, v.last().color))
    }
}

/// The texts of rendered segments, without their colors.
pub open spec fn seg_texts(v: Seq<(Seq<char>, SegmentColor)>) -> Seq<Seq<char>>
    decreases v.len(),
{
    if v.len() == 0 {
        Seq::empty()
    } else {
        seg_texts(v.drop_last()).push(v.last().0)
    }
}

/// A glyph followed by a space and a decimal count.
pub open spec fn glyph_count_text(glyph: Seq<char>, n: nat) -> Seq<char> {
    glyph + seq![' '] + dec_str(n)
}

/// The head segment: the reference's display form, or nothing.
pub open spec fn head_part(head: Option<HeadRef>) -> Seq<(Seq<char>, SegmentColor)> {
    match head {
        Some(h) => seq![(head_display_spec(h), SegmentColor::Cyan)],
        None => Seq::empty(),
    }
}

/// The ahead segment: shown only when the upstream signal is present and
/// the ahead count is positive.
pub open spec fn ahead_part(ab: Option<AheadBehind>, icons: Icons) -> Seq<
    (Seq<char>, SegmentColor),
> {
    match ab {
        Some(a) => if a.ahead > 0 {
            seq![(glyph_count_text(icons.ahead@, a.ahead as nat), SegmentColor::Cyan)]
        } else {
            Seq::empty()
        },
        None => Seq::empty(),
    }
}

/// The behind segment: shown only when the upstream signal is present and
/// the behind count is positive.
pub open spec fn behind_part(ab: Option<AheadBehind>, icons: Icons) -> Seq<
    (Seq<char>, SegmentColor),
> {
    match ab {
        Some(a) => if a.behind > 0 {
            seq![(glyph_count_text(icons.behind@, a.behind as nat), SegmentColor::Cyan)]
        } else {
            Seq::empty()
        },
        None => Seq::empty(),
    }
}

/// The segments of a dirty tree: the nonzero counted categories in fixed
/// order, and a bare untracked glyph when untracked paths are present.
pub open spec fn dirty_part(c: FileStatusCounts, icons: Icons) -> Seq<(Seq<char>, SegmentColor)> {
    (if c.index_changed > 0 {
        seq![(glyph_count_text(icons.index_change@, c.index_changed as nat), SegmentColor::Green)]
    } else {
        Seq::empty()
    }) + (if c.conflicted > 0 {
        seq![(glyph_count_text(icons.conflicted@, c.conflicted as nat), SegmentColor::Red)]
    } else {
        Seq::empty()
    }) + (if c.worktree_changed > 0 {
        seq![
            (
                glyph_count_text(icons.wt_change@, c.worktree_changed as nat),
                SegmentColor::BrightYellow,
            ),
        ]
    } else {
        Seq::empty()
    }) + (if c.untracked > 0 {
        seq![(icons.untracked@, SegmentColor::BrightYellow)]
    } else {
        Seq::empty()
    })
}

/// The counts segments: absent counts render nothing, clean counts render
/// the single clean glyph, anything else renders the dirty segments.
pub open spec fn counts_part(counts: Option<FileStatusCounts>, icons: Icons) -> Seq<
    (Seq<char>, SegmentColor),
> {
    match counts {
        None => Seq::empty(),
        Some(c) => if c.is_clean() {
            seq![(icons.success@, SegmentColor::Green)]
        } else {
            dirty_part(c, icons)
        },
    }
}

/// The operation segment: the space-prefixed label of the tag, or nothing.
pub open spec fn action_part(action: Option<OperationTag>) -> Seq<(Seq<char>, SegmentColor)> {
    match action {
        Some(t) => seq![(seq![' '] + label_spec(t), SegmentColor::Purple)],
        None => Seq::empty(),
    }
}

/// The whole badge, in fixed order: head, ahead, behind, counts (or the
/// clean glyph), operation.
pub open spec fn render_spec(
    head: Option<HeadRef>,
    ab: Option<AheadBehind>,
    counts: Option<FileStatusCounts>,
    action: Option<OperationTag>,
    icons: Icons,
) -> Seq<(Seq<char>, SegmentColor)> {
    head_part(head) + ahead_part(ab, icons) + behind_part(ab, icons) + counts_part(counts, icons)
        + action_part(action)
}

proof fn lemma_seg_views_push(v: Seq<Segment>, s: Segment)
    ensures
        seg_views(v.push(s)) == seg_views(v).push((s.text@, s.color)),
{
    assert(v.push(s).drop_last() =~= v);
    assert(v.push(s).last() == s);
}

fn glyph_count_segment(glyph: &str, n: usize, color: SegmentColor) -> (r: Segment)
    ensures
        r.text@ == glyph_count_text(glyph@, n as nat),
        r.color == color,
{
    let mut t = glyph.to_owned();
    t.append(" ");
    let digits = usize_to_string(n);
    t.append(digits.as_str());
    proof {
        reveal_strlit(" ");
        assert(t@ =~= glyph@ + seq![' '] + dec_str(n as nat));
    }
    Segment { text: t, color }
}

fn push_head(out: &mut Vec<Segment>, head: &Option<HeadRef>)
    ensures
        seg_views(final(out)@) == seg_views(old(out)@) + head_part(*head),
{
    if let Some(h) = head {
        let s = Segment { text: h.display_name(), color: SegmentColor::Cyan };
        proof {
            lemma_seg_views_push(out@, s);
        }
        out.push(s);
    }
    proof {
        assert(seg_views(out@) =~= seg_views(old(out)@) + head_part(*head));
    }
}

fn push_ahead(out: &mut Vec<Segment>, ab: &Option<AheadBehind>, icons: &Icons)
    ensures
        seg_views(final(out)@) == seg_views(old(out)@) + ahead_part(*ab, *icons),
{
    if let Some(a) = ab {
        if a.ahead > 0 {
            let s = glyph_count_segment(icons.ahead, a.ahead, SegmentColor::Cyan);
            proof {
                lemma_seg_views_push(out@, s);
            }
            out.push(s);
        }
    }
    proof {
        assert(seg_views(out@) =~= seg_views(old(out)@) + ahead_part(*ab, *icons));
    }
}

fn push_behind(out: &mut Vec<Segment>, ab: &Option<AheadBehind>, icons: &Icons)
    ensures
        seg_views(final(out)@) == seg_views(old(out)@) + behind_part(*ab, *icons),
{
    if let Some(a) = ab {
        if a.behind > 0 {
            let s = glyph_count_segment(icons.behind, a.behind, SegmentColor::Cyan);
            proof {
                lemma_seg_views_push(out@, s);
            }
            out.push(s);
        }
    }
    proof {
        assert(seg_views(out@) =~= seg_views(old(out)@) + behind_part(*ab, *icons));
    }
}

#[verifier::rlimit(30)]
fn push_counts(out: &mut Vec<Segment>, counts: &Option<FileStatusCounts>, icons: &Icons)
    ensures
        seg_views(final(out)@) == seg_views(old(out)@) + counts_part(*counts, *icons),
{
    if let Some(c) = counts {
        if c.index_changed == 0 && c.worktree_changed == 0 && c.conflicted == 0 && c.untracked
            == 0 {
            let s = Segment { text: icons.success.to_owned(), color: SegmentColor::Green };
            proof {
                lemma_seg_views_push(out@, s);
            }
            out.push(s);
        } else {
            if c.index_changed > 0 {
                let s = glyph_count_segment(icons.index_change, c.index_changed, SegmentColor::Green);
                proof {
                    lemma_seg_views_push(out@, s);
                }
                out.push(s);
            }
            if c.conflicted > 0 {
                let s = glyph_count_segment(icons.conflicted, c.conflicted, SegmentColor::Red);
                proof {
                    lemma_seg_views_push(out@, s);
                }
                out.push(s);
            }
            if c.worktree_changed > 0 {
                let s = glyph_count_segment(
                    icons.wt_change,
                    c.worktree_changed,
                    SegmentColor::BrightYellow,
                );
                proof {
                    lemma_seg_views_push(out@, s);
                }
                out.push(s);
            }
            if c.untracked > 0 {
                let s = Segment {
                    text: icons.untracked.to_owned(),
                    color: SegmentColor::BrightYellow,
                };
                proof {
                    lemma_seg_views_push(out@, s);
                }
                out.push(s);
            }
            proof {
                assert(seg_views(out@) =~= seg_views(old(out)@) + dirty_part(*c, *icons));
            }
        }
    }
    proof {
        assert(seg_views(out@) =~= seg_views(old(out)@) + counts_part(*counts, *icons));
    }
}

fn push_action(out: &mut Vec<Segment>, action: &Option<OperationTag>)
    ensures
        seg_views(final(out)@) == seg_views(old(out)@) + action_part(*action),
{
    if let Some(t) = action {
        let lab = t.label();
        let mut text = String::new();
        text.append(" ");
        text.append(lab.as_str());
        proof {
            reveal_strlit(" ");
            assert(text@ =~= seq![' '] + label_spec(*t));
        }
        let s = Segment { text, color: SegmentColor::Purple };
        proof {
            lemma_seg_views_push(out@, s);
        }
        out.push(s);
    }
    proof {
        assert(seg_views(out@) =~= seg_views(old(out)@) + action_part(*action));
    }
}

/// Renders the signals into the ordered, color-tagged segments of the
/// badge; absent signals contribute nothing.
pub fn render_status(
    head: &Option<HeadRef>,
    ab: &Option<AheadBehind>,
    counts: &Option<FileStatusCounts>,
    action: &Option<OperationTag>,
    icons: &Icons,
) -> (r: Vec<Segment>)
    ensures
        seg_views(r@) == render_spec(*head, *ab, *counts, *action, *icons),
{
    let mut out: Vec<Segment> = Vec::new();
    push_head(&mut out, head);
    push_ahead(&mut out, ab, icons);
    push_behind(&mut out, ab, icons);
    push_counts(&mut out, counts, icons);
    push_action(&mut out, action);
    proof {
        assert(seg_views(out@) =~= render_spec(*head, *ab, *counts, *action, *icons));
    }
    out
}

proof fn lemma_seg_texts_push(v: Seq<(Seq<char>, SegmentColor)>, p: (Seq<char>, SegmentColor))
    ensures
        seg_texts(v.push(p)) == seg_texts(v).push(p.0),
{
    assert(v.push(p).drop_last() =~= v);
    assert(v.push(p).last() == p);
}

proof fn lemma_str_views_push(v: Seq<String>, s: String)
    ensures
        str_views(v.push(s)) == str_views(v).push(s@),
{
    assert(v.push(s).drop_last() =~= v);
    assert(v.push(s).last() == s);
}

proof fn lemma_seg_views_take_step(v: Seq<Segment>, i: int)
    requires
        0 <= i < v.len(),
    ensures
        seg_views(v.take(i + 1)) == seg_views(v.take(i)).push((v[i].text@, v[i].color)),
{
    assert(v.take(i + 1).drop_last() =~= v.take(i));
    assert(v.take(i + 1).last() == v[i]);
}

/// Joins the segment texts with single spaces into the finished badge
/// line; the colors are left to the caller.
pub fn status_line(segments: &Vec<Segment>) -> (r: String)
    ensures
        r@ == join_with(seg_texts(seg_views(segments@)), " "@),
{
    let len = segments.len();
    let mut texts: Vec<String> = Vec::new();
    let mut i: usize = 0;
    while i < len
        invariant
            0 <= i <= len,
            len == segments@.len(),
            str_views(texts@) == seg_texts(seg_views(segments@.take(i as int))),
        decreases len - i,
    {
        proof {
            lemma_seg_views_take_step(segments@, i as int);
            lemma_seg_texts_push(
                seg_views(segments@.take(i as int)),
                (segments@[i as int].text@, segments@[i as int].color),
            );
            lemma_str_views_push(texts@, segments@[i as int].text);
        }
        texts.push(segments[i].text.clone());
        i = i + 1;
    }
    proof {
        assert(segments@.take(len as int) =~= segments@);
    }
    join_strings(&texts, " ")
}

/// Renders the signals and joins the texts: the finished, uncolored badge.
pub fn repo_status(
    head: &Option<HeadRef>,
    ab: &Option<AheadBehind>,
    counts: &Option<FileStatusCounts>,
    action: &Option<OperationTag>,
    icons: &Icons,
) -> (r: String)
    ensures
        r@ == join_with(
            seg_texts(render_spec(*head, *ab, *counts, *action, *icons)),
            " "@,
        ),
{
    let segments = render_status(head, ab, counts, action, icons);
    status_line(&segments)
}

/// The whole prompt line: the shortened working directory, a space, and
/// the status badge (possibly empty).
pub fn compose_prompt_line(path: &str, status: &str) -> (r: String)
    ensures
        r@ == path@ + seq![' '] + status@,
{
    let mut out = path.to_owned();
    out.append(" ");
    out.append(status);
    proof {
        reveal_strlit(" ");
        assert(out@ =~= path@ + seq![' '] + status@);
    }
    out
}

/// With no upstream signal, no ahead and no behind segment is rendered at
/// all: the badge is exactly the head, counts, and operation parts.
pub proof fn lemma_no_upstream_no_ahead_behind(
    head: Option<HeadRef>,
    counts: Option<FileStatusCounts>,
    action: Option<OperationTag>,
    icons: Icons,
)
    ensures
        render_spec(head, None, counts, action, icons) == head_part(head) + counts_part(
            counts,
            icons,
        ) + action_part(action),
{
    assert(render_spec(head, None, counts, action, icons) =~= head_part(head) + counts_part(
        counts,
        icons,
    ) + action_part(action));
}

/// The clean glyph is rendered exactly when the counts are present and all
/// four are zero; with any nonzero count, none of the counts segments
/// carries the clean glyph as its text.
pub proof fn lemma_clean_glyph_iff_clean(c: FileStatusCounts, icons: Icons)
    requires
        icons.wf(),
    ensures
        c.is_clean() ==> counts_part(Some(c), icons) == seq![
            (icons.success@, SegmentColor::Green),
        ],
        !c.is_clean() ==> forall|j: int|
            0 <= j < counts_part(Some(c), icons).len() ==> counts_part(Some(c), icons)[j].0
                != icons.success@,
{
    if !c.is_clean() {
        let d = dirty_part(c, icons);
        lemma_dec_str_nonempty(c.index_changed as nat);
        lemma_dec_str_nonempty(c.conflicted as nat);
        lemma_dec_str_nonempty(c.worktree_changed as nat);
        reveal_strlit("✔");
        reveal_strlit("♦");
        reveal_strlit("✖");
        reveal_strlit("✚");
        reveal_strlit("…");
        reveal_strlit("\u{eab2}");
        reveal_strlit("\u{f055a}");
        reveal_strlit("\u{ea87}");
        reveal_strlit("\u{f440}");
        reveal_strlit("\u{f01d8}");
        assert(icons.success@.len() == 1);
        assert(icons.index_change@.len() == 1);
        assert(icons.conflicted@.len() == 1);
        assert(icons.wt_change@.len() == 1);
        assert(dec_str(c.index_changed as nat).len() >= 1);
        assert(dec_str(c.conflicted as nat).len() >= 1);
        assert(dec_str(c.worktree_changed as nat).len() >= 1);
        assert(glyph_count_text(icons.index_change@, c.index_changed as nat).len() >= 3);
        assert(glyph_count_text(icons.conflicted@, c.conflicted as nat).len() >= 3);
        assert(glyph_count_text(icons.wt_change@, c.worktree_changed as nat).len() >= 3);
        if crate::icons::is_plain_icons(icons) {
            assert(icons.untracked@[0] != icons.success@[0]);
        } else {
            assert(icons.untracked@[0] != icons.success@[0]);
        }
        assert(icons.untracked@ != icons.success@);
        assert(forall|j: int| 0 <= j < d.len() ==> d[j].0 != icons.success@);
    }
}

} // verus!
