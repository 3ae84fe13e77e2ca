//! Folding character contributions into text fragments.
//!
//! A fragment is a reconstructed word, or a sub-run of a word where the
//! font family or the font size changes mid-word. Characters are folded
//! left to right: a character joins the current fragment exactly when the
//! configuration's family requirement and font-size policy accept it
//! against the fragment's own family and size (which are those of the
//! fragment's first character); otherwise it opens a new fragment.

use crate::geometry::{
    lemma_contains_trans, lemma_union_contains, lemma_union_least, rect_union, union_rects, Rect,
};
use crate::glyphs::{font_size_matches, font_size_ok, CharView, CharacterMapping, FontSizeMatch};
use vstd::prelude::*;

verus! {

/// Mathematical image of a `PdfTextWord`.
#[verifier::ext_equal]
pub struct FragView {
    pub text: Seq<char>,
    pub family: Seq<char>,
    pub size: int,
    pub bounds: Rect,
}

impl FragView {
    /// Bounds well formed, size under the scaled cap.
    pub open spec fn wf(self) -> bool {
        &&& self.bounds.wf()
        &&& 0 <= self.size <= crate::geometry::SCALED_LIMIT
    }
}

/// One text fragment of the overlay: a word, or a sub-run of a word,
/// with merged bounds and the font metadata of its first character.
/// Geometry is in milli-points, already multiplied by the active scale.
#[derive(Debug, Clone)]
pub struct PdfTextWord {
    /// The fragment's characters, in consumption order.
    pub text: Vec<char>,
    /// Font family of the fragment's first character.
    pub font_family: String,
    /// Font size (milli-points, scaled) of the fragment's first character.
    pub font_size: u64,
    /// Union of the bounds of every character folded into the fragment.
    pub bounds: Rect,
}

impl View for PdfTextWord {
    type V = FragView;

    open spec fn view(&self) -> FragView {
        FragView {
            text: self.text@,
            family: self.font_family@,
            size: self.font_size as int,
            bounds: self.bounds,
        }
    }
}

/// The views of a sequence of character contributions.
pub open spec fn char_views(s: Seq<CharacterMapping>) -> Seq<CharView> {
    s.map_values(|c: CharacterMapping| c@)
}

/// The views of a sequence of fragments.
pub open spec fn frag_views(s: Seq<PdfTextWord>) -> Seq<FragView> {
    s.map_values(|w: PdfTextWord| w@)
}

/// Whether character `c` may be folded into the fragment `cur` under the
/// font-size policy `m` and the same-family requirement `rsf`.
pub open spec fn joins(cur: FragView, c: CharView, m: FontSizeMatch, rsf: bool) -> bool {
    &&& (!rsf || c.family == cur.family)
    &&& font_size_matches(m, c.size, cur.size)
}

/// The fragment opened by a single character.
pub open spec fn frag_of_char(c: CharView) -> FragView {
    FragView { text: seq![c.ch], family: c.family, size: c.size, bounds: c.bounds }
}

/// The fragment `f` extended by character `c`: the text grows, the bounds
/// widen to the union, family and size stay those of the first character.
pub open spec fn fold_char(f: FragView, c: CharView) -> FragView {
    FragView {
        text: f.text.push(c.ch),
        family: f.family,
        size: f.size,
        bounds: rect_union(f.bounds, c.bounds),
    }
}

/// The fragments produced by folding `chars` left to right.
pub open spec fn spec_words(chars: Seq<CharView>, m: FontSizeMatch, rsf: bool) -> Seq<FragView>
    decreases chars.len(),
{
    if chars.len() == 0 {
        Seq::empty()
    } else {
        let prev = spec_words(chars.drop_last(), m, rsf);
        let c = chars.last();
        if prev.len() > 0 && joins(prev.last(), c, m, rsf) {
            prev.update(prev.len() - 1, fold_char(prev.last(), c))
        } else {
            prev.push(frag_of_char(c))
        }
    }
}

/// Whether character `c` belongs to the group `g`: the test of `joins`,
/// stated against the group's first character.
pub open spec fn joins_group(g: Seq<CharView>, c: CharView, m: FontSizeMatch, rsf: bool) -> bool {
    &&& (!rsf || c.family == g[0].family)
    &&& font_size_matches(m, c.size, g[0].size)
}

/// The partition of `chars` into the consecutive runs that the fold turns
/// into one fragment each.
pub open spec fn spec_groups(chars: Seq<CharView>, m: FontSizeMatch, rsf: bool) -> Seq<
    Seq<CharView>,
>
    decreases chars.len(),
{
    if chars.len() == 0 {
        Seq::empty()
    } else {
        let prev = spec_groups(chars.drop_last(), m, rsf);
        let c = chars.last();
        if prev.len() > 0 && prev.last().len() > 0 && joins_group(prev.last(), c, m, rsf) {
            prev.update(prev.len() - 1, prev.last().push(c))
        } else {
            prev.push(seq![c])
        }
    }
}

/// The union of the bounds of a (nonempty) group of characters.
pub open spec fn group_bounds(g: Seq<CharView>) -> Rect
    decreases g.len(),
{
    if g.len() <= 1 {
        g[0].bounds
    } else {
        rect_union(group_bounds(g.drop_last()), g.last().bounds)
    }
}

/// The fragment a (nonempty) group folds into.
pub open spec fn fragment_of(g: Seq<CharView>) -> FragView {
    FragView {
        text: g.map_values(|c: CharView| c.ch),
        family: g[0].family,
        size: g[0].size,
        bounds: group_bounds(g),
    }
}

/// Every group of the partition holds at least one character.
pub proof fn lemma_groups_nonempty(chars: Seq<CharView>, m: FontSizeMatch, rsf: bool)
    ensures
        forall|j: int|
            0 <= j < spec_groups(chars, m, rsf).len() ==> #[trigger] spec_groups(
                chars,
                m,
                rsf,
            )[j].len() > 0,
    decreases chars.len(),
{
    if chars.len() > 0 {
        lemma_groups_nonempty(chars.drop_last(), m, rsf);
        let prev = spec_groups(chars.drop_last(), m, rsf);
        let cur = spec_groups(chars, m, rsf);
        assert forall|j: int| 0 <= j < cur.len() implies #[trigger] cur[j].len() > 0 by {
            if j < prev.len() {
                assert(prev[j].len() > 0);
            }
        }
    }
}

/// The fold and the partition agree: the fragments are exactly the groups,
/// each folded into one fragment.
pub proof fn lemma_words_are_groups(chars: Seq<CharView>, m: FontSizeMatch, rsf: bool)
    ensures
        spec_words(chars, m, rsf) == spec_groups(chars, m, rsf).map_values(
            |g: Seq<CharView>| fragment_of(g),
        ),
    decreases chars.len(),
{
    let f = |g: Seq<CharView>| fragment_of(g);
    if chars.len() == 0 {
        assert(spec_words(chars, m, rsf) =~= spec_groups(chars, m, rsf).map_values(f));
    } else {
        let sub = chars.drop_last();
        let c = chars.last();
        lemma_words_are_groups(sub, m, rsf);
        lemma_groups_nonempty(sub, m, rsf);
        let prev_w = spec_words(sub, m, rsf);
        let prev_g = spec_groups(sub, m, rsf);
        assert(prev_w == prev_g.map_values(f));
        assert(prev_w.len() == prev_g.len());
        if prev_g.len() > 0 {
            let k = prev_g.len() - 1;
            let g = prev_g.last();
            assert(prev_w.last() == f(g));
            assert(g.len() > 0);
            if joins_group(g, c, m, rsf) {
                // The group's first character carries the fragment's family
                // and size, so the two join tests agree.
                assert(joins(prev_w.last(), c, m, rsf));
                let folded = fold_char(prev_w.last(), c);
                let grown = g.push(c);
                assert(grown.drop_last() =~= g);
                assert(grown.len() >= 2);
                assert(group_bounds(grown) == rect_union(group_bounds(g), c.bounds));
                assert(grown.map_values(|cv: CharView| cv.ch) =~= g.map_values(
                    |cv: CharView| cv.ch,
                ).push(c.ch));
                assert(folded =~= fragment_of(grown));
                assert(spec_words(chars, m, rsf) =~= spec_groups(chars, m, rsf).map_values(f));
            } else {
                assert(!joins(prev_w.last(), c, m, rsf));
                assert(fragment_of(seq![c]) =~= frag_of_char(c));
                assert(spec_words(chars, m, rsf) =~= spec_groups(chars, m, rsf).map_values(f));
            }
        } else {
            assert(fragment_of(seq![c]) =~= frag_of_char(c));
            assert(spec_words(chars, m, rsf) =~= spec_groups(chars, m, rsf).map_values(f));
        }
    }
}

/// The union of a group's bounds contains the bounds of every character in
/// the group.
pub proof fn lemma_group_bounds_contain(g: Seq<CharView>)
    requires
        g.len() > 0,
    ensures
        forall|i: int| 0 <= i < g.len() ==> group_bounds(g).contains(#[trigger] g[i].bounds),
    decreases g.len(),
{
    if g.len() == 1 {
        assert(group_bounds(g).contains(g[0].bounds));
    } else {
        let sub = g.drop_last();
        lemma_group_bounds_contain(sub);
        lemma_union_contains(group_bounds(sub), g.last().bounds);
        assert forall|i: int| 0 <= i < g.len() implies group_bounds(g).contains(
            #[trigger] g[i].bounds,
        ) by {
            if i < g.len() - 1 {
                assert(sub[i] == g[i]);
                lemma_contains_trans(group_bounds(g), group_bounds(sub), g[i].bounds);
            }
        }
    }
}

/// Union invariant: each fragment's bounds contain the bounds of every
/// character folded into it.
pub proof fn lemma_fragment_bounds_contain_glyphs(
    chars: Seq<CharView>,
    m: FontSizeMatch,
    rsf: bool,
)
    ensures
        forall|j: int, i: int|
            0 <= j < spec_groups(chars, m, rsf).len() && 0 <= i < spec_groups(
                chars,
                m,
                rsf,
            )[j].len() ==> spec_words(chars, m, rsf)[j].bounds.contains(
                #[trigger] spec_groups(chars, m, rsf)[j][i].bounds,
            ),
{
    lemma_words_are_groups(chars, m, rsf);
    lemma_groups_nonempty(chars, m, rsf);
    let groups = spec_groups(chars, m, rsf);
    assert forall|j: int, i: int|
        0 <= j < groups.len() && 0 <= i < groups[j].len() implies spec_words(
        chars,
        m,
        rsf,
    )[j].bounds.contains(#[trigger] groups[j][i].bounds) by {
        lemma_group_bounds_contain(groups[j]);
        assert(spec_words(chars, m, rsf)[j] == fragment_of(groups[j]));
    }
}

/// A rectangle containing every folded character's bounds contains every
/// fragment's bounds: the fold never grows past the union of its inputs.
pub proof fn lemma_fold_bounds_within(
    chars: Seq<CharView>,
    m: FontSizeMatch,
    rsf: bool,
    outer: Rect,
)
    requires
        forall|i: int| 0 <= i < chars.len() ==> outer.contains((#[trigger] chars[i]).bounds),
    ensures
        forall|j: int|
            0 <= j < spec_words(chars, m, rsf).len() ==> outer.contains(
                (#[trigger] spec_words(chars, m, rsf)[j]).bounds,
            ),
    decreases chars.len(),
{
    if chars.len() > 0 {
        let sub = chars.drop_last();
        let c = chars.last();
        assert(forall|i: int| 0 <= i < sub.len() ==> sub[i] == chars[i]);
        lemma_fold_bounds_within(sub, m, rsf, outer);
        let prev = spec_words(sub, m, rsf);
        let cur = spec_words(chars, m, rsf);
        if prev.len() > 0 && joins(prev.last(), c, m, rsf) {
            assert forall|j: int| 0 <= j < cur.len() implies outer.contains(
                (#[trigger] cur[j]).bounds,
            ) by {
                if j == cur.len() - 1 {
                    lemma_union_least(outer, prev.last().bounds, c.bounds);
                } else {
                    assert(cur[j] == prev[j]);
                }
            }
        } else {
            assert forall|j: int| 0 <= j < cur.len() implies outer.contains(
                (#[trigger] cur[j]).bounds,
            ) by {
                if j < cur.len() - 1 {
                    assert(cur[j] == prev[j]);
                }
            }
        }
    }
}

/// The concatenation of the texts of a sequence of fragments.
pub open spec fn concat_texts(frags: Seq<FragView>) -> Seq<char>
    decreases frags.len(),
{
    if frags.len() == 0 {
        Seq::empty()
    } else {
        concat_texts(frags.drop_last()) + frags.last().text
    }
}

/// Concatenating texts distributes over appending fragment sequences.
pub proof fn lemma_concat_texts_app(a: Seq<FragView>, b: Seq<FragView>)
    ensures
        concat_texts(a + b) == concat_texts(a) + concat_texts(b),
    decreases b.len(),
{
    if b.len() == 0 {
        assert(a + b =~= a);
        assert(concat_texts(a) + concat_texts(b) =~= concat_texts(a));
    } else {
        lemma_concat_texts_app(a, b.drop_last());
        assert((a + b).drop_last() =~= a + b.drop_last());
        assert((a + b).last() == b.last());
        assert(concat_texts(a) + (concat_texts(b.drop_last()) + b.last().text) =~= (concat_texts(a)
            + concat_texts(b.drop_last())) + b.last().text);
    }
}

/// Text concatenation invariant: the fragment texts, concatenated in
/// order, are exactly the folded characters in consumption order; the fold
/// drops nothing.
pub proof fn lemma_fragment_text_concat(chars: Seq<CharView>, m: FontSizeMatch, rsf: bool)
    ensures
        concat_texts(spec_words(chars, m, rsf)) == chars.map_values(|c: CharView| c.ch),
    decreases chars.len(),
{
    let ch_of = |c: CharView| c.ch;
    if chars.len() == 0 {
        assert(concat_texts(spec_words(chars, m, rsf)) =~= chars.map_values(ch_of));
    } else {
        let sub = chars.drop_last();
        let c = chars.last();
        lemma_fragment_text_concat(sub, m, rsf);
        let prev = spec_words(sub, m, rsf);
        assert(concat_texts(prev) == sub.map_values(ch_of));
        let cur = spec_words(chars, m, rsf);
        if prev.len() > 0 && joins(prev.last(), c, m, rsf) {
            let folded = fold_char(prev.last(), c);
            assert(cur == prev.update(prev.len() - 1, folded));
            assert(cur.drop_last() =~= prev.drop_last());
            assert(cur.last() == folded);
            assert(concat_texts(cur) == concat_texts(prev.drop_last()) + prev.last().text.push(
                c.ch,
            ));
            assert(concat_texts(prev.drop_last()) + prev.last().text.push(c.ch) =~= (concat_texts(
                prev.drop_last(),
            ) + prev.last().text).push(c.ch));
            assert(concat_texts(cur) =~= chars.map_values(ch_of));
        } else {
            assert(cur == prev.push(frag_of_char(c)));
            assert(cur.drop_last() =~= prev);
            assert(concat_texts(cur) == concat_texts(prev) + seq![c.ch]);
            assert(concat_texts(cur) =~= chars.map_values(ch_of));
        }
    }
}

impl CharacterMapping {
    /// Fold a run of character contributions into text fragments, left to
    /// right, under the font-size policy and the same-family requirement.
    pub fn create_words(
        chars: &Vec<CharacterMapping>,
        font_size_match: &FontSizeMatch,
        require_same_font: bool,
    ) -> (words: Vec<PdfTextWord>)
        requires
            forall|i: int| 0 <= i < chars@.len() ==> (#[trigger] chars@[i])@.wf(),
        ensures
            frag_views(words@) == spec_words(
                char_views(chars@),
                *font_size_match,
                require_same_font,
            ),
            forall|j: int| 0 <= j < words@.len() ==> (#[trigger] words@[j])@.wf(),
    {
        let cvs = Ghost(char_views(chars@));
        let mut done: Vec<PdfTextWord> = Vec::new();
        let mut cur: Option<PdfTextWord> = None;
        let mut i: usize = 0;
        while i < chars.len()
            invariant
                i <= chars@.len(),
                cvs@ == char_views(chars@),
                cvs@.len() == chars@.len(),
                forall|k: int| 0 <= k < chars@.len() ==> (#[trigger] chars@[k])@.wf(),
                forall|k: int| 0 <= k < chars@.len() ==> cvs@[k] == chars@[k]@,
                match cur {
                    None => i == 0 && done@.len() == 0,
                    Some(w) => frag_views(done@).push(w@) == spec_words(
                        cvs@.take(i as int),
                        *font_size_match,
                        require_same_font,
                    ) && w@.wf(),
                },
                forall|j: int| 0 <= j < done@.len() ==> (#[trigger] done@[j])@.wf(),
            decreases chars@.len() - i,
        {
            let c = &chars[i];
            let ghost pre = cvs@.take(i as int);
            let ghost now = cvs@.take(i as int + 1);
            proof {
                assert(now.drop_last() =~= pre);
                assert(now.last() == cvs@[i as int]);
            }
            cur = match cur {
                None => {
                    proof {
                        assert(spec_words(pre, *font_size_match, require_same_font) =~= Seq::<
                            FragView,
                        >::empty());
                        assert(frag_views(done@) =~= Seq::<FragView>::empty());
                    }
                    Some(Self::open_fragment(c))
                },
                Some(w) => {
                    let same_family = !require_same_font || c.font_family == w.font_family;
                    let size_fits = font_size_ok(font_size_match, c.font_size, w.font_size);
                    if same_family && size_fits {
                        proof {
                            assert(joins(w@, c@, *font_size_match, require_same_font));
                        }
                        let mut w = w;
                        w.text.push(c.text);
                        w.bounds = union_rects(&w.bounds, &c.bounds);
                        proof {
                            lemma_union_contains(w@.bounds, c@.bounds);
                            let spec_pre = spec_words(pre, *font_size_match, require_same_font);
                            let spec_now = spec_words(now, *font_size_match, require_same_font);
                            assert(spec_now == spec_pre.update(
                                spec_pre.len() - 1,
                                fold_char(spec_pre.last(), cvs@[i as int]),
                            ));
                            assert(frag_views(done@).push(w@) =~= spec_now);
                        }
                        Some(w)
                    } else {
                        proof {
                            assert(!joins(w@, c@, *font_size_match, require_same_font));
                        }
                        let fresh = Self::open_fragment(c);
                        let ghost wv = w@;
                        done.push(w);
                        proof {
                            let spec_pre = spec_words(pre, *font_size_match, require_same_font);
                            let spec_now = spec_words(now, *font_size_match, require_same_font);
                            assert(frag_views(done@) =~= frag_views(done@.drop_last()).push(wv));
                            assert(spec_now == spec_pre.push(frag_of_char(cvs@[i as int])));
                            assert(frag_views(done@).push(fresh@) =~= spec_now);
                        }
                        Some(fresh)
                    }
                },
            };
            i = i + 1;
        }
        proof {
            assert(cvs@.take(chars@.len() as int) =~= cvs@);
        }
        match cur {
            None => {
                proof {
                    assert(frag_views(done@) =~= Seq::<FragView>::empty());
                    assert(spec_words(cvs@, *font_size_match, require_same_font) =~= Seq::<
                        FragView,
                    >::empty());
                }
                done
            },
            Some(w) => {
                let ghost wv = w@;
                done.push(w);
                proof {
                    assert(frag_views(done@) =~= frag_views(done@.drop_last()).push(wv));
                }
                done
            },
        }
    }

    /// Open a new fragment holding exactly this character.
    fn open_fragment(c: &CharacterMapping) -> (w: PdfTextWord)
        ensures
            w@ == frag_of_char(c@),
            c@.wf() ==> w@.wf(),
    {
        let mut text: Vec<char> = Vec::new();
        text.push(c.text);
        proof {
            assert(text@ =~= seq![c@.ch]);
        }
        PdfTextWord {
            text,
            font_family: c.font_family.clone(),
            font_size: c.font_size,
            bounds: c.bounds,
        }
    }
}

} // verus!
