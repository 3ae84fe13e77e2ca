//! The text fragment builder.
//!
//! Given a page's logical text, its glyph geometry stream, a configuration
//! and the active scale factor, reconstruct the page's text fragments in
//! reading order. Word boundaries come from the logical text; a single
//! forward cursor over the glyph stream, shared by all words of the page
//! and never rewound, pairs each expected character with the first
//! unconsumed glyph that renders it. A character with no matching glyph is
//! skipped and recorded; it never aborts the page.
//!
//! The forward-only cursor is a heuristic reconciliation of two
//! independently ordered views of the same content: when glyphs appear out
//! of reading order (repeated characters, right-to-left runs) it may pair
//! a character with a later duplicate. That approximation is accepted and
//! left as is.

use crate::fragments::{char_views, frag_views, spec_words, PdfTextWord};
use crate::geometry::SCALE_LIMIT;
use crate::glyphs::{char_contribution, glyph_contribution, CharView, CharacterMapping,
    GlyphRecord, GlyphView, TextLayerConfig};
use crate::words::{split_text, split_words, word_views};
use vstd::prelude::*;

verus! {

/// The views of a sequence of glyph records.
pub open spec fn glyph_views(s: Seq<GlyphRecord>) -> Seq<GlyphView> {
    s.map_values(|g: GlyphRecord| g@)
}

/// The least index at or after `from` whose glyph renders `c`.
pub open spec fn find_glyph(glyphs: Seq<GlyphView>, from: int, c: char) -> Option<int>
    decreases glyphs.len() - from,
{
    if from < 0 || from >= glyphs.len() {
        None
    } else if glyphs[from].ch == c {
        Some(from)
    } else {
        find_glyph(glyphs, from + 1, c)
    }
}

/// A found index lies in range and really is the first match.
pub proof fn lemma_find_glyph_props(glyphs: Seq<GlyphView>, from: int, c: char)
    ensures
        match find_glyph(glyphs, from, c) {
            Some(k) => from <= k < glyphs.len() && glyphs[k].ch == c,
            None => true,
        },
    decreases glyphs.len() - from,
{
    if 0 <= from < glyphs.len() && glyphs[from].ch != c {
        lemma_find_glyph_props(glyphs, from + 1, c);
    }
}

/// What matching one word against the glyph stream produces: the indices
/// of the consumed glyphs in consumption order, the cursor after the word,
/// and the characters that found no glyph.
pub struct WordMatch {
    pub idxs: Seq<int>,
    pub cursor: int,
    pub skipped: Seq<char>,
}

/// Match one word's characters, in order, against the glyph stream from
/// cursor `cur`. A hit consumes the glyph and moves the cursor past it; a
/// miss records the character and leaves the cursor in place.
pub open spec fn match_word(word: Seq<char>, glyphs: Seq<GlyphView>, cur: int) -> WordMatch
    decreases word.len(),
{
    if word.len() == 0 {
        WordMatch { idxs: Seq::empty(), cursor: cur, skipped: Seq::empty() }
    } else {
        match find_glyph(glyphs, cur, word[0]) {
            Some(k) => {
                let rest = match_word(word.drop_first(), glyphs, k + 1);
                WordMatch {
                    idxs: seq![k] + rest.idxs,
                    cursor: rest.cursor,
                    skipped: rest.skipped,
                }
            },
            None => {
                let rest = match_word(word.drop_first(), glyphs, cur);
                WordMatch {
                    idxs: rest.idxs,
                    cursor: rest.cursor,
                    skipped: seq![word[0]] + rest.skipped,
                }
            },
        }
    }
}

/// Every matched index is a real glyph index.
pub proof fn lemma_match_word_idxs_in_range(word: Seq<char>, glyphs: Seq<GlyphView>, cur: int)
    ensures
        forall|i: int|
            0 <= i < match_word(word, glyphs, cur).idxs.len() ==> 0 <= #[trigger] match_word(
                word,
                glyphs,
                cur,
            ).idxs[i] < glyphs.len(),
    decreases word.len(),
{
    if word.len() > 0 {
        let m = match_word(word, glyphs, cur);
        match find_glyph(glyphs, cur, word[0]) {
            Some(k) => {
                lemma_find_glyph_props(glyphs, cur, word[0]);
                lemma_match_word_idxs_in_range(word.drop_first(), glyphs, k + 1);
                let rest = match_word(word.drop_first(), glyphs, k + 1);
                assert forall|i: int| 0 <= i < m.idxs.len() implies 0 <= #[trigger] m.idxs[i]
                    < glyphs.len() by {
                    if i > 0 {
                        assert(m.idxs[i] == rest.idxs[i - 1]);
                    }
                }
            },
            None => {
                lemma_match_word_idxs_in_range(word.drop_first(), glyphs, cur);
                let rest = match_word(word.drop_first(), glyphs, cur);
                assert forall|i: int| 0 <= i < m.idxs.len() implies 0 <= #[trigger] m.idxs[i]
                    < glyphs.len() by {
                    assert(m.idxs[i] == rest.idxs[i]);
                }
            },
        }
    }
}

/// What building a page's whole word list produces.
pub struct PageBuild {
    pub frags: Seq<crate::fragments::FragView>,
    pub skipped: Seq<char>,
    pub cursor: int,
}

/// The contributions of the matched glyph indices under a configuration
/// and scale.
pub open spec fn contributions_of(
    idxs: Seq<int>,
    glyphs: Seq<GlyphView>,
    cfg: TextLayerConfig,
    s: int,
) -> Seq<CharView> {
    idxs.map_values(|k: int| glyph_contribution(glyphs[k], cfg, s))
}

/// Build the fragments of a list of words, left to right, sharing one
/// forward cursor across the words.
pub open spec fn build_words(
    words: Seq<Seq<char>>,
    glyphs: Seq<GlyphView>,
    cfg: TextLayerConfig,
    s: int,
    cur: int,
) -> PageBuild
    decreases words.len(),
{
    if words.len() == 0 {
        PageBuild { frags: Seq::empty(), skipped: Seq::empty(), cursor: cur }
    } else {
        let m = match_word(words[0], glyphs, cur);
        let frags = spec_words(
            contributions_of(m.idxs, glyphs, cfg, s),
            cfg.font_size_match,
            cfg.require_same_font,
        );
        let rest = build_words(words.drop_first(), glyphs, cfg, s, m.cursor);
        PageBuild {
            frags: frags + rest.frags,
            skipped: m.skipped + rest.skipped,
            cursor: rest.cursor,
        }
    }
}

/// The whole reconstruction: split the logical text into words, then build
/// their fragments with the cursor starting at the first glyph.
pub open spec fn spec_build(
    text: Seq<char>,
    glyphs: Seq<GlyphView>,
    cfg: TextLayerConfig,
    s: int,
) -> PageBuild {
    build_words(split_words(text), glyphs, cfg, s, 0)
}

/// Matching accounts for every character of the word: each one is either
/// matched to a glyph or skipped.
pub proof fn lemma_match_word_accounts(word: Seq<char>, glyphs: Seq<GlyphView>, cur: int)
    ensures
        match_word(word, glyphs, cur).idxs.len() + match_word(word, glyphs, cur).skipped.len()
            == word.len(),
    decreases word.len(),
{
    if word.len() > 0 {
        match find_glyph(glyphs, cur, word[0]) {
            Some(k) => {
                lemma_match_word_accounts(word.drop_first(), glyphs, k + 1);
            },
            None => {
                lemma_match_word_accounts(word.drop_first(), glyphs, cur);
            },
        }
    }
}

/// The characters the build actually folds: for each word in turn, the
/// characters of the glyphs its matching consumed.
pub open spec fn matched_chars(words: Seq<Seq<char>>, glyphs: Seq<GlyphView>, cur: int) -> Seq<
    char,
>
    decreases words.len(),
{
    if words.len() == 0 {
        Seq::empty()
    } else {
        let m = match_word(words[0], glyphs, cur);
        m.idxs.map_values(|k: int| glyphs[k].ch) + matched_chars(
            words.drop_first(),
            glyphs,
            m.cursor,
        )
    }
}

/// The total number of characters in a word list.
pub open spec fn total_chars(words: Seq<Seq<char>>) -> int
    decreases words.len(),
{
    if words.len() == 0 {
        0
    } else {
        words[0].len() + total_chars(words.drop_first())
    }
}

/// Character accounting of a whole build: the fragment texts, concatenated
/// in build order, are exactly the matched characters, and together with
/// the skipped characters they account for every character of every word —
/// nothing is dropped but what was skipped as unmatched.
pub proof fn lemma_build_char_accounting(
    words: Seq<Seq<char>>,
    glyphs: Seq<GlyphView>,
    cfg: TextLayerConfig,
    s: int,
    cur: int,
)
    ensures
        crate::fragments::concat_texts(build_words(words, glyphs, cfg, s, cur).frags)
            == matched_chars(words, glyphs, cur),
        matched_chars(words, glyphs, cur).len() + build_words(
            words,
            glyphs,
            cfg,
            s,
            cur,
        ).skipped.len() == total_chars(words),
    decreases words.len(),
{
    if words.len() == 0 {
        assert(crate::fragments::concat_texts(build_words(words, glyphs, cfg, s, cur).frags)
            =~= matched_chars(words, glyphs, cur));
    } else {
        let m = match_word(words[0], glyphs, cur);
        let contribs = contributions_of(m.idxs, glyphs, cfg, s);
        let head = spec_words(contribs, cfg.font_size_match, cfg.require_same_font);
        let rest = build_words(words.drop_first(), glyphs, cfg, s, m.cursor);
        lemma_build_char_accounting(words.drop_first(), glyphs, cfg, s, m.cursor);
        lemma_match_word_accounts(words[0], glyphs, cur);
        crate::fragments::lemma_fragment_text_concat(
            contribs,
            cfg.font_size_match,
            cfg.require_same_font,
        );
        crate::fragments::lemma_concat_texts_app(head, rest.frags);
        assert(contribs.map_values(|c: CharView| c.ch) =~= m.idxs.map_values(
            |k: int| glyphs[k].ch,
        ));
        assert(crate::fragments::concat_texts(build_words(words, glyphs, cfg, s, cur).frags)
            =~= matched_chars(words, glyphs, cur));
    }
}

/// Every fragment a build produces lies within the page's own bounds,
/// scaled: fragments are unions of scaled glyph bounds, and the glyph
/// bounds lie within the page.
pub proof fn lemma_build_frags_within(
    words: Seq<Seq<char>>,
    glyphs: Seq<GlyphView>,
    cfg: TextLayerConfig,
    s: int,
    cur: int,
    page: crate::geometry::Rect,
)
    requires
        page.wf_unscaled(),
        0 <= s <= SCALE_LIMIT,
        forall|i: int|
            0 <= i < glyphs.len() ==> (#[trigger] glyphs[i]).wf() && page.contains(
                glyphs[i].tight,
            ) && page.contains(glyphs[i].loose),
    ensures
        forall|j: int|
            0 <= j < build_words(words, glyphs, cfg, s, cur).frags.len()
                ==> crate::geometry::rect_scaled(page, s).contains(
                (#[trigger] build_words(words, glyphs, cfg, s, cur).frags[j]).bounds,
            ),
    decreases words.len(),
{
    if words.len() > 0 {
        let scaled_page = crate::geometry::rect_scaled(page, s);
        let m = match_word(words[0], glyphs, cur);
        lemma_match_word_idxs_in_range(words[0], glyphs, cur);
        let contribs = contributions_of(m.idxs, glyphs, cfg, s);
        assert forall|i: int| 0 <= i < contribs.len() implies scaled_page.contains(
            (#[trigger] contribs[i]).bounds,
        ) by {
            let k = m.idxs[i];
            assert(contribs[i] == glyph_contribution(glyphs[k], cfg, s));
            if cfg.use_precise_char_bounds {
                crate::geometry::lemma_rect_scaled_contains(page, glyphs[k].tight, s);
            } else {
                crate::geometry::lemma_rect_scaled_contains(page, glyphs[k].loose, s);
            }
        }
        let head = spec_words(contribs, cfg.font_size_match, cfg.require_same_font);
        crate::fragments::lemma_fold_bounds_within(
            contribs,
            cfg.font_size_match,
            cfg.require_same_font,
            scaled_page,
        );
        lemma_build_frags_within(words.drop_first(), glyphs, cfg, s, m.cursor, page);
        let rest = build_words(words.drop_first(), glyphs, cfg, s, m.cursor);
        let all = build_words(words, glyphs, cfg, s, cur);
        assert forall|j: int| 0 <= j < all.frags.len() implies scaled_page.contains(
            (#[trigger] all.frags[j]).bounds,
        ) by {
            if j < head.len() {
                assert(all.frags[j] == head[j]);
            } else {
                assert(all.frags[j] == rest.frags[j - head.len()]);
            }
        }
    }
}

/// Re-running the builder on the same glyph stream and configuration
/// yields identical fragments and identical skipped characters: the
/// reconstruction carries no hidden state between runs.
pub proof fn lemma_builder_idempotent(
    a: PageBuild,
    b: PageBuild,
    text: Seq<char>,
    glyphs: Seq<GlyphView>,
    cfg: TextLayerConfig,
    s: int,
)
    requires
        a == spec_build(text, glyphs, cfg, s),
        b == spec_build(text, glyphs, cfg, s),
    ensures
        a == b,
{
}

/// What one reconstruction pass hands back: the fragments in reading
/// order and the characters that were skipped for want of a glyph.
#[derive(Debug, Clone)]
pub struct TextLayerOutput {
    /// The reconstructed fragments, in reading order.
    pub fragments: Vec<PdfTextWord>,
    /// The characters of the logical text that matched no glyph.
    pub skipped: Vec<char>,
}

/// Find the first glyph at or after `from` rendering `c`.
fn find_from(glyphs: &Vec<GlyphRecord>, from: usize, c: char) -> (r: Option<usize>)
    ensures
        match r {
            Some(k) => find_glyph(glyph_views(glyphs@), from as int, c) == Some(k as int) && from
                <= k < glyphs@.len(),
            None => find_glyph(glyph_views(glyphs@), from as int, c) is None,
        },
{
    let ghost gv = glyph_views(glyphs@);
    let mut j: usize = from;
    while j < glyphs.len()
        invariant
            from <= j,
            gv == glyph_views(glyphs@),
            gv.len() == glyphs@.len(),
            forall|k: int| 0 <= k < glyphs@.len() ==> gv[k] == glyphs@[k]@,
            find_glyph(gv, from as int, c) == find_glyph(gv, j as int, c),
        decreases glyphs@.len() - j,
    {
        if glyphs[j].character == c {
            return Some(j);
        }
        j = j + 1;
    }
    None
}

/// Reconstruct the text fragments of one page.
///
/// `text` is the page's full logical text; `glyphs` the page's glyph
/// geometry stream in stream order; `scale` the active milli-scale factor
/// that is also driving the page's raster.
pub fn create_lines(
    text: &Vec<char>,
    glyphs: &Vec<GlyphRecord>,
    cfg: &TextLayerConfig,
    scale: u64,
) -> (out: TextLayerOutput)
    requires
        forall|i: int| 0 <= i < glyphs@.len() ==> (#[trigger] glyphs@[i]).wf(),
        scale <= SCALE_LIMIT,
    ensures
        frag_views(out.fragments@) == spec_build(
            text@,
            glyph_views(glyphs@),
            *cfg,
            scale as int,
        ).frags,
        out.skipped@ == spec_build(text@, glyph_views(glyphs@), *cfg, scale as int).skipped,
        forall|j: int| 0 <= j < out.fragments@.len() ==> (#[trigger] out.fragments@[j])@.wf(),
    {
    let ghost gv = glyph_views(glyphs@);
    let ghost total = spec_build(text@, gv, *cfg, scale as int);
    let words = split_text(text);
    let ghost wvs = word_views(words@);
    let glyph_count: usize = glyphs.len();
    let mut fragments: Vec<PdfTextWord> = Vec::new();
    let mut skipped: Vec<char> = Vec::new();
    let mut cursor: usize = 0;
    let mut wi: usize = 0;
    proof {
        assert(wvs.skip(0) =~= wvs);
        assert(frag_views(fragments@) =~= Seq::<crate::fragments::FragView>::empty());
        assert(total.frags =~= frag_views(fragments@) + total.frags);
        assert(total.skipped =~= skipped@ + total.skipped);
    }
    while wi < words.len()
        invariant
            wi <= words@.len(),
            gv == glyph_views(glyphs@),
            gv.len() == glyphs@.len(),
            forall|k: int| 0 <= k < glyphs@.len() ==> gv[k] == glyphs@[k]@,
            forall|k: int| 0 <= k < glyphs@.len() ==> (#[trigger] glyphs@[k]).wf(),
            scale <= SCALE_LIMIT,
            glyph_count == glyphs@.len(),
            wvs == word_views(words@),
            wvs.len() == words@.len(),
            forall|k: int| 0 <= k < words@.len() ==> wvs[k] == words@[k]@,
            total == spec_build(text@, gv, *cfg, scale as int),
            total.frags == frag_views(fragments@) + build_words(
                wvs.skip(wi as int),
                gv,
                *cfg,
                scale as int,
                cursor as int,
            ).frags,
            total.skipped == skipped@ + build_words(
                wvs.skip(wi as int),
                gv,
                *cfg,
                scale as int,
                cursor as int,
            ).skipped,
            total.cursor == build_words(
                wvs.skip(wi as int),
                gv,
                *cfg,
                scale as int,
                cursor as int,
            ).cursor,
            forall|j: int| 0 <= j < fragments@.len() ==> (#[trigger] fragments@[j])@.wf(),
        decreases words@.len() - wi,
    {
        let word = &words[wi];
        let ghost wv = wvs[wi as int];
        let ghost cursor0 = cursor as int;
        let ghost m_full = match_word(wv, gv, cursor0);
        let ghost skipped0 = skipped@;
        let mut contribs: Vec<CharacterMapping> = Vec::new();
        let mut ci: usize = 0;
        proof {
            let contrib_of = |k: int| glyph_contribution(gv[k], *cfg, scale as int);
            assert(wv.skip(0) =~= wv);
            assert(char_views(contribs@) =~= Seq::<CharView>::empty());
            assert(m_full.idxs.map_values(contrib_of) =~= char_views(contribs@)
                + m_full.idxs.map_values(contrib_of));
            assert(skipped@.skip(skipped0.len() as int) =~= Seq::<char>::empty());
            assert(m_full.skipped =~= skipped@.skip(skipped0.len() as int) + m_full.skipped);
            assert(skipped@.take(skipped0.len() as int) =~= skipped0);
        }
        while ci < word.len()
            invariant
                ci <= word@.len(),
                gv == glyph_views(glyphs@),
                gv.len() == glyphs@.len(),
                forall|k: int| 0 <= k < glyphs@.len() ==> gv[k] == glyphs@[k]@,
                forall|k: int| 0 <= k < glyphs@.len() ==> (#[trigger] glyphs@[k]).wf(),
                scale <= SCALE_LIMIT,
                glyph_count == glyphs@.len(),
                wv == word@,
                m_full == match_word(wv, gv, cursor0),
                skipped0.len() <= skipped@.len(),
                skipped@.take(skipped0.len() as int) == skipped0,
                m_full.idxs.map_values(
                    |k: int| glyph_contribution(gv[k], *cfg, scale as int),
                ) == char_views(contribs@) + match_word(
                    wv.skip(ci as int),
                    gv,
                    cursor as int,
                ).idxs.map_values(|k: int| glyph_contribution(gv[k], *cfg, scale as int)),
                m_full.skipped == skipped@.skip(skipped0.len() as int) + match_word(
                    wv.skip(ci as int),
                    gv,
                    cursor as int,
                ).skipped,
                m_full.cursor == match_word(wv.skip(ci as int), gv, cursor as int).cursor,
                forall|j: int| 0 <= j < contribs@.len() ==> (#[trigger] contribs@[j])@.wf(),
            decreases word@.len() - ci,
        {
            let c = word[ci];
            let ghost contrib_of = |k: int| glyph_contribution(gv[k], *cfg, scale as int);
            let ghost rem = match_word(wv.skip(ci as int), gv, cursor as int);
            proof {
                assert(wv.skip(ci as int)[0] == wv[ci as int]);
                assert(wv.skip(ci as int).drop_first() =~= wv.skip(ci as int + 1));
            }
            match find_from(glyphs, cursor, c) {
                Some(k) => {
                    let ghost rest = match_word(wv.skip(ci as int + 1), gv, k as int + 1);
                    proof {
                        assert(rem.idxs == seq![k as int] + rest.idxs);
                        assert(rem.idxs.map_values(contrib_of) =~= seq![
                            contrib_of(k as int),
                        ] + rest.idxs.map_values(contrib_of));
                    }
                    let contribution = char_contribution(&glyphs[k], cfg, scale);
                    contribs.push(contribution);
                    proof {
                        assert(k < glyph_count);
                    }
                    cursor = k + 1;
                    proof {
                        assert(char_views(contribs@) =~= char_views(contribs@.drop_last()).push(
                            contribution@,
                        ));
                        assert(char_views(contribs@) + rest.idxs.map_values(contrib_of)
                            =~= char_views(contribs@.drop_last()) + rem.idxs.map_values(
                            contrib_of,
                        ));
                    }
                },
                None => {
                    let ghost rest = match_word(wv.skip(ci as int + 1), gv, cursor as int);
                    proof {
                        assert(rem.skipped == seq![wv[ci as int]] + rest.skipped);
                    }
                    skipped.push(c);
                    proof {
                        assert(skipped@.take(skipped0.len() as int) =~= skipped0);
                        assert(skipped@.skip(skipped0.len() as int) =~= skipped@.drop_last().skip(
                            skipped0.len() as int,
                        ).push(wv[ci as int]));
                        assert(skipped@.skip(skipped0.len() as int) + rest.skipped
                            =~= skipped@.drop_last().skip(skipped0.len() as int) + rem.skipped);
                    }
                },
            }
            ci = ci + 1;
        }
        proof {
            assert(wv.skip(wv.len() as int) =~= Seq::<char>::empty());
            let done = match_word(wv.skip(wv.len() as int), gv, cursor as int);
            assert(done.idxs.map_values(
                |k: int| glyph_contribution(gv[k], *cfg, scale as int),
            ) =~= Seq::<CharView>::empty());
            assert(done.skipped =~= Seq::<char>::empty());
            assert(char_views(contribs@) + Seq::<CharView>::empty() =~= char_views(contribs@));
            assert(skipped@.skip(skipped0.len() as int) + Seq::<char>::empty() =~= skipped@.skip(
                skipped0.len() as int,
            ));
            assert(contributions_of(m_full.idxs, gv, *cfg, scale as int) == char_views(contribs@));
            assert(m_full.skipped == skipped@.skip(skipped0.len() as int));
            assert(m_full.cursor == cursor as int);
        }
        let mut word_frags = CharacterMapping::create_words(
            &contribs,
            &cfg.font_size_match,
            cfg.require_same_font,
        );
        let ghost wf_views = frag_views(word_frags@);
        let ghost frags_before = frag_views(fragments@);
        fragments.append(&mut word_frags);
        proof {
            assert(frag_views(fragments@) =~= frags_before + wf_views);
            assert(wvs.skip(wi as int)[0] == wv);
            assert(wvs.skip(wi as int).drop_first() =~= wvs.skip(wi as int + 1));
            let stepped = build_words(wvs.skip(wi as int), gv, *cfg, scale as int, cursor0);
            let rest = build_words(wvs.skip(wi as int + 1), gv, *cfg, scale as int, cursor as int);
            assert(stepped.frags == wf_views + rest.frags);
            assert(stepped.skipped == m_full.skipped + rest.skipped);
            assert(total.frags =~= frag_views(fragments@) + rest.frags);
            assert(skipped0 + (skipped@.skip(skipped0.len() as int) + rest.skipped) =~= skipped@
                + rest.skipped);
            assert(total.skipped =~= skipped@ + rest.skipped);
        }
        wi = wi + 1;
    }
    proof {
        assert(wvs.skip(words@.len() as int) =~= Seq::<Seq<char>>::empty());
        let done = build_words(
            wvs.skip(words@.len() as int),
            gv,
            *cfg,
            scale as int,
            cursor as int,
        );
        assert(done.frags =~= Seq::<crate::fragments::FragView>::empty());
        assert(done.skipped =~= Seq::<char>::empty());
        assert(total.frags =~= frag_views(fragments@));
        assert(total.skipped =~= skipped@);
    }
    TextLayerOutput { fragments, skipped }
}

} // verus!
