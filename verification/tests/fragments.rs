use pdf_viewer_core::fragments::PdfTextWord;
use pdf_viewer_core::geometry::Rect;
use pdf_viewer_core::glyphs::{font_size_ok, CharacterMapping, FontSizeMatch};

fn rect(left: u64, bottom: u64, right: u64, top: u64) -> Rect {
    Rect { left, bottom, right, top }
}

fn ch(c: char, family: &str, size: u64, bounds: Rect) -> CharacterMapping {
    CharacterMapping { text: c, font_family: family.to_string(), font_size: size, bounds }
}

fn words(chars: Vec<CharacterMapping>, m: FontSizeMatch, same_font: bool) -> Vec<PdfTextWord> {
    CharacterMapping::create_words(&chars, &m, same_font)
}

#[test]
fn tolerant_boundary_merges_within_delta() {
    // Sizes 10.0pt and 11.5pt under Tolerant(2.0pt): one fragment.
    let chars = vec![
        ch('a', "Serif", 10_000, rect(0, 0, 1_000, 2_000)),
        ch('b', "Serif", 11_500, rect(1_000, 0, 2_000, 2_000)),
    ];
    let out = words(chars, FontSizeMatch::Tolerant(2_000), false);
    assert_eq!(out.len(), 1);
    assert_eq!(out[0].text, vec!['a', 'b']);
    assert_eq!(out[0].font_size, 10_000);
}

#[test]
fn tolerant_boundary_splits_past_delta() {
    // Sizes 10.0pt and 13.0pt under Tolerant(2.0pt): two fragments.
    let chars = vec![
        ch('a', "Serif", 10_000, rect(0, 0, 1_000, 2_000)),
        ch('b', "Serif", 13_000, rect(1_000, 0, 2_000, 2_000)),
    ];
    let out = words(chars, FontSizeMatch::Tolerant(2_000), false);
    assert_eq!(out.len(), 2);
    assert_eq!(out[0].text, vec!['a']);
    assert_eq!(out[1].text, vec!['b']);
    assert_eq!(out[1].font_size, 13_000);
}

#[test]
fn tolerant_policy_exact_boundary_is_inclusive() {
    assert!(font_size_ok(&FontSizeMatch::Tolerant(2_000), 10_000, 12_000));
    assert!(!font_size_ok(&FontSizeMatch::Tolerant(2_000), 10_000, 12_001));
}

#[test]
fn strict_policy_compares_rounded_points() {
    // 10.4pt rounds to 10, 10.6pt rounds to 11: split.
    assert!(!font_size_ok(&FontSizeMatch::Strict, 10_400, 10_600));
    // 10.4pt and 9.6pt both round to 10: merge.
    assert!(font_size_ok(&FontSizeMatch::Strict, 10_400, 9_600));
}

#[test]
fn any_policy_ignores_size() {
    let chars = vec![
        ch('a', "Serif", 5_000, rect(0, 0, 1_000, 2_000)),
        ch('b', "Serif", 90_000, rect(1_000, 0, 2_000, 2_000)),
    ];
    let out = words(chars, FontSizeMatch::Any, false);
    assert_eq!(out.len(), 1);
    assert_eq!(out[0].text, vec!['a', 'b']);
}

#[test]
fn same_font_requirement_splits_on_family_change() {
    let chars = vec![
        ch('a', "Serif", 10_000, rect(0, 0, 1_000, 2_000)),
        ch('b', "Mono", 10_000, rect(1_000, 0, 2_000, 2_000)),
    ];
    let split = words(chars, FontSizeMatch::Any, true);
    assert_eq!(split.len(), 2);
    assert_eq!(split[0].font_family, "Serif");
    assert_eq!(split[1].font_family, "Mono");

    let chars = vec![
        ch('a', "Serif", 10_000, rect(0, 0, 1_000, 2_000)),
        ch('b', "Mono", 10_000, rect(1_000, 0, 2_000, 2_000)),
    ];
    let merged = words(chars, FontSizeMatch::Any, false);
    assert_eq!(merged.len(), 1);
    assert_eq!(merged[0].font_family, "Serif");
}

#[test]
fn fragment_bounds_union_contains_every_glyph() {
    let a = rect(100, 50, 900, 1_800);
    let b = rect(800, 20, 1_700, 2_100);
    let c = rect(1_600, 80, 2_500, 1_900);
    let chars = vec![
        ch('x', "Serif", 10_000, a),
        ch('y', "Serif", 10_000, b),
        ch('z', "Serif", 10_000, c),
    ];
    let out = words(chars, FontSizeMatch::Any, false);
    assert_eq!(out.len(), 1);
    let u = out[0].bounds;
    assert_eq!(u, rect(100, 20, 2_500, 2_100));
    for g in [a, b, c] {
        assert!(u.left <= g.left && u.bottom <= g.bottom);
        assert!(g.right <= u.right && g.top <= u.top);
    }
}

#[test]
fn fragment_text_is_concatenation_in_order() {
    let chars = vec![
        ch('w', "Serif", 10_000, rect(0, 0, 1, 1)),
        ch('o', "Serif", 10_000, rect(1, 0, 2, 1)),
        ch('r', "Serif", 10_000, rect(2, 0, 3, 1)),
        ch('d', "Serif", 10_000, rect(3, 0, 4, 1)),
    ];
    let out = words(chars, FontSizeMatch::Any, false);
    assert_eq!(out.len(), 1);
    assert_eq!(out[0].text, vec!['w', 'o', 'r', 'd']);
}

#[test]
fn create_words_of_nothing_is_empty() {
    let out = words(Vec::new(), FontSizeMatch::Any, false);
    assert!(out.is_empty());
}

#[test]
fn mid_word_font_change_yields_adjacent_fragments() {
    // Bold mid-word emphasis: a genuine family transition inside one word.
    let chars = vec![
        ch('a', "Serif", 10_000, rect(0, 0, 1_000, 2_000)),
        ch('b', "Serif-Bold", 10_000, rect(1_000, 0, 2_000, 2_000)),
        ch('c', "Serif-Bold", 10_000, rect(2_000, 0, 3_000, 2_000)),
        ch('d', "Serif", 10_000, rect(3_000, 0, 4_000, 2_000)),
    ];
    let out = words(chars, FontSizeMatch::Any, true);
    assert_eq!(out.len(), 3);
    assert_eq!(out[0].text, vec!['a']);
    assert_eq!(out[1].text, vec!['b', 'c']);
    assert_eq!(out[2].text, vec!['d']);
}

#[test]
fn default_policy_is_five_point_tolerance() {
    assert!(matches!(FontSizeMatch::default(), FontSizeMatch::Tolerant(5_000)));
}
