//! Splitting a page's logical text into words.
//!
//! The page's full text string is the ground truth for word boundaries:
//! it is split on whitespace (line breaks included), empty runs dropped,
//! so the words come out in reading order regardless of the order of the
//! glyph geometry stream.

use vstd::prelude::*;

verus! {

/// The Unicode whitespace characters: word separators of the logical text.
pub open spec fn is_space(c: char) -> bool {
    ||| c == ' '
    ||| c == '\t'
    ||| c == '\n'
    ||| c == '\r'
    ||| c == '\u{b}'
    ||| c == '\u{c}'
    ||| c == '\u{85}'
    ||| c == '\u{a0}'
    ||| c == '\u{1680}'
    ||| ('\u{2000}' <= c && c <= '\u{200a}')
    ||| c == '\u{2028}'
    ||| c == '\u{2029}'
    ||| c == '\u{202f}'
    ||| c == '\u{205f}'
    ||| c == '\u{3000}'
}

/// Decide whether `c` is a word separator.
pub fn char_is_space(c: char) -> (r: bool)
    ensures
        r == is_space(c),
{
    c == ' ' || c == '\t' || c == '\n' || c == '\r' || c == '\u{b}' || c == '\u{c}' || c == '\u{85}'
        || c == '\u{a0}' || c == '\u{1680}' || ('\u{2000}' <= c && c <= '\u{200a}') || c
        == '\u{2028}' || c == '\u{2029}' || c == '\u{202f}' || c == '\u{205f}' || c == '\u{3000}'
}

/// Copy a character vector.
pub fn clone_chars(v: &Vec<char>) -> (r: Vec<char>)
    ensures
        r@ == v@,
{
    let mut r: Vec<char> = Vec::new();
    let mut i: usize = 0;
    while i < v.len()
        invariant
            i <= v@.len(),
            r@ == v@.take(i as int),
        decreases v@.len() - i,
    {
        r.push(v[i]);
        proof {
            assert(r@ =~= v@.take(i as int + 1));
        }
        i = i + 1;
    }
    proof {
        assert(v@.take(v@.len() as int) =~= v@);
    }
    r
}

/// The words of `text`: maximal runs of non-whitespace characters, in
/// order, each nonempty.
pub open spec fn split_words(text: Seq<char>) -> Seq<Seq<char>>
    decreases text.len(),
{
    if text.len() == 0 {
        Seq::empty()
    } else {
        let prev = split_words(text.drop_last());
        let c = text.last();
        if is_space(c) {
            prev
        } else if text.len() >= 2 && !is_space(text[text.len() - 2]) && prev.len() > 0 {
            prev.update(prev.len() - 1, prev.last().push(c))
        } else {
            prev.push(seq![c])
        }
    }
}

/// The views of a vector of words.
pub open spec fn word_views(s: Seq<Vec<char>>) -> Seq<Seq<char>> {
    s.map_values(|w: Vec<char>| w@)
}

/// Split the logical text into its whitespace-separated words.
pub fn split_text(text: &Vec<char>) -> (words: Vec<Vec<char>>)
    ensures
        word_views(words@) == split_words(text@),
{
    let mut done: Vec<Vec<char>> = Vec::new();
    let mut cur: Option<Vec<char>> = None;
    let mut i: usize = 0;
    while i < text.len()
        invariant
            i <= text@.len(),
            match cur {
                None => {
                    &&& (i == 0 || is_space(text@[i as int - 1]))
                    &&& word_views(done@) == split_words(text@.take(i as int))
                },
                Some(w) => {
                    &&& i > 0
                    &&& !is_space(text@[i as int - 1])
                    &&& word_views(done@).push(w@) == split_words(text@.take(i as int))
                },
            },
        decreases text@.len() - i,
    {
        let c = text[i];
        let ghost pre = text@.take(i as int);
        let ghost now = text@.take(i as int + 1);
        proof {
            assert(now.drop_last() =~= pre);
            assert(now.last() == text@[i as int]);
        }
        let sp = char_is_space(c);
        cur = match cur {
            None => {
                if sp {
                    None
                } else {
                    let mut w: Vec<char> = Vec::new();
                    w.push(c);
                    proof {
                        assert(split_words(now) == split_words(pre).push(seq![c]));
                        assert(w@ =~= seq![c]);
                    }
                    Some(w)
                }
            },
            Some(w) => {
                if sp {
                    let ghost wv = w@;
                    done.push(w);
                    proof {
                        assert(word_views(done@) =~= word_views(done@.drop_last()).push(wv));
                    }
                    None
                } else {
                    proof {
                        let prev = split_words(pre);
                        assert(prev.len() == word_views(done@).len() + 1);
                        assert(split_words(now) == prev.update(prev.len() - 1, prev.last().push(c)));
                    }
                    let mut w = w;
                    w.push(c);
                    proof {
                        assert(word_views(done@).push(w@) =~= split_words(now));
                    }
                    Some(w)
                }
            },
        };
        i = i + 1;
    }
    proof {
        assert(text@.take(text@.len() as int) =~= text@);
    }
    match cur {
        None => done,
        Some(w) => {
            let ghost wv = w@;
            let mut done = done;
            done.push(w);
            proof {
                assert(word_views(done@) =~= word_views(done@.drop_last()).push(wv));
            }
            done
        },
    }
}

} // verus!
