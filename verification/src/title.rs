//! Title extraction: scan a rendered HTML fragment for the first level-1
//! heading and take its inner text as the page title, with a fixed default
//! when no heading is found.

use vstd::prelude::*;
use vstd::string::StrSliceExecFns;
use crate::text::find_first;
use crate::text::is_match_at;

verus! {

/// `pat` occurs somewhere in `s`.
pub open spec fn has_match(s: Seq<char>, pat: Seq<char>) -> bool {
    exists|i: int| is_match_at(s, pat, i)
}

/// `i` is the leftmost index at which `pat` occurs in `s`.
pub open spec fn is_first_match(s: Seq<char>, pat: Seq<char>, i: int) -> bool {
    &&& is_match_at(s, pat, i)
    &&& forall|k: int| 0 <= k < i ==> !is_match_at(s, pat, k)
}

/// The leftmost index at which `pat` occurs in `s`; meaningful only when
/// `has_match(s, pat)` holds.
pub open spec fn first_match(s: Seq<char>, pat: Seq<char>) -> int {
    choose|i: int| is_first_match(s, pat, i)
}

/// Wherever some occurrence exists, a leftmost occurrence exists.
pub proof fn lemma_first_match_exists(s: Seq<char>, pat: Seq<char>)
    requires
        has_match(s, pat),
    ensures
        is_first_match(s, pat, first_match(s, pat)),
{
    let j = choose|j: int| is_match_at(s, pat, j);
    lemma_first_match_exists_below(s, pat, j);
    let i = choose|i: int| is_first_match(s, pat, i);
    assert(is_first_match(s, pat, first_match(s, pat)));
}

proof fn lemma_first_match_exists_below(s: Seq<char>, pat: Seq<char>, j: int)
    requires
        is_match_at(s, pat, j),
    ensures
        exists|i: int| is_first_match(s, pat, i),
    decreases j,
{
    if forall|k: int| 0 <= k < j ==> !is_match_at(s, pat, k) {
        assert(is_first_match(s, pat, j));
    } else {
        let k = choose|k: int| 0 <= k < j && is_match_at(s, pat, k);
        lemma_first_match_exists_below(s, pat, k);
    }
}

/// The leftmost occurrence is unique.
pub proof fn lemma_first_match_unique(s: Seq<char>, pat: Seq<char>, i1: int, i2: int)
    requires
        is_first_match(s, pat, i1),
        is_first_match(s, pat, i2),
    ensures
        i1 == i2,
{
    if i1 < i2 {
        assert(!is_match_at(s, pat, i1));
    } else if i2 < i1 {
        assert(!is_match_at(s, pat, i2));
    }
}

/// The inner text of the first `<h1>` element of `h`, if `h` holds one:
/// the text between the first `<h1>` and the first `</h1>` that follows it.
pub open spec fn title_of(h: Seq<char>) -> Option<Seq<char>> {
    if has_match(h, "<h1>"@) {
        let start = first_match(h, "<h1>"@);
        if has_match(h.skip(start), "</h1>"@) {
            let e = first_match(h.skip(start), "</h1>"@);
            Some(h.subrange(start + 4, start + e))
        } else {
            None
        }
    } else {
        None
    }
}

/// A closing tag found after the opening `<h1>` cannot begin inside it,
/// so the inner text is a well-formed range.
proof fn lemma_close_after_open(t: Seq<char>, e: int)
    requires
        is_match_at(t, "<h1>"@, 0),
        is_match_at(t, "</h1>"@, e),
    ensures
        e >= 4,
{
    reveal_strlit("<h1>");
    reveal_strlit("</h1>");
    assert(t.subrange(0, 4)[1] == t[1]);
    assert(t.subrange(0, 4)[2] == t[2]);
    assert(t.subrange(0, 4)[3] == t[3]);
    if e < 4 {
        assert(t.subrange(e, e + 5)[0] == t[e]);
        assert(t.subrange(e, e + 5)[1] == t[e + 1]);
        assert(t[e] == '<' && t[e + 1] == '/');
        assert(t[1] == 'h' && t[2] == '1' && t[3] == '>');
        assert(false);
    }
}

/// Scan a rendered HTML fragment for its first level-1 heading; the inner
/// text of that heading is the title. Tolerates absent or unclosed headings
/// by returning nothing.
pub fn extract_title_from_html(html_content: &str) -> (r: Option<String>)
    ensures
        match r {
            Some(t) => title_of(html_content@) == Some(t@),
            None => title_of(html_content@) is None,
        },
{
    proof {
        reveal_strlit("<h1>");
        reveal_strlit("</h1>");
    }
    let s_len = html_content.unicode_len();
    let h = html_content;
    match find_first(h, "<h1>") {
        None => {
            proof {
                assert(!has_match(h@, "<h1>"@));
            }
            None
        },
        Some(start) => {
            proof {
                assert(is_first_match(h@, "<h1>"@, start as int));
                assert(has_match(h@, "<h1>"@));
                lemma_first_match_exists(h@, "<h1>"@);
                lemma_first_match_unique(
                    h@,
                    "<h1>"@,
                    start as int,
                    first_match(h@, "<h1>"@),
                );
            }
            let tail = h.substring_char(start, s_len);
            proof {
                assert(tail@ =~= h@.skip(start as int));
            }
            match find_first(tail, "</h1>") {
                None => {
                    proof {
                        assert(!has_match(h@.skip(start as int), "</h1>"@));
                    }
                    None
                },
                Some(e) => {
                    proof {
                        assert(is_first_match(h@.skip(start as int), "</h1>"@, e as int));
                        assert(has_match(h@.skip(start as int), "</h1>"@));
                        lemma_first_match_exists(h@.skip(start as int), "</h1>"@);
                        lemma_first_match_unique(
                            h@.skip(start as int),
                            "</h1>"@,
                            e as int,
                            first_match(h@.skip(start as int), "</h1>"@),
                        );
                        assert(is_match_at(tail@, "<h1>"@, 0)) by {
                            assert(tail@.subrange(0, 4) =~= h@.subrange(
                                start as int,
                                start + 4,
                            ));
                        }
                        lemma_close_after_open(tail@, e as int);
                    }
                    let t = tail.substring_char(4, e);
                    proof {
                        assert(t@ =~= h@.subrange(start + 4, start + e));
                    }
                    Some(t.to_owned())
                },
            }
        },
    }
}

/// The page title for a rendered fragment: the first level-1 heading's
/// inner text when one is present, the fixed default name otherwise.
pub fn page_title(html_content: &str) -> (r: String)
    ensures
        title_of(html_content@) is Some ==> Some(r@) == title_of(html_content@),
        title_of(html_content@) is None ==> r@ == "mdow"@,
{
    match extract_title_from_html(html_content) {
        Some(t) => t,
        None => "mdow".to_owned(),
    }
}

} // verus!
