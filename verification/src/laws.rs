//! Properties that tie the library's operations together.

use vstd::prelude::*;

use crate::capture::{
    describes_monitor, describes_window, has_window_id, is_first_match, is_listed,
    lemma_listed_is_visible_filter, listed_windows, no_match, or_empty, or_false, or_zero,
    title_matches, MonitorInfo, MonitorRecord, WindowInfo, WindowRecord,
};
use crate::imaging::{
    format_of_lowercase, format_of_name, scaled_height, scaled_version, width_limit, ImageFormat,
    DEFAULT_MAX_WIDTH,
};
use crate::text::{
    ascii_lower, ascii_lowercase, ascii_upper, ascii_uppercase, is_ascii_text, is_substring,
    lowercase, occurs_at,
};

verus! {

/// Every listed window is one of the reported windows, and satisfies the
/// listing rule.
pub proof fn lemma_listed_windows_are_reported(ws: Seq<WindowRecord>, k: int)
    requires
        0 <= k < listed_windows(ws).len(),
    ensures
        is_listed(listed_windows(ws)[k]),
        exists|i: int| 0 <= i < ws.len() && ws[i] == listed_windows(ws)[k],
    decreases ws.len(),
{
    let rest = listed_windows(ws.drop_last());
    if k < rest.len() {
        lemma_listed_windows_are_reported(ws.drop_last(), k);
        let i = choose|i: int| 0 <= i < ws.drop_last().len() && ws.drop_last()[i] == rest[k];
        assert(ws[i] == listed_windows(ws)[k]);
    } else {
        assert(listed_windows(ws)[k] == ws.last());
        assert(ws[ws.len() - 1] == listed_windows(ws)[k]);
    }
}

/// A text holds itself.
pub proof fn lemma_substring_reflexive(s: Seq<char>)
    ensures
        is_substring(s, s),
{
    assert(s.subrange(0, s.len() as int) =~= s);
    assert(occurs_at(s, s, 0));
}

/// The id of any listed window finds a window: asked for that id,
/// `find_window` answers with a window rather than an error.
pub proof fn lemma_listed_ids_are_found(ws: Seq<WindowRecord>, k: int)
    requires
        0 <= k < listed_windows(ws).len(),
    ensures
        !no_match(ws, |w: WindowRecord| has_window_id(w, or_zero(listed_windows(ws)[k].id))),
{
    lemma_listed_windows_are_reported(ws, k);
    let i = choose|i: int| 0 <= i < ws.len() && ws[i] == listed_windows(ws)[k];
    assert(has_window_id(ws[i], or_zero(listed_windows(ws)[k].id)));
}

/// The title of any listed window finds a window: asked for that title,
/// `find_window` answers with a window rather than an error.
pub proof fn lemma_listed_titles_are_found(ws: Seq<WindowRecord>, k: int)
    requires
        0 <= k < listed_windows(ws).len(),
    ensures
        !no_match(
            ws,
            |w: WindowRecord| title_matches(w, lowercase(or_empty(listed_windows(ws)[k].title))),
        ),
{
    lemma_listed_windows_are_reported(ws, k);
    let i = choose|i: int| 0 <= i < ws.len() && ws[i] == listed_windows(ws)[k];
    lemma_substring_reflexive(lowercase(or_empty(ws[i].title)));
    assert(title_matches(ws[i], lowercase(or_empty(listed_windows(ws)[k].title))));
}

/// Format names are read without regard to case: two names with the same
/// lower-case form pick the same format.
pub proof fn lemma_format_name_ignores_case(a: Seq<char>, b: Seq<char>)
    requires
        lowercase(a) == lowercase(b),
    ensures
        format_of_name(Some(a)) == format_of_name(Some(b)),
{
}

/// PNG is the default: with no name, or a name whose lower-case form is
/// neither `jpeg` nor `jpg`, the format is PNG.
pub proof fn lemma_png_is_default(name: Option<Seq<char>>)
    requires
        name matches Some(n) ==> lowercase(n) != "jpeg"@ && lowercase(n) != "jpg"@,
    ensures
        format_of_name(name) == ImageFormat::Png,
{
}

/// Making an ASCII char capital and then small gives the same as making it
/// small.
pub proof fn lemma_ascii_char_case(c: char)
    requires
        (c as u32) < 128,
    ensures
        (ascii_upper(c) as u32) < 128,
        ascii_lower(ascii_upper(c)) == ascii_lower(c),
{
    if 'a' <= c && c <= 'z' {
        assert(('a' as u32) == 97 && ('z' as u32) == 122 && ('A' as u32) == 65 && ('Z' as u32) == 90);
        let u = ((c as u32) - 32) as char;
        assert(u as u32 == c as u32 - 32);
        assert('A' <= u && u <= 'Z');
        assert(((u as u32) + 32) as char == c);
    }
}

/// An ASCII text written in capitals stays ASCII, and folds to the same small
/// letters as the text itself.
pub proof fn lemma_ascii_text_case(t: Seq<char>)
    requires
        is_ascii_text(t),
    ensures
        is_ascii_text(ascii_uppercase(t)),
        ascii_lowercase(ascii_uppercase(t)) == ascii_lowercase(t),
{
    assert forall|i: int| 0 <= i < t.len() implies (#[trigger] ascii_uppercase(t)[i] as u32) < 128
        && ascii_lower(ascii_uppercase(t)[i]) == ascii_lower(t[i]) by {
        lemma_ascii_char_case(t[i]);
    }
    assert(ascii_lowercase(ascii_uppercase(t)) =~= ascii_lowercase(t));
}

/// Title search ignores the case of an ASCII query: two ASCII queries that
/// fold to the same small letters (such as a query and the query in capitals)
/// set the same condition on windows, and `find_window`'s contract fixes its
/// answer by that condition (the first window that meets it, or an error when
/// none does); so both find the same window, or both fail.
pub proof fn lemma_title_search_ignores_ascii_case(a: Seq<char>, b: Seq<char>)
    requires
        is_ascii_text(a),
        is_ascii_text(b),
        ascii_lowercase(a) == ascii_lowercase(b),
    ensures
        (|w: WindowRecord| title_matches(w, ascii_lowercase(a))) == (|w: WindowRecord|
            title_matches(w, ascii_lowercase(b))),
{
    assert((|w: WindowRecord| title_matches(w, ascii_lowercase(a))) =~= (|w: WindowRecord|
        title_matches(w, ascii_lowercase(b))));
}

/// Format names ignore the case of ASCII letters: an ASCII name and the same
/// name in capitals pick the same format (`from_str_opt` reads an ASCII name
/// through its ASCII small letters).
pub proof fn lemma_format_name_ignores_ascii_case(n: Seq<char>)
    requires
        is_ascii_text(n),
    ensures
        is_ascii_text(ascii_uppercase(n)),
        format_of_lowercase(Some(ascii_lowercase(ascii_uppercase(n)))) == format_of_lowercase(
            Some(ascii_lowercase(n)),
        ),
{
    lemma_ascii_text_case(n);
}

/// A window found by a title search is the first whose own title, folded to
/// lower case, holds the lower-cased query: no other property of a window
/// (its app name among them) takes part.
pub proof fn lemma_title_search_matches_titles(ws: Seq<WindowRecord>, i: int, q: Seq<char>)
    requires
        is_first_match(ws, i, |w: WindowRecord| title_matches(w, lowercase(q))),
    ensures
        0 <= i < ws.len(),
        is_substring(lowercase(q), lowercase(or_empty(ws[i].title))),
        forall|j: int|
            0 <= j < i ==> !is_substring(lowercase(q), lowercase(or_empty(#[trigger] ws[j].title))),
{
    assert forall|j: int| 0 <= j < i implies !is_substring(
        lowercase(q),
        lowercase(or_empty(#[trigger] ws[j].title)),
    ) by {
        assert(!title_matches(ws[j], lowercase(q)));
    }
}

/// A title search finds nothing exactly when no window's own title, folded to
/// lower case, holds the lower-cased query.
pub proof fn lemma_title_search_misses_only_without_title_match(ws: Seq<WindowRecord>, q: Seq<char>)
    ensures
        no_match(ws, |w: WindowRecord| title_matches(w, lowercase(q))) <==> forall|j: int|
            0 <= j < ws.len() ==> !is_substring(lowercase(q), lowercase(or_empty(#[trigger] ws[j].title))),
{
    if no_match(ws, |w: WindowRecord| title_matches(w, lowercase(q))) {
        assert forall|j: int| 0 <= j < ws.len() implies !is_substring(
            lowercase(q),
            lowercase(or_empty(#[trigger] ws[j].title)),
        ) by {
            assert(!title_matches(ws[j], lowercase(q)));
        }
    }
    if forall|j: int|
        0 <= j < ws.len() ==> !is_substring(lowercase(q), lowercase(or_empty(#[trigger] ws[j].title))) {
        assert forall|j: int| 0 <= j < ws.len() implies !title_matches(#[trigger] ws[j], lowercase(q)) by {
            assert(!is_substring(lowercase(q), lowercase(or_empty(ws[j].title))));
        }
    }
}

/// Two window lists that agree on every title get the same answer from a title
/// search, whatever their app names, sizes or other properties: the same
/// position, or no match in both.
pub proof fn lemma_title_search_ignores_other_properties(
    ws1: Seq<WindowRecord>,
    ws2: Seq<WindowRecord>,
    q: Seq<char>,
    i: int,
)
    requires
        ws1.len() == ws2.len(),
        forall|j: int| 0 <= j < ws1.len() ==> or_empty(#[trigger] ws1[j].title) == or_empty(ws2[j].title),
    ensures
        is_first_match(ws1, i, |w: WindowRecord| title_matches(w, lowercase(q))) <==> is_first_match(
            ws2,
            i,
            |w: WindowRecord| title_matches(w, lowercase(q)),
        ),
        no_match(ws1, |w: WindowRecord| title_matches(w, lowercase(q))) <==> no_match(
            ws2,
            |w: WindowRecord| title_matches(w, lowercase(q)),
        ),
{
    let p = |w: WindowRecord| title_matches(w, lowercase(q));
    assert forall|j: int| #![trigger ws1[j]] #![trigger ws2[j]] 0 <= j < ws1.len() implies p(ws1[j])
        == p(ws2[j]) by {
        assert(or_empty(ws1[j].title) == or_empty(ws2[j].title));
    }
    if is_first_match(ws1, i, p) {
        assert forall|j: int| 0 <= j < i implies !p(#[trigger] ws2[j]) by {
            assert(!p(ws1[j]));
        }
        assert(p(ws1[i]));
    }
    if is_first_match(ws2, i, p) {
        assert forall|j: int| 0 <= j < i implies !p(#[trigger] ws1[j]) by {
            assert(!p(ws2[j]));
        }
        assert(p(ws2[i]));
    }
    if no_match(ws1, p) {
        assert forall|j: int| 0 <= j < ws2.len() implies !p(#[trigger] ws2[j]) by {
            assert(!p(ws1[j]));
        }
    }
    if no_match(ws2, p) {
        assert forall|j: int| 0 <= j < ws1.len() implies !p(#[trigger] ws1[j]) by {
            assert(!p(ws2[j]));
        }
    }
}

/// A title search has one answer: two first matches of the same query in the
/// same windows are the same position.
pub proof fn lemma_title_search_answer_is_unique(ws: Seq<WindowRecord>, q: Seq<char>, i1: int, i2: int)
    requires
        is_first_match(ws, i1, |w: WindowRecord| title_matches(w, lowercase(q))),
        is_first_match(ws, i2, |w: WindowRecord| title_matches(w, lowercase(q))),
    ensures
        i1 == i2,
{
    if i1 < i2 {
        assert(!title_matches(ws[i1], lowercase(q)));
    } else if i2 < i1 {
        assert(!title_matches(ws[i2], lowercase(q)));
    }
}

/// A reported window carries the window's own id, title, app name, width,
/// height and focus, each in its own field (0, the empty text or `false` where
/// the platform reported nothing).
pub proof fn lemma_window_report_fields(info: WindowInfo, w: WindowRecord)
    requires
        describes_window(info, w),
    ensures
        info.id == or_zero(w.id),
        info.title@ == or_empty(w.title),
        info.app_name@ == or_empty(w.app_name),
        info.width == or_zero(w.width),
        info.height == or_zero(w.height),
        info.is_focused == or_false(w.is_focused),
{
}

/// A reported monitor carries the monitor's own id, name, width, height and
/// primary flag, each in its own field: the width is the reported width and
/// the height the reported height (0, the empty text or `false` where the
/// platform reported nothing).
pub proof fn lemma_monitor_report_fields(info: MonitorInfo, m: MonitorRecord)
    requires
        describes_monitor(info, m),
    ensures
        info.id == or_zero(m.id),
        info.name@ == or_empty(m.name),
        info.width == or_zero(m.width),
        info.height == or_zero(m.height),
        info.is_primary == or_false(m.is_primary),
{
}

/// The window listing leaves no visible window out and has no bound on its
/// length: a list of reports that describes the listed windows one by one has
/// one entry for each window with a non-empty title, not minimized and of
/// non-zero width and height, and each such window is described by an entry.
pub proof fn lemma_listing_is_complete(ws: Seq<WindowRecord>, infos: Seq<WindowInfo>)
    requires
        infos.len() == listed_windows(ws).len(),
        forall|k: int| 0 <= k < infos.len() ==> describes_window(#[trigger] infos[k], listed_windows(ws)[k]),
    ensures
        infos.len() == ws.filter(
            |w: WindowRecord|
                or_empty(w.title).len() > 0 && !or_false(w.is_minimized) && or_zero(w.width) != 0
                    && or_zero(w.height) != 0,
        ).len(),
        forall|j: int|
            0 <= j < ws.len() && or_empty(#[trigger] ws[j].title).len() > 0 && !or_false(ws[j].is_minimized)
                && or_zero(ws[j].width) != 0 && or_zero(ws[j].height) != 0 ==> exists|k: int|
                0 <= k < infos.len() && describes_window(#[trigger] infos[k], ws[j]),
{
    let p = |w: WindowRecord|
        or_empty(w.title).len() > 0 && !or_false(w.is_minimized) && or_zero(w.width) != 0
            && or_zero(w.height) != 0;
    lemma_listed_is_visible_filter(ws);
    assert((|w: WindowRecord| crate::capture::visible(w)) =~= p);
    assert forall|j: int|
        0 <= j < ws.len() && or_empty(#[trigger] ws[j].title).len() > 0 && !or_false(ws[j].is_minimized)
            && or_zero(ws[j].width) != 0 && or_zero(ws[j].height) != 0 implies exists|k: int|
            0 <= k < infos.len() && describes_window(#[trigger] infos[k], ws[j]) by {
        ws.lemma_filter_contains(p, j);
        let k = choose|k: int| 0 <= k < ws.filter(p).len() && ws.filter(p)[k] == ws[j];
        assert(describes_window(infos[k], listed_windows(ws)[k]));
    }
}

/// The width limit in force is the one asked for, whatever it is (above the
/// default too); with none asked for it is 1920.
pub proof fn lemma_width_limit_is_the_one_asked_for(m: u32)
    ensures
        width_limit(Some(m)) == m,
        width_limit(None) == 1920,
        DEFAULT_MAX_WIDTH == 1920,
{
}

/// An image wider than the limit asked for is scaled to at most that limit,
/// and to exactly that width when the limit keeps the aspect ratio exactly
/// (such as 3840 x 2160 at 2560); the limit is used as given, above the default
/// too.
pub proof fn lemma_requested_width_is_reached(v: (u32, u32, Seq<u8>), m: u32, s: (u32, u32, Seq<u8>))
    requires
        scaled_version(v, width_limit(Some(m)), s),
        v.0 > m,
        m >= 1,
    ensures
        1 <= s.0 <= m,
        v.1 >= 1 && scaled_height(v.0, v.1, m) * v.0 == v.1 * m ==> s.0 == m && s.1 == scaled_height(
            v.0,
            v.1,
            m,
        ),
{
}

} // verus!
