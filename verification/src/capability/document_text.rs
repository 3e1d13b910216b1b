//! The text of a document window, chosen among the texts its accessibility
//! elements expose: echoes of the window title and status-bar texts are left
//! out, and the longest text is the document's, or, in the test mode, all of
//! them, one per line.
use vstd::prelude::*;
use crate::capability::processes::{first_from, first_from_exec, is_whitespace, is_whitespace_exec};
use crate::text::{chars_eq, chars_of, contains, lower, lower_char_exec, starts_with, string_of, strs, utf8_len};

verus! {

/// The text without its leading white space.
pub open spec fn trim_start_ws(s: Seq<char>) -> Seq<char>
    decreases s.len(),
{
    if s.len() > 0 && is_whitespace(s[0]) {
        trim_start_ws(s.drop_first())
    } else {
        s
    }
}

/// The text without its trailing white space.
pub open spec fn trim_end_ws(s: Seq<char>) -> Seq<char>
    decreases s.len(),
{
    if s.len() > 0 && is_whitespace(s.last()) {
        trim_end_ws(s.drop_last())
    } else {
        s
    }
}

/// The text without white space at either end, as `str::trim` gives it.
pub open spec fn trim_ws(s: Seq<char>) -> Seq<char> {
    trim_end_ws(trim_start_ws(s))
}

/// The text without its leading `*` and space characters (a window title's
/// unsaved-changes mark).
pub open spec fn trim_start_marks(s: Seq<char>) -> Seq<char>
    decreases s.len(),
{
    if s.len() > 0 && (s[0] == '*' || s[0] == ' ') {
        trim_start_marks(s.drop_first())
    } else {
        s
    }
}

/// The document name a window title shows: the part before the first ` - `,
/// after the unsaved-changes mark, trimmed and ASCII lower-cased.
pub open spec fn title_echo(title: Seq<char>) -> Seq<char> {
    let t = trim_start_marks(title);
    let head = match first_from(t, " - "@, 0) {
        Some(k) => t.take(k),
        None => t,
    };
    lower(trim_ws(head))
}

/// A lower-cased text that is not document content: the window title or the
/// document name it shows, or a status-bar text (line endings, encoding,
/// character count, `plain text`, line and column).
pub open spec fn status_text(l: Seq<char>, title: Seq<char>) -> bool {
    l == title_echo(title) || l == lower(title) || contains(l, "crlf"@) || contains(l, "utf-"@) || contains(
        l,
        "character"@,
    ) || l == "plain text"@ || starts_with(l, "ln "@) || starts_with(l, "col "@)
}

/// The distinct texts kept so far, in order, and the longest (in UTF-8
/// bytes; the first of equal length), after considering the given texts.
pub open spec fn doc_scan(title: Seq<char>, texts: Seq<Seq<char>>) -> (Seq<Seq<char>>, Seq<char>)
    decreases texts.len(),
{
    if texts.len() == 0 {
        (Seq::empty(), Seq::empty())
    } else {
        let p = doc_scan(title, texts.drop_last());
        let t = trim_ws(texts.last());
        if t.len() == 0 || status_text(lower(t), title) {
            p
        } else {
            (
                if p.0.contains(t) {
                    p.0
                } else {
                    p.0.push(t)
                },
                if vstd::utf8::encode_utf8(t).len() > vstd::utf8::encode_utf8(p.1).len() {
                    t
                } else {
                    p.1
                },
            )
        }
    }
}

/// The texts joined with line feeds.
pub open spec fn join_lines(ls: Seq<Seq<char>>) -> Seq<char>
    decreases ls.len(),
{
    if ls.len() == 0 {
        Seq::empty()
    } else if ls.len() == 1 {
        ls[0]
    } else {
        join_lines(ls.drop_last()) + seq!['\n'] + ls.last()
    }
}

/// The document's text: in the test mode every kept text, one per line, where
/// any is kept; otherwise the longest.
pub open spec fn document_text_spec(title: Seq<char>, texts: Seq<Seq<char>>, gui_test: bool) -> Seq<char> {
    let p = doc_scan(title, texts);
    if gui_test && p.0.len() > 0 {
        join_lines(p.0)
    } else {
        p.1
    }
}

/// The characters without white space at either end.
pub fn trim_ws_exec(s: &Vec<char>) -> (r: Vec<char>)
    ensures
        r@ == trim_ws(s@),
{
    let mut i: usize = 0;
    assert(s@.subrange(0, s@.len() as int) =~= s@);
    while i < s.len() && is_whitespace_exec(s[i])
        invariant
            i <= s.len(),
            trim_start_ws(s@) == trim_start_ws(s@.subrange(i as int, s@.len() as int)),
        decreases s.len() - i,
    {
        assert(s@.subrange(i as int, s@.len() as int).drop_first() =~= s@.subrange(i + 1, s@.len() as int));
        i += 1;
    }
    let ghost start = s@.subrange(i as int, s@.len() as int);
    assert(trim_start_ws(start) == start);
    let mut j: usize = s.len();
    while j > i && is_whitespace_exec(s[j - 1])
        invariant
            i <= j <= s.len(),
            start == s@.subrange(i as int, s@.len() as int),
            trim_end_ws(start) == trim_end_ws(s@.subrange(i as int, j as int)),
        decreases j - i,
    {
        assert(s@.subrange(i as int, j as int).drop_last() =~= s@.subrange(i as int, j - 1));
        j -= 1;
    }
    let mut r: Vec<char> = Vec::new();
    let mut k: usize = i;
    while k < j
        invariant
            i <= k <= j,
            j <= s.len(),
            r@ == s@.subrange(i as int, k as int),
        decreases j - k,
    {
        r.push(s[k]);
        assert(r@ =~= s@.subrange(i as int, k + 1));
        k += 1;
    }
    r
}

fn lower_exec(v: &Vec<char>) -> (r: Vec<char>)
    ensures
        r@ == lower(v@),
{
    let mut r: Vec<char> = Vec::new();
    let mut i: usize = 0;
    while i < v.len()
        invariant
            i <= v.len(),
            r@ == lower(v@).take(i as int),
        decreases v.len() - i,
    {
        r.push(lower_char_exec(v[i]));
        assert(r@ =~= lower(v@).take(i + 1));
        i += 1;
    }
    assert(lower(v@).take(v.len() as int) =~= lower(v@));
    r
}

/// The document name a window title shows.
pub fn title_echo_exec(title: &str) -> (r: Vec<char>)
    ensures
        r@ == title_echo(title@),
{
    let v = chars_of(title);
    let mut i: usize = 0;
    assert(v@.subrange(0, v@.len() as int) =~= v@);
    while i < v.len() && (v[i] == '*' || v[i] == ' ')
        invariant
            i <= v.len(),
            v@ == title@,
            trim_start_marks(v@) == trim_start_marks(v@.subrange(i as int, v@.len() as int)),
        decreases v.len() - i,
    {
        assert(v@.subrange(i as int, v@.len() as int).drop_first() =~= v@.subrange(i + 1, v@.len() as int));
        i += 1;
    }
    let mut t: Vec<char> = Vec::new();
    let mut k: usize = i;
    while k < v.len()
        invariant
            i <= k <= v.len(),
            t@ == v@.subrange(i as int, k as int),
        decreases v.len() - k,
    {
        t.push(v[k]);
        assert(t@ =~= v@.subrange(i as int, k + 1));
        k += 1;
    }
    assert(trim_start_marks(v@.subrange(i as int, v@.len() as int)) == t@);
    let sep = chars_of(" - ");
    let head: Vec<char> = match first_from_exec(&t, &sep, 0) {
        Some(n) => {
            let mut h: Vec<char> = Vec::new();
            let mut m: usize = 0;
            while m < n
                invariant
                    m <= n,
                    n <= t.len(),
                    h@ == t@.take(m as int),
                decreases n - m,
            {
                h.push(t[m]);
                assert(h@ =~= t@.take(m + 1));
                m += 1;
            }
            h
        },
        None => t,
    };
    lower_exec(&trim_ws_exec(&head))
}

fn status_text_exec(l: &Vec<char>, title: &str, echo: &Vec<char>, lowered_title: &Vec<char>) -> (r: bool)
    requires
        echo@ == title_echo(title@),
        lowered_title@ == lower(title@),
    ensures
        r == status_text(l@, title@),
{
    chars_eq(l, echo) || chars_eq(l, lowered_title) || crate::text::contains_lit(l, "crlf")
        || crate::text::contains_lit(l, "utf-") || crate::text::contains_lit(l, "character") || chars_eq(
        l,
        &chars_of("plain text"),
    ) || crate::text::starts_with_lit(l, "ln ") || crate::text::starts_with_lit(l, "col ")
}

fn holds(kept: &Vec<Vec<char>>, t: &Vec<char>) -> (r: bool)
    ensures
        r == kept@.map_values(|x: Vec<char>| x@).contains(t@),
{
    let ghost kv = kept@.map_values(|x: Vec<char>| x@);
    let mut i: usize = 0;
    while i < kept.len()
        invariant
            i <= kept.len(),
            kv == kept@.map_values(|x: Vec<char>| x@),
            forall|k: int| 0 <= k < i ==> kv[k] != t@,
        decreases kept.len() - i,
    {
        assert(kv[i as int] == kept@[i as int]@);
        if chars_eq(&kept[i], t) {
            return true;
        }
        i += 1;
    }
    false
}

fn join_lines_exec(ls: &Vec<Vec<char>>) -> (r: String)
    ensures
        r@ == join_lines(ls@.map_values(|x: Vec<char>| x@)),
{
    let ghost lv = ls@.map_values(|x: Vec<char>| x@);
    let mut out: Vec<char> = Vec::new();
    let mut i: usize = 0;
    while i < ls.len()
        invariant
            i <= ls.len(),
            lv == ls@.map_values(|x: Vec<char>| x@),
            out@ == join_lines(lv.take(i as int)),
        decreases ls.len() - i,
    {
        assert(lv.take(i + 1).drop_last() =~= lv.take(i as int));
        assert(lv.take(i + 1).last() == ls@[i as int]@);
        let ghost prev = out@;
        if i > 0 {
            out.push('\n');
        }
        let w = &ls[i];
        let ghost base = out@;
        let mut j: usize = 0;
        while j < w.len()
            invariant
                j <= w.len(),
                out@ == base + w@.take(j as int),
            decreases w.len() - j,
        {
            out.push(w[j]);
            assert(out@ =~= base + w@.take(j + 1));
            j += 1;
        }
        assert(w@.take(w.len() as int) =~= w@);
        if i > 0 {
            assert(out@ =~= prev + seq!['\n'] + w@);
        } else {
            assert(lv.take(1) =~= seq![w@]);
            assert(out@ =~= w@);
        }
        i += 1;
    }
    assert(lv.take(ls.len() as int) =~= lv);
    string_of(&out)
}

/// The text of a document window, from its title and the texts its
/// accessibility elements expose, in the order they were read.
pub fn document_text(window_title: &str, candidates: &Vec<String>, gui_test: bool) -> (r: String)
    ensures
        r@ == document_text_spec(window_title@, strs(candidates@), gui_test),
{
    let echo = title_echo_exec(window_title);
    let lowered_title = crate::text::to_lower(window_title);
    let ghost texts = strs(candidates@);
    let mut kept: Vec<Vec<char>> = Vec::new();
    let mut best: Vec<char> = Vec::new();
    let mut i: usize = 0;
    while i < candidates.len()
        invariant
            i <= candidates.len(),
            texts == strs(candidates@),
            echo@ == title_echo(window_title@),
            lowered_title@ == lower(window_title@),
            (kept@.map_values(|x: Vec<char>| x@), best@) == doc_scan(window_title@, texts.take(i as int)),
        decreases candidates.len() - i,
    {
        assert(texts.take(i + 1).drop_last() =~= texts.take(i as int));
        assert(texts.take(i + 1).last() == candidates@[i as int]@);
        let t = trim_ws_exec(&chars_of(candidates[i].as_str()));
        if t.len() > 0 {
            let l = lower_exec(&t);
            if !status_text_exec(&l, window_title, &echo, &lowered_title) {
                let ghost prev = kept@;
                if !holds(&kept, &t) {
                    let tc = t.clone();
                    kept.push(tc);
                    assert(kept@.map_values(|x: Vec<char>| x@) =~= prev.map_values(|x: Vec<char>| x@).push(t@));
                }
                if utf8_len(&t) > utf8_len(&best) {
                    best = t;
                }
            }
        }
        i += 1;
    }
    assert(texts.take(candidates.len() as int) =~= texts);
    if gui_test && kept.len() > 0 {
        join_lines_exec(&kept)
    } else {
        string_of(&best)
    }
}

} // verus!
