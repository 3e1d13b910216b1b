//! Host processes: reading the process listings of `tasklist` and `ps`, and
//! the commands that list and stop processes on each host.
use vstd::prelude::*;
use crate::capability::model::{CapabilityError, CapabilityErrorCode};
use crate::capability::native::err;
use crate::capability::windows_providers::{all_digits, digits_value, lemma_digits_prefix_bound};
use crate::text::{chars_of, occurs_at, str_eq, string_of, strs};

verus! {

/// The character views of a list of character vectors.
pub open spec fn char_views(v: Seq<Vec<char>>) -> Seq<Seq<char>> {
    v.map_values(|x: Vec<char>| x@)
}

/// The lines finished so far, and the line being read, after reading `s`.
pub open spec fn line_scan(s: Seq<char>) -> (Seq<Seq<char>>, Seq<char>)
    decreases s.len(),
{
    if s.len() == 0 {
        (Seq::empty(), Seq::empty())
    } else {
        let p = line_scan(s.drop_last());
        if s.last() == '\n' {
            (p.0.push(strip_cr(p.1)), Seq::empty())
        } else {
            (p.0, p.1.push(s.last()))
        }
    }
}

/// A line read up to a line feed, without the carriage return before it.
pub open spec fn strip_cr(l: Seq<char>) -> Seq<char> {
    if l.len() > 0 && l.last() == '\r' {
        l.drop_last()
    } else {
        l
    }
}

/// The lines of a text, as `str::lines` gives them: split at `\n` or `\r\n`,
/// without the line endings, and with no empty line after a final line ending.
pub open spec fn text_lines(s: Seq<char>) -> Seq<Seq<char>> {
    let p = line_scan(s);
    if p.1.len() > 0 {
        p.0.push(p.1)
    } else {
        p.0
    }
}

/// The lines of a text.
pub fn split_lines(text: &str) -> (r: Vec<Vec<char>>)
    ensures
        char_views(r@) == text_lines(text@),
{
    let v = chars_of(text);
    let mut done: Vec<Vec<char>> = Vec::new();
    let mut cur: Vec<char> = Vec::new();
    let mut i: usize = 0;
    while i < v.len()
        invariant
            i <= v.len(),
            v@ == text@,
            (char_views(done@), cur@) == line_scan(v@.take(i as int)),
        decreases v.len() - i,
    {
        assert(v@.take(i + 1).drop_last() =~= v@.take(i as int));
        assert(v@.take(i + 1).last() == v@[i as int]);
        let c = v[i];
        if c == '\n' {
            let n = cur.len();
            if n > 0 && cur[n - 1] == '\r' {
                cur.pop();
            }
            let ghost prev = done@;
            let line = cur;
            done.push(line);
            assert(char_views(done@) =~= char_views(prev).push(line@));
            cur = Vec::new();
        } else {
            cur.push(c);
        }
        i += 1;
    }
    assert(v@.take(v.len() as int) =~= v@);
    if cur.len() > 0 {
        let ghost prev = done@;
        let line = cur;
        done.push(line);
        assert(char_views(done@) =~= char_views(prev).push(line@));
    }
    done
}

/// The characters with the Unicode `White_Space` property, which
/// `char::is_whitespace` recognizes.
pub open spec fn is_whitespace(c: char) -> bool {
    c == '\t' || c == '\n' || c == '\u{0B}' || c == '\u{0C}' || c == '\r' || c == ' ' || c == '\u{85}' || c
        == '\u{A0}' || c == '\u{1680}' || ('\u{2000}' <= c && c <= '\u{200A}') || c == '\u{2028}' || c
        == '\u{2029}' || c == '\u{202F}' || c == '\u{205F}' || c == '\u{3000}'
}

/// Whether a character is white space.
pub fn is_whitespace_exec(c: char) -> (r: bool)
    ensures
        r == is_whitespace(c),
{
    c == '\t' || c == '\n' || c == '\u{0B}' || c == '\u{0C}' || c == '\r' || c == ' ' || c == '\u{85}' || c
        == '\u{A0}' || c == '\u{1680}' || ('\u{2000}' <= c && c <= '\u{200A}') || c == '\u{2028}' || c
        == '\u{2029}' || c == '\u{202F}' || c == '\u{205F}' || c == '\u{3000}'
}

/// The words finished so far, and the word being read, after reading `s`.
pub open spec fn word_scan(s: Seq<char>) -> (Seq<Seq<char>>, Seq<char>)
    decreases s.len(),
{
    if s.len() == 0 {
        (Seq::empty(), Seq::empty())
    } else {
        let p = word_scan(s.drop_last());
        if !is_whitespace(s.last()) {
            (p.0, p.1.push(s.last()))
        } else if p.1.len() > 0 {
            (p.0.push(p.1), Seq::empty())
        } else {
            (p.0, Seq::empty())
        }
    }
}

/// The words of a text, as `str::split_whitespace` gives them: the maximal
/// runs of characters that are not white space, in order.
pub open spec fn words(s: Seq<char>) -> Seq<Seq<char>> {
    let p = word_scan(s);
    if p.1.len() > 0 {
        p.0.push(p.1)
    } else {
        p.0
    }
}

/// The words of a line.
pub fn split_words(line: &Vec<char>) -> (r: Vec<Vec<char>>)
    ensures
        char_views(r@) == words(line@),
{
    let mut done: Vec<Vec<char>> = Vec::new();
    let mut cur: Vec<char> = Vec::new();
    let mut i: usize = 0;
    while i < line.len()
        invariant
            i <= line.len(),
            (char_views(done@), cur@) == word_scan(line@.take(i as int)),
        decreases line.len() - i,
    {
        assert(line@.take(i + 1).drop_last() =~= line@.take(i as int));
        assert(line@.take(i + 1).last() == line@[i as int]);
        let c = line[i];
        if !is_whitespace_exec(c) {
            cur.push(c);
        } else if cur.len() > 0 {
            let ghost prev = done@;
            let word = cur;
            done.push(word);
            assert(char_views(done@) =~= char_views(prev).push(word@));
            cur = Vec::new();
        }
        i += 1;
    }
    assert(line@.take(line.len() as int) =~= line@);
    if cur.len() > 0 {
        let ghost prev = done@;
        let word = cur;
        done.push(word);
        assert(char_views(done@) =~= char_views(prev).push(word@));
    }
    done
}


/// The text without its leading double quotes.
pub open spec fn trim_start_quotes(s: Seq<char>) -> Seq<char>
    decreases s.len(),
{
    if s.len() > 0 && s[0] == '"' {
        trim_start_quotes(s.drop_first())
    } else {
        s
    }
}

/// The text without its trailing double quotes.
pub open spec fn trim_end_quotes(s: Seq<char>) -> Seq<char>
    decreases s.len(),
{
    if s.len() > 0 && s.last() == '"' {
        trim_end_quotes(s.drop_last())
    } else {
        s
    }
}

/// The text without the double quotes at either end, as `trim_matches('"')` gives it.
pub open spec fn trim_quotes(s: Seq<char>) -> Seq<char> {
    trim_end_quotes(trim_start_quotes(s))
}

/// The text without the double quotes at either end.
pub fn trim_quotes_exec(s: &Vec<char>) -> (r: Vec<char>)
    ensures
        r@ == trim_quotes(s@),
{
    let mut i: usize = 0;
    assert(s@.subrange(0, s@.len() as int) =~= s@);
    while i < s.len() && s[i] == '"'
        invariant
            i <= s.len(),
            trim_start_quotes(s@) == trim_start_quotes(s@.subrange(i as int, s@.len() as int)),
        decreases s.len() - i,
    {
        assert(s@.subrange(i as int, s@.len() as int).drop_first() =~= s@.subrange(i + 1, s@.len() as int));
        i += 1;
    }
    let mut j: usize = s.len();
    let ghost start = s@.subrange(i as int, s@.len() as int);
    assert(trim_start_quotes(start) == start);
    while j > i && s[j - 1] == '"'
        invariant
            i <= j <= s.len(),
            start == s@.subrange(i as int, s@.len() as int),
            trim_end_quotes(start) == trim_end_quotes(s@.subrange(i as int, j as int)),
        decreases j - i,
    {
        assert(s@.subrange(i as int, j as int).drop_last() =~= s@.subrange(i as int, j - 1));
        j -= 1;
    }
    let mut r: Vec<char> = Vec::new();
    let mut k: usize = i;
    while k < j
        invariant
            i <= k <= j,
            j <= s.len(),
            r@ == s@.subrange(i as int, k as int),
        decreases j - k,
    {
        r.push(s[k]);
        assert(r@ =~= s@.subrange(i as int, k + 1));
        k += 1;
    }
    r
}

/// Where `sep` first occurs at or after position `from`.
pub open spec fn first_from(t: Seq<char>, sep: Seq<char>, from: int) -> Option<int>
    decreases t.len() + 1 - from,
{
    if from < 0 || from + sep.len() > t.len() {
        None
    } else if occurs_at(t, sep, from) {
        Some(from)
    } else {
        first_from(t, sep, from + 1)
    }
}

/// A first occurrence is an occurrence, at or after the starting position.
pub proof fn lemma_first_from_occurs(t: Seq<char>, sep: Seq<char>, from: int)
    ensures
        first_from(t, sep, from) matches Some(k) ==> from <= k && k + sep.len() <= t.len() && occurs_at(t, sep, k),
    decreases t.len() + 1 - from,
{
    if !(from < 0 || from + sep.len() > t.len()) && !occurs_at(t, sep, from) {
        lemma_first_from_occurs(t, sep, from + 1);
    }
}

/// Where `sep` first occurs at or after position `from`.
pub fn first_from_exec(t: &Vec<char>, sep: &Vec<char>, from: usize) -> (r: Option<usize>)
    ensures
        r is None <==> first_from(t@, sep@, from as int) is None,
        r matches Some(k) ==> first_from(t@, sep@, from as int) == Some(k as int) && from <= k && k + sep@.len()
            <= t@.len(),
{
    proof {
        lemma_first_from_occurs(t@, sep@, from as int);
    }
    if from > t.len() {
        return None;
    }
    let mut k: usize = from;
    while k < t.len()
        invariant
            from <= k <= t.len(),
            first_from(t@, sep@, from as int) == first_from(t@, sep@, k as int),
        decreases t.len() - k,
    {
        if sep.len() > t.len() - k {
            return None;
        }
        if crate::text::occurs_at_exec(t, sep, k) {
            return Some(k);
        }
        k += 1;
    }
    if sep.len() == 0 && crate::text::occurs_at_exec(t, sep, k) {
        return Some(k);
    }
    proof {
        if sep.len() == 0 {
            assert(t@.subrange(k as int, k as int) =~= sep@);
        }
    }
    None
}

/// What `u32::from_str` accepts: an optional `+` and at least one digit,
/// with a value that fits.
pub open spec fn parsed_u32(s: Seq<char>) -> Option<nat> {
    let d = if s.len() > 0 && s[0] == '+' {
        s.drop_first()
    } else {
        s
    };
    if d.len() > 0 && all_digits(d) && digits_value(d) <= u32::MAX {
        Some(digits_value(d))
    } else {
        None
    }
}

/// The number a text holds, as `u32::from_str` reads it.
pub fn parse_u32(s: &Vec<char>) -> (r: Option<u32>)
    ensures
        match parsed_u32(s@) {
            Some(n) => r == Some(n as u32),
            None => r is None,
        },
{
    let mut start: usize = 0;
    if s.len() > 0 && s[0] == '+' {
        start = 1;
    }
    let ghost d = if s@.len() > 0 && s@[0] == '+' {
        s@.drop_first()
    } else {
        s@
    };
    assert(d =~= s@.subrange(start as int, s@.len() as int));
    if start >= s.len() {
        return None;
    }
    let mut value: u64 = 0;
    let mut i: usize = start;
    while i < s.len()
        invariant
            start <= i <= s.len(),
            d == s@.subrange(start as int, s@.len() as int),
            d == (if s@.len() > 0 && s@[0] == '+' {
                s@.drop_first()
            } else {
                s@
            }),
            all_digits(s@.subrange(start as int, i as int)),
            value == digits_value(s@.subrange(start as int, i as int)),
            value <= u32::MAX,
        decreases s.len() - i,
    {
        let c = s[i];
        assert(s@.subrange(start as int, i + 1).drop_last() =~= s@.subrange(start as int, i as int));
        if c < '0' || c > '9' {
            assert(d[i - start] == c);
            return None;
        }
        let digit: u64 = (c as u32 - '0' as u32) as u64;
        let next: u64 = value * 10 + digit;
        if next > 0xFFFF_FFFF {
            proof {
                if all_digits(d) {
                    lemma_digits_prefix_bound(d, (i - start) as int);
                    assert(s@.subrange(start as int, i + 1) =~= d.subrange(0, (i - start) + 1));
                }
            }
            return None;
        }
        value = next;
        i += 1;
    }
    Some(value as u32)
}

/// A process as a listing names it.
#[derive(Debug, PartialEq, Eq)]
pub struct ProcessEntry {
    pub process_id: u32,
    pub name: String,
}

impl Clone for ProcessEntry {
    fn clone(&self) -> (r: Self)
        ensures
            r@ == self@,
    {
        ProcessEntry { process_id: self.process_id, name: self.name.clone() }
    }
}

/// A listed process as a value.
pub struct ProcessView {
    pub process_id: u32,
    pub name: Seq<char>,
}

impl View for ProcessEntry {
    type V = ProcessView;

    open spec fn view(&self) -> ProcessView {
        ProcessView { process_id: self.process_id, name: self.name@ }
    }
}

/// The field separator of `tasklist` CSV output.
pub open spec fn csv_separator() -> Seq<char> {
    seq!['"', ',', '"']
}

/// A line of `tasklist /FO CSV /NH` output: the quoted image name, then the
/// process identity in the second field.
pub open spec fn tasklist_entry(line: Seq<char>) -> Option<ProcessView> {
    let t = trim_quotes(line);
    match first_from(t, csv_separator(), 0) {
        None => None,
        Some(k) => {
            let end = match first_from(t, csv_separator(), k + 3) {
                Some(k2) => k2,
                None => t.len() as int,
            };
            match parsed_u32(t.subrange(k + 3, end)) {
                None => None,
                Some(id) => Some(ProcessView { process_id: id as u32, name: t.subrange(0, k) }),
            }
        },
    }
}

/// The words joined with single spaces.
pub open spec fn join_spaced(ws: Seq<Seq<char>>) -> Seq<char>
    decreases ws.len(),
{
    if ws.len() == 0 {
        Seq::empty()
    } else if ws.len() == 1 {
        ws[0]
    } else {
        join_spaced(ws.drop_last()) + seq![' '] + ws.last()
    }
}

/// A line of `ps -o pid=,comm=` output: the process identity, then its name,
/// whose words are joined with single spaces.
pub open spec fn ps_entry(line: Seq<char>) -> Option<ProcessView> {
    let ws = words(line);
    if ws.len() == 0 {
        None
    } else {
        match parsed_u32(ws[0]) {
            None => None,
            Some(id) => Some(ProcessView { process_id: id as u32, name: join_spaced(ws.drop_first()) }),
        }
    }
}

/// The process a listing line names, on a Windows host or another.
pub open spec fn listed_process(line: Seq<char>, windows: bool) -> Option<ProcessView> {
    if windows {
        tasklist_entry(line)
    } else {
        ps_entry(line)
    }
}

/// The process a listing line names; lines that name none are skipped.
pub fn parse_process_line(line: &Vec<char>, windows: bool) -> (r: Option<ProcessEntry>)
    ensures
        match listed_process(line@, windows) {
            Some(p) => r matches Some(e) && e@ == p,
            None => r is None,
        },
{
    if windows {
        let t = trim_quotes_exec(line);
        let mut sep: Vec<char> = Vec::new();
        sep.push('"');
        sep.push(',');
        sep.push('"');
        assert(sep@ =~= csv_separator());
        let k = match first_from_exec(&t, &sep, 0) {
            None => return None,
            Some(k) => k,
        };
        let tl: usize = t.len();
        assert(sep@.len() == 3);
        assert(k + 3 <= tl);
        let end = match first_from_exec(&t, &sep, k + 3) {
            Some(k2) => k2,
            None => t.len(),
        };
        let mut field: Vec<char> = Vec::new();
        let mut i: usize = k + 3;
        while i < end
            invariant
                k + 3 <= i <= end,
                end <= t.len(),
                field@ == t@.subrange(k + 3, i as int),
            decreases end - i,
        {
            field.push(t[i]);
            assert(field@ =~= t@.subrange(k + 3, i + 1));
            i += 1;
        }
        let id = match parse_u32(&field) {
            None => return None,
            Some(id) => id,
        };
        let mut name: Vec<char> = Vec::new();
        let mut j: usize = 0;
        while j < k
            invariant
                j <= k,
                k + 3 <= t.len(),
                name@ == t@.subrange(0, j as int),
            decreases k - j,
        {
            name.push(t[j]);
            assert(name@ =~= t@.subrange(0, j + 1));
            j += 1;
        }
        Some(ProcessEntry { process_id: id, name: string_of(&name) })
    } else {
        let ws = split_words(line);
        if ws.len() == 0 {
            return None;
        }
        assert(char_views(ws@)[0] == ws@[0]@);
        let id = match parse_u32(&ws[0]) {
            None => return None,
            Some(id) => id,
        };
        let mut name: Vec<char> = Vec::new();
        let mut i: usize = 1;
        let ghost rest = char_views(ws@).drop_first();
        while i < ws.len()
            invariant
                1 <= i <= ws.len(),
                rest == char_views(ws@).drop_first(),
                name@ == join_spaced(rest.take(i - 1)),
            decreases ws.len() - i,
        {
            assert(rest.take(i as int).drop_last() =~= rest.take(i - 1));
            assert(rest.take(i as int).last() == ws@[i as int]@);
            let ghost prev = name@;
            if i > 1 {
                name.push(' ');
            }
            let w = &ws[i];
            let mut j: usize = 0;
            let ghost base = name@;
            while j < w.len()
                invariant
                    j <= w.len(),
                    name@ == base + w@.take(j as int),
                decreases w.len() - j,
            {
                name.push(w[j]);
                assert(name@ =~= base + w@.take(j + 1));
                j += 1;
            }
            assert(w@.take(w.len() as int) =~= w@);
            if i > 1 {
                assert(name@ =~= prev + seq![' '] + w@);
            } else {
                assert(rest.take(i as int) =~= seq![w@]);
                assert(name@ =~= w@);
            }
            i += 1;
        }
        assert(rest.take(ws.len() - 1) =~= rest);
        Some(ProcessEntry { process_id: id, name: string_of(&name) })
    }
}


/// The processes named by listing lines, in order; lines that name none are skipped.
pub open spec fn listed_processes(lines: Seq<Seq<char>>, windows: bool) -> Seq<ProcessView>
    decreases lines.len(),
{
    if lines.len() == 0 {
        Seq::empty()
    } else {
        let prev = listed_processes(lines.drop_last(), windows);
        match listed_process(lines.last(), windows) {
            Some(p) => prev.push(p),
            None => prev,
        }
    }
}

/// At most the first thousand lines of a listing are read.
pub open spec fn listing_lines(text: Seq<char>) -> Seq<Seq<char>> {
    let ls = text_lines(text);
    if ls.len() > 1000 {
        ls.take(1000)
    } else {
        ls
    }
}

/// The views of listed processes.
pub open spec fn process_views(v: Seq<ProcessEntry>) -> Seq<ProcessView> {
    v.map_values(|p: ProcessEntry| p@)
}

/// The processes a listing names, from its first thousand lines.
pub fn parse_process_listing(text: &str, windows: bool) -> (r: Vec<ProcessEntry>)
    ensures
        process_views(r@) == listed_processes(listing_lines(text@), windows),
{
    let lines = split_lines(text);
    let ghost ls = char_views(lines@);
    let n: usize = if lines.len() > 1000 {
        1000
    } else {
        lines.len()
    };
    assert(ls.take(n as int) =~= listing_lines(text@));
    let mut r: Vec<ProcessEntry> = Vec::new();
    let mut i: usize = 0;
    while i < n
        invariant
            i <= n <= lines.len(),
            ls == char_views(lines@),
            process_views(r@) == listed_processes(ls.take(i as int), windows),
        decreases n - i,
    {
        assert(ls.take(i + 1).drop_last() =~= ls.take(i as int));
        assert(ls.take(i + 1).last() == lines@[i as int]@);
        match parse_process_line(&lines[i], windows) {
            Some(p) => {
                let ghost prev = r@;
                r.push(p);
                assert(process_views(r@) =~= process_views(prev).push(p@));
            },
            None => {},
        }
        i += 1;
    }
    r
}

/// The first listed process with the given identity.
pub open spec fn first_process(ps: Seq<ProcessView>, id: u32) -> Option<ProcessView>
    decreases ps.len(),
{
    if ps.len() == 0 {
        None
    } else if ps[0].process_id == id {
        Some(ps[0])
    } else {
        first_process(ps.drop_first(), id)
    }
}

/// The first listed process with the given identity.
pub fn find_process(ps: &Vec<ProcessEntry>, id: u32) -> (r: Option<ProcessEntry>)
    ensures
        match first_process(process_views(ps@), id) {
            Some(p) => r matches Some(e) && e@ == p,
            None => r is None,
        },
{
    let ghost pv = process_views(ps@);
    let mut i: usize = 0;
    assert(pv.skip(0) =~= pv);
    while i < ps.len()
        invariant
            i <= ps.len(),
            pv == process_views(ps@),
            first_process(pv, id) == first_process(pv.skip(i as int), id),
        decreases ps.len() - i,
    {
        assert(pv.skip(i as int)[0] == ps@[i as int]@);
        if ps[i].process_id == id {
            return Some(ps[i].clone());
        }
        assert(pv.skip(i as int).drop_first() =~= pv.skip(i + 1));
        i += 1;
    }
    assert(pv.skip(i as int).len() == 0);
    None
}

/// A command: the program and its arguments.
pub struct HostCommand {
    pub program: String,
    pub arguments: Vec<String>,
}

/// The command that lists processes: `tasklist` as CSV without a header on
/// Windows, `ps` with the identity and command name elsewhere (`-axo` on macOS,
/// `-eo` on other hosts).
pub fn listing_command(os: &str) -> (r: HostCommand)
    ensures
        os@ == "windows"@ ==> r.program@ == "tasklist"@ && strs(r.arguments@) == seq!["/FO"@, "CSV"@, "/NH"@],
        os@ == "macos"@ ==> r.program@ == "ps"@ && strs(r.arguments@) == seq!["-axo"@, "pid=,comm="@],
        os@ != "windows"@ && os@ != "macos"@ ==> r.program@ == "ps"@ && strs(r.arguments@) == seq![
            "-eo"@,
            "pid=,comm="@,
        ],
{
    proof {
        reveal_strlit("windows");
        reveal_strlit("macos");
        assert("windows"@.len() == 7 && "macos"@.len() == 5);
    }
    if str_eq(os, "windows") {
        let arguments = crate::text::string_list(&["/FO", "CSV", "/NH"]);
        assert(strs(arguments@) =~= seq!["/FO"@, "CSV"@, "/NH"@]);
        HostCommand { program: String::from_str("tasklist"), arguments }
    } else if str_eq(os, "macos") {
        let arguments = crate::text::string_list(&["-axo", "pid=,comm="]);
        assert(strs(arguments@) =~= seq!["-axo"@, "pid=,comm="@]);
        HostCommand { program: String::from_str("ps"), arguments }
    } else {
        let arguments = crate::text::string_list(&["-eo", "pid=,comm="]);
        assert(strs(arguments@) =~= seq!["-eo"@, "pid=,comm="@]);
        HostCommand { program: String::from_str("ps"), arguments }
    }
}

/// The command that stops a process: `taskkill` with its tree on Windows,
/// `kill -TERM` elsewhere.
pub fn stop_command(os: &str, process_id: u32) -> (r: HostCommand)
    ensures
        os@ == "windows"@ ==> r.program@ == "taskkill"@ && strs(r.arguments@) == seq![
            "/PID"@,
            crate::text::decimal(process_id as nat),
            "/T"@,
        ],
        os@ != "windows"@ ==> r.program@ == "kill"@ && strs(r.arguments@) == seq![
            "-TERM"@,
            crate::text::decimal(process_id as nat),
        ],
{
    let id = crate::text::decimal_string(process_id as u64);
    let mut arguments: Vec<String> = Vec::new();
    if str_eq(os, "windows") {
        arguments.push(String::from_str("/PID"));
        arguments.push(id);
        arguments.push(String::from_str("/T"));
        assert(strs(arguments@) =~= seq!["/PID"@, crate::text::decimal(process_id as nat), "/T"@]);
        HostCommand { program: String::from_str("taskkill"), arguments }
    } else {
        arguments.push(String::from_str("-TERM"));
        arguments.push(id);
        assert(strs(arguments@) =~= seq!["-TERM"@, crate::text::decimal(process_id as nat)]);
        HostCommand { program: String::from_str("kill"), arguments }
    }
}

/// What a process request asks for.
#[derive(Debug, PartialEq, Eq)]
pub enum ProcessOperation {
    List,
    Inspect(u32),
    Stop(u32),
}

/// The operation a process request asks for, from its capability and its
/// `process_id` field.
pub fn process_operation(op: &str, process_id: Option<u64>) -> (r: Result<ProcessOperation, CapabilityError>)
    ensures
        op@ == "process.list"@ ==> r == Ok::<ProcessOperation, CapabilityError>(ProcessOperation::List),
        op@ != "process.list"@ && (op@ == "process.inspect"@ || op@ == "process.stop"@) ==> match process_id {
            Some(v) => if v <= u32::MAX {
                r == Ok::<ProcessOperation, CapabilityError>(
                    if op@ == "process.inspect"@ {
                        ProcessOperation::Inspect(v as u32)
                    } else {
                        ProcessOperation::Stop(v as u32)
                    },
                )
            } else {
                r matches Err(e) && e.code == CapabilityErrorCode::InvalidInput && e.message@
                    == "input.process_id must be a positive integer"@
            },
            None => r matches Err(e) && e.code == CapabilityErrorCode::InvalidInput && e.message@
                == "input.process_id must be a positive integer"@,
        },
        !(op@ == "process.list"@ || op@ == "process.inspect"@ || op@ == "process.stop"@) ==> (r matches Err(e)
            && e.code == CapabilityErrorCode::Unsupported && e.message@ == "unsupported process operation"@),
        r matches Err(e) ==> !e.retryable,
{
    if str_eq(op, "process.list") {
        Ok(ProcessOperation::List)
    } else if str_eq(op, "process.inspect") {
        let id = crate::capability::native::process_id(process_id)?;
        Ok(ProcessOperation::Inspect(id))
    } else if str_eq(op, "process.stop") {
        let id = crate::capability::native::process_id(process_id)?;
        Ok(ProcessOperation::Stop(id))
    } else {
        Err(err(CapabilityErrorCode::Unsupported, "unsupported process operation"))
    }
}

/// The refusal when the process to inspect is not listed.
pub fn process_not_found() -> (r: CapabilityError)
    ensures
        r.code == CapabilityErrorCode::ApplicationNotFound,
        r.message@ == "process not found"@,
        !r.retryable,
{
    err(CapabilityErrorCode::ApplicationNotFound, "process not found")
}

/// What a process request changes: stopping reports the stopped process.
pub fn process_side_effects(op: &str) -> (r: Vec<String>)
    ensures
        op@ == "process.stop"@ ==> strs(r@) == seq!["process.stopped"@],
        op@ != "process.stop"@ ==> strs(r@) == Seq::<Seq<char>>::empty(),
{
    let mut r: Vec<String> = Vec::new();
    if str_eq(op, "process.stop") {
        r.push(String::from_str("process.stopped"));
    }
    assert(strs(r@) =~= (if op@ == "process.stop"@ {
        seq!["process.stopped"@]
    } else {
        Seq::<Seq<char>>::empty()
    }));
    r
}

} // verus!

