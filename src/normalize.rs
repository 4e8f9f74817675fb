//! Cleaning free text into searchable words, and user tag lists into tags.

use vstd::prelude::*;
use vstd::string::*;
use crate::text::push_char;

verus! {

/// The Unicode `White_Space` characters: what regex's `\s` matches and what
/// `char::is_whitespace` accepts.
pub open spec fn is_white_space(c: char) -> bool {
    ('\t' <= c && c <= '\r') || c == ' ' || c == '\u{85}' || c == '\u{a0}' || c == '\u{1680}' || (
    '\u{2000}' <= c && c <= '\u{200a}') || c == '\u{2028}' || c == '\u{2029}' || c == '\u{202f}'
        || c == '\u{205f}' || c == '\u{3000}'
}

pub open spec fn is_ascii_alnum(c: char) -> bool {
    ('a' <= c && c <= 'z') || ('A' <= c && c <= 'Z') || ('0' <= c && c <= '9')
}

/// Every character outside `[A-Za-z0-9 ]` becomes a space.
pub open spec fn blank_non_word(s: Seq<char>) -> Seq<char> {
    Seq::new(
        s.len(),
        |i: int|
            if is_ascii_alnum(s[i]) || s[i] == ' ' {
                s[i]
            } else {
                ' '
            },
    )
}

/// Every character outside `[A-Za-z0-9\-_\s]` becomes a space.
pub open spec fn blank_non_tag(s: Seq<char>) -> Seq<char> {
    Seq::new(
        s.len(),
        |i: int|
            if is_ascii_alnum(s[i]) || s[i] == '-' || s[i] == '_' || is_white_space(s[i]) {
                s[i]
            } else {
                ' '
            },
    )
}

/// Each run of spaces becomes one space.
pub open spec fn collapse_spaces(s: Seq<char>) -> Seq<char>
    decreases s.len(),
{
    if s.len() == 0 {
        s
    } else {
        let p = s.drop_last();
        if s.last() == ' ' && p.len() > 0 && p.last() == ' ' {
            collapse_spaces(p)
        } else {
            collapse_spaces(p).push(s.last())
        }
    }
}

/// The only whitespace is the plain space.
pub open spec fn spaces_only(s: Seq<char>) -> bool {
    forall|i: int| 0 <= i < s.len() && is_white_space(#[trigger] s[i]) ==> s[i] == ' '
}

pub open spec fn lower_char(c: char) -> char {
    if 'A' <= c && c <= 'Z' {
        (c as int + 32) as char
    } else {
        c
    }
}

pub open spec fn ascii_lower(s: Seq<char>) -> Seq<char> {
    Seq::new(s.len(), |i: int| lower_char(s[i]))
}

pub open spec fn trim_start(s: Seq<char>) -> Seq<char>
    decreases s.len(),
{
    if s.len() > 0 && is_white_space(s[0]) {
        trim_start(s.drop_first())
    } else {
        s
    }
}

pub open spec fn trim_end(s: Seq<char>) -> Seq<char>
    decreases s.len(),
{
    if s.len() > 0 && is_white_space(s.last()) {
        trim_end(s.drop_last())
    } else {
        s
    }
}

/// Leading and trailing whitespace removed.
pub open spec fn trim(s: Seq<char>) -> Seq<char> {
    trim_end(trim_start(s))
}

pub open spec fn strip_apostrophes(s: Seq<char>) -> Seq<char> {
    s.filter(|c: char| c != '\'')
}

/// The searchable form of a text: apostrophes removed, every character outside
/// `[A-Za-z0-9 ]` made a space, runs of spaces made one, lower-cased, trimmed.
pub open spec fn normalize(s: Seq<char>) -> Seq<char> {
    trim(ascii_lower(collapse_spaces(blank_non_word(strip_apostrophes(s)))))
}

/// A tag cleaned: characters outside `[A-Za-z0-9\-_\s]` made spaces, trimmed.
pub open spec fn clean_tag_spec(s: Seq<char>) -> Seq<char> {
    trim(blank_non_tag(s))
}

pub open spec fn non_word_pattern() -> Seq<char> {
    "[^a-zA-Z0-9 ]"@
}

pub open spec fn space_run_pattern() -> Seq<char> {
    r"\s{2,}"@
}

pub open spec fn non_tag_pattern() -> Seq<char> {
    r"[^a-zA-Z0-9-_\s]"@
}

/// Relies on regex's `Regex::new` and `Regex::replace_all`: every match of the
/// pattern is replaced by a single space. The three patterns this library uses
/// are valid; the space-run pattern is only given text whose whitespace is
/// plain spaces.
#[verifier::external_body]
fn regex_replace_all(pattern: &str, text: &str, rep: &str) -> (r: String)
    requires
        pattern@ == non_word_pattern() || pattern@ == non_tag_pattern() || (pattern@
            == space_run_pattern() && spaces_only(text@)),
        rep@ == " "@,
    ensures
        pattern@ == non_word_pattern() ==> r@ == blank_non_word(text@),
        pattern@ == non_tag_pattern() ==> r@ == blank_non_tag(text@),
        pattern@ == space_run_pattern() ==> r@ == collapse_spaces(text@),
{
    regex::Regex::new(pattern).unwrap().replace_all(text, rep).into_owned()
}

pub fn is_white_space_char(c: char) -> (r: bool)
    ensures
        r == is_white_space(c),
{
    ('\t' <= c && c <= '\r') || c == ' ' || c == '\u{85}' || c == '\u{a0}' || c == '\u{1680}' || (
    '\u{2000}' <= c && c <= '\u{200a}') || c == '\u{2028}' || c == '\u{2029}' || c == '\u{202f}'
        || c == '\u{205f}' || c == '\u{3000}'
}

fn remove_apostrophes(s: &str) -> (r: String)
    ensures
        r@ == strip_apostrophes(s@),
{
    let n = s.unicode_len();
    let mut out = String::new();
    let mut i: usize = 0;
    while i < n
        invariant
            n == s@.len(),
            i <= n,
            out@ == strip_apostrophes(s@.subrange(0, i as int)),
        decreases n - i,
    {
        let c = s.get_char(i);
        proof {
            let a = s@.subrange(0, i as int);
            assert(s@.subrange(0, i + 1) =~= a.push(c));
            a.lemma_filter_push(c, |c: char| c != '\'');
        }
        if c != '\'' {
            push_char(&mut out, c);
        }
        i += 1;
    }
    assert(s@.subrange(0, n as int) =~= s@);
    out
}

fn lowercase_ascii(s: &str) -> (r: String)
    ensures
        r@ == ascii_lower(s@),
{
    let n = s.unicode_len();
    let mut out = String::new();
    let mut i: usize = 0;
    while i < n
        invariant
            n == s@.len(),
            i <= n,
            out@ =~= ascii_lower(s@.subrange(0, i as int)),
        decreases n - i,
    {
        let c = s.get_char(i);
        let l = if 'A' <= c && c <= 'Z' {
            ((c as u32 + 32) as u8) as char
        } else {
            c
        };
        assert(l == lower_char(c));
        push_char(&mut out, l);
        i += 1;
        assert(out@ =~= ascii_lower(s@.subrange(0, i as int)));
    }
    assert(s@.subrange(0, n as int) =~= s@);
    out
}

proof fn lemma_trim_start_skip(s: Seq<char>, i: int)
    requires
        0 <= i < s.len(),
        is_white_space(s[i]),
        trim_start(s) == trim_start(s.subrange(i, s.len() as int)),
    ensures
        trim_start(s) == trim_start(s.subrange(i + 1, s.len() as int)),
{
    assert(s.subrange(i, s.len() as int).drop_first() =~= s.subrange(i + 1, s.len() as int));
}

proof fn lemma_trim_end_skip(s: Seq<char>, j: int)
    requires
        0 < j <= s.len(),
        is_white_space(s[j - 1]),
    ensures
        trim_end(s.subrange(0, j)) == trim_end(s.subrange(0, j - 1)),
{
    assert(s.subrange(0, j).drop_last() =~= s.subrange(0, j - 1));
}

/// Removes leading and trailing whitespace, as `str::trim` does.
pub fn trim_text(s: &str) -> (r: String)
    ensures
        r@ == trim(s@),
{
    let n = s.unicode_len();
    let mut i: usize = 0;
    assert(s@.subrange(0, n as int) =~= s@);
    while i < n && is_white_space_char(s.get_char(i))
        invariant
            n == s@.len(),
            i <= n,
            trim_start(s@) == trim_start(s@.subrange(i as int, n as int)),
        decreases n - i,
    {
        proof {
            lemma_trim_start_skip(s@, i as int);
        }
        i += 1;
    }
    let ghost rest = s@.subrange(i as int, n as int);
    assert(trim_start(rest) == rest);
    let mut j: usize = n;
    assert(rest.subrange(0, (j - i) as int) =~= rest);
    while j > i && is_white_space_char(s.get_char(j - 1))
        invariant
            n == s@.len(),
            i <= j <= n,
            rest == s@.subrange(i as int, n as int),
            trim_end(rest) == trim_end(rest.subrange(0, (j - i) as int)),
        decreases j,
    {
        proof {
            assert(rest[(j - 1 - i) as int] == s@[j - 1]);
            lemma_trim_end_skip(rest, (j - i) as int);
        }
        j -= 1;
    }
    let ghost kept = rest.subrange(0, (j - i) as int);
    assert(kept =~= s@.subrange(i as int, j as int));
    if j > i {
        assert(kept.last() == s@[j - 1]);
    }
    assert(trim_end(kept) == kept);
    String::from_str(s.substring_char(i, j))
}

/// Cleans free text into its searchable form.
pub fn fts_clean_text(text: &str) -> (r: String)
    ensures
        r@ == normalize(text@),
{
    let t = remove_apostrophes(text);
    let t = regex_replace_all("[^a-zA-Z0-9 ]", t.as_str(), " ");
    assert(spaces_only(t@)) by {
        reveal_strlit(" ");
    }
    let t = regex_replace_all(r"\s{2,}", t.as_str(), " ");
    let t = lowercase_ascii(t.as_str());
    trim_text(t.as_str())
}

/// Cleans one tag: characters outside `[A-Za-z0-9\-_\s]` become spaces and the
/// ends are trimmed.
pub fn clean_tag(value: &str) -> (r: String)
    ensures
        r@ == clean_tag_spec(value@),
{
    let t = regex_replace_all(r"[^a-zA-Z0-9-_\s]", value, " ");
    trim_text(t.as_str())
}

/// The whitespace-separated words of a text, in order.
pub open spec fn split_words(s: Seq<char>) -> Seq<Seq<char>>
    decreases s.len(),
{
    if s.len() == 0 {
        Seq::empty()
    } else {
        let w = split_words(s.drop_last());
        let c = s.last();
        if is_white_space(c) {
            w
        } else if s.len() >= 2 && !is_white_space(s[s.len() - 2]) {
            w.update(w.len() - 1, w.last().push(c))
        } else {
            w.push(seq![c])
        }
    }
}

/// Words joined with single spaces.
pub open spec fn join_words(ws: Seq<Seq<char>>) -> Seq<char>
    decreases ws.len(),
{
    if ws.len() == 0 {
        Seq::empty()
    } else if ws.len() == 1 {
        ws[0]
    } else {
        join_words(ws.drop_last()) + seq![' '] + ws.last()
    }
}

pub open spec fn strings_view(v: Seq<String>) -> Seq<Seq<char>> {
    v.map_values(|t: String| t@)
}

pub open spec fn is_tag_char(c: char) -> bool {
    is_ascii_alnum(c) || c == '-' || c == '_'
}

/// A non-empty run of letters, digits, `-` and `_`.
pub open spec fn is_tag(t: Seq<char>) -> bool {
    t.len() > 0 && forall|j: int| 0 <= j < t.len() ==> is_tag_char(#[trigger] t[j])
}

/// Where every non-whitespace character is a tag character, the words are
/// tags.
pub proof fn lemma_split_words_tags(s: Seq<char>)
    requires
        forall|k: int| 0 <= k < s.len() && !is_white_space(#[trigger] s[k]) ==> is_tag_char(s[k]),
    ensures
        forall|i: int| 0 <= i < split_words(s).len() ==> is_tag(#[trigger] split_words(s)[i]),
        s.len() > 0 && !is_white_space(s.last()) ==> split_words(s).len() > 0,
    decreases s.len(),
{
    if s.len() > 0 {
        let p = s.drop_last();
        assert forall|k: int| 0 <= k < p.len() && !is_white_space(#[trigger] p[k]) implies is_tag_char(p[k]) by {
            assert(p[k] == s[k]);
        }
        lemma_split_words_tags(p);
        let w = split_words(p);
        let c = s.last();
        if !is_white_space(c) {
            assert(is_tag_char(c));
            if s.len() >= 2 && !is_white_space(s[s.len() - 2]) {
                assert(p.last() == s[s.len() - 2]);
                let nw = w.last().push(c);
                assert(is_tag(w.last()));
                assert(is_tag(nw)) by {
                    assert forall|j: int| 0 <= j < nw.len() implies is_tag_char(#[trigger] nw[j]) by {
                        if j < w.last().len() {
                            assert(nw[j] == w.last()[j]);
                        }
                    }
                }
                assert forall|i: int| 0 <= i < split_words(s).len() implies is_tag(#[trigger] split_words(s)[i]) by {
                    if i < w.len() - 1 {
                        assert(split_words(s)[i] == w[i]);
                    }
                }
            } else {
                assert(is_tag(seq![c]));
                assert forall|i: int| 0 <= i < split_words(s).len() implies is_tag(#[trigger] split_words(s)[i]) by {
                    if i < w.len() {
                        assert(split_words(s)[i] == w[i]);
                    }
                }
            }
        }
    }
}

/// Splits a text at whitespace into its words.
pub fn split_text(text: &str) -> (r: Vec<String>)
    ensures
        strings_view(r@) == split_words(text@),
{
    let n = text.unicode_len();
    let mut words: Vec<String> = Vec::new();
    let mut cur = String::new();
    let mut i: usize = 0;
    assert(strings_view(words@) =~= Seq::<Seq<char>>::empty());
    while i < n
        invariant
            n == text@.len(),
            i <= n,
            ({
                let w = split_words(text@.subrange(0, i as int));
                if i > 0 && !is_white_space(text@[i - 1]) {
                    w.len() > 0 && cur@ == w.last() && cur@.len() > 0 && strings_view(words@)
                        == w.drop_last()
                } else {
                    cur@.len() == 0 && strings_view(words@) == w
                }
            }),
        decreases n - i,
    {
        let c = text.get_char(i);
        let ghost w = split_words(text@.subrange(0, i as int));
        let ghost pre = text@.subrange(0, i + 1);
        assert(pre.drop_last() =~= text@.subrange(0, i as int));
        assert(pre.last() == c);
        if i > 0 {
            assert(pre[i - 1] == text@[i - 1]);
        }
        if is_white_space_char(c) {
            if cur.unicode_len() > 0 {
                let ghost before = words@;
                words.push(cur);
                cur = String::new();
                assert(strings_view(words@) =~= strings_view(before).push(w.last()));
                assert(w.drop_last().push(w.last()) =~= w);
            }
        } else {
            push_char(&mut cur, c);
            proof {
                let w2 = split_words(pre);
                if i > 0 && !is_white_space(text@[i - 1]) {
                    assert(w2.drop_last() =~= w.drop_last());
                } else {
                    assert(w2.drop_last() =~= w);
                    assert(cur@ =~= seq![c]);
                }
            }
        }
        i += 1;
    }
    assert(text@.subrange(0, n as int) =~= text@);
    if cur.unicode_len() > 0 {
        let ghost w = split_words(text@);
        let ghost before = words@;
        words.push(cur);
        assert(strings_view(words@) =~= strings_view(before).push(w.last()));
        assert(w.drop_last().push(w.last()) =~= w);
    }
    words
}

/// The tags of a sound: cleaned, non-empty, in the order given.
#[derive(Debug, Clone, PartialEq, Eq)]
pub struct Tags(Vec<String>);

impl View for Tags {
    type V = Seq<Seq<char>>;

    closed spec fn view(&self) -> Seq<Seq<char>> {
        strings_view(self.0@)
    }
}

impl Tags {
    pub fn new() -> (r: Tags)
        ensures
            r@ == Seq::<Seq<char>>::empty(),
    {
        let r = Tags(Vec::new());
        assert(r@ =~= Seq::<Seq<char>>::empty());
        r
    }

    /// Tags taken as they are.
    pub fn from_vec(tags: Vec<String>) -> (r: Tags)
        ensures
            r@ == strings_view(tags@),
    {
        Tags(tags)
    }

    /// Tags from user text: every character outside `[A-Za-z0-9\-_\s]`
    /// becomes a space, then the text is split at whitespace. Each tag is a
    /// non-empty run of letters, digits, `-` and `_`, in the order given.
    pub fn from_text(text: &str) -> (r: Tags)
        ensures
            r@ == split_words(blank_non_tag(text@)),
            forall|i: int| 0 <= i < r@.len() ==> is_tag(#[trigger] r@[i]),
    {
        let blanked = regex_replace_all(r"[^a-zA-Z0-9-_\s]", text, " ");
        proof {
            assert forall|k: int| 0 <= k < blanked@.len() && !is_white_space(#[trigger] blanked@[k]) implies is_tag_char(blanked@[k]) by {
                reveal_strlit(" ");
            }
            lemma_split_words_tags(blanked@);
        }
        Tags(split_text(blanked.as_str()))
    }

    pub fn inner(&self) -> (r: &Vec<String>)
        ensures
            strings_view(r@) == self@,
    {
        &self.0
    }

    pub fn len(&self) -> (r: usize)
        ensures
            r == self@.len(),
    {
        self.0.len()
    }

    /// The tags joined with single spaces.
    pub fn to_text(&self) -> (r: String)
        ensures
            r@ == join_words(self@),
    {
        let mut out = String::new();
        let mut i: usize = 0;
        while i < self.0.len()
            invariant
                i <= self.0@.len(),
                out@ == join_words(self@.subrange(0, i as int)),
            decreases self.0@.len() - i,
        {
            let ghost ws = self@.subrange(0, i + 1);
            assert(ws.drop_last() =~= self@.subrange(0, i as int));
            if i > 0 {
                push_char(&mut out, ' ');
            } else {
                assert(out@ =~= Seq::<char>::empty());
            }
            out.append(self.0[i].as_str());
            i += 1;
            assert(out@ =~= join_words(ws));
        }
        assert(self@.subrange(0, self.0@.len() as int) =~= self@);
        out
    }
}

/// Each word with `*` appended, for a prefix query.
pub open spec fn starred(words: Seq<Seq<char>>) -> Seq<Seq<char>> {
    words.map_values(|w: Seq<char>| w.push('*'))
}

fn push_starred(out: &mut String, word: &str, first: bool)
    ensures
        final(out)@ == (if first {
            old(out)@
        } else {
            old(out)@ + seq![' ']
        }) + word@.push('*'),
{
    if !first {
        push_char(out, ' ');
    }
    out.append(word);
    push_char(out, '*');
    assert(final(out)@ =~= (if first {
        old(out)@
    } else {
        old(out)@ + seq![' ']
    }) + word@.push('*'));
}

proof fn lemma_join_push(ws: Seq<Seq<char>>, w: Seq<char>)
    ensures
        join_words(ws.push(w)) == if ws.len() == 0 {
            w
        } else {
            join_words(ws) + seq![' '] + w
        },
{
    assert(ws.push(w).drop_last() =~= ws);
    if ws.len() == 0 {
        assert(ws.push(w)[0] == w);
    }
}

/// A prefix query: the words of the text, each followed by `*`, joined with
/// single spaces.
pub fn fts_prepare_search(text: &str) -> (r: String)
    ensures
        r@ == join_words(starred(split_words(text@))),
{
    let n = text.unicode_len();
    let mut out = String::new();
    let mut first = true;
    let mut cur = String::new();
    let mut i: usize = 0;
    while i < n
        invariant
            n == text@.len(),
            i <= n,
            ({
                let w = split_words(text@.subrange(0, i as int));
                let done = if i > 0 && !is_white_space(text@[i - 1]) {
                    w.drop_last()
                } else {
                    w
                };
                &&& (i > 0 && !is_white_space(text@[i - 1]) ==> w.len() > 0 && cur@ == w.last()
                    && cur@.len() > 0)
                &&& (!(i > 0 && !is_white_space(text@[i - 1])) ==> cur@.len() == 0)
                &&& first == (done.len() == 0)
                &&& starred(done).len() == done.len()
                &&& out@ == join_words(starred(done))
            }),
        decreases n - i,
    {
        let c = text.get_char(i);
        let ghost w = split_words(text@.subrange(0, i as int));
        let ghost pre = text@.subrange(0, i + 1);
        assert(pre.drop_last() =~= text@.subrange(0, i as int));
        assert(pre.last() == c);
        if i > 0 {
            assert(pre[i - 1] == text@[i - 1]);
        }
        if is_white_space_char(c) {
            assert(split_words(pre) == w);
            if cur.unicode_len() > 0 {
                proof {
                    lemma_join_push(starred(w.drop_last()), cur@.push('*'));
                    assert(starred(w.drop_last()).push(cur@.push('*')) =~= starred(w));
                    assert(w.drop_last().push(w.last()) =~= w);
                    assert(starred(w.drop_last()).len() == w.drop_last().len());
                }
                push_starred(&mut out, cur.as_str(), first);
                assert(out@ == join_words(starred(w)));
                first = false;
                cur = String::new();
            }
        } else {
            push_char(&mut cur, c);
            proof {
                let w2 = split_words(pre);
                if i > 0 && !is_white_space(text@[i - 1]) {
                    assert(w2.drop_last() =~= w.drop_last());
                } else {
                    assert(w2.drop_last() =~= w);
                    assert(cur@ =~= seq![c]);
                }
            }
        }
        i += 1;
    }
    assert(text@.subrange(0, n as int) =~= text@);
    if cur.unicode_len() > 0 {
        let ghost w = split_words(text@);
        proof {
            lemma_join_push(starred(w.drop_last()), cur@.push('*'));
            assert(starred(w.drop_last()).push(cur@.push('*')) =~= starred(w));
            assert(w.drop_last().push(w.last()) =~= w);
        }
        push_starred(&mut out, cur.as_str(), first);
    }
    out
}

/// Text that can be prepared for full-text search.
pub trait FtsText {
    fn fts_clean(&self) -> String;

    fn fts_prepare_search(&self) -> String;
}

impl FtsText for String {
    fn fts_clean(&self) -> String {
        fts_clean_text(self.as_str())
    }

    fn fts_prepare_search(&self) -> String {
        fts_prepare_search(fts_clean_text(self.as_str()).as_str())
    }
}

impl FtsText for &str {
    fn fts_clean(&self) -> String {
        fts_clean_text(*self)
    }

    fn fts_prepare_search(&self) -> String {
        fts_prepare_search(fts_clean_text(*self).as_str())
    }
}

} // verus!
