//! Types and text helpers of the search endpoints: the query and result
//! shapes, HTML escaping, and search-term tokenization.

use vstd::prelude::*;

verus! {

/// An interactive search request.
pub struct IndexQuery {
    /// The search term, if one was given.
    pub search: Option<String>,
}

/// One search result row.
pub struct SearchResult {
    /// The matching media file's path, sidecar suffix stripped.
    pub file_path: String,
    /// The metadata value the search matched.
    pub value: String,
    /// The thumbnail in transport encoding, if one could be generated.
    pub thumbnail_base64: Option<String>,
}

/// What one character escapes to in HTML text.
pub open spec fn spec_html_escape_char(c: char) -> Seq<char> {
    if c == '&' {
        seq!['&', 'a', 'm', 'p', ';']
    } else if c == '<' {
        seq!['&', 'l', 't', ';']
    } else if c == '>' {
        seq!['&', 'g', 't', ';']
    } else if c == '"' {
        seq!['&', 'q', 'u', 'o', 't', ';']
    } else if c == '\'' {
        seq!['&', '#', 'x', '2', '7', ';']
    } else {
        seq![c]
    }
}

/// The HTML escaping of a text: each character replaced by its escape.
pub open spec fn spec_html_escape(s: Seq<char>) -> Seq<char>
    decreases s.len(),
{
    if s.len() == 0 {
        Seq::empty()
    } else {
        spec_html_escape(s.drop_last()) + spec_html_escape_char(s.last())
    }
}

/// Escapes the five HTML-significant characters of a text.
pub fn html_escape(text: &str) -> (r: String)
    ensures
        r@ == spec_html_escape(text@),
{
    let n = text.unicode_len();
    let mut out = String::new();
    let mut i: usize = 0;
    while i < n
        invariant
            n == text@.len(),
            i <= n,
            out@ == spec_html_escape(text@.take(i as int)),
        decreases n - i,
    {
        let ghost prefix = text@.take(i as int);
        let c = text.get_char(i);
        if c == '&' {
            out.push('&');
            out.push('a');
            out.push('m');
            out.push('p');
            out.push(';');
        } else if c == '<' {
            out.push('&');
            out.push('l');
            out.push('t');
            out.push(';');
        } else if c == '>' {
            out.push('&');
            out.push('g');
            out.push('t');
            out.push(';');
        } else if c == '"' {
            out.push('&');
            out.push('q');
            out.push('u');
            out.push('o');
            out.push('t');
            out.push(';');
        } else if c == '\'' {
            out.push('&');
            out.push('#');
            out.push('x');
            out.push('2');
            out.push('7');
            out.push(';');
        } else {
            out.push(c);
        }
        proof {
            let next = text@.take(i + 1);
            assert(next.drop_last() =~= prefix);
            assert(next.last() == c);
            assert(out@ =~= spec_html_escape(prefix) + spec_html_escape_char(c));
        }
        i = i + 1;
    }
    proof {
        assert(text@.take(n as int) =~= text@);
    }
    out
}

} // verus!

// === Search-term tokenization ===============================================

verus! {

/// A whitespace separator between search terms.
pub open spec fn spec_is_term_ws(c: char) -> bool {
    c == ' ' || c == '\t' || c == '\n' || c == '\r'
}

/// A term trimmed of leading and trailing separators.
pub open spec fn spec_trim_term(s: Seq<char>) -> Seq<char>
    decreases s.len(),
{
    if s.len() == 0 {
        s
    } else if spec_is_term_ws(s[0]) {
        spec_trim_term(s.drop_first())
    } else if spec_is_term_ws(s.last()) {
        spec_trim_term(s.drop_last())
    } else {
        s
    }
}

/// The pending term joins the accumulator if anything survives trimming.
pub open spec fn spec_push_term(acc: Seq<Seq<char>>, cur: Seq<char>) -> Seq<Seq<char>> {
    if spec_trim_term(cur).len() > 0 {
        acc.push(spec_trim_term(cur))
    } else {
        acc
    }
}

/// The tokenizer from position `i` on: a quote toggles quoting and closes
/// the pending term, a separator outside quotes closes it, everything else
/// joins it — whitespace inside quotes included.
pub open spec fn spec_tokenize_from(
    s: Seq<char>,
    i: int,
    in_quotes: bool,
    cur: Seq<char>,
    acc: Seq<Seq<char>>,
) -> Seq<Seq<char>>
    decreases s.len() - i,
{
    if i < 0 || i >= s.len() {
        spec_push_term(acc, cur)
    } else {
        let c = s[i];
        if c == '"' {
            spec_tokenize_from(s, i + 1, !in_quotes, Seq::empty(), spec_push_term(acc, cur))
        } else if spec_is_term_ws(c) {
            if in_quotes {
                spec_tokenize_from(s, i + 1, true, cur.push(c), acc)
            } else {
                spec_tokenize_from(s, i + 1, false, Seq::empty(), spec_push_term(acc, cur))
            }
        } else {
            spec_tokenize_from(s, i + 1, in_quotes, cur.push(c), acc)
        }
    }
}

/// The search terms of an input: quoted phrases kept whole, the rest split
/// on whitespace, every term trimmed, empty terms dropped.
pub open spec fn spec_search_terms(s: Seq<char>) -> Seq<Seq<char>> {
    spec_tokenize_from(s, 0, false, Seq::empty(), Seq::empty())
}

/// A fully-separator sequence trims to nothing.
proof fn lemma_trim_all_ws(s: Seq<char>)
    requires
        forall|j: int| 0 <= j < s.len() ==> spec_is_term_ws(s[j]),
    ensures
        spec_trim_term(s).len() == 0,
    decreases s.len(),
{
    if s.len() > 0 {
        lemma_trim_all_ws(s.drop_first());
    }
}

/// Trimming keeps exactly the span from the first to the last
/// non-separator character.
proof fn lemma_trim_span(s: Seq<char>, a: int, b: int)
    requires
        0 <= a <= b < s.len(),
        !spec_is_term_ws(s[a]),
        !spec_is_term_ws(s[b]),
        forall|j: int| 0 <= j < a ==> spec_is_term_ws(s[j]),
        forall|j: int| b < j < s.len() ==> spec_is_term_ws(s[j]),
    ensures
        spec_trim_term(s) == s.subrange(a, b + 1),
    decreases s.len(),
{
    if a > 0 {
        let t = s.drop_first();
        lemma_trim_span(t, a - 1, b - 1);
        assert(t.subrange(a - 1, b) =~= s.subrange(a, b + 1));
    } else if b < s.len() - 1 {
        let t = s.drop_last();
        lemma_trim_span(t, a, b);
        assert(t.subrange(a, b + 1) =~= s.subrange(a, b + 1));
    } else {
        assert(s.subrange(a, b + 1) =~= s);
    }
}

/// Whether a character separates search terms.
fn is_term_ws(c: char) -> (r: bool)
    ensures
        r == spec_is_term_ws(c),
{
    c == ' ' || c == '\t' || c == '\n' || c == '\r'
}

/// Trims leading and trailing separators from a term.
fn trim_term(t: &str) -> (r: String)
    ensures
        r@ == spec_trim_term(t@),
{
    let n = t.unicode_len();
    let mut a: usize = 0;
    while a < n && is_term_ws(t.get_char(a))
        invariant
            n == t@.len(),
            a <= n,
            forall|j: int| 0 <= j < a ==> spec_is_term_ws(t@[j]),
        decreases n - a,
    {
        a = a + 1;
    }
    if a == n {
        proof {
            lemma_trim_all_ws(t@);
        }
        return String::new();
    }
    let mut b: usize = n - 1;
    while b > a && is_term_ws(t.get_char(b))
        invariant
            n == t@.len(),
            a <= b < n,
            !spec_is_term_ws(t@[a as int]),
            forall|j: int| b < j < n ==> spec_is_term_ws(t@[j]),
        decreases b,
    {
        b = b - 1;
    }
    proof {
        lemma_trim_span(t@, a as int, b as int);
    }
    String::from_str(t.substring_char(a, b + 1))
}

/// Closes the pending term: it joins the accumulator if anything survives
/// trimming.
fn push_term(acc: &mut Vec<String>, cur: &str)
    ensures
        final(acc).deep_view() == spec_push_term(old(acc).deep_view(), cur@),
{
    let trimmed = trim_term(cur);
    if trimmed.unicode_len() > 0 {
        let ghost before = acc.deep_view();
        acc.push(trimmed);
        proof {
            assert(acc.deep_view() =~= before.push(spec_trim_term(cur@)));
        }
    }
}

/// Splits a search input into terms: double quotes group phrases —
/// whitespace inside them is kept — and whitespace separates terms outside
/// them; each term is trimmed and empty terms are dropped.
pub fn parse_search_terms(input: &str) -> (r: Vec<String>)
    ensures
        r.deep_view() == spec_search_terms(input@),
{
    let n = input.unicode_len();
    let mut acc: Vec<String> = Vec::new();
    let mut cur = String::new();
    let mut in_quotes = false;
    let mut i: usize = 0;
    proof {
        assert(acc.deep_view() =~= Seq::<Seq<char>>::empty());
        assert(cur@ =~= Seq::<char>::empty());
    }
    while i < n
        invariant
            n == input@.len(),
            i <= n,
            spec_tokenize_from(input@, i as int, in_quotes, cur@, acc.deep_view())
                == spec_search_terms(input@),
        decreases n - i,
    {
        let c = input.get_char(i);
        if c == '"' {
            push_term(&mut acc, cur.as_str());
            cur = String::new();
            in_quotes = !in_quotes;
        } else if is_term_ws(c) {
            if in_quotes {
                cur.push(c);
            } else {
                push_term(&mut acc, cur.as_str());
                cur = String::new();
            }
        } else {
            cur.push(c);
        }
        i = i + 1;
    }
    push_term(&mut acc, cur.as_str());
    acc
}

} // verus!
