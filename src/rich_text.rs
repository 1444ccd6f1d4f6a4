//! Text with inline links written `[label](url)`: the label is shown and
//! remembered as a clickable span, the brackets and the url are not shown.
use vstd::prelude::*;

verus! {

/// Formatting applied to a span of shown characters.
pub enum Format {
    /// A link to the url.
    Link(String),
}

/// A formatted span of the shown text.
pub struct FormatEntry {
    pub format: Format,
    pub start: usize,
    pub end: usize,
}

/// The shown characters, each flagged when it belongs to a link label, and
/// the link spans.
pub struct RichText {
    pub formatting: Vec<FormatEntry>,
    pub text: Vec<(char, bool)>,
}

/// Index of the first `c` in `s` at or after `i`, or `s.len()`.
pub open spec fn find_from(s: Seq<char>, i: int, c: char) -> int
    decreases s.len() - i,
{
    if i < 0 || i >= s.len() {
        s.len() as int
    } else if s[i] == c {
        i
    } else {
        find_from(s, i + 1, c)
    }
}

/// `max(v, 0)`.
pub open spec fn clamp0(v: int) -> int {
    if v < 0 {
        0
    } else {
        v
    }
}

/// A link span as (start, end, url).
pub type Span = (int, int, Seq<char>);

/// Reading a `[` at `n`: the characters shown, the span found (if any), the
/// position to go on from and the new count of hidden characters.
///
/// The label runs to the next `]`. If the character after it is not `(`,
/// that character alone is shown and there is no link. Otherwise the url
/// runs to the next `)`. The span's bounds are shifted back by the number
/// of characters hidden so far (line breaks count as hidden) and by one.
pub open spec fn link_step(s: Seq<char>, n: int, skip: int) -> (Seq<(char, bool)>, Seq<Span>, int, int) {
    let len = s.len() as int;
    let j = find_from(s, n + 1, ']');
    let k = if j < len {
        j + 1
    } else {
        len
    };
    if k < len && s[k] != '(' {
        (seq![(s[k], false)], seq![], k + 1, skip)
    } else {
        let u = if k < len {
            k + 1
        } else {
            len
        };
        let m = find_from(s, u, ')');
        let next = if m < len {
            m + 1
        } else {
            len
        };
        let label = s.subrange(n + 1, j).map_values(|c: char| (c, true));
        (
            label,
            seq![(clamp0(n - skip - 1), clamp0(j - 1 - skip - 1), s.subrange(u, m))],
            next,
            skip + (m - u) + 4,
        )
    }
}

/// What parsing shows and finds from position `i` on, with `skip`
/// characters hidden before `i`.
pub open spec fn parse_from(s: Seq<char>, i: int, skip: int) -> (Seq<(char, bool)>, Seq<Span>)
    decreases s.len() - i,
{
    if i < 0 || i >= s.len() {
        (seq![], seq![])
    } else if s[i] == '[' {
        let (shown, spans, next, skip2) = link_step(s, i, skip);
        if next > i {
            let rest = parse_from(s, next, skip2);
            (shown + rest.0, spans + rest.1)
        } else {
            (seq![], seq![])
        }
    } else {
        let skip2 = if s[i] == '\n' {
            skip + 1
        } else {
            skip
        };
        let rest = parse_from(s, i + 1, skip2);
        (seq![(s[i], false)] + rest.0, rest.1)
    }
}

/// The spans of a list of format entries.
pub open spec fn spans_of(v: Seq<FormatEntry>) -> Seq<Span> {
    v.map_values(
        |e: FormatEntry|
            (
                e.start as int,
                e.end as int,
                match e.format {
                    Format::Link(u) => u@,
                },
            ),
    )
}

proof fn lemma_find_from_skips(s: Seq<char>, a: int, p: int, c: char)
    requires
        0 <= a <= p,
        forall|q: int| a <= q < p && q < s.len() ==> s[q] != c,
    ensures
        find_from(s, a, c) == find_from(s, p, c),
    decreases p - a,
{
    if a < p && a < s.len() {
        lemma_find_from_skips(s, a + 1, p, c);
    }
}

proof fn lemma_find_from_bounds(s: Seq<char>, a: int, c: char)
    requires
        0 <= a,
    ensures
        find_from(s, a, c) <= s.len(),
        a <= s.len() ==> a <= find_from(s, a, c),
        find_from(s, a, c) < s.len() ==> s[find_from(s, a, c)] == c,
    decreases s.len() - a,
{
    if a < s.len() && s[a] != c {
        lemma_find_from_bounds(s, a + 1, c);
    }
}

/// Index of the first `c` in `content` at or after `from`, or its length.
fn find_char(content: &str, from: usize, c: char) -> (r: usize)
    requires
        from <= content@.len(),
    ensures
        r == find_from(content@, from as int, c),
        from <= r <= content@.len(),
{
    let len = content.unicode_len();
    let mut p = from;
    while p < len && content.get_char(p) != c
        invariant
            from <= p <= len,
            len == content@.len(),
            forall|q: int| from <= q < p ==> content@[q] != c,
        decreases len - p,
    {
        p += 1;
    }
    proof {
        lemma_find_from_skips(content@, from as int, p as int, c);
    }
    p
}

impl RichText {
    /// Parses `content`, replacing each `[label](url)` by its label and
    /// recording the label's span.
    pub fn new(content: &str) -> (r: RichText)
        requires
            content@.len() <= usize::MAX / 8,
        ensures
            r.text@ == parse_from(content@, 0, 0).0,
            spans_of(r.formatting@) == parse_from(content@, 0, 0).1,
    {
        let len = content.unicode_len();
        let ghost s = content@;
        let mut text: Vec<(char, bool)> = Vec::new();
        let mut formatting: Vec<FormatEntry> = Vec::new();
        let mut skip: usize = 0;
        let mut i: usize = 0;
        while i < len
            invariant
                len == s.len(),
                s == content@,
                len <= usize::MAX / 8,
                i <= len,
                skip <= 4 * i,
                text@ + parse_from(s, i as int, skip as int).0 == parse_from(s, 0, 0).0,
                spans_of(formatting@) + parse_from(s, i as int, skip as int).1 == parse_from(
                    s,
                    0,
                    0,
                ).1,
            decreases len - i,
        {
            let n = i;
            let c = content.get_char(n);
            let ghost before_text = text@;
            let ghost before_spans = spans_of(formatting@);
            let ghost skip0 = skip as int;
            if c == '[' {
                let j = find_char(content, n + 1, ']');
                let k = if j < len {
                    j + 1
                } else {
                    len
                };
                if k < len && content.get_char(k) != '(' {
                    text.push((content.get_char(k), false));
                    i = k + 1;
                    proof {
                        let (shown, spans, next, skip2) = link_step(s, n as int, skip0);
                        assert(text@ == before_text + shown);
                        assert(next == i && skip2 == skip0);
                        assert(spans_of(formatting@) =~= before_spans + spans);
                        let rest = parse_from(s, i as int, skip as int);
                        assert(parse_from(s, n as int, skip0) == (shown + rest.0, spans + rest.1));
                        assert(before_text + (shown + rest.0) =~= text@ + rest.0);
                        assert(before_spans + (spans + rest.1) =~= spans_of(formatting@) + rest.1);
                    }
                } else {
                    let u = if k < len {
                        k + 1
                    } else {
                        len
                    };
                    let m = find_char(content, u, ')');
                    let mut p = n + 1;
                    while p < j
                        invariant
                            n + 1 <= p <= j,
                            j <= len,
                            len == s.len(),
                            s == content@,
                            text@ == before_text + s.subrange(n + 1, p as int).map_values(
                                |c: char| (c, true),
                            ),
                        decreases j - p,
                    {
                        text.push((content.get_char(p), true));
                        assert(s.subrange(n + 1, p + 1).map_values(|c: char| (c, true))
                            =~= s.subrange(n + 1, p as int).map_values(|c: char| (c, true)).push(
                            (s[p as int], true),
                        ));
                        p += 1;
                    }
                    let url = content.substring_char(u, m).to_owned();
                    let start = n.saturating_sub(skip).saturating_sub(1);
                    let end = (j - 1).saturating_sub(skip).saturating_sub(1);
                    let ghost fe_before = formatting@;
                    formatting.push(FormatEntry { format: Format::Link(url), start, end });
                    skip = skip + (m - u) + 4;
                    i = if m < len {
                        m + 1
                    } else {
                        len
                    };
                    proof {
                        let (shown, spans, next, skip2) = link_step(s, n as int, skip0);
                        assert(text@ =~= before_text + shown);
                        assert(next == i && skip2 == skip);
                        assert(spans_of(formatting@) =~= spans_of(fe_before).push(spans[0]));
                        assert(spans_of(formatting@) =~= before_spans + spans);
                        let rest = parse_from(s, i as int, skip as int);
                        assert(parse_from(s, n as int, skip0) == (shown + rest.0, spans + rest.1));
                        assert(before_text + (shown + rest.0) =~= text@ + rest.0);
                        assert(before_spans + (spans + rest.1) =~= spans_of(formatting@) + rest.1);
                    }
                }
            } else {
                if c == '\n' {
                    skip = skip + 1;
                }
                text.push((c, false));
                i = n + 1;
                proof {
                    let rest = parse_from(s, i as int, skip as int);
                    assert(parse_from(s, n as int, skip0) == (seq![(c, false)] + rest.0, rest.1));
                    assert(before_text + (seq![(c, false)] + rest.0) =~= text@ + rest.0);
                }
            }
        }
        proof {
            assert(text@ + seq![] =~= text@);
            assert(spans_of(formatting@) + seq![] =~= spans_of(formatting@));
        }
        RichText { formatting, text }
    }
}

} // verus!
