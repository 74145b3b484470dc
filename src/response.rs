//! Reading the replies of the language model: stripping Markdown code
//! fences, and repairing a truncated analysis before it is parsed.
use crate::json::{
    array_field, json_as_str, json_get, json_is_object, lemma_entries_get_at, parse_json,
    parsed_json, str_field, Json, JsonView,
};
use crate::text::matches_at;
use vstd::prelude::*;
use vstd::string::*;

verus! {

/// Whether a character has Unicode's `White_Space` property, the
/// whitespace that `str::trim` removes.
pub open spec fn is_white_space(c: char) -> bool {
    let u = c as u32;
    (0x9 <= u <= 0xd) || u == 0x20 || u == 0x85 || u == 0xa0 || u == 0x1680 || (0x2000 <= u
        <= 0x200a) || u == 0x2028 || u == 0x2029 || u == 0x202f || u == 0x205f || u == 0x3000
}

/// The text without its leading whitespace.
pub open spec fn trim_start(s: Seq<char>) -> Seq<char>
    decreases s.len(),
{
    if s.len() > 0 && is_white_space(s[0]) {
        trim_start(s.drop_first())
    } else {
        s
    }
}

/// The text without its trailing whitespace.
pub open spec fn trim_end(s: Seq<char>) -> Seq<char>
    decreases s.len(),
{
    if s.len() > 0 && is_white_space(s.last()) {
        trim_end(s.drop_last())
    } else {
        s
    }
}

/// The text without leading and trailing whitespace.
pub open spec fn trimmed(s: Seq<char>) -> Seq<char> {
    trim_end(trim_start(s))
}

fn white_space(c: char) -> (r: bool)
    ensures
        r == is_white_space(c),
{
    let u = c as u32;
    (0x9 <= u && u <= 0xd) || u == 0x20 || u == 0x85 || u == 0xa0 || u == 0x1680 || (0x2000 <= u
        && u <= 0x200a) || u == 0x2028 || u == 0x2029 || u == 0x202f || u == 0x205f || u == 0x3000
}

/// The text without leading and trailing whitespace.
pub fn trim(s: &str) -> (r: &str)
    ensures
        r@ == trimmed(s@),
{
    let n = s.unicode_len();
    let mut i: usize = 0;
    assert(s@.subrange(0, n as int) =~= s@);
    while i < n && white_space(s.get_char(i))
        invariant
            n == s@.len(),
            i <= n,
            trim_start(s@) == trim_start(s@.subrange(i as int, n as int)),
        decreases n - i,
    {
        assert(s@.subrange(i as int, n as int).drop_first() =~= s@.subrange(i + 1, n as int));
        i = i + 1;
    }
    proof {
        if i < n {
            assert(s@.subrange(i as int, n as int)[0] == s@[i as int]);
        }
    }
    let mut j: usize = n;
    while j > i && white_space(s.get_char(j - 1))
        invariant
            n == s@.len(),
            i <= j <= n,
            trim_start(s@) == s@.subrange(i as int, n as int),
            trimmed(s@) == trim_end(s@.subrange(i as int, j as int)),
        decreases j,
    {
        assert(s@.subrange(i as int, j as int).drop_last() =~= s@.subrange(i as int, j - 1));
        j = j - 1;
    }
    proof {
        if j > i {
            assert(s@.subrange(i as int, j as int).last() == s@[j - 1]);
        }
    }
    s.substring_char(i, j)
}

/// The text with every leading repetition of `p` removed.
pub open spec fn strip_prefixes(s: Seq<char>, p: Seq<char>) -> Seq<char>
    decreases s.len(),
{
    if p.len() > 0 && p.len() <= s.len() && s.subrange(0, p.len() as int) == p {
        strip_prefixes(s.subrange(p.len() as int, s.len() as int), p)
    } else {
        s
    }
}

/// The text with every trailing repetition of `p` removed.
pub open spec fn strip_suffixes(s: Seq<char>, p: Seq<char>) -> Seq<char>
    decreases s.len(),
{
    if p.len() > 0 && p.len() <= s.len() && s.subrange(s.len() - p.len(), s.len() as int) == p {
        strip_suffixes(s.subrange(0, s.len() - p.len()), p)
    } else {
        s
    }
}

/// A reply with surrounding whitespace and Markdown code fences removed.
pub open spec fn cleaned(s: Seq<char>) -> Seq<char> {
    trimmed(
        strip_suffixes(strip_prefixes(strip_prefixes(trimmed(s), "```json"@), "```"@), "```"@),
    )
}

/// Removes every leading repetition of `p`.
pub fn strip_leading<'a>(s: &'a str, p: &str) -> (r: &'a str)
    ensures
        r@ == strip_prefixes(s@, p@),
{
    let n = s.unicode_len();
    let m = p.unicode_len();
    if m == 0 {
        return s;
    }
    let mut i: usize = 0;
    assert(s@.subrange(0, n as int) =~= s@);
    while m <= n - i && matches_at(s, p, i, n, m)
        invariant
            n == s@.len(),
            m == p@.len(),
            m > 0,
            i <= n,
            strip_prefixes(s@, p@) == strip_prefixes(s@.subrange(i as int, n as int), p@),
        decreases n - i,
    {
        proof {
            let t = s@.subrange(i as int, n as int);
            assert(t.subrange(0, m as int) =~= s@.subrange(i as int, i + m));
            assert(t.subrange(m as int, t.len() as int) =~= s@.subrange(i + m, n as int));
        }
        i = i + m;
    }
    proof {
        let t = s@.subrange(i as int, n as int);
        if i + m <= n {
            assert(t.subrange(0, m as int) =~= s@.subrange(i as int, i + m));
        }
    }
    s.substring_char(i, n)
}

/// Removes every trailing repetition of `p`.
pub fn strip_trailing<'a>(s: &'a str, p: &str) -> (r: &'a str)
    ensures
        r@ == strip_suffixes(s@, p@),
{
    let n = s.unicode_len();
    let m = p.unicode_len();
    if m == 0 {
        return s;
    }
    let mut j: usize = n;
    assert(s@.subrange(0, n as int) =~= s@);
    while j >= m && matches_at(s, p, j - m, n, m)
        invariant
            n == s@.len(),
            m == p@.len(),
            m > 0,
            j <= n,
            strip_suffixes(s@, p@) == strip_suffixes(s@.subrange(0, j as int), p@),
        decreases j,
    {
        proof {
            let t = s@.subrange(0, j as int);
            assert(t.subrange(j - m, j as int) =~= s@.subrange(j - m, j as int));
            assert(t.subrange(0, j - m) =~= s@.subrange(0, j - m));
        }
        j = j - m;
    }
    proof {
        let t = s@.subrange(0, j as int);
        if j >= m {
            assert(t.subrange(j - m, j as int) =~= s@.subrange(j - m, j as int));
        }
    }
    s.substring_char(0, j)
}

/// Strips surrounding whitespace and Markdown code fences from a reply.
pub fn clean_response(reply: &str) -> (r: String)
    ensures
        r@ == cleaned(reply@),
{
    let a = trim(reply);
    let b = strip_leading(a, "```json");
    let c = strip_leading(b, "```");
    let d = strip_trailing(c, "```");
    String::from_str(trim(d))
}

/// How often `c` occurs in `s`.
pub open spec fn count_of(s: Seq<char>, c: char) -> nat
    decreases s.len(),
{
    if s.len() == 0 {
        0
    } else {
        count_of(s.drop_last(), c) + if s.last() == c {
            1nat
        } else {
            0nat
        }
    }
}

/// How many `close` characters are missing to match the `open` ones.
pub open spec fn deficit(s: Seq<char>, open: char, close: char) -> nat {
    if count_of(s, open) > count_of(s, close) {
        (count_of(s, open) - count_of(s, close)) as nat
    } else {
        0
    }
}

/// `n` copies of `c`.
pub open spec fn repeated(c: char, n: nat) -> Seq<char> {
    Seq::new(n, |i: int| c)
}

/// A text with the missing closing brackets and then the missing closing
/// braces appended, as a simple tally of each finds them.
pub open spec fn repaired(s: Seq<char>) -> Seq<char> {
    s + repeated(']', deficit(s, '[', ']')) + repeated('}', deficit(s, '{', '}'))
}

fn count_char(s: &str, c: char) -> (r: usize)
    ensures
        r == count_of(s@, c),
{
    let n = s.unicode_len();
    let mut k: usize = 0;
    let mut i: usize = 0;
    while i < n
        invariant
            n == s@.len(),
            i <= n,
            k <= i,
            k == count_of(s@.subrange(0, i as int), c),
        decreases n - i,
    {
        assert(s@.subrange(0, i + 1).drop_last() =~= s@.subrange(0, i as int));
        if s.get_char(i) == c {
            k = k + 1;
        }
        i = i + 1;
    }
    assert(s@.subrange(0, n as int) =~= s@);
    k
}

fn append_copies(out: &mut String, c: &str, n: usize)
    requires
        c@.len() == 1,
    ensures
        final(out)@ == old(out)@ + repeated(c@[0], n as nat),
{
    let mut i: usize = 0;
    while i < n
        invariant
            c@.len() == 1,
            i <= n,
            out@ == old(out)@ + repeated(c@[0], i as nat),
        decreases n - i,
    {
        out.append(c);
        assert(repeated(c@[0], (i + 1) as nat) =~= repeated(c@[0], i as nat) + c@);
        assert(out@ =~= old(out)@ + repeated(c@[0], (i + 1) as nat));
        i = i + 1;
    }
}

/// Appends the closing brackets and braces that a simple tally finds missing.
pub fn repair_json(text: &str) -> (r: String)
    ensures
        r@ == repaired(text@),
{
    let open_brackets = count_char(text, '[');
    let close_brackets = count_char(text, ']');
    let open_braces = count_char(text, '{');
    let close_braces = count_char(text, '}');
    let brackets: usize = if open_brackets > close_brackets {
        open_brackets - close_brackets
    } else {
        0
    };
    let braces: usize = if open_braces > close_braces {
        open_braces - close_braces
    } else {
        0
    };
    let mut out = String::from_str(text);
    proof {
        reveal_strlit("]");
        reveal_strlit("}");
    }
    append_copies(&mut out, "]", brackets);
    append_copies(&mut out, "}", braces);
    out
}

/// The analysis that stands in for one that cannot be parsed even after
/// repair.
pub open spec fn is_fallback_analysis(j: JsonView) -> bool {
    &&& str_field(j, "context"@) == Some("Error parsing analysis"@)
    &&& array_field(j, "ui_elements"@) == Some(Seq::<JsonView>::empty())
    &&& json_is_object(json_get(j, "state"@))
    &&& str_field(json_get(j, "state"@).unwrap(), "active_window"@) == Some("unknown"@)
    &&& str_field(json_get(j, "state"@).unwrap(), "window_title"@) == Some("unknown"@)
    &&& str_field(json_get(j, "state"@).unwrap(), "window_class"@) == Some("unknown"@)
    &&& array_field(j, "challenges"@) is Some
    &&& array_field(j, "challenges"@).unwrap().len() == 1
    &&& json_as_str(Some(array_field(j, "challenges"@).unwrap()[0])) == Some(
        "JSON parsing error, possible truncation"@,
    )
}

fn entry(key: &str, value: Json) -> (r: (String, Json))
    ensures
        r.0@ == key@,
        r.1@ == value@,
{
    (String::from_str(key), value)
}

fn text_value(s: &str) -> (r: Json)
    ensures
        r@ == JsonView::Str(s@),
{
    Json::Str(String::from_str(s))
}

/// The analysis used when the reply cannot be parsed even after repair.
pub fn fallback_analysis() -> (r: Json)
    ensures
        is_fallback_analysis(r@),
{
    // Keys in sorted order, the order in which a parsed object holds them.
    let mut state: Vec<(String, Json)> = Vec::new();
    state.push(entry("active_window", text_value("unknown")));
    state.push(entry("focused_element", Json::Null));
    state.push(entry("selected_text", Json::Null));
    state.push(entry("target_window", Json::Null));
    state.push(entry("window_class", text_value("unknown")));
    state.push(entry("window_title", text_value("unknown")));
    let mut challenges: Vec<Json> = Vec::new();
    challenges.push(text_value("JSON parsing error, possible truncation"));
    let mut fields: Vec<(String, Json)> = Vec::new();
    fields.push(entry("challenges", Json::Array(challenges)));
    fields.push(entry("context", text_value("Error parsing analysis")));
    fields.push(entry("state", Json::Object(state)));
    fields.push(entry("ui_elements", Json::Array(Vec::new())));
    let ghost sv = Json::Object(state)@->Object_0;
    let ghost fv = Json::Object(fields)@->Object_0;
    let r = Json::Object(fields);
    proof {
        reveal_strlit("context");
        reveal_strlit("ui_elements");
        reveal_strlit("state");
        reveal_strlit("challenges");
        reveal_strlit("focused_element");
        reveal_strlit("selected_text");
        reveal_strlit("active_window");
        reveal_strlit("window_title");
        reveal_strlit("window_class");
        reveal_strlit("target_window");
        assert(fv[0].0.len() == 10 && fv[1].0.len() == 7 && fv[2].0.len() == 5);
        assert(sv[0].0.len() == 13 && sv[1].0.len() == 15 && sv[2].0.len() == 13);
        assert(sv[3].0.len() == 13 && sv[4].0.len() == 12);
        assert(sv[4].0[7] != sv[5].0[7]);
        lemma_entries_get_at(fv, 0, "challenges"@);
        lemma_entries_get_at(fv, 1, "context"@);
        lemma_entries_get_at(fv, 2, "state"@);
        lemma_entries_get_at(fv, 3, "ui_elements"@);
        assert(fv[2].1 == JsonView::Object(sv));
        lemma_entries_get_at(sv, 0, "active_window"@);
        lemma_entries_get_at(sv, 4, "window_class"@);
        lemma_entries_get_at(sv, 5, "window_title"@);
        assert(fv[3].1->Array_0 =~= Seq::<JsonView>::empty());
    }
    r
}

/// `j` is the analysis read from `text`: the text as parsed; else the text
/// with its missing closers appended, as parsed; else the fallback analysis.
pub open spec fn analysis_read(text: Seq<char>, j: JsonView) -> bool {
    &&& parsed_json(text) is Some ==> parsed_json(text) == Some(j)
    &&& parsed_json(text) is None && parsed_json(repaired(text)) is Some ==> parsed_json(
        repaired(text),
    ) == Some(j)
    &&& parsed_json(text) is None && parsed_json(repaired(text)) is None ==> is_fallback_analysis(j)
}

/// Reads an analysis from the cleaned text of a reply, repairing a
/// truncated one and falling back to a stand-in that reports the problem.
pub fn parse_analysis(text: &str) -> (r: Json)
    ensures
        analysis_read(text@, r@),
{
    match parse_json(text) {
        Some(j) => j,
        None => {
            let fixed = repair_json(text);
            match parse_json(fixed.as_str()) {
                Some(j) => j,
                None => fallback_analysis(),
            }
        },
    }
}

} // verus!
