//! A small reader for compiler-printed Rust types: the outer type name and
//! its top-level generic arguments, enough to draw a type's storage layers.
use vstd::prelude::*;

use crate::text::{
    chars_of, is_whitespace, spec_is_whitespace, trim, trim_start, trimmed, trimmed_start,
};

verus! {

/// The outer type and its top-level arguments, as text.
#[derive(Clone, Debug)]
pub struct ParsedType {
    pub outer: String,
    pub arguments: Vec<String>,
}

impl View for ParsedType {
    type V = (Seq<char>, Seq<Seq<char>>);

    open spec fn view(&self) -> (Seq<char>, Seq<Seq<char>>) {
        (self.outer@, strings_view(self.arguments@))
    }
}

pub open spec fn strings_view(v: Seq<String>) -> Seq<Seq<char>> {
    v.map_values(|s: String| s@)
}

/// Start of the last `::` that ends at or before position `n` of `s`, or -1.
pub open spec fn last_path_separator(s: Seq<char>, n: int) -> int
    decreases n,
{
    if n < 2 {
        -1
    } else if s[n - 2] == ':' && s[n - 1] == ':' {
        n - 2
    } else {
        last_path_separator(s, n - 1)
    }
}

/// The last path segment of `path`, trimmed: `std::rc::Rc` becomes `Rc`.
pub open spec fn spec_simple_type_name(path: Seq<char>) -> Seq<char> {
    let sep = last_path_separator(path, path.len() as int);
    if sep < 0 {
        trim(path)
    } else {
        trim(path.subrange(sep + 2, path.len() as int))
    }
}

proof fn lemma_last_path_separator_bounds(s: Seq<char>, n: int)
    requires
        n <= s.len(),
    ensures
        last_path_separator(s, n) < 0 || (0 <= last_path_separator(s, n) && last_path_separator(s, n)
            + 2 <= n),
    decreases n,
{
    if n >= 2 && !(s[n - 2] == ':' && s[n - 1] == ':') {
        lemma_last_path_separator_bounds(s, n - 1);
    }
}

pub fn simple_type_name(path: &str) -> (r: &str)
    ensures
        r@ == spec_simple_type_name(path@),
{
    let chars = chars_of(path);
    let mut n = chars.len();
    proof {
        lemma_last_path_separator_bounds(path@, path@.len() as int);
    }
    while n >= 2 && !(chars[n - 2] == ':' && chars[n - 1] == ':')
        invariant
            chars@ == path@,
            n <= chars.len(),
            last_path_separator(path@, path@.len() as int) == last_path_separator(path@, n as int),
        decreases n,
    {
        n -= 1;
    }
    if n < 2 {
        trimmed(path)
    } else {
        let tail = path.substring_char(n, chars.len());
        trimmed(tail)
    }
}

pub open spec fn sat_inc(d: u32) -> u32 {
    if d == u32::MAX {
        d
    } else {
        (d + 1) as u32
    }
}

pub open spec fn sat_dec(d: u32) -> u32 {
    if d == 0 {
        d
    } else {
        (d - 1) as u32
    }
}

pub open spec fn is_open_bracket(c: char) -> bool {
    c == '<' || c == '(' || c == '['
}

pub open spec fn is_close_bracket(c: char) -> bool {
    c == '>' || c == ')' || c == ']'
}

/// The top-level, comma-separated pieces of `s` from position `i` on, given
/// the bracket depth so far, the start of the current piece and the pieces
/// already found. Pieces are trimmed; an empty final piece is dropped.
pub open spec fn scan_arguments(
    s: Seq<char>,
    i: int,
    depth: u32,
    start: int,
    found: Seq<Seq<char>>,
) -> Seq<Seq<char>>
    decreases s.len() - i,
{
    if i >= s.len() {
        let tail = trim(s.subrange(start, s.len() as int));
        if tail.len() > 0 {
            found.push(tail)
        } else {
            found
        }
    } else if is_open_bracket(s[i]) {
        scan_arguments(s, i + 1, sat_inc(depth), start, found)
    } else if is_close_bracket(s[i]) {
        scan_arguments(s, i + 1, sat_dec(depth), start, found)
    } else if s[i] == ',' && depth == 0 {
        scan_arguments(s, i + 1, depth, i + 1, found.push(trim(s.subrange(start, i))))
    } else {
        scan_arguments(s, i + 1, depth, start, found)
    }
}

/// The generic arguments written in `s`, split at commas outside brackets.
pub open spec fn spec_split_type_arguments(s: Seq<char>) -> Seq<Seq<char>> {
    scan_arguments(s, 0, 0, 0, Seq::empty())
}

pub fn split_type_arguments(source: &str) -> (r: Vec<String>)
    ensures
        strings_view(r@) == spec_split_type_arguments(source@),
{
    let chars = chars_of(source);
    let mut arguments: Vec<String> = Vec::new();
    let mut depth: u32 = 0;
    let mut start: usize = 0;
    let mut i: usize = 0;
    assert(strings_view(arguments@) =~= Seq::<Seq<char>>::empty());
    while i < chars.len()
        invariant
            chars@ == source@,
            start <= i <= chars.len(),
            spec_split_type_arguments(source@) == scan_arguments(
                source@,
                i as int,
                depth,
                start as int,
                strings_view(arguments@),
            ),
        decreases chars.len() - i,
    {
        let c = chars[i];
        if c == '<' || c == '(' || c == '[' {
            depth = depth.saturating_add(1);
        } else if c == '>' || c == ')' || c == ']' {
            depth = depth.saturating_sub(1);
        } else if c == ',' && depth == 0 {
            let piece = source.substring_char(start, i);
            let piece = trimmed(piece).to_owned();
            proof {
                assert(strings_view(arguments@.push(piece)) =~= strings_view(arguments@).push(
                    trim(source@.subrange(start as int, i as int)),
                ));
            }
            arguments.push(piece);
            start = i + 1;
        }
        i += 1;
    }
    let tail = trimmed(source.substring_char(start, chars.len()));
    if !tail.is_empty() {
        let piece = tail.to_owned();
        proof {
            assert(strings_view(arguments@.push(piece)) =~= strings_view(arguments@).push(tail@));
        }
        arguments.push(piece);
    }
    arguments
}

/// Position of the `>` that closes the `<` at `open`, scanning from `j`
/// with the given depth.
pub open spec fn find_close(s: Seq<char>, j: int, depth: u32) -> Option<int>
    decreases s.len() - j,
{
    if j >= s.len() || j < 0 {
        None
    } else if s[j] == '<' {
        find_close(s, j + 1, sat_inc(depth))
    } else if s[j] == '>' {
        if sat_dec(depth) == 0 {
            Some(j)
        } else {
            find_close(s, j + 1, sat_dec(depth))
        }
    } else {
        find_close(s, j + 1, depth)
    }
}

/// Position of the first `c` in `s`, if any.
pub open spec fn first_index_of(s: Seq<char>, c: char) -> Option<int> {
    if exists|i: int| 0 <= i < s.len() && s[i] == c {
        Some(choose|i: int| 0 <= i < s.len() && s[i] == c && forall|k: int| 0 <= k < i ==> s[k] != c)
    } else {
        None
    }
}

/// Position of the first whitespace character of `s`, if any.
pub open spec fn first_whitespace(s: Seq<char>) -> Option<int> {
    if exists|i: int| 0 <= i < s.len() && spec_is_whitespace(s[i]) {
        Some(
            choose|i: int|
                0 <= i < s.len() && spec_is_whitespace(s[i]) && forall|k: int|
                    0 <= k < i ==> !spec_is_whitespace(s[k]),
        )
    } else {
        None
    }
}

/// After `&`: an optional lifetime (dropped up to the first whitespace),
/// then an optional `mut `.
pub open spec fn reference_body(rest0: Seq<char>) -> Seq<char> {
    let rest = trim_start(rest0);
    if rest.len() > 0 && rest[0] == '\'' {
        match first_whitespace(rest) {
            Some(k) => trim_start(rest.subrange(k + 1, rest.len() as int)),
            None => rest,
        }
    } else {
        rest
    }
}

/// How the type reader splits `source`.
#[verifier::opaque]
pub open spec fn spec_parse_type(source0: Seq<char>) -> (Seq<char>, Seq<Seq<char>>) {
    let source = trim(source0);
    if source.len() > 0 && source[0] == '&' {
        let rest = reference_body(source.subrange(1, source.len() as int));
        if crate::text::starts_with(rest, "mut "@) {
            ("&mut"@, seq![trim(rest.subrange(4, rest.len() as int))])
        } else {
            ("&"@, seq![trim(rest)])
        }
    } else if crate::text::starts_with(source, "*const "@) {
        ("*const"@, seq![trim(source.subrange(7, source.len() as int))])
    } else if crate::text::starts_with(source, "*mut "@) {
        ("*mut"@, seq![trim(source.subrange(5, source.len() as int))])
    } else {
        match first_index_of(source, '<') {
            None => (spec_simple_type_name(source), Seq::empty()),
            Some(open) => match find_close(source, open, 0) {
                None => (spec_simple_type_name(source), Seq::empty()),
                Some(close) => (
                    spec_simple_type_name(source.subrange(0, open)),
                    spec_split_type_arguments(source.subrange(open + 1, close)),
                ),
            },
        }
    }
}

proof fn lemma_find_close_bounds(s: Seq<char>, j: int, depth: u32)
    ensures
        find_close(s, j, depth) matches Some(c) ==> j <= c < s.len(),
    decreases s.len() - j,
{
    if j < s.len() && j >= 0 {
        if s[j] == '<' {
            lemma_find_close_bounds(s, j + 1, sat_inc(depth));
        } else if s[j] == '>' {
            if sat_dec(depth) != 0 {
                lemma_find_close_bounds(s, j + 1, sat_dec(depth));
            }
        } else {
            lemma_find_close_bounds(s, j + 1, depth);
        }
    }
}

fn literal_prefix(chars: &Vec<char>, prefix: &str) -> (r: bool)
    ensures
        r == crate::text::starts_with(chars@, prefix@),
{
    let p = chars_of(prefix);
    if p.len() > chars.len() {
        return false;
    }
    let r = crate::text::matches_at(chars, 0, &p);
    assert(r == crate::text::starts_with(chars@, prefix@));
    r
}

pub fn parse_type(source: &str) -> (r: ParsedType)
    ensures
        r@ == spec_parse_type(source@),
{
    proof {
        reveal(spec_parse_type);
    }
    let source = trimmed(source);
    let chars = chars_of(source);
    if chars.len() > 0 && chars[0] == '&' {
        let rest = trimmed_start(source.substring_char(1, chars.len()));
        let rest_chars = chars_of(rest);
        let mut body = rest;
        if rest_chars.len() > 0 && rest_chars[0] == '\'' {
            let mut k: usize = 0;
            while k < rest_chars.len() && !is_whitespace(rest_chars[k])
                invariant
                    rest_chars@ == rest@,
                    k <= rest_chars.len(),
                    forall|m: int| 0 <= m < k ==> !spec_is_whitespace(#[trigger] rest@[m]),
                decreases rest_chars.len() - k,
            {
                k += 1;
            }
            proof {
                if k < rest_chars.len() {
                    assert(exists|i: int| 0 <= i < rest@.len() && spec_is_whitespace(rest@[i]));
                    let w = first_whitespace(rest@).unwrap();
                    assert(w == k) by {
                        if w < k {
                            assert(!spec_is_whitespace(rest@[w]));
                        }
                        if w > k {
                            assert(!spec_is_whitespace(rest@[k as int]));
                        }
                    }
                } else {
                    assert(!exists|i: int| 0 <= i < rest@.len() && spec_is_whitespace(rest@[i]));
                }
            }
            if k < rest_chars.len() {
                body = trimmed_start(rest.substring_char(k + 1, rest_chars.len()));
            }
        }
        assert(body@ == reference_body(source@.subrange(1, source@.len() as int)));
        let body_chars = chars_of(body);
        if literal_prefix(&body_chars, "mut ") {
            proof {
                reveal_strlit("mut ");
            }
            let inner = trimmed(body.substring_char(4, body_chars.len())).to_owned();
            let mut arguments: Vec<String> = Vec::new();
            arguments.push(inner);
            assert(strings_view(arguments@) =~= seq![inner@]);
            return ParsedType { outer: "&mut".to_owned(), arguments };
        }
        let inner = trimmed(body).to_owned();
        let mut arguments: Vec<String> = Vec::new();
        arguments.push(inner);
        assert(strings_view(arguments@) =~= seq![inner@]);
        return ParsedType { outer: "&".to_owned(), arguments };
    }
    if literal_prefix(&chars, "*const ") {
        proof {
            reveal_strlit("*const ");
        }
        let inner = trimmed(source.substring_char(7, chars.len())).to_owned();
        let mut arguments: Vec<String> = Vec::new();
        arguments.push(inner);
        assert(strings_view(arguments@) =~= seq![inner@]);
        return ParsedType { outer: "*const".to_owned(), arguments };
    }
    if literal_prefix(&chars, "*mut ") {
        proof {
            reveal_strlit("*mut ");
        }
        let inner = trimmed(source.substring_char(5, chars.len())).to_owned();
        let mut arguments: Vec<String> = Vec::new();
        arguments.push(inner);
        assert(strings_view(arguments@) =~= seq![inner@]);
        return ParsedType { outer: "*mut".to_owned(), arguments };
    }
    let mut open: usize = 0;
    while open < chars.len() && chars[open] != '<'
        invariant
            chars@ == source@,
            open <= chars.len(),
            forall|m: int| 0 <= m < open ==> source@[m] != '<',
        decreases chars.len() - open,
    {
        open += 1;
    }
    if open == chars.len() {
        assert(!exists|i: int| 0 <= i < source@.len() && source@[i] == '<');
        return ParsedType { outer: simple_type_name(source).to_owned(), arguments: Vec::new() };
    }
    proof {
        assert(exists|i: int| 0 <= i < source@.len() && source@[i] == '<') by {
            assert(source@[open as int] == '<');
        }
        let f = first_index_of(source@, '<').unwrap();
        assert(f == open) by {
            if f < open {
                assert(source@[f] != '<');
            }
            if f > open {
                assert(source@[open as int] == '<');
            }
        }
    }
    let mut depth: u32 = 0;
    let mut j: usize = open;
    let mut close: Option<usize> = None;
    while j < chars.len() && close.is_none()
        invariant
            chars@ == source@,
            open <= j <= chars.len(),
            close is None ==> find_close(source@, open as int, 0) == find_close(
                source@,
                j as int,
                depth,
            ),
            close matches Some(c) ==> find_close(source@, open as int, 0) == Some(c as int),
        decreases chars.len() - j,
    {
        let c = chars[j];
        if c == '<' {
            depth = depth.saturating_add(1);
        } else if c == '>' {
            depth = depth.saturating_sub(1);
            if depth == 0 {
                close = Some(j);
            }
        }
        j += 1;
    }
    proof {
        assert(find_close(source@, open as int, 0) == find_close(source@, open + 1, 1));
        lemma_find_close_bounds(source@, open + 1, 1);
    }
    match close {
        None => {
            ParsedType { outer: simple_type_name(source).to_owned(), arguments: Vec::new() }
        },
        Some(close) => {
            let head = source.substring_char(0, open);
            let inside = source.substring_char(open + 1, close);
            ParsedType {
                outer: simple_type_name(head).to_owned(),
                arguments: split_type_arguments(inside),
            }
        },
    }
}

} // verus!
