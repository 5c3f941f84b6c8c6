//! Verified text handling: trimming surrounding whitespace, building wire
//! header lines, and parsing received header lines into name/value pairs.

use vstd::prelude::*;
use vstd::string::*;

verus! {

/// The Unicode white space characters, the set that trimming removes.
pub open spec fn is_space(c: char) -> bool {
    ||| c == ' '
    ||| c == '\t'
    ||| c == '\n'
    ||| c == '\r'
    ||| c == '\u{b}'
    ||| c == '\u{c}'
    ||| c == '\u{85}'
    ||| c == '\u{a0}'
    ||| c == '\u{1680}'
    ||| ('\u{2000}' <= c && c <= '\u{200a}')
    ||| c == '\u{2028}'
    ||| c == '\u{2029}'
    ||| c == '\u{202f}'
    ||| c == '\u{205f}'
    ||| c == '\u{3000}'
}

/// Decides `is_space`.
pub fn is_space_char(c: char) -> (r: bool)
    ensures
        r == is_space(c),
{
    c == ' ' || c == '\t' || c == '\n' || c == '\r' || c == '\u{b}' || c == '\u{c}'
        || c == '\u{85}' || c == '\u{a0}' || c == '\u{1680}'
        || ('\u{2000}' <= c && c <= '\u{200a}') || c == '\u{2028}' || c == '\u{2029}'
        || c == '\u{202f}' || c == '\u{205f}' || c == '\u{3000}'
}

/// The sequence without its leading white space.
pub open spec fn trim_left_spec(s: Seq<char>) -> Seq<char>
    decreases s.len(),
{
    if s.len() > 0 && is_space(s[0]) {
        trim_left_spec(s.drop_first())
    } else {
        s
    }
}

/// The sequence without its trailing white space.
pub open spec fn trim_right_spec(s: Seq<char>) -> Seq<char>
    decreases s.len(),
{
    if s.len() > 0 && is_space(s.last()) {
        trim_right_spec(s.drop_last())
    } else {
        s
    }
}

/// The sequence without surrounding white space.
pub open spec fn trimmed(s: Seq<char>) -> Seq<char> {
    trim_right_spec(trim_left_spec(s))
}

proof fn lemma_trim_left_skip(s: Seq<char>, a: int)
    requires
        0 <= a <= s.len(),
        forall|j: int| 0 <= j < a ==> is_space(s[j]),
    ensures
        trim_left_spec(s) == trim_left_spec(s.skip(a)),
    decreases a,
{
    if a > 0 {
        assert(s.drop_first() =~= s.skip(1));
        lemma_trim_left_skip(s.skip(1), a - 1);
        assert(s.skip(1).skip(a - 1) =~= s.skip(a));
    } else {
        assert(s.skip(0) =~= s);
    }
}

proof fn lemma_trim_right_take(s: Seq<char>, b: int)
    requires
        0 <= b <= s.len(),
        forall|j: int| b <= j < s.len() ==> is_space(s[j]),
    ensures
        trim_right_spec(s) == trim_right_spec(s.take(b)),
    decreases s.len() - b,
{
    if b < s.len() {
        assert(is_space(s.last()));
        assert(s.drop_last() =~= s.take(s.len() - 1));
        lemma_trim_right_take(s.take(s.len() - 1), b);
        assert(s.take(s.len() - 1).take(b) =~= s.take(b));
    } else {
        assert(s.take(b) =~= s);
    }
}

fn scan_start(s: &str, n: usize, i: usize) -> (r: usize)
    requires
        n == s@.len(),
        i <= n,
        forall|j: int| 0 <= j < i ==> is_space(s@[j]),
    ensures
        i <= r <= n,
        forall|j: int| 0 <= j < r ==> is_space(s@[j]),
        r < n ==> !is_space(s@[r as int]),
    decreases n - i,
{
    if i < n {
        if is_space_char(s.get_char(i)) {
            scan_start(s, n, i + 1)
        } else {
            i
        }
    } else {
        i
    }
}

fn scan_end(s: &str, a: usize, b: usize) -> (r: usize)
    requires
        a <= b <= s@.len(),
        forall|j: int| b <= j < s@.len() ==> is_space(s@[j]),
    ensures
        a <= r <= b,
        forall|j: int| r <= j < s@.len() ==> is_space(s@[j]),
        r > a ==> !is_space(s@[r - 1]),
    decreases b,
{
    if b > a {
        if is_space_char(s.get_char(b - 1)) {
            scan_end(s, a, b - 1)
        } else {
            b
        }
    } else {
        b
    }
}

/// Returns the input without surrounding white space.
pub fn trim_str(s: &str) -> (r: String)
    ensures
        r@ == trimmed(s@),
{
    let n = s.unicode_len();
    let a = scan_start(s, n, 0);
    let b = scan_end(s, a, n);
    let t = s.substring_char(a, b);
    proof {
        lemma_trim_left_skip(s@, a as int);
        let u = s@.skip(a as int);
        if a < n {
            assert(u[0] == s@[a as int]);
            assert(trim_left_spec(u) == u);
        } else {
            assert(u.len() == 0);
            assert(trim_left_spec(u) == u);
        }
        lemma_trim_right_take(u, b - a);
        let w = u.take(b - a);
        if b > a {
            assert(w.last() == s@[b - 1]);
            assert(trim_right_spec(w) == w);
        } else {
            assert(w.len() == 0);
            assert(trim_right_spec(w) == w);
        }
        assert(t@ =~= w);
    }
    t.to_owned()
}

/// The wire form of one header: trimmed name, `": "`, trimmed value.
pub open spec fn header_line_of(name: Seq<char>, value: Seq<char>) -> Seq<char> {
    trimmed(name) + ": "@ + trimmed(value)
}

/// Builds the wire form of one header.
pub fn make_header_line(name: &str, value: &str) -> (r: String)
    ensures
        r@ == header_line_of(name@, value@),
{
    let mut s = trim_str(name);
    s.append(": ");
    let v = trim_str(value);
    s.append(v.as_str());
    s
}

proof fn lemma_trim_left_no_leading_space(s: Seq<char>)
    ensures
        trim_left_spec(s).len() > 0 ==> !is_space(trim_left_spec(s)[0]),
    decreases s.len(),
{
    if s.len() > 0 && is_space(s[0]) {
        lemma_trim_left_no_leading_space(s.drop_first());
    }
}

proof fn lemma_trim_right_no_trailing_space(s: Seq<char>)
    ensures
        trim_right_spec(s).len() > 0 ==> !is_space(trim_right_spec(s).last()),
    decreases s.len(),
{
    if s.len() > 0 && is_space(s.last()) {
        lemma_trim_right_no_trailing_space(s.drop_last());
    }
}

proof fn lemma_trim_right_prefix(s: Seq<char>)
    ensures
        trim_right_spec(s).len() <= s.len(),
        trim_right_spec(s) == s.take(trim_right_spec(s).len() as int),
    decreases s.len(),
{
    if s.len() > 0 && is_space(s.last()) {
        lemma_trim_right_prefix(s.drop_last());
        assert(s.drop_last() =~= s.take(s.len() - 1));
        assert(s.take(s.len() - 1).take(trim_right_spec(s).len() as int) =~= s.take(
            trim_right_spec(s).len() as int,
        ));
    } else {
        assert(s.take(s.len() as int) =~= s);
    }
}

/// Trimming is idempotent: a trimmed sequence has no surrounding white
/// space left to remove.
pub proof fn lemma_trimmed_idempotent(s: Seq<char>)
    ensures
        trimmed(trimmed(s)) == trimmed(s),
{
    let x = trim_left_spec(s);
    let y = trim_right_spec(x);
    lemma_trim_left_no_leading_space(s);
    lemma_trim_right_no_trailing_space(x);
    lemma_trim_right_prefix(x);
    if y.len() > 0 {
        assert(y[0] == x[0]);
        assert(!is_space(y[0]));
    }
    assert(trim_left_spec(y) == y);
    assert(trim_right_spec(y) == y);
}

/// Whether the two-character delimiter `": "` starts at position `i`.
pub open spec fn is_sep_at(s: Seq<char>, i: int) -> bool {
    0 <= i && i + 2 <= s.len() && s[i] == ':' && s[i + 1] == ' '
}

/// The position of the first `": "` delimiter, if any.
pub open spec fn find_sep(s: Seq<char>) -> Option<int>
    decreases s.len(),
{
    if s.len() < 2 {
        None
    } else if s[0] == ':' && s[1] == ' ' {
        Some(0)
    } else {
        match find_sep(s.drop_first()) {
            None => None,
            Some(i) => Some(i + 1),
        }
    }
}

/// `find_sep` returns the first delimiter position, and `None` exactly when
/// there is none.
pub proof fn lemma_find_sep(s: Seq<char>)
    ensures
        match find_sep(s) {
            Some(i) => is_sep_at(s, i) && forall|j: int| 0 <= j < i ==> !is_sep_at(s, j),
            None => forall|j: int| !is_sep_at(s, j),
        },
    decreases s.len(),
{
    if s.len() < 2 {
    } else if s[0] == ':' && s[1] == ' ' {
    } else {
        let t = s.drop_first();
        lemma_find_sep(t);
        assert(forall|j: int| 1 <= j ==> is_sep_at(s, j) == is_sep_at(t, j - 1));
        assert(!is_sep_at(s, 0));
    }
}

/// Splits a received header line at the first `": "`, trims both sides, and
/// drops the line unless both sides are non-empty.
pub open spec fn split_header_line(line: Seq<char>) -> Option<(Seq<char>, Seq<char>)> {
    match find_sep(line) {
        None => None,
        Some(i) => {
            let name = trimmed(line.take(i));
            let value = trimmed(line.skip(i + 2));
            if name.len() > 0 && value.len() > 0 {
                Some((name, value))
            } else {
                None
            }
        },
    }
}

fn find_sep_in(s: &str, n: usize, i: usize) -> (r: Option<usize>)
    requires
        n == s@.len(),
        i <= n,
        forall|j: int| 0 <= j < i ==> !is_sep_at(s@, j),
    ensures
        match r {
            Some(k) => is_sep_at(s@, k as int) && forall|j: int| 0 <= j < k ==> !is_sep_at(s@, j),
            None => forall|j: int| !is_sep_at(s@, j),
        },
    decreases n - i,
{
    if i < n && i + 1 < n {
        if s.get_char(i) == ':' && s.get_char(i + 1) == ' ' {
            Some(i)
        } else {
            find_sep_in(s, n, i + 1)
        }
    } else {
        proof {
            assert(forall|j: int| j >= i ==> !is_sep_at(s@, j));
        }
        None
    }
}

/// Parses one received header line: the pair of trimmed name and value, or
/// `None` for a line that does not split into two non-empty parts.
pub fn parse_header_line(line: &str) -> (r: Option<(String, String)>)
    ensures
        r.deep_view() == split_header_line(line@),
{
    let n = line.unicode_len();
    let found = find_sep_in(line, n, 0);
    proof {
        lemma_find_sep(line@);
    }
    match found {
        None => None,
        Some(i) => {
            let name = trim_str(line.substring_char(0, i));
            let value = trim_str(line.substring_char(i + 2, n));
            proof {
                assert(line@.subrange(0, i as int) =~= line@.take(i as int));
                assert(line@.subrange(i + 2, n as int) =~= line@.skip(i + 2));
            }
            if name.unicode_len() > 0 && value.unicode_len() > 0 {
                Some((name, value))
            } else {
                None
            }
        },
    }
}

/// The name/value pairs parsed from a sequence of received header lines;
/// lines that do not parse are dropped.
pub open spec fn parsed_headers(lines: Seq<Seq<char>>) -> Seq<(Seq<char>, Seq<char>)>
    decreases lines.len(),
{
    if lines.len() == 0 {
        Seq::empty()
    } else {
        let rest = parsed_headers(lines.drop_first());
        match split_header_line(lines[0]) {
            Some(p) => seq![p] + rest,
            None => rest,
        }
    }
}

proof fn lemma_parsed_headers_push(lines: Seq<Seq<char>>, line: Seq<char>)
    ensures
        parsed_headers(lines.push(line)) == parsed_headers(lines) + (match split_header_line(
            line,
        ) {
            Some(p) => seq![p],
            None => Seq::<(Seq<char>, Seq<char>)>::empty(),
        }),
    decreases lines.len(),
{
    let tail = (match split_header_line(line) {
        Some(p) => seq![p],
        None => Seq::<(Seq<char>, Seq<char>)>::empty(),
    });
    if lines.len() == 0 {
        assert(lines.push(line).drop_first() =~= lines);
        assert(parsed_headers(lines.push(line)) =~= parsed_headers(lines) + tail);
    } else {
        assert(lines.push(line).drop_first() =~= lines.drop_first().push(line));
        lemma_parsed_headers_push(lines.drop_first(), line);
        assert(lines.push(line)[0] == lines[0]);
        match split_header_line(lines[0]) {
            Some(p) => {
                assert(seq![p] + (parsed_headers(lines.drop_first()) + tail) =~= (seq![p]
                    + parsed_headers(lines.drop_first())) + tail);
            },
            None => {},
        }
    }
}

/// A header materialized for the wire is parsed back by the assembler to
/// exactly the trimmed name and value it was built from, provided the
/// trimmed name and value are non-empty and the trimmed name does not
/// itself contain the `": "` delimiter.
pub proof fn lemma_header_line_round_trip(name: Seq<char>, value: Seq<char>)
    requires
        trimmed(name).len() > 0,
        trimmed(value).len() > 0,
        forall|i: int| !is_sep_at(trimmed(name), i),
    ensures
        split_header_line(header_line_of(name, value)) == Some((trimmed(name), trimmed(value))),
{
    reveal_strlit(": ");
    let n = trimmed(name);
    let v = trimmed(value);
    let sep: Seq<char> = ": "@;
    let line = header_line_of(name, value);
    assert(sep.len() == 2 && sep[0] == ':' && sep[1] == ' ');
    assert(line == n + sep + v);
    assert(line[n.len() as int] == ':');
    assert(line[n.len() as int + 1] == ' ');
    assert(is_sep_at(line, n.len() as int));
    assert forall|j: int| 0 <= j < n.len() implies !is_sep_at(line, j) by {
        if j < n.len() - 1 {
            assert(line[j] == n[j]);
            assert(line[j + 1] == n[j + 1]);
            assert(!is_sep_at(n, j));
        } else {
            assert(line[j + 1] == ':');
        }
    }
    lemma_find_sep(line);
    match find_sep(line) {
        None => {
            assert(false);
        },
        Some(i) => {
            if i < n.len() {
                assert(!is_sep_at(line, i));
            }
            if i > n.len() {
                assert(!is_sep_at(line, n.len() as int));
            }
            assert(i == n.len());
            assert(line.take(i) =~= n);
            assert(line.skip(i + 2) =~= v);
            lemma_trimmed_idempotent(name);
            lemma_trimmed_idempotent(value);
        },
    }
}

/// A line that does not split into a header pair is dropped without
/// affecting any other header: inserting such a line anywhere in the
/// received lines leaves the parsed headers unchanged.
pub proof fn lemma_malformed_line_dropped(lines: Seq<Seq<char>>, i: int, bad: Seq<char>)
    requires
        0 <= i <= lines.len(),
        split_header_line(bad) is None,
    ensures
        parsed_headers(lines.insert(i, bad)) == parsed_headers(lines),
    decreases i,
{
    let with_bad = lines.insert(i, bad);
    if i == 0 {
        assert(with_bad[0] == bad);
        assert(with_bad.drop_first() =~= lines);
    } else {
        assert(with_bad[0] == lines[0]);
        assert(with_bad.drop_first() =~= lines.drop_first().insert(i - 1, bad));
        lemma_malformed_line_dropped(lines.drop_first(), i - 1, bad);
    }
}

/// Parses every received header line in order, dropping malformed lines.
pub fn parse_header_lines(lines: &Vec<String>) -> (r: Vec<(String, String)>)
    ensures
        r.deep_view() == parsed_headers(lines.deep_view()),
{
    let mut out: Vec<(String, String)> = Vec::new();
    let mut i: usize = 0;
    while i < lines.len()
        invariant
            i <= lines.len(),
            out.deep_view() == parsed_headers(lines.deep_view().take(i as int)),
        decreases lines.len() - i,
    {
        let parsed = parse_header_line(lines[i].as_str());
        proof {
            lemma_parsed_headers_push(
                lines.deep_view().take(i as int),
                lines.deep_view()[i as int],
            );
            assert(lines.deep_view().take(i as int).push(lines.deep_view()[i as int])
                =~= lines.deep_view().take(i + 1));
        }
        match parsed {
            Some(p) => {
                out.push(p);
                proof {
                    assert(out.deep_view() =~= parsed_headers(lines.deep_view().take(i + 1)));
                }
            },
            None => {
                proof {
                    assert(out.deep_view() =~= parsed_headers(lines.deep_view().take(i + 1)));
                }
            },
        }
        i = i + 1;
    }
    proof {
        assert(lines.deep_view().take(lines.len() as int) =~= lines.deep_view());
    }
    out
}

} // verus!
