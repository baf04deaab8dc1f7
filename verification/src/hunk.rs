use vstd::prelude::*;
use vstd::std_specs::iter::IteratorSpec;
use vstd::std_specs::range::RangeInclusiveView;
use std::ops::RangeInclusive;

use crate::decimal::{decimal, lemma_decimal, lemma_parse_decimal, parse_usize, parse_usize_spec, push_decimal, is_digit};

verus! {

/// An inclusive range of line numbers, `start..=end`.
#[derive(Debug, Clone, Copy, PartialEq, Eq, Structural)]
pub struct Hunk {
    start: usize,
    end: usize,
}

/// Why a hunk could not be built or read; a failed read keeps the text
/// that was read.
#[derive(Debug, Clone, Copy, PartialEq, Eq)]
pub enum HunkError<'a> {
    /// The text before the first `-` is not a line number.
    InvalidStart(&'a str),
    /// The text has no `-`.
    MissingEnd(&'a str),
    /// The text after the first `-` (up to the next one) is not a line number.
    InvalidEnd(&'a str),
    /// The first line comes after the last one.
    InvalidRange { start: usize, end: usize },
}

/// The message shown for a hunk error.
pub open spec fn error_text(e: HunkError) -> Seq<char> {
    match e {
        HunkError::InvalidStart(s) => "failed to parse start of range: "@ + s@,
        HunkError::MissingEnd(s) => "invalid range: "@ + s@,
        HunkError::InvalidEnd(s) => "failed to parse end of range: "@ + s@,
        HunkError::InvalidRange { start, end } => "invalid range: "@ + text_of((start, end)),
    }
}

impl<'a> HunkError<'a> {
    /// The message shown for the error (see `error_text`).
    pub fn message(&self) -> (text: String)
        ensures
            text@ == error_text(*self),
    {
        match self {
            HunkError::InvalidStart(s) => {
                let mut out = String::from_str("failed to parse start of range: ");
                out.append(s);
                out
            },
            HunkError::MissingEnd(s) => {
                let mut out = String::from_str("invalid range: ");
                out.append(s);
                out
            },
            HunkError::InvalidEnd(s) => {
                let mut out = String::from_str("failed to parse end of range: ");
                out.append(s);
                out
            },
            HunkError::InvalidRange { start, end } => {
                let mut out = String::from_str("invalid range: ");
                push_decimal(&mut out, *start);
                proof {
                    reveal_strlit("-");
                }
                out.append("-");
                push_decimal(&mut out, *end);
                out
            },
        }
    }
}

/// A hunk is seen as the pair of its first and last line.
impl View for Hunk {
    type V = (usize, usize);

    closed spec fn view(&self) -> (usize, usize) {
        (self.start, self.end)
    }
}

/// Name for the value that `RangeInclusive::start` returns for a range seen as `r`.
pub uninterp spec fn range_start_of(r: RangeInclusiveView<usize>) -> usize;

/// Name for the value that `RangeInclusive::end` returns for a range seen as `r`.
pub uninterp spec fn range_end_of(r: RangeInclusiveView<usize>) -> usize;

/// Calls `RangeInclusive::start`. Trusted: the result is named by
/// `range_start_of`; std documents it as the lower bound for a range that has
/// not been iterated to exhaustion (and leaves it unspecified after that).
#[verifier::external_body]
fn range_start(range: &RangeInclusive<usize>) -> (s: usize)
    ensures
        s == range_start_of(range@),
        !range@.exhausted ==> s == range@.start,
{
    *range.start()
}

/// Calls `RangeInclusive::end`. Trusted: the result is named by
/// `range_end_of`; std documents it as the upper bound for a range that has
/// not been iterated to exhaustion (and leaves it unspecified after that).
#[verifier::external_body]
fn range_end(range: &RangeInclusive<usize>) -> (e: usize)
    ensures
        e == range_end_of(range@),
        !range@.exhausted ==> e == range@.end,
{
    *range.end()
}

/// A hunk made of the bounds of a range, ordered or not.
impl From<RangeInclusive<usize>> for Hunk {
    fn from(range: RangeInclusive<usize>) -> (h: Self) {
        Hunk { start: range_start(&range), end: range_end(&range) }
    }
}

impl vstd::std_specs::convert::FromSpecImpl<RangeInclusive<usize>> for Hunk {
    open spec fn obeys_from_spec() -> bool {
        true
    }

    /// The bounds of a range that has not been iterated to exhaustion; after
    /// that, whatever `start` and `end` answer.
    open spec fn from_spec(range: RangeInclusive<usize>) -> Self {
        if range@.exhausted {
            Hunk::of_lines(range_start_of(range@), range_end_of(range@))
        } else {
            Hunk::of_lines(range@.start, range@.end)
        }
    }
}

/// Reads a hunk from its text, `"<first>-<last>"`: see `parse_spec`.
impl<'a> TryFrom<&'a str> for Hunk {
    type Error = HunkError<'a>;

    fn try_from(s: &'a str) -> (res: Result<Hunk, HunkError<'a>>) {
        let res = Hunk::parse(s);
        proof {
            if let Ok(h) = res {
                Hunk::lemma_view_determines(h, Hunk::of_lines(h@.0, h@.1));
            }
        }
        res
    }
}

impl<'a> vstd::std_specs::convert::TryFromSpecImpl<&'a str> for Hunk {
    open spec fn obeys_try_from_spec() -> bool {
        true
    }

    open spec fn try_from_spec(s: &'a str) -> Result<Hunk, HunkError<'a>> {
        match parse_spec(s) {
            Ok(lines) => Ok(Hunk::of_lines(lines.0, lines.1)),
            Err(e) => Err(e),
        }
    }
}

impl Hunk {
    /// The hunk with the given first and last line, ordered or not.
    pub closed spec fn of_lines(start: usize, end: usize) -> Hunk {
        Hunk { start, end }
    }

    /// `of_lines` keeps the lines it is given.
    pub broadcast proof fn lemma_of_lines(start: usize, end: usize)
        ensures
            #[trigger] Hunk::of_lines(start, end)@ == (start, end),
    {
    }

    /// The first line of the hunk.
    pub open spec fn first(&self) -> usize {
        self@.0
    }

    /// The last line of the hunk.
    pub open spec fn last(&self) -> usize {
        self@.1
    }

    /// A hunk whose first line does not come after its last one.
    pub open spec fn is_ordered(&self) -> bool {
        self.first() <= self.last()
    }

    /// `line` lies in `first..=last`.
    pub open spec fn holds(&self, line: int) -> bool {
        self.first() <= line <= self.last()
    }

    /// What `intersects` answers: one hunk holds an end point of the other.
    pub open spec fn touches(&self, other: &Hunk) -> bool {
        ||| self.holds(other.first() as int)
        ||| self.holds(other.last() as int)
        ||| other.holds(self.first() as int)
        ||| other.holds(self.last() as int)
    }

    /// Two hunks with the same lines are the same hunk.
    pub proof fn lemma_view_determines(a: Hunk, b: Hunk)
        requires
            a@ == b@,
        ensures
            a == b,
    {
    }

    /// The hunk `start..=end`, refused when `start` comes after `end`.
    pub fn new(start: usize, end: usize) -> (res: Result<Hunk, HunkError<'static>>)
        ensures
            res is Ok <==> start <= end,
            res matches Ok(h) ==> h@ == (start, end),
            start > end ==> res == Err::<Hunk, HunkError<'static>>(
                HunkError::InvalidRange { start, end },
            ),
    {
        if start > end {
            Err(HunkError::InvalidRange { start, end })
        } else {
            Ok(Hunk { start, end })
        }
    }

    /// Reads a hunk from its text, `"<first>-<last>"` (see `parse_spec`).
    fn parse<'a>(s: &'a str) -> (res: Result<Hunk, HunkError<'a>>)
        ensures
            res is Ok <==> parse_spec(s) is Ok,
            res matches Ok(h) ==> parse_spec(s) == Ok::<(usize, usize), HunkError<'a>>(h@),
            res matches Err(e) ==> parse_spec(s) == Err::<(usize, usize), HunkError<'a>>(e),
            res matches Ok(h) ==> h.is_ordered(),
    {
        let cs = chars_of(s);
        let p = find_dash(&cs, 0);
        proof {
            lemma_dash_index(cs@, p as int);
            assert(cs@.take(p as int) =~= cs@.subrange(0, p as int));
        }
        let start = match parse_usize(&cs, 0, p) {
            Some(v) => v,
            None => {
                return Err(HunkError::InvalidStart(s));
            },
        };
        if p == cs.len() {
            return Err(HunkError::MissingEnd(s));
        }
        let q = find_dash(&cs, p + 1);
        proof {
            let rest = cs@.skip(p + 1);
            assert forall|k: int| 0 <= k < q - p - 1 implies rest[k] != '-' by {
                assert(rest[k] == cs@[k + p + 1]);
            }
            if q < cs.len() {
                assert(rest[q - p - 1] == cs@[q as int]);
            }
            lemma_dash_index(rest, q - p - 1);
            assert(rest.take(q - p - 1) =~= cs@.subrange(p + 1, q as int));
        }
        let end = match parse_usize(&cs, p + 1, q) {
            Some(v) => v,
            None => {
                return Err(HunkError::InvalidEnd(s));
            },
        };
        Hunk::new(start, end)
    }

    /// The text of the hunk, `"<first>-<last>"` in base ten.
    pub fn to_string(&self) -> (text: String)
        ensures
            text@ == text_of(self@),
    {
        let mut out = String::new();
        push_decimal(&mut out, self.start);
        proof {
            reveal_strlit("-");
        }
        out.append("-");
        push_decimal(&mut out, self.end);
        out
    }

    /// Whether `line` lies in the hunk.
    pub fn contains(&self, line: &usize) -> (res: bool)
        ensures
            res == self.holds(*line as int),
    {
        self.start <= *line && self.end >= *line
    }

    /// Whether either hunk holds the first or the last line of the other.
    pub fn intersects(&self, another: &Hunk) -> (res: bool)
        ensures
            res == self.touches(another),
    {
        self.contains(&another.start) || self.contains(&another.end) || another.contains(&self.start)
            || another.contains(&self.end)
    }
}

/// Where the first `-` of `s` stands (the length of `s` when it has none).
pub open spec fn dash_index(s: Seq<char>) -> int
    decreases s.len(),
{
    if s.len() == 0 {
        0
    } else if s[0] == '-' {
        0
    } else {
        1 + dash_index(s.drop_first())
    }
}

/// The first piece of `s` split at `-`: everything before the first `-`.
pub open spec fn first_field(s: Seq<char>) -> Seq<char> {
    s.take(dash_index(s))
}

/// Splitting `s` at `-` gives at least two pieces.
pub open spec fn has_second_field(s: Seq<char>) -> bool {
    dash_index(s) < s.len()
}

/// The second piece of `s` split at `-`: what lies between the first `-`
/// and the next one (or the end).
pub open spec fn second_field(s: Seq<char>) -> Seq<char> {
    first_field(s.skip(dash_index(s) + 1))
}

/// What reading the text `s` as a hunk gives: the first two pieces of `s`
/// split at `-` are read as the first and the last line, any further piece
/// is not looked at, and the first line must not come after the last.
pub open spec fn parse_spec<'a>(s: &'a str) -> Result<(usize, usize), HunkError<'a>> {
    match parse_usize_spec(first_field(s@)) {
        None => Err(HunkError::InvalidStart(s)),
        Some(start) => if !has_second_field(s@) {
            Err(HunkError::MissingEnd(s))
        } else {
            match parse_usize_spec(second_field(s@)) {
                None => Err(HunkError::InvalidEnd(s)),
                Some(end) => if start > end {
                    Err(HunkError::InvalidRange { start, end })
                } else {
                    Ok((start, end))
                },
            }
        },
    }
}

/// The text of a hunk: its first line, `-`, its last line.
pub open spec fn text_of(lines: (usize, usize)) -> Seq<char> {
    decimal(lines.0 as nat) + seq!['-'] + decimal(lines.1 as nat)
}

/// Whether two hunks intersect does not depend on which one is asked.
pub proof fn lemma_intersects_symmetric(a: Hunk, b: Hunk)
    ensures
        a.touches(&b) == b.touches(&a),
{
}

/// Two ordered hunks intersect exactly when some line lies in both.
pub proof fn lemma_intersects_iff_common_line(a: Hunk, b: Hunk)
    requires
        a.is_ordered(),
        b.is_ordered(),
    ensures
        a.touches(&b) <==> exists|line: int| #[trigger] a.holds(line) && b.holds(line),
{
    if a.touches(&b) {
        if a.holds(b.first() as int) {
            assert(b.holds(b.first() as int));
        } else if a.holds(b.last() as int) {
            assert(b.holds(b.last() as int));
        } else if b.holds(a.first() as int) {
            assert(a.holds(a.first() as int));
        } else {
            assert(a.holds(a.last() as int));
        }
    }
    if exists|line: int| #[trigger] a.holds(line) && b.holds(line) {
        let line = choose|line: int| #[trigger] a.holds(line) && b.holds(line);
        if a.first() <= b.first() {
            assert(a.holds(b.first() as int));
        } else {
            assert(b.holds(a.first() as int));
        }
    }
}

/// Every hunk read from text is ordered.
pub proof fn lemma_read_hunks_are_ordered(s: &str)
    ensures
        parse_spec(s) matches Ok(lines) ==> lines.0 <= lines.1,
{
}

/// Reading the text of an ordered hunk gives the hunk back.
pub proof fn lemma_text_round_trip<'a>(h: Hunk, s: &'a str)
    requires
        h.is_ordered(),
        s@ == text_of(h@),
    ensures
        parse_spec(s) == Ok::<(usize, usize), HunkError<'a>>(h@),
{
    let a = decimal(h.first() as nat);
    let b = decimal(h.last() as nat);
    let t = s@;
    lemma_decimal(h.first() as nat);
    lemma_decimal(h.last() as nat);
    lemma_parse_decimal(h.first());
    lemma_parse_decimal(h.last());
    assert forall|k: int| 0 <= k < a.len() implies t[k] != '-' by {
        assert(t[k] == a[k]);
        assert(is_digit(a[k]));
    }
    assert(t[a.len() as int] == '-');
    lemma_dash_index(t, a.len() as int);
    assert(first_field(t) =~= a);
    assert(t.skip(a.len() as int + 1) =~= b);
    assert forall|k: int| 0 <= k < b.len() implies b[k] != '-' by {
        assert(is_digit(b[k]));
    }
    lemma_dash_index(b, b.len() as int);
    assert(b.take(b.len() as int) =~= b);
    assert(second_field(t) =~= b);
}

/// `dash_index` is the first `-`, or the length when there is none.
proof fn lemma_dash_index(s: Seq<char>, p: int)
    requires
        0 <= p <= s.len(),
        forall|k: int| 0 <= k < p ==> s[k] != '-',
        p == s.len() || s[p] == '-',
    ensures
        dash_index(s) == p,
    decreases p,
{
    if p > 0 {
        assert forall|k: int| 0 <= k < p - 1 implies s.drop_first()[k] != '-' by {
            assert(s.drop_first()[k] == s[k + 1]);
        }
        lemma_dash_index(s.drop_first(), p - 1);
    }
}

/// The first `-` in `cs` at or after `from`, or the length when there is none.
fn find_dash(cs: &Vec<char>, from: usize) -> (p: usize)
    requires
        from <= cs.len(),
    ensures
        from <= p <= cs.len(),
        forall|k: int| from <= k < p ==> cs@[k] != '-',
        p < cs.len() ==> cs@[p as int] == '-',
{
    let mut i = from;
    while i < cs.len()
        invariant
            from <= i <= cs.len(),
            forall|k: int| from <= k < i ==> cs@[k] != '-',
        decreases cs.len() - i,
    {
        if cs[i] == '-' {
            return i;
        }
        i = i + 1;
    }
    i
}

/// The characters of `s`, in order.
fn chars_of(s: &str) -> (cs: Vec<char>)
    ensures
        cs@ == s@,
{
    broadcast use vstd::string::group_string_axioms;

    let mut cs: Vec<char> = Vec::new();
    for c in it: s.chars()
        invariant
            it.seq() == s@,
            cs@ == it.seq().take(it.index()),
        ensures
            cs@ == s@,
    {
        assert(it.seq().take(it.index() + 1) =~= cs@.push(c));
        cs.push(c);
    }
    cs
}

} // verus!
