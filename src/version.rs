//! Version strings reported by an OpenGL driver, and their order.
use vstd::prelude::*;
use vstd::string::StrSliceExecFns;
use std::cmp::Ordering;
use vstd::std_specs::cmp::{PartialEqSpec, PartialOrdSpec};

verus! {

/// Index of the first `c` in `s`, or `s.len()` when `s` holds none.
pub open spec fn index_of(s: Seq<char>, c: char) -> int
    decreases s.len(),
{
    if s.len() == 0 {
        0
    } else if s[0] == c {
        0
    } else {
        1 + index_of(s.drop_first(), c)
    }
}

/// The `k`-th field of `s` split on `sep`, if there are that many.
pub open spec fn field(s: Seq<char>, sep: char, k: nat) -> Option<Seq<char>>
    decreases k,
{
    let d = index_of(s, sep);
    if k == 0 {
        Some(s.subrange(0, d))
    } else if d < s.len() {
        field(s.subrange(d + 1, s.len() as int), sep, (k - 1) as nat)
    } else {
        None
    }
}

pub open spec fn is_digit(c: char) -> bool {
    '0' <= c && c <= '9'
}

pub open spec fn digit_value(c: char) -> nat {
    (c as int - '0' as int) as nat
}

/// Value of a string of decimal digits, most significant first.
pub open spec fn decimal_value(s: Seq<char>) -> nat
    decreases s.len(),
{
    if s.len() == 0 {
        0
    } else {
        decimal_value(s.drop_last()) * 10 + digit_value(s.last())
    }
}

/// A non-empty run of decimal digits whose value fits in a `usize`.
pub open spec fn parse_number(s: Seq<char>) -> Option<nat> {
    if s.len() > 0 && (forall|i: int| 0 <= i < s.len() ==> is_digit(#[trigger] s[i]))
        && decimal_value(s) <= usize::MAX {
        Some(decimal_value(s))
    } else {
        None
    }
}

/// The text before the first space.
pub open spec fn release_of(s: Seq<char>) -> Seq<char> {
    s.subrange(0, index_of(s, ' '))
}

/// The text after the first space, or nothing when there is no space.
pub open spec fn vendor_of(s: Seq<char>) -> Seq<char> {
    let i = index_of(s, ' ');
    if i < s.len() {
        s.subrange(i + 1, s.len() as int)
    } else {
        Seq::empty()
    }
}

pub open spec fn number_field(s: Seq<char>, k: nat) -> Option<nat> {
    match field(s, '.', k) {
        Some(f) => parse_number(f),
        None => None,
    }
}

/// The text after the first dot, or nothing when there is no dot.
pub open spec fn after_dot(s: Seq<char>) -> Seq<char> {
    let d = index_of(s, '.');
    if d < s.len() {
        s.subrange(d + 1, s.len() as int)
    } else {
        Seq::empty()
    }
}

/// The vendor text: what follows the first space. Without a space, a third
/// dot-separated field that is not a number starts the vendor text, which
/// then runs from after the second dot to the end.
pub open spec fn vendor_text(s: Seq<char>) -> Seq<char> {
    let rel = release_of(s);
    if index_of(s, ' ') == s.len() && field(rel, '.', 2) is Some && number_field(rel, 2) is None {
        after_dot(after_dot(s))
    } else {
        vendor_of(s)
    }
}

/// `<major> "." <minor> ["." <revision> ...] [" " <vendor-info>]`: major and
/// minor must be numbers; a third field counts as the revision when it is one.
pub open spec fn parse_model(s: Seq<char>) -> Option<(nat, nat, Option<nat>, Seq<char>)> {
    let rel = release_of(s);
    match (number_field(rel, 0), number_field(rel, 1)) {
        (Some(major), Some(minor)) => Some((major, minor, number_field(rel, 2), vendor_text(s))),
        _ => None,
    }
}

pub open spec fn opt_nat(o: Option<usize>) -> Option<nat> {
    match o {
        Some(v) => Some(v as nat),
        None => None,
    }
}

/// Lexicographic comparison of two triples.
pub open spec fn lex_cmp(a: (nat, nat, nat), b: (nat, nat, nat)) -> Ordering {
    if a.0 < b.0 {
        Ordering::Less
    } else if a.0 > b.0 {
        Ordering::Greater
    } else if a.1 < b.1 {
        Ordering::Less
    } else if a.1 > b.1 {
        Ordering::Greater
    } else if a.2 < b.2 {
        Ordering::Less
    } else if a.2 > b.2 {
        Ordering::Greater
    } else {
        Ordering::Equal
    }
}

/// A version number for a specific component of an OpenGL implementation.
#[derive(Debug)]
pub struct Version {
    pub major: usize,
    pub minor: usize,
    pub revision: Option<usize>,
    /// Free text after the numbers; it takes no part in comparisons.
    pub vendor_info: String,
}

proof fn lemma_index_of(s: Seq<char>, c: char, i: int)
    requires
        0 <= i <= s.len(),
        forall|j: int| 0 <= j < i ==> s[j] != c,
        i < s.len() ==> s[i] == c,
    ensures
        index_of(s, c) == i,
    decreases s.len(),
{
    if s.len() > 0 && i > 0 {
        assert(s[0] != c);
        let t = s.drop_first();
        assert forall|j: int| 0 <= j < i - 1 implies t[j] != c by {
            assert(t[j] == s[j + 1]);
        }
        if i < s.len() {
            assert(t[i - 1] == s[i]);
        }
        lemma_index_of(t, c, i - 1);
    }
}

pub(crate) proof fn lemma_index_of_bounds(s: Seq<char>, c: char)
    ensures
        0 <= index_of(s, c) <= s.len(),
        index_of(s, c) < s.len() ==> s[index_of(s, c)] == c,
        forall|j: int| 0 <= j < index_of(s, c) ==> s[j] != c,
    decreases s.len(),
{
    if s.len() > 0 && s[0] != c {
        let t = s.drop_first();
        lemma_index_of_bounds(t, c);
        assert forall|j: int| 0 <= j < index_of(s, c) implies s[j] != c by {
            if j > 0 {
                assert(s[j] == t[j - 1]);
            }
        }
    }
}

proof fn lemma_decimal_prefix(s: Seq<char>, k: int)
    requires
        0 <= k <= s.len(),
    ensures
        decimal_value(s.subrange(0, k)) <= decimal_value(s),
    decreases s.len(),
{
    if k < s.len() {
        let t = s.drop_last();
        lemma_decimal_prefix(t, k);
        assert(t.subrange(0, k) =~= s.subrange(0, k));
    } else {
        assert(s.subrange(0, k) =~= s);
    }
}

/// Index of the first `c` in `s[from..to]`, or `to`.
pub(crate) fn find_char(s: &str, from: usize, to: usize, c: char) -> (r: usize)
    requires
        from <= to <= s@.len(),
    ensures
        from <= r <= to,
        r - from == index_of(s@.subrange(from as int, to as int), c),
{
    let mut i = from;
    while i < to
        invariant
            from <= i <= to <= s@.len(),
            forall|j: int| from <= j < i ==> s@[j] != c,
        ensures
            from <= i <= to,
            forall|j: int| from <= j < i ==> s@[j] != c,
            i < to ==> s@[i as int] == c,
        decreases to - i,
    {
        if s.get_char(i) == c {
            break;
        }
        i = i + 1;
    }
    proof {
        let t = s@.subrange(from as int, to as int);
        assert forall|j: int| 0 <= j < i - from implies t[j] != c by {
            assert(t[j] == s@[j + from]);
        }
        if i < to {
            assert(t[i - from] == s@[i as int]);
        }
        lemma_index_of(t, c, i - from);
    }
    i
}

/// Reads `s[from..to]` as a decimal number.
fn parse_number_at(s: &str, from: usize, to: usize) -> (r: Option<usize>)
    requires
        from <= to <= s@.len(),
    ensures
        opt_nat(r) == parse_number(s@.subrange(from as int, to as int)),
{
    let ghost t = s@.subrange(from as int, to as int);
    if from == to {
        return None;
    }
    let mut value: usize = 0;
    let mut i = from;
    while i < to
        invariant
            from <= i <= to <= s@.len(),
            t == s@.subrange(from as int, to as int),
            forall|j: int| 0 <= j < i - from ==> is_digit(#[trigger] t[j]),
            value == decimal_value(t.subrange(0, i - from)),
        decreases to - i,
    {
        let c = s.get_char(i);
        assert(c == t[i - from]);
        if !('0' <= c && c <= '9') {
            assert(!is_digit(t[i - from]));
            return None;
        }
        let d = (c as u32 - '0' as u32) as usize;
        let ghost p = t.subrange(0, i - from + 1);
        assert(p.drop_last() =~= t.subrange(0, i - from));
        assert(decimal_value(p) == value * 10 + d);
        if value > (usize::MAX - d) / 10 {
            proof {
                assert(value * 10 + d > usize::MAX) by (nonlinear_arith)
                    requires
                        value > (usize::MAX - d) / 10,
                        d <= 9,
                ;
                lemma_decimal_prefix(t, i - from + 1);
            }
            return None;
        }
        proof {
            assert(value * 10 + d <= usize::MAX) by (nonlinear_arith)
                requires
                    value <= (usize::MAX - d) / 10,
                    d <= 9,
            ;
        }
        value = value * 10 + d;
        i = i + 1;
    }
    assert(t.subrange(0, i - from) =~= t);
    Some(value)
}

impl Version {
    /// The numbers that order versions: a missing revision counts as zero.
    pub open spec fn rank(&self) -> (nat, nat, nat) {
        (
            self.major as nat,
            self.minor as nat,
            match self.revision {
                Some(r) => r as nat,
                None => 0,
            },
        )
    }

    /// The four parts as plain values.
    pub open spec fn model(&self) -> (nat, nat, Option<nat>, Seq<char>) {
        (self.major as nat, self.minor as nat, opt_nat(self.revision), self.vendor_info@)
    }

    pub fn new(major: usize, minor: usize, revision: Option<usize>, vendor_info: &str) -> (r:
        Version)
        ensures
            r.major == major,
            r.minor == minor,
            r.revision == revision,
            r.vendor_info@ == vendor_info@,
    {
        Version { major, minor, revision, vendor_info: vendor_info.to_owned() }
    }

    /// Parses a driver's version string. The grammar is
    /// `<major> "." <minor> ["." <revision>] [" " <vendor-info>]`, read
    /// leniently: anything after the third dot-separated field is ignored,
    /// and a third field that is not a number leaves the revision out. The
    /// vendor text is what follows the first space; where there is no space
    /// and the third field is not a number, it is everything after the
    /// second dot instead. When the major or minor number is missing the
    /// input comes back unchanged.
    pub fn parse(src: &str) -> (r: Result<Version, String>)
        ensures
            match parse_model(src@) {
                Some(m) => r matches Ok(v) && v.model() == m,
                None => r matches Err(e) && e@ == src@,
            },
    {
        let n = src.unicode_len();
        let sp = find_char(src, 0, n, ' ');
        let ghost s = src@;
        proof {
            assert(s.subrange(0, n as int) =~= s);
            lemma_index_of_bounds(s, ' ');
        }
        let ghost rel = release_of(s);
        assert(rel =~= s.subrange(0, sp as int));
        let d1 = find_char(src, 0, sp, '.');
        let major = parse_number_at(src, 0, d1);
        proof {
            lemma_index_of_bounds(rel, '.');
            assert(field(rel, '.', 0) == Some(s.subrange(0, d1 as int)));
            assert(rel.subrange(0, d1 as int) =~= s.subrange(0, d1 as int));
        }
        if d1 >= sp {
            assert(field(rel, '.', 1) is None);
            return Err(src.to_owned());
        }
        let ghost rest1 = rel.subrange(d1 + 1, rel.len() as int);
        assert(rest1 =~= s.subrange(d1 + 1, sp as int));
        let d2 = find_char(src, d1 + 1, sp, '.');
        let minor = parse_number_at(src, d1 + 1, d2);
        proof {
            lemma_index_of_bounds(rest1, '.');
            assert(field(rest1, '.', 0) == Some(rest1.subrange(0, d2 - d1 - 1)));
            assert(rest1.subrange(0, d2 - d1 - 1) =~= s.subrange(d1 + 1, d2 as int));
            assert(field(rel, '.', 1) == field(rest1, '.', 0));
        }
        let revision = if d2 < sp {
            let ghost rest2 = rest1.subrange(d2 - d1, rest1.len() as int);
            assert(rest2 =~= s.subrange(d2 + 1, sp as int));
            let d3 = find_char(src, d2 + 1, sp, '.');
            proof {
                lemma_index_of_bounds(rest2, '.');
                assert(rest2.subrange(0, d3 - d2 - 1) =~= s.subrange(d2 + 1, d3 as int));
                assert(field(rel, '.', 2) == field(rest1, '.', 1));
                assert(field(rest1, '.', 1) == field(rest2, '.', 0));
            }
            parse_number_at(src, d2 + 1, d3)
        } else {
            proof {
                assert(field(rel, '.', 2) == field(rest1, '.', 1));
                assert(field(rest1, '.', 1) is None);
            }
            None
        };
        let vendor_info = if sp < n {
            src.substring_char(sp + 1, n).to_owned()
        } else if d2 < sp && revision.is_none() {
            proof {
                assert(rel =~= s);
                assert(after_dot(s) =~= rest1);
                assert(after_dot(rest1) =~= s.subrange(d2 + 1, n as int));
            }
            src.substring_char(d2 + 1, n).to_owned()
        } else {
            String::new()
        };
        assert(vendor_info@ =~= vendor_text(s));
        match (major, minor) {
            (Some(major), Some(minor)) => Ok(Version { major, minor, revision, vendor_info }),
            _ => Err(src.to_owned()),
        }
    }
}

impl Version {
    /// Compares the numbers only: `(major, minor, revision or 0)`.
    pub fn compare(&self, other: &Version) -> (r: Ordering)
        ensures
            r == lex_cmp(self.rank(), other.rank()),
    {
        let a = match self.revision {
            Some(v) => v,
            None => 0,
        };
        let b = match other.revision {
            Some(v) => v,
            None => 0,
        };
        if self.major < other.major {
            Ordering::Less
        } else if self.major > other.major {
            Ordering::Greater
        } else if self.minor < other.minor {
            Ordering::Less
        } else if self.minor > other.minor {
            Ordering::Greater
        } else if a < b {
            Ordering::Less
        } else if a > b {
            Ordering::Greater
        } else {
            Ordering::Equal
        }
    }

    /// Whether this version is at least `major.minor`.
    pub fn at_least(&self, major: usize, minor: usize) -> (r: bool)
        ensures
            r == (lex_cmp(self.rank(), (major as nat, minor as nat, 0)) != Ordering::Less),
    {
        self.major > major || (self.major == major && self.minor >= minor)
    }
}

impl Clone for Version {
    fn clone(&self) -> (r: Version)
        ensures
            r.major == self.major,
            r.minor == self.minor,
            r.revision == self.revision,
            r.vendor_info@ == self.vendor_info@,
    {
        Version {
            major: self.major,
            minor: self.minor,
            revision: self.revision,
            vendor_info: self.vendor_info.clone(),
        }
    }
}

impl PartialEq for Version {
    fn eq(&self, other: &Version) -> (r: bool) {
        match self.compare(other) {
            Ordering::Equal => true,
            _ => false,
        }
    }
}

impl vstd::std_specs::cmp::PartialEqSpecImpl for Version {
    open spec fn obeys_eq_spec() -> bool {
        true
    }

    open spec fn eq_spec(&self, other: &Version) -> bool {
        self.rank() == other.rank()
    }
}

impl PartialOrd for Version {
    fn partial_cmp(&self, other: &Version) -> (r: Option<Ordering>) {
        Some(self.compare(other))
    }
}

impl vstd::std_specs::cmp::PartialOrdSpecImpl for Version {
    open spec fn obeys_partial_cmp_spec() -> bool {
        true
    }

    open spec fn partial_cmp_spec(&self, other: &Version) -> Option<Ordering> {
        Some(lex_cmp(self.rank(), other.rank()))
    }
}

/// Any two versions are comparable, and swapping them reverses the answer.
pub proof fn lemma_order_total(a: Version, b: Version)
    ensures
        a.partial_cmp_spec(&b) is Some,
        a.partial_cmp_spec(&b) == Some(Ordering::Less) <==> b.partial_cmp_spec(&a) == Some(
            Ordering::Greater,
        ),
        a.partial_cmp_spec(&b) == Some(Ordering::Equal) <==> b.partial_cmp_spec(&a) == Some(
            Ordering::Equal,
        ),
        a.partial_cmp_spec(&b) == Some(Ordering::Equal) <==> a.eq_spec(&b),
{
}

/// The order is transitive.
pub proof fn lemma_order_transitive(a: Version, b: Version, c: Version)
    requires
        a.partial_cmp_spec(&b) != Some(Ordering::Greater),
        b.partial_cmp_spec(&c) != Some(Ordering::Greater),
    ensures
        a.partial_cmp_spec(&c) != Some(Ordering::Greater),
        a.partial_cmp_spec(&b) == Some(Ordering::Less) ==> a.partial_cmp_spec(&c) == Some(
            Ordering::Less,
        ),
{
}

/// Versions are ordered by major, then minor, then revision (a missing one
/// counting as zero); the vendor text never changes the outcome.
pub proof fn lemma_order_numeric(a: Version, b: Version)
    ensures
        a.partial_cmp_spec(&b) == Some(Ordering::Less) <==> (a.major < b.major || (a.major
            == b.major && a.minor < b.minor) || (a.major == b.major && a.minor == b.minor
            && a.rank().2 < b.rank().2)),
        forall|v: String|
            #![trigger (Version { vendor_info: v, ..a }).partial_cmp_spec(&b)]
            (Version { vendor_info: v, ..a }).partial_cmp_spec(&b) == a.partial_cmp_spec(&b),
{
}

} // verus!
