//! Semantic versions: an ordered triple of unsigned numbers, written as
//! dot-separated decimal components.

use vstd::prelude::*;
use crate::decimal::{
    IntErrorKind, decimal_digits, lemma_decimal_digits_are_digits, lemma_parse_decimal_digits,
    parse_decimal, parse_usize, push_decimal,
};
use crate::text::chars_of;
use vstd::string::StringExecFns;
use core::cmp::Ordering;

verus! {

/// A version `major.minor.patch`.
#[derive(Clone, Copy, Debug, PartialEq, Eq, Structural)]
pub struct Semver {
    pub major: usize,
    pub minor: usize,
    pub patch: usize,
}

/// Why a text is no version, with the text itself.
#[derive(Debug)]
pub struct SemverParseError {
    pub source: String,
    pub kind: IntErrorKind,
}

/// Where the component that starts at `from` ends: at the next dot, or at the
/// end of the text.
pub open spec fn component_end(s: Seq<char>, from: int) -> int
    decreases s.len() - from,
{
    if from >= s.len() || s[from] == '.' {
        from
    } else {
        component_end(s, from + 1)
    }
}

/// The number written by the component that starts at `from`.
pub open spec fn component(s: Seq<char>, from: int) -> Result<nat, IntErrorKind> {
    parse_decimal(s.subrange(from, component_end(s, from)), usize::MAX as nat)
}

/// The version that `s` denotes. Components are read from the left; a
/// missing second or third component is zero, and whatever follows the third
/// is not looked at.
pub open spec fn parse_semver(s: Seq<char>) -> Result<Semver, IntErrorKind> {
    let end0 = component_end(s, 0);
    let end1 = component_end(s, end0 + 1);
    match component(s, 0) {
        Err(e) => Err(e),
        Ok(major) => if end0 >= s.len() {
            Ok(Semver { major: major as usize, minor: 0, patch: 0 })
        } else {
            match component(s, end0 + 1) {
                Err(e) => Err(e),
                Ok(minor) => if end1 >= s.len() {
                    Ok(Semver { major: major as usize, minor: minor as usize, patch: 0 })
                } else {
                    match component(s, end1 + 1) {
                        Err(e) => Err(e),
                        Ok(patch) => Ok(
                            Semver {
                                major: major as usize,
                                minor: minor as usize,
                                patch: patch as usize,
                            },
                        ),
                    }
                },
            }
        },
    }
}

/// The text of a version: its three components in decimal, joined by dots.
pub open spec fn semver_text(v: Semver) -> Seq<char> {
    decimal_digits(v.major as nat) + seq!['.'] + decimal_digits(v.minor as nat) + seq!['.']
        + decimal_digits(v.patch as nat)
}

/// How `a` stands to `b`: by major, then minor, then patch.
pub open spec fn precedence(a: Semver, b: Semver) -> Ordering {
    if a.major < b.major {
        Ordering::Less
    } else if a.major > b.major {
        Ordering::Greater
    } else if a.minor < b.minor {
        Ordering::Less
    } else if a.minor > b.minor {
        Ordering::Greater
    } else if a.patch < b.patch {
        Ordering::Less
    } else if a.patch > b.patch {
        Ordering::Greater
    } else {
        Ordering::Equal
    }
}

/// What the standard library says of each kind of failure.
pub open spec fn kind_text(kind: IntErrorKind) -> Seq<char> {
    match kind {
        IntErrorKind::Empty => "cannot parse integer from empty string"@,
        IntErrorKind::InvalidDigit => "invalid digit found in string"@,
        IntErrorKind::Overflow => "number too large to fit in target type"@,
    }
}

/// The words in which a failed reading of `source` is reported.
pub open spec fn parse_error_text(source: Seq<char>, kind: IntErrorKind) -> Seq<char> {
    "could not parse source string of \""@ + source + "\" as semver: "@ + kind_text(kind)
}

/// Finds the end of the component of `chars` that starts at `from`.
fn find_component_end(chars: &Vec<char>, from: usize) -> (end: usize)
    requires
        from <= chars@.len(),
    ensures
        end == component_end(chars@, from as int),
        from <= end <= chars@.len(),
{
    let mut i: usize = from;
    while i < chars.len() && chars[i] != '.'
        invariant
            from <= i <= chars@.len(),
            component_end(chars@, from as int) == component_end(chars@, i as int),
        decreases chars@.len() - i,
    {
        i += 1;
    }
    i
}

impl SemverParseError {
    /// The failure in words.
    pub fn message(&self) -> (out: String)
        ensures
            out@ == parse_error_text(self.source@, self.kind),
    {
        let mut out = String::from_str("could not parse source string of \"");
        out.append(self.source.as_str());
        out.append("\" as semver: ");
        match self.kind {
            IntErrorKind::Empty => out.append("cannot parse integer from empty string"),
            IntErrorKind::InvalidDigit => out.append("invalid digit found in string"),
            IntErrorKind::Overflow => out.append("number too large to fit in target type"),
        }
        out
    }
}

impl Semver {
    /// Reads a version from its text.
    pub fn from_string(source: &String) -> (r: Result<Semver, SemverParseError>)
        ensures
            match parse_semver(source@) {
                Ok(v) => r == Ok::<Semver, SemverParseError>(v),
                Err(kind) => r is Err && r->Err_0.kind == kind && r->Err_0.source@ == source@,
            },
    {
        let chars = chars_of(source.as_str());
        let end0 = find_component_end(&chars, 0);
        let major = match parse_usize(&chars, 0, end0) {
            Ok(n) => n,
            Err(kind) => return Err(SemverParseError { source: source.clone(), kind }),
        };
        if end0 >= chars.len() {
            return Ok(Semver { major, minor: 0, patch: 0 });
        }
        let end1 = find_component_end(&chars, end0 + 1);
        let minor = match parse_usize(&chars, end0 + 1, end1) {
            Ok(n) => n,
            Err(kind) => return Err(SemverParseError { source: source.clone(), kind }),
        };
        if end1 >= chars.len() {
            return Ok(Semver { major, minor, patch: 0 });
        }
        let end2 = find_component_end(&chars, end1 + 1);
        match parse_usize(&chars, end1 + 1, end2) {
            Ok(patch) => Ok(Semver { major, minor, patch }),
            Err(kind) => Err(SemverParseError { source: source.clone(), kind }),
        }
    }

    /// Writes the version as `major.minor.patch`.
    pub fn string_representation(&self) -> (out: String)
        ensures
            out@ == semver_text(*self),
    {
        let mut out = String::new();
        push_decimal(&mut out, self.major);
        out.append(".");
        push_decimal(&mut out, self.minor);
        out.append(".");
        push_decimal(&mut out, self.patch);
        proof {
            reveal_strlit(".");
            assert("."@ =~= seq!['.']);
            assert(out@ =~= semver_text(*self));
        }
        out
    }

    /// Compares two versions: major first, then minor, then patch.
    pub fn compare(&self, other: &Semver) -> (o: Ordering)
        ensures
            o == precedence(*self, *other),
    {
        if self.major < other.major {
            Ordering::Less
        } else if self.major > other.major {
            Ordering::Greater
        } else if self.minor < other.minor {
            Ordering::Less
        } else if self.minor > other.minor {
            Ordering::Greater
        } else if self.patch < other.patch {
            Ordering::Less
        } else if self.patch > other.patch {
            Ordering::Greater
        } else {
            Ordering::Equal
        }
    }

    /// Whether `self` comes strictly before `other`.
    pub fn is_older_than(&self, other: &Semver) -> (b: bool)
        ensures
            b <==> precedence(*self, *other) == Ordering::Less,
    {
        self.major < other.major || (self.major == other.major && (self.minor < other.minor || (
        self.minor == other.minor && self.patch < other.patch)))
    }
}

impl PartialOrd for Semver {
    fn partial_cmp(&self, other: &Semver) -> (o: Option<Ordering>) {
        Some(self.compare(other))
    }
}

impl vstd::std_specs::cmp::PartialOrdSpecImpl for Semver {
    open spec fn obeys_partial_cmp_spec() -> bool {
        true
    }

    open spec fn partial_cmp_spec(&self, other: &Semver) -> Option<Ordering> {
        Some(precedence(*self, *other))
    }
}

/// A component that starts at `from` ends at `end` when no dot stands
/// between the two and `end` is a dot or the end of the text.
pub proof fn lemma_component_ends_at(s: Seq<char>, from: int, end: int)
    requires
        0 <= from <= end <= s.len(),
        forall|i: int| from <= i < end ==> s[i] != '.',
        end == s.len() || s[end] == '.',
    ensures
        component_end(s, from) == end,
    decreases end - from,
{
    if from < end {
        lemma_component_ends_at(s, from + 1, end);
    }
}

/// The text written for a version reads back as that version.
pub proof fn lemma_text_round_trip(v: Semver)
    ensures
        parse_semver(semver_text(v)) == Ok::<Semver, IntErrorKind>(v),
{
    let major = decimal_digits(v.major as nat);
    let minor = decimal_digits(v.minor as nat);
    let patch = decimal_digits(v.patch as nat);
    let text = semver_text(v);
    let max = usize::MAX as nat;
    lemma_decimal_digits_are_digits(v.major as nat);
    lemma_decimal_digits_are_digits(v.minor as nat);
    lemma_decimal_digits_are_digits(v.patch as nat);
    lemma_parse_decimal_digits(v.major as nat, max);
    lemma_parse_decimal_digits(v.minor as nat, max);
    lemma_parse_decimal_digits(v.patch as nat, max);
    let end0 = major.len() as int;
    let end1 = end0 + 1 + minor.len();
    let end2 = end1 + 1 + patch.len();
    assert(text.len() == end2);
    assert forall|i: int| 0 <= i < end0 implies text[i] != '.' by {
        assert(text[i] == major[i]);
    }
    assert(text[end0] == '.');
    assert forall|i: int| end0 + 1 <= i < end1 implies text[i] != '.' by {
        assert(text[i] == minor[i - end0 - 1]);
    }
    assert(text[end1] == '.');
    assert forall|i: int| end1 + 1 <= i < end2 implies text[i] != '.' by {
        assert(text[i] == patch[i - end1 - 1]);
    }
    lemma_component_ends_at(text, 0, end0);
    lemma_component_ends_at(text, end0 + 1, end1);
    lemma_component_ends_at(text, end1 + 1, end2);
    assert(text.subrange(0, end0) =~= major);
    assert(text.subrange(end0 + 1, end1) =~= minor);
    assert(text.subrange(end1 + 1, end2) =~= patch);
    assert(component(text, 0) == Ok::<nat, IntErrorKind>(v.major as nat));
    assert(component(text, end0 + 1) == Ok::<nat, IntErrorKind>(v.minor as nat));
    assert(component(text, end1 + 1) == Ok::<nat, IntErrorKind>(v.patch as nat));
}

/// Two versions compare equal exactly when their three components agree; a
/// version never comes before itself.
pub proof fn lemma_precedence_equal(a: Semver, b: Semver)
    ensures
        precedence(a, b) == Ordering::Equal <==> a == b,
        precedence(a, a) == Ordering::Equal,
{
}

/// Of two versions exactly one comes first unless they are equal: `a` is
/// before `b` exactly when `b` is after `a`.
pub proof fn lemma_precedence_mirror(a: Semver, b: Semver)
    ensures
        precedence(a, b) == Ordering::Less <==> precedence(b, a) == Ordering::Greater,
        precedence(a, b) == Ordering::Equal <==> precedence(b, a) == Ordering::Equal,
        a != b ==> (precedence(a, b) == Ordering::Less || precedence(b, a) == Ordering::Less),
        !(precedence(a, b) == Ordering::Less && precedence(b, a) == Ordering::Less),
{
}

/// Coming before is transitive.
pub proof fn lemma_precedence_transitive(a: Semver, b: Semver, c: Semver)
    requires
        precedence(a, b) == Ordering::Less,
        precedence(b, c) == Ordering::Less,
    ensures
        precedence(a, c) == Ordering::Less,
{
}

/// The order of versions is the lexicographic order of their triples.
pub proof fn lemma_precedence_lexicographic(a: Semver, b: Semver)
    ensures
        precedence(a, b) == Ordering::Less <==> (a.major < b.major || (a.major == b.major && (
        a.minor < b.minor || (a.minor == b.minor && a.patch < b.patch)))),
{
}

} // verus!
