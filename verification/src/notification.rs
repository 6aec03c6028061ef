//! The S3 event notification that an SQS message carries.

use vstd::prelude::*;
use vstd::std_specs::iter::IteratorSpec;
use vstd::string::StrSliceExecFns;
use vstd::string::StringExecFns;

verus! {

broadcast use vstd::string::group_string_axioms;

/// The character between the two halves of an event name.
pub const SEPARATOR: char = ':';

/// The two halves of an event name such as `ObjectCreated:Put`.
#[derive(Clone, Debug, PartialEq, Eq)]
pub struct S3EventName {
    pub kind: String,
    pub name: String,
}

/// Why a string is no event name.
#[derive(Copy, Clone, Debug, PartialEq, Eq, Structural)]
pub enum EventNameError {
    /// The string holds no `':'`.
    MissingSeparator,
    /// Nothing stands before the first `':'`.
    EmptyKind,
    /// Nothing stands after the first `':'`.
    EmptyName,
}

#[derive(Clone, Debug, PartialEq, Eq)]
pub struct S3Bucket {
    pub name: String,
}

#[derive(Clone, Debug, PartialEq, Eq)]
pub struct S3Object {
    pub key: String,
}

#[derive(Clone, Debug, PartialEq, Eq)]
pub struct S3Message {
    pub bucket: S3Bucket,
    pub object: S3Object,
}

/// One event of a notification.
#[derive(Clone, Debug, PartialEq, Eq)]
pub struct S3EventRecord {
    /// Carried along; no version is refused.
    pub event_version: String,
    pub event_source: String,
    pub aws_region: String,
    pub event_name: S3EventName,
    pub s3: S3Message,
}

/// A notification: its events in the order in which they were listed.
#[derive(Clone, Debug, PartialEq, Eq)]
pub struct S3Event {
    pub records: Vec<S3EventRecord>,
}

/// The number of characters that stand before the first `':'` of `s`; all of
/// them where it holds none.
pub open spec fn kind_len(s: Seq<char>) -> nat
    decreases s.len(),
{
    if s.len() == 0 || s[0] == SEPARATOR {
        0
    } else {
        1 + kind_len(s.drop_first())
    }
}

/// The halves of an event name, or why `s` is none: it is cut at its first
/// `':'`, and both halves must hold something.
pub open spec fn event_name_rule(s: Seq<char>) -> Result<(Seq<char>, Seq<char>), EventNameError> {
    let cut = kind_len(s) as int;
    if cut == s.len() {
        Err(EventNameError::MissingSeparator)
    } else if cut == 0 {
        Err(EventNameError::EmptyKind)
    } else if cut + 1 == s.len() {
        Err(EventNameError::EmptyName)
    } else {
        Ok((s.take(cut), s.skip(cut + 1)))
    }
}

/// An event name written out: kind, `':'`, name.
pub open spec fn rendered(kind: Seq<char>, name: Seq<char>) -> Seq<char> {
    kind + seq![SEPARATOR] + name
}

/// `kind_len` is the place of the first `':'`.
pub proof fn lemma_kind_len(s: Seq<char>, cut: int)
    requires
        0 <= cut <= s.len(),
        forall|j: int| 0 <= j < cut ==> s[j] != SEPARATOR,
        cut < s.len() ==> s[cut] == SEPARATOR,
    ensures
        kind_len(s) == cut,
    decreases s.len(),
{
    if cut > 0 {
        lemma_kind_len(s.drop_first(), cut - 1);
    }
}

/// Parsing what was rendered gives the two halves back: for a kind and a
/// name that both hold something and hold no `':'`, the rendered name parses
/// to that kind and that name.
pub proof fn lemma_event_name_round_trip(kind: Seq<char>, name: Seq<char>)
    requires
        kind.len() > 0,
        name.len() > 0,
        !kind.contains(SEPARATOR),
        !name.contains(SEPARATOR),
    ensures
        event_name_rule(rendered(kind, name)) == Ok::<_, EventNameError>((kind, name)),
{
    let s = rendered(kind, name);
    let cut = kind.len() as int;
    assert forall|j: int| 0 <= j < cut implies s[j] != SEPARATOR by {
        assert(s[j] == kind[j]);
        assert(kind.contains(kind[j]));
    }
    assert(s[cut] == SEPARATOR);
    lemma_kind_len(s, cut);
    assert(s.take(cut) =~= kind);
    assert(s.skip(cut + 1) =~= name);
}

/// Rendering what was parsed gives the string back, and the kind that was
/// parsed holds no `':'`.
pub proof fn lemma_event_name_parse_render(s: Seq<char>)
    requires
        event_name_rule(s) is Ok,
    ensures
        ({
            let (kind, name) = event_name_rule(s)->Ok_0;
            &&& rendered(kind, name) == s
            &&& kind.len() > 0
            &&& name.len() > 0
            &&& !kind.contains(SEPARATOR)
        }),
{
    let cut = kind_len(s) as int;
    lemma_kind_len_is_first(s);
    let (kind, name) = event_name_rule(s)->Ok_0;
    assert(rendered(kind, name) =~= s);
    if kind.contains(SEPARATOR) {
        let j = choose|j: int| 0 <= j < kind.len() && kind[j] == SEPARATOR;
        assert(s[j] == kind[j]);
    }
}

/// No `':'` stands before `kind_len`, and one stands at it unless the string
/// ends there.
pub proof fn lemma_kind_len_is_first(s: Seq<char>)
    ensures
        kind_len(s) <= s.len(),
        forall|j: int| 0 <= j < kind_len(s) ==> s[j] != SEPARATOR,
        kind_len(s) < s.len() ==> s[kind_len(s) as int] == SEPARATOR,
    decreases s.len(),
{
    if !(s.len() == 0 || s[0] == SEPARATOR) {
        let rest = s.drop_first();
        lemma_kind_len_is_first(rest);
        assert forall|j: int| 0 <= j < kind_len(s) implies s[j] != SEPARATOR by {
            if j > 0 {
                assert(s[j] == rest[j - 1]);
            }
        }
        if kind_len(s) < s.len() {
            assert(s[kind_len(s) as int] == rest[kind_len(rest) as int]);
        }
    }
}

impl S3EventName {
    /// Reads an event name: the string is cut at its first `':'`. A string
    /// without one, or with nothing before or after it, is refused.
    pub fn parse(s: &str) -> (r: Result<S3EventName, EventNameError>)
        ensures
            match r {
                Ok(event_name) => event_name_rule(s@) == Ok::<_, EventNameError>(
                    (event_name.kind@, event_name.name@),
                ),
                Err(e) => event_name_rule(s@) == Err::<(Seq<char>, Seq<char>), _>(e),
            },
    {
        let len: usize = s.unicode_len();
        let mut chars = s.chars();
        let mut cut: usize = 0;
        loop
            invariant_except_break
                chars.remaining() == s@.skip(cut as int),
            invariant
                chars.obeys_prophetic_iter_laws(),
                cut <= len,
                len == s@.len(),
                forall|j: int| 0 <= j < cut ==> s@[j] != SEPARATOR,
            ensures
                cut < len ==> s@[cut as int] == SEPARATOR,
            decreases len - cut,
        {
            match chars.next() {
                Some(c) => {
                    assert(c == s@.skip(cut as int)[0]);
                    if c == SEPARATOR {
                        break ;
                    }
                    assert(s@.skip(cut as int).drop_first() =~= s@.skip(cut + 1));
                    cut = cut + 1;
                },
                None => {
                    assert(s@.skip(cut as int).len() == 0);
                    break ;
                },
            }
        }
        proof {
            lemma_kind_len(s@, cut as int);
        }
        if cut == len {
            Err(EventNameError::MissingSeparator)
        } else if cut == 0 {
            Err(EventNameError::EmptyKind)
        } else if cut + 1 == len {
            Err(EventNameError::EmptyName)
        } else {
            let kind = s.substring_char(0, cut).to_owned();
            let name = s.substring_char(cut + 1, len).to_owned();
            assert(s@.subrange(0, cut as int) =~= s@.take(cut as int));
            assert(s@.subrange(cut + 1, len as int) =~= s@.skip(cut + 1));
            Ok(S3EventName { kind, name })
        }
    }

    /// The event name written out again: kind, `':'`, name.
    pub fn to_string(&self) -> (s: String)
        ensures
            s@ == rendered(self.kind@, self.name@),
    {
        let mut s = self.kind.clone();
        proof {
            reveal_strlit(":");
        }
        s.append(":");
        s.append(self.name.as_str());
        assert(":"@ =~= seq![SEPARATOR]);
        s
    }

    /// Whether this is an event of the given kind.
    pub fn is_kind(&self, kind: &str) -> (same: bool)
        ensures
            same == (self.kind@ == kind@),
    {
        crate::text::str_eq(self.kind.as_str(), kind)
    }
}

impl EventNameError {
    /// What is missing, in words.
    pub fn description(&self) -> (text: &'static str)
        ensures
            text@ == match *self {
                EventNameError::EmptyKind => "Missing event type"@,
                EventNameError::MissingSeparator => "Missing event name"@,
                EventNameError::EmptyName => "Missing event name"@,
            },
    {
        match self {
            EventNameError::EmptyKind => "Missing event type",
            EventNameError::MissingSeparator => "Missing event name",
            EventNameError::EmptyName => "Missing event name",
        }
    }
}

} // verus!
