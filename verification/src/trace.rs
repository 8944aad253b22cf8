//! Trace identifiers: 128-bit values that link the transactions of nested
//! invocations. An identifier is held as it is written, 32 lowercase
//! hexadecimal digits, and travels between processes in that form.

use vstd::prelude::*;

verus! {

/// The environment variable through which an identifier reaches a child.
pub const TRACE_ID_KEY: &'static str = "ODX_TRACE_ID";

/// `c` is a hexadecimal digit of either case.
pub open spec fn is_hex_digit(c: char) -> bool {
    ('0' <= c && c <= '9') || ('a' <= c && c <= 'f') || ('A' <= c && c <= 'F')
}

/// `c` is a decimal digit or one of `a` to `f`.
pub open spec fn is_lower_hex_digit(c: char) -> bool {
    ('0' <= c && c <= '9') || ('a' <= c && c <= 'f')
}

/// The lowercase digit with the value of the hexadecimal digit `c`.
pub open spec fn lower_hex_digit(c: char) -> char {
    if 'A' <= c && c <= 'F' {
        ((c as u32) + 32) as char
    } else {
        c
    }
}

/// `s` can be read as an identifier: 32 hexadecimal digits.
pub open spec fn is_trace_text(s: Seq<char>) -> bool {
    s.len() == 32 && forall|i: int| 0 <= i < s.len() ==> is_hex_digit(#[trigger] s[i])
}

/// `s` is an identifier as it is written: 32 lowercase hexadecimal digits.
pub open spec fn is_canonical(s: Seq<char>) -> bool {
    s.len() == 32 && forall|i: int| 0 <= i < s.len() ==> is_lower_hex_digit(#[trigger] s[i])
}

/// `s` with every digit in lower case.
pub open spec fn canonical_form(s: Seq<char>) -> Seq<char> {
    Seq::new(s.len(), |i: int| lower_hex_digit(s[i]))
}

/// The identifier that `s` denotes, as it is written, if `s` denotes one.
pub open spec fn parsed(s: Seq<char>) -> Option<Seq<char>> {
    if is_trace_text(s) {
        Some(canonical_form(s))
    } else {
        None
    }
}

/// The identifier of a session that finds `inbound` in its environment: the
/// one that `inbound` denotes, and `fresh` where there is none to read.
pub open spec fn resolved(inbound: Option<Seq<char>>, fresh: Seq<char>) -> Seq<char> {
    match inbound {
        Some(s) => match parsed(s) {
            Some(id) => id,
            None => fresh,
        },
        None => fresh,
    }
}

/// Reads `s` with `sentry::protocol::TraceId::from_str` and writes the
/// identifier back with that type's conversion into `String`. The first
/// accepts exactly the strings of 32 hexadecimal digits, of either case; the
/// second writes the 16 bytes read as 32 lowercase digits, so that each digit
/// of `s` comes back in lower case.
#[verifier::external_body]
fn parse_canonical(s: &str) -> (text: Option<String>)
    ensures
        text.deep_view() == parsed(s@),
{
    match <sentry::protocol::TraceId as std::str::FromStr>::from_str(s) {
        Ok(id) => Some(String::from(id)),
        Err(_) => None,
    }
}

/// Draws an identifier with `sentry::protocol::TraceId::default` and writes
/// it with that type's conversion into `String`. The bytes are random; every
/// outcome is written as 32 lowercase hexadecimal digits.
#[verifier::external_body]
fn fresh_canonical() -> (text: String)
    ensures
        is_canonical(text@),
{
    String::from(sentry::protocol::TraceId::default())
}

/// A trace identifier.
#[derive(Debug, PartialEq, Eq)]
pub struct TraceId {
    text: String,
}

impl View for TraceId {
    type V = Seq<char>;

    /// The identifier as it is written.
    closed spec fn view(&self) -> Seq<char> {
        self.text@
    }
}

impl DeepView for TraceId {
    type V = Seq<char>;

    open spec fn deep_view(&self) -> Seq<char> {
        self@
    }
}

impl TraceId {
    /// The identifier is written as 32 lowercase hexadecimal digits. This
    /// holds of every identifier that a program holds.
    #[verifier::type_invariant]
    pub open spec fn wf(&self) -> bool {
        is_canonical(self@)
    }

    /// Reads an identifier from `s`, which holds one exactly if it is 32
    /// hexadecimal digits; the case of the digits does not matter.
    pub fn parse(s: &str) -> (id: Option<TraceId>)
        ensures
            id.deep_view() == parsed(s@),
            id matches Some(t) ==> t.wf(),
    {
        match parse_canonical(s) {
            Some(text) => {
                proof {
                    lemma_canonical_form(s@);
                }
                Some(TraceId { text })
            },
            None => None,
        }
    }

    /// A new identifier, drawn at random.
    pub fn generate() -> (id: TraceId)
        ensures
            id.wf(),
    {
        TraceId { text: fresh_canonical() }
    }

    /// The identifier that `inbound` holds; a new one where `inbound` is
    /// absent or holds none.
    pub fn resolve(inbound: &Option<String>) -> (id: TraceId)
        ensures
            id.wf(),
            exists|fresh: Seq<char>|
                is_canonical(fresh) && id@ == #[trigger] resolved(inbound.deep_view(), fresh),
    {
        let read = match inbound {
            Some(s) => TraceId::parse(s.as_str()),
            None => None,
        };
        match read {
            Some(id) => {
                assert(id@ == resolved(inbound.deep_view(), id@));
                id
            },
            None => {
                let id = TraceId::generate();
                assert(id@ == resolved(inbound.deep_view(), id@));
                id
            },
        }
    }

    /// The identifier as it is written.
    pub fn as_str(&self) -> (text: &str)
        ensures
            text@ == self@,
            self.wf(),
    {
        proof {
            use_type_invariant(self);
        }
        self.text.as_str()
    }
}

impl Clone for TraceId {
    fn clone(&self) -> (id: TraceId)
        ensures
            id@ == self@,
    {
        proof {
            use_type_invariant(self);
        }
        TraceId { text: self.text.clone() }
    }
}

/// The canonical form of an identifier's text is canonical.
pub proof fn lemma_canonical_form(s: Seq<char>)
    requires
        is_trace_text(s),
    ensures
        is_canonical(canonical_form(s)),
{
    assert forall|i: int| 0 <= i < canonical_form(s).len() implies is_lower_hex_digit(
        #[trigger] canonical_form(s)[i],
    ) by {
        assert(is_hex_digit(s[i]));
    }
}

/// What an identifier is written as reads back as that identifier.
pub proof fn lemma_written_reads_back(text: Seq<char>)
    requires
        is_canonical(text),
    ensures
        parsed(text) == Some(text),
{
    assert forall|i: int| 0 <= i < text.len() implies is_hex_digit(#[trigger] text[i]) by {
        assert(is_lower_hex_digit(text[i]));
    }
    assert(canonical_form(text) =~= text) by {
        assert forall|i: int| 0 <= i < text.len() implies canonical_form(text)[i] == text[i] by {
            assert(is_lower_hex_digit(text[i]));
        }
    }
}

} // verus!
