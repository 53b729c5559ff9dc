use vstd::prelude::*;

use crate::hkt::{from_str, from_string, K1, RefHKT, SharedPointerHKT};
use crate::unicode::{extended_grapheme_count, grapheme_count, is_blank, is_empty_or_whitespace};

verus! {

/// The most graphemes a subscriber name may have.
pub const SUBSCRIBER_NAME_MAX_LENGTH: usize = 256;

/// The characters a subscriber name must not contain.
pub const SUBSCRIBE_NAME_FORBIDDEN_CHARACTERS: [char; 9] = ['/', '(', ')', '"', '<', '>', '\\', '{', '}'];

/// The characters a subscriber name must not contain: `/ ( ) " < > \ { }`.
pub open spec fn is_forbidden_name_char(c: char) -> bool {
    c == '/' || c == '(' || c == ')' || c == '"' || c == '<' || c == '>' || c == '\\' || c == '{'
        || c == '}'
}

pub open spec fn has_forbidden_name_char(s: Seq<char>) -> bool {
    exists|i: int| 0 <= i < s.len() && is_forbidden_name_char(#[trigger] s[i])
}

/// Why `s` is refused as a subscriber name, checked in this order; `None` when it is accepted.
pub open spec fn name_violation(s: Seq<char>) -> Option<SubscriberNameParseError> {
    if is_blank(s) {
        Some(SubscriberNameParseError::IsEmptyOrWhitespace)
    } else if extended_grapheme_count(s) > SUBSCRIBER_NAME_MAX_LENGTH {
        Some(SubscriberNameParseError::IsTooLong)
    } else if has_forbidden_name_char(s) {
        Some(SubscriberNameParseError::ContainsForbiddenCharacters)
    } else {
        None
    }
}

/// The forbidden characters of a name are exactly those listed in
/// `SUBSCRIBE_NAME_FORBIDDEN_CHARACTERS`.
pub proof fn lemma_forbidden_chars_are_the_listed_ones(c: char)
    ensures
        is_forbidden_name_char(c) <==> SUBSCRIBE_NAME_FORBIDDEN_CHARACTERS@.contains(c),
{
    let listed = SUBSCRIBE_NAME_FORBIDDEN_CHARACTERS@;
    assert(listed =~= seq!['/', '(', ')', '"', '<', '>', '\\', '{', '}']);
    if is_forbidden_name_char(c) {
        if c == '/' { assert(listed[0] == c); }
        else if c == '(' { assert(listed[1] == c); }
        else if c == ')' { assert(listed[2] == c); }
        else if c == '"' { assert(listed[3] == c); }
        else if c == '<' { assert(listed[4] == c); }
        else if c == '>' { assert(listed[5] == c); }
        else if c == '\\' { assert(listed[6] == c); }
        else if c == '{' { assert(listed[7] == c); }
        else { assert(listed[8] == c); }
    }
}

/// A name is accepted exactly when it is not blank, has at most
/// `SUBSCRIBER_NAME_MAX_LENGTH` graphemes, and holds none of the characters listed in
/// `SUBSCRIBE_NAME_FORBIDDEN_CHARACTERS`; a name refused for its characters holds one of
/// them.
pub proof fn lemma_accepted_names(s: Seq<char>)
    ensures
        name_violation(s) is None <==> (!is_blank(s) && extended_grapheme_count(s) <= SUBSCRIBER_NAME_MAX_LENGTH
            && forall|i: int| 0 <= i < s.len() ==> !SUBSCRIBE_NAME_FORBIDDEN_CHARACTERS@.contains(#[trigger] s[i])),
        name_violation(s) == Some(SubscriberNameParseError::ContainsForbiddenCharacters) <==> (!is_blank(s)
            && extended_grapheme_count(s) <= SUBSCRIBER_NAME_MAX_LENGTH
            && exists|i: int| 0 <= i < s.len() && SUBSCRIBE_NAME_FORBIDDEN_CHARACTERS@.contains(#[trigger] s[i])),
{
    assert forall|i: int| 0 <= i < s.len() implies (is_forbidden_name_char(s[i]) <==> SUBSCRIBE_NAME_FORBIDDEN_CHARACTERS@.contains(#[trigger] s[i])) by {
        lemma_forbidden_chars_are_the_listed_ones(s[i]);
    }
}

/// A subscriber name: not blank, at most `SUBSCRIBER_NAME_MAX_LENGTH` graphemes, and
/// free of the forbidden characters.
pub struct SubscriberName<P: RefHKT<str>>(K1<P, str>);

#[derive(Debug, Hash, PartialEq, Eq, Clone, Copy)]
pub enum SubscriberNameParseError {
    IsEmptyOrWhitespace,
    IsTooLong,
    ContainsForbiddenCharacters,
}

impl SubscriberNameParseError {
    /// The text that describes the error.
    pub fn message(&self) -> (r: String)
        ensures
            r@ == self.spec_message(),
    {
        match self {
            SubscriberNameParseError::IsEmptyOrWhitespace => "Name is empty or contains whitespace.".to_owned(),
            SubscriberNameParseError::IsTooLong => "Name is longer than 256".to_owned(),
            SubscriberNameParseError::ContainsForbiddenCharacters => "Name must not contain forbidden characters: [/, (, ), \", <, >, \\, {, }]".to_owned(),
        }
    }

    pub open spec fn spec_message(&self) -> Seq<char> {
        match self {
            SubscriberNameParseError::IsEmptyOrWhitespace => "Name is empty or contains whitespace."@,
            SubscriberNameParseError::IsTooLong => "Name is longer than 256"@,
            SubscriberNameParseError::ContainsForbiddenCharacters => "Name must not contain forbidden characters: [/, (, ), \", <, >, \\, {, }]"@,
        }
    }
}

fn contains_forbidden_characters(s: &str) -> (r: bool)
    ensures
        r == has_forbidden_name_char(s@),
{
    let mut found = false;
    for c in it: s.chars()
        invariant
            it.seq() == s@,
            found == (exists|i: int| 0 <= i < it.index() && is_forbidden_name_char(#[trigger] s@[i])),
    {
        if c == '/' || c == '(' || c == ')' || c == '"' || c == '<' || c == '>' || c == '\\'
            || c == '{' || c == '}' {
            found = true;
        }
    }
    found
}

impl<P: RefHKT<str>> SubscriberName<P> {
    /// The characters of the name.
    pub closed spec fn view(&self) -> Seq<char> {
        self.0@
    }

    /// The pointer the name was parsed from.
    pub closed spec fn ptr(&self) -> P::T {
        self.0.ptr()
    }

    /// Accepts the string behind `s` as a name unless `name_violation` gives a reason;
    /// an accepted name keeps the very pointer `s`.
    pub fn parse(s: P::T) -> (r: Result<SubscriberName<P>, SubscriberNameParseError>)
        ensures
            match name_violation(P::pointee(&s)@) {
                None => r matches Ok(n) && n@ == P::pointee(&s)@ && n.ptr() == s,
                Some(e) => r == Err::<SubscriberName<P>, SubscriberNameParseError>(e),
            },
    {
        let s = K1::<P, str>::newtype(s);
        let s_ref: &str = P::deref(s.inner_ref());
        let is_blank = is_empty_or_whitespace(s_ref);
        let is_too_long = grapheme_count(s_ref) > SUBSCRIBER_NAME_MAX_LENGTH;
        let has_forbidden = contains_forbidden_characters(s_ref);
        if is_blank {
            Err(SubscriberNameParseError::IsEmptyOrWhitespace)
        } else if is_too_long {
            Err(SubscriberNameParseError::IsTooLong)
        } else if has_forbidden {
            Err(SubscriberNameParseError::ContainsForbiddenCharacters)
        } else {
            Ok(SubscriberName(s))
        }
    }

    /// The name as a string slice.
    pub fn as_str(&self) -> (r: &str)
        ensures
            r@ == self@,
    {
        P::deref(self.0.inner_ref())
    }
}

impl<P: RefHKT<str>> core::ops::Deref for SubscriberName<P> {
    type Target = str;

    /// The characters, as a string slice.
    fn deref(&self) -> (r: &str)
        ensures
            r@ == self@,
    {
        self.as_str()
    }
}

impl<P: SharedPointerHKT<str>> Clone for SubscriberName<P> {
    fn clone(&self) -> (r: Self)
        ensures
            r@ == self@,
    {
        SubscriberName(P::clone(self.0.inner_ref()))
    }
}

impl<P: RefHKT<str>> TryFrom<&str> for SubscriberName<P> {
    type Error = SubscriberNameParseError;

    /// Parses a copy of `value`.
    fn try_from(value: &str) -> (r: Result<SubscriberName<P>, SubscriberNameParseError>)
        ensures
            match name_violation(value@) {
                None => r matches Ok(n) && n@ == value@,
                Some(e) => r == Err::<SubscriberName<P>, SubscriberNameParseError>(e),
            },
    {
        Self::parse(from_str::<P>(value).inner())
    }
}

impl<P: RefHKT<str>> vstd::std_specs::convert::TryFromSpecImpl<&str> for SubscriberName<P> {
    open spec fn obeys_try_from_spec() -> bool {
        false
    }

    open spec fn try_from_spec(v: &str) -> Result<SubscriberName<P>, SubscriberNameParseError> {
        parse_spec(v@)
    }
}

impl<P: RefHKT<str>> TryFrom<String> for SubscriberName<P> {
    type Error = SubscriberNameParseError;

    /// Parses `value`.
    fn try_from(value: String) -> (r: Result<SubscriberName<P>, SubscriberNameParseError>)
        ensures
            match name_violation(value@) {
                None => r matches Ok(n) && n@ == value@,
                Some(e) => r == Err::<SubscriberName<P>, SubscriberNameParseError>(e),
            },
    {
        Self::parse(from_string::<P>(value).inner())
    }
}

impl<P: RefHKT<str>> vstd::std_specs::convert::TryFromSpecImpl<String> for SubscriberName<P> {
    open spec fn obeys_try_from_spec() -> bool {
        false
    }

    open spec fn try_from_spec(v: String) -> Result<SubscriberName<P>, SubscriberNameParseError> {
        parse_spec(v@)
    }
}

impl<P: RefHKT<str>> TryFrom<K1<P, str>> for SubscriberName<P> {
    type Error = SubscriberNameParseError;

    /// Parses the string behind `value`, keeping its pointer.
    fn try_from(value: K1<P, str>) -> (r: Result<SubscriberName<P>, SubscriberNameParseError>)
        ensures
            match name_violation(value@) {
                None => r matches Ok(n) && n@ == value@ && n.ptr() == value.ptr(),
                Some(e) => r == Err::<SubscriberName<P>, SubscriberNameParseError>(e),
            },
    {
        Self::parse(value.inner())
    }
}

impl<P: RefHKT<str>> vstd::std_specs::convert::TryFromSpecImpl<K1<P, str>> for SubscriberName<P> {
    open spec fn obeys_try_from_spec() -> bool {
        false
    }

    open spec fn try_from_spec(v: K1<P, str>) -> Result<SubscriberName<P>, SubscriberNameParseError> {
        parse_spec(v@)
    }
}

/// What parsing `s` gives, up to which pointer an accepted name is held by.
pub open spec fn parse_spec<P: RefHKT<str>>(s: Seq<char>) -> Result<SubscriberName<P>, SubscriberNameParseError> {
    match name_violation(s) {
        Some(e) => Err(e),
        None => Ok(choose|n: SubscriberName<P>| n@ == s),
    }
}

} // verus!
