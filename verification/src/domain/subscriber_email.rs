use validator::ValidateEmail;
use vstd::prelude::*;

use crate::hkt::{from_str, from_string, K1, RefHKT, SharedPointerHKT};

verus! {

/// Whether `s` is a valid e-mail address by the HTML5 rules that the `validator`
/// crate implements.
pub uninterp spec fn html5_email_is_valid(s: Seq<char>) -> bool;

/// Calls `validator::ValidateEmail::validate_email` on `s`. Besides naming the result,
/// the contract states checks that the crate's source makes before its regular
/// expressions: an accepted address is not empty, holds an `@`, does not start with `@`
/// (the part before the last `@` must be one or more characters none of which is `@`),
/// and is at most 64 + 1 + 255 characters long.
#[verifier::external_body]
fn validate_email(s: &str) -> (r: bool)
    ensures
        r == html5_email_is_valid(s@),
        r ==> s@.len() > 0 && s@.contains('@') && s@[0] != '@' && s@.len() <= 320,
{
    s.validate_email()
}

/// A subscriber e-mail address that `validator` accepts.
pub struct SubscriberEmail<P: RefHKT<str>>(K1<P, str>);

#[derive(Debug, Hash, PartialEq, Eq, Clone)]
pub enum SubscriberEmailParseError {
    Other(String),
}

/// The message given for an address `s` that is refused.
pub open spec fn invalid_email_message(s: Seq<char>) -> Seq<char> {
    "'"@ + s + "' is not valid email."@
}

impl SubscriberEmailParseError {
    /// The text that describes the error.
    pub fn message(&self) -> (r: String)
        ensures
            r@ == self.spec_message(),
    {
        match self {
            SubscriberEmailParseError::Other(m) => m.clone(),
        }
    }

    pub open spec fn spec_message(&self) -> Seq<char> {
        match self {
            SubscriberEmailParseError::Other(m) => m@,
        }
    }
}

/// What every address that `validator` accepts looks like: not empty, holding an `@`, not
/// starting with `@`, and at most 320 characters long.
pub open spec fn accepted_email_shape(s: Seq<char>) -> bool {
    s.len() > 0 && s.contains('@') && s[0] != '@' && s.len() <= 320
}

/// What parsing `s` gives: accepted exactly when `validator` accepts it.
pub open spec fn email_parse_spec<P: RefHKT<str>>(s: Seq<char>) -> Result<SubscriberEmail<P>, SubscriberEmailParseError> {
    if html5_email_is_valid(s) {
        Ok(choose|e: SubscriberEmail<P>| e@ == s)
    } else {
        Err(SubscriberEmailParseError::Other(choose|m: String| m@ == invalid_email_message(s)))
    }
}

/// `r` is what parsing `s` gives, up to which pointer and which `String` are used.
pub open spec fn email_parse_result<P: RefHKT<str>>(s: Seq<char>, r: Result<SubscriberEmail<P>, SubscriberEmailParseError>) -> bool {
    if html5_email_is_valid(s) {
        r matches Ok(e) && e@ == s && accepted_email_shape(s)
    } else {
        r matches Err(err) && err.spec_message() == invalid_email_message(s)
    }
}

impl<P: RefHKT<str>> SubscriberEmail<P> {
    /// The characters of the address.
    pub closed spec fn view(&self) -> Seq<char> {
        self.0@
    }

    /// The pointer the address was parsed from.
    pub closed spec fn ptr(&self) -> P::T {
        self.0.ptr()
    }

    /// Accepts the string behind `str` when `validator` takes it for an e-mail address,
    /// keeping the pointer; otherwise says which string was refused.
    pub fn parse(str: P::T) -> (r: Result<SubscriberEmail<P>, SubscriberEmailParseError>)
        ensures
            email_parse_result(P::pointee(&str)@, r),
            r matches Ok(e) ==> e.ptr() == str,
    {
        let str = K1::<P, str>::newtype(str);
        let s: &str = P::deref(str.inner_ref());
        if validate_email(s) {
            Ok(SubscriberEmail(str))
        } else {
            let mut message = "'".to_owned();
            message.append(s);
            message.append("' is not valid email.");
            Err(SubscriberEmailParseError::Other(message))
        }
    }

    /// The address as a string slice.
    pub fn as_str(&self) -> (r: &str)
        ensures
            r@ == self@,
    {
        P::deref(self.0.inner_ref())
    }

    /// The pointer to the address.
    pub fn into_inner(self) -> (r: K1<P, str>)
        ensures
            r@ == self@,
    {
        self.0
    }
}

impl<P: RefHKT<str>> core::ops::Deref for SubscriberEmail<P> {
    type Target = str;

    /// The characters, as a string slice.
    fn deref(&self) -> (r: &str)
        ensures
            r@ == self@,
    {
        self.as_str()
    }
}

impl<P: SharedPointerHKT<str>> Clone for SubscriberEmail<P> {
    fn clone(&self) -> (r: Self)
        ensures
            r@ == self@,
    {
        SubscriberEmail(P::clone(self.0.inner_ref()))
    }
}

impl<P: RefHKT<str>> TryFrom<&str> for SubscriberEmail<P> {
    type Error = SubscriberEmailParseError;

    /// Parses a copy of `value`.
    fn try_from(value: &str) -> (r: Result<SubscriberEmail<P>, SubscriberEmailParseError>)
        ensures
            email_parse_result(value@, r),
    {
        Self::parse(from_str::<P>(value).inner())
    }
}

impl<P: RefHKT<str>> vstd::std_specs::convert::TryFromSpecImpl<&str> for SubscriberEmail<P> {
    open spec fn obeys_try_from_spec() -> bool {
        false
    }

    open spec fn try_from_spec(v: &str) -> Result<SubscriberEmail<P>, SubscriberEmailParseError> {
        email_parse_spec(v@)
    }
}

impl<P: RefHKT<str>> TryFrom<String> for SubscriberEmail<P> {
    type Error = SubscriberEmailParseError;

    /// Parses `value`.
    fn try_from(value: String) -> (r: Result<SubscriberEmail<P>, SubscriberEmailParseError>)
        ensures
            email_parse_result(value@, r),
    {
        Self::parse(from_string::<P>(value).inner())
    }
}

impl<P: RefHKT<str>> vstd::std_specs::convert::TryFromSpecImpl<String> for SubscriberEmail<P> {
    open spec fn obeys_try_from_spec() -> bool {
        false
    }

    open spec fn try_from_spec(v: String) -> Result<SubscriberEmail<P>, SubscriberEmailParseError> {
        email_parse_spec(v@)
    }
}

impl<P: RefHKT<str>> TryFrom<K1<P, str>> for SubscriberEmail<P> {
    type Error = SubscriberEmailParseError;

    /// Parses the string behind `value`, keeping its pointer.
    fn try_from(value: K1<P, str>) -> (r: Result<SubscriberEmail<P>, SubscriberEmailParseError>)
        ensures
            email_parse_result(value@, r),
            r matches Ok(e) ==> e.ptr() == value.ptr(),
    {
        Self::parse(value.inner())
    }
}

impl<P: RefHKT<str>> vstd::std_specs::convert::TryFromSpecImpl<K1<P, str>> for SubscriberEmail<P> {
    open spec fn obeys_try_from_spec() -> bool {
        false
    }

    open spec fn try_from_spec(v: K1<P, str>) -> Result<SubscriberEmail<P>, SubscriberEmailParseError> {
        email_parse_spec(v@)
    }
}

} // verus!
