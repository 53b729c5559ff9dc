use vstd::prelude::*;

use crate::domain::subscriber_email::{accepted_email_shape, html5_email_is_valid, invalid_email_message};
use crate::domain::subscriber_name::name_violation;
use crate::domain::{
    SubscriberEmail, SubscriberEmailParseError, SubscriberName, SubscriberNameParseError,
};
use crate::hkt::RefHKT;
use crate::routes::subscriptions::SubscribeFormData;

verus! {

/// A would-be subscriber whose name and e-mail address were both accepted.
pub struct NewSubscriber<P: RefHKT<str>> {
    pub email: SubscriberEmail<P>,
    pub name: SubscriberName<P>,
}

#[derive(Debug, Hash, PartialEq, Eq, Clone)]
pub enum NewSubscriberParseError {
    SubscriberEmailParseError(SubscriberEmailParseError),
    SubscriberNameParseError(SubscriberNameParseError),
}

impl NewSubscriberParseError {
    /// The text that describes the error: `Email: ...` or `Name: ...`.
    pub fn message(&self) -> (r: String)
        ensures
            r@ == self.spec_message(),
    {
        match self {
            NewSubscriberParseError::SubscriberEmailParseError(e) => {
                let mut m = "Email: ".to_owned();
                let inner = e.message();
                m.append(inner.as_str());
                m
            },
            NewSubscriberParseError::SubscriberNameParseError(e) => {
                let mut m = "Name: ".to_owned();
                let inner = e.message();
                m.append(inner.as_str());
                m
            },
        }
    }

    pub open spec fn spec_message(&self) -> Seq<char> {
        match self {
            NewSubscriberParseError::SubscriberEmailParseError(e) => "Email: "@ + e.spec_message(),
            NewSubscriberParseError::SubscriberNameParseError(e) => "Name: "@ + e.spec_message(),
        }
    }
}

/// `r` is what validating the form with name `name` and e-mail `email` gives: the name
/// is checked first, then the address.
pub open spec fn new_subscriber_result<P: RefHKT<str>>(
    name: Seq<char>,
    email: Seq<char>,
    r: Result<NewSubscriber<P>, NewSubscriberParseError>,
) -> bool {
    match name_violation(name) {
        Some(e) => r == Err::<NewSubscriber<P>, NewSubscriberParseError>(
            NewSubscriberParseError::SubscriberNameParseError(e),
        ),
        None => if html5_email_is_valid(email) {
            r matches Ok(s) && s.name@ == name && s.email@ == email && accepted_email_shape(email)
        } else {
            r matches Err(NewSubscriberParseError::SubscriberEmailParseError(e))
                && e.spec_message() == invalid_email_message(email)
        },
    }
}

impl<P: RefHKT<str>> TryFrom<SubscribeFormData> for NewSubscriber<P> {
    type Error = NewSubscriberParseError;

    /// Validates the name, then the e-mail address, of a subscription form.
    fn try_from(value: SubscribeFormData) -> (r: Result<NewSubscriber<P>, NewSubscriberParseError>)
        ensures
            new_subscriber_result(value.name@, value.email@, r),
    {
        match SubscriberName::<P>::try_from(value.name.as_str()) {
            Err(e) => Err(NewSubscriberParseError::SubscriberNameParseError(e)),
            Ok(name) => match SubscriberEmail::<P>::try_from(value.email.as_str()) {
                Ok(email) => Ok(NewSubscriber { email, name }),
                Err(e) => Err(NewSubscriberParseError::SubscriberEmailParseError(e)),
            },
        }
    }
}

impl<P: RefHKT<str>> vstd::std_specs::convert::TryFromSpecImpl<SubscribeFormData> for NewSubscriber<P> {
    open spec fn obeys_try_from_spec() -> bool {
        false
    }

    open spec fn try_from_spec(v: SubscribeFormData) -> Result<NewSubscriber<P>, NewSubscriberParseError> {
        choose|r: Result<NewSubscriber<P>, NewSubscriberParseError>| new_subscriber_result(v.name@, v.email@, r)
    }
}

} // verus!
