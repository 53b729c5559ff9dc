use vstd::prelude::*;

use crate::unicode::utf8_len_exceeds;

verus! {

/// The longest idempotency key, in UTF-8 bytes.
pub const IDEMPOTENCY_KEY_MAX_LENGTH: usize = 50;

/// A key that identifies one submission of a form: between 1 and 50 bytes of UTF-8.
#[derive(Debug, Clone)]
pub struct IdempotencyKey(String);

#[derive(Debug, Clone, Copy, PartialEq, Eq, Structural)]
pub enum IdempotencyKeyError {
    Empty,
    TooLong,
}

impl IdempotencyKeyError {
    /// The text that describes the error.
    pub fn message(&self) -> (r: &'static str)
        ensures
            r@ == self.spec_message(),
    {
        match self {
            IdempotencyKeyError::Empty => "Idempotency key cannot be empty.",
            IdempotencyKeyError::TooLong => "Idempotency key cannot be longer than 50 chars.",
        }
    }

    pub open spec fn spec_message(&self) -> Seq<char> {
        match self {
            IdempotencyKeyError::Empty => "Idempotency key cannot be empty."@,
            IdempotencyKeyError::TooLong => "Idempotency key cannot be longer than 50 chars."@,
        }
    }
}

/// Why `s` is refused as an idempotency key; `None` when it is accepted.
pub open spec fn idempotency_key_violation(s: Seq<char>) -> Option<IdempotencyKeyError> {
    if s.len() == 0 {
        Some(IdempotencyKeyError::Empty)
    } else if vstd::utf8::encode_utf8(s).len() > IDEMPOTENCY_KEY_MAX_LENGTH {
        Some(IdempotencyKeyError::TooLong)
    } else {
        None
    }
}

/// `r` is what reading `s` as an idempotency key gives.
pub open spec fn idempotency_key_result(s: Seq<char>, r: Result<IdempotencyKey, IdempotencyKeyError>) -> bool {
    match idempotency_key_violation(s) {
        Some(e) => r == Err::<IdempotencyKey, IdempotencyKeyError>(e),
        None => r matches Ok(k) && k@ == s,
    }
}

impl View for IdempotencyKey {
    type V = Seq<char>;

    closed spec fn view(&self) -> Seq<char> {
        self.0@
    }
}

impl IdempotencyKey {
    /// Accepts `value` unless it is empty or longer than 50 bytes.
    pub fn parse(value: String) -> (r: Result<IdempotencyKey, IdempotencyKeyError>)
        ensures
            idempotency_key_result(value@, r),
    {
        let text: &str = value.as_str();
        if text.is_empty() {
            return Err(IdempotencyKeyError::Empty);
        }
        if utf8_len_exceeds(text, IDEMPOTENCY_KEY_MAX_LENGTH) {
            return Err(IdempotencyKeyError::TooLong);
        }
        let key = IdempotencyKey(value);
        assert(key@ == value@);
        Ok(key)
    }

    /// The same key, holding its own copy of the text.
    pub fn into_owned(self) -> (r: IdempotencyKey)
        ensures
            r@ == self@,
    {
        IdempotencyKey(self.0)
    }

    /// The key as a string slice.
    pub fn as_str(&self) -> (r: &str)
        ensures
            r@ == self@,
    {
        self.0.as_str()
    }

    /// The key's text.
    pub fn into_string(self) -> (r: String)
        ensures
            r@ == self@,
    {
        self.0
    }

    /// A text is accepted as a key exactly when it is 1 to 50 bytes of UTF-8 long, and an
    /// accepted key keeps the text.
    pub proof fn lemma_keys_of_one_to_fifty_bytes(s: Seq<char>, r: Result<IdempotencyKey, IdempotencyKeyError>)
        requires
            idempotency_key_result(s, r),
        ensures
            r is Ok <==> 1 <= vstd::utf8::encode_utf8(s).len() <= 50,
            r matches Ok(k) ==> k@ == s,
    {
        if s.len() > 0 {
            vstd::utf8::encode_utf8_first_scalar(s);
        }
    }

    /// Every key that `parse` accepts is between 1 and 50 bytes of UTF-8 long.
    pub proof fn lemma_accepted_key_length(s: Seq<char>, r: Result<IdempotencyKey, IdempotencyKeyError>)
        requires
            idempotency_key_result(s, r),
            r is Ok,
        ensures
            1 <= vstd::utf8::encode_utf8(r->Ok_0@).len() <= IDEMPOTENCY_KEY_MAX_LENGTH,
    {
        let k = r->Ok_0;
        assert(k@ == s);
        assert(s.len() > 0);
        vstd::utf8::encode_utf8_first_scalar(s);
    }
}

impl TryFrom<String> for IdempotencyKey {
    type Error = IdempotencyKeyError;

    fn try_from(value: String) -> (r: Result<IdempotencyKey, IdempotencyKeyError>)
        ensures
            idempotency_key_result(value@, r),
    {
        IdempotencyKey::parse(value)
    }
}

impl vstd::std_specs::convert::TryFromSpecImpl<String> for IdempotencyKey {
    open spec fn obeys_try_from_spec() -> bool {
        false
    }

    open spec fn try_from_spec(v: String) -> Result<IdempotencyKey, IdempotencyKeyError> {
        match idempotency_key_violation(v@) {
            Some(e) => Err(e),
            None => Ok(choose|k: IdempotencyKey| k@ == v@),
        }
    }
}

impl TryFrom<&str> for IdempotencyKey {
    type Error = IdempotencyKeyError;

    fn try_from(value: &str) -> (r: Result<IdempotencyKey, IdempotencyKeyError>)
        ensures
            idempotency_key_result(value@, r),
    {
        IdempotencyKey::parse(value.to_owned())
    }
}

impl vstd::std_specs::convert::TryFromSpecImpl<&str> for IdempotencyKey {
    open spec fn obeys_try_from_spec() -> bool {
        false
    }

    open spec fn try_from_spec(v: &str) -> Result<IdempotencyKey, IdempotencyKeyError> {
        match idempotency_key_violation(v@) {
            Some(e) => Err(e),
            None => Ok(choose|k: IdempotencyKey| k@ == v@),
        }
    }
}

} // verus!
