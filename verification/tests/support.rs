use std::marker::PhantomData;
use std::sync::Arc;

use zero2prod::de::{combine_fields, key_step, KeyStep, Model, Semigroup, Validation};
use zero2prod::email_client::EmailClient;
use zero2prod::hkt::{from_str, from_string, ArcHKT, K1};
use zero2prod::domain::SubscriberEmail;
use zero2prod::session_state::{admin_access, required_user_id, AdminAccess, RequiredUserIdError};
use zero2prod::services::{DefaultUuidGenerator, UuidGenerator};
use zero2prod::tuples::{Lift, LiftFunctor, Lifter, LifterMut, ThinDataHKT, TupleMap9};
use zero2prod::utils::{unpack_result_to_result_tuple, unpack_result_to_some_tuple, Pipe};

struct Pair {
    name: String,
    count: u32,
}

impl Model<String, u32> for Pair {
    fn new(a: String, b: u32) -> Self {
        Pair { name: a, count: b }
    }

    const FIELD_NAMES: &'static [&'static str] = &["name", "count"];
}

#[derive(Debug, PartialEq)]
struct Errors(Vec<String>);

impl Semigroup for Errors {
    fn append(mut self, mut other: Self) -> Self {
        self.0.append(&mut other.0);
        self
    }
}

#[test]
fn keys_are_dispatched_to_their_field() {
    assert_eq!(key_step::<Pair, String, u32>("name", false, false), KeyStep::ReadFirst);
    assert_eq!(key_step::<Pair, String, u32>("name", true, false), KeyStep::FirstAgain);
    assert_eq!(key_step::<Pair, String, u32>("count", false, false), KeyStep::ReadSecond);
    assert_eq!(key_step::<Pair, String, u32>("count", false, true), KeyStep::SecondAgain);
    assert_eq!(key_step::<Pair, String, u32>("other", false, false), KeyStep::Unknown);
}

#[test]
fn both_fields_make_the_record_and_both_errors_are_kept() {
    let ok = combine_fields::<Pair, String, u32, Errors>(Ok("n".to_string()), Ok(3)).ok().unwrap();
    assert_eq!(ok.0.name, "n");
    assert_eq!(ok.0.count, 3);
    let both = combine_fields::<Pair, String, u32, Errors>(Err(Errors(vec!["a".into()])), Err(Errors(vec!["b".into()])));
    assert_eq!(both.err().unwrap(), Errors(vec!["a".into(), "b".into()]));
    let second = combine_fields::<Pair, String, u32, Errors>(Ok("n".to_string()), Err(Errors(vec!["b".into()])));
    assert_eq!(second.err().unwrap(), Errors(vec!["b".into()]));
    let _ = PhantomData::<Pair>;
}

#[test]
fn validation_maps_and_applies() {
    let v: Validation<u32, Errors> = Validation::pure(2);
    assert_eq!(v.fmap(|x| x * 10).into_result().ok(), Some(20));
    let f: Validation<fn(u32) -> u32, Errors> = Validation::from(Ok((|x| x + 1) as fn(u32) -> u32));
    assert_eq!(f.apply(Validation::from(Ok(4))).into_result().ok(), Some(5));
}

struct Doubler;

impl Lifter<u32> for Doubler {
    type T = u64;
    fn lift(&self, t: u32) -> u64 {
        2 * t as u64
    }
}

impl Lifter<&'static str> for Doubler {
    type T = String;
    fn lift(&self, t: &'static str) -> String {
        format!("{t}{t}")
    }
}

#[test]
fn tuples_are_mapped_element_by_element() {
    let mapped = (21u32, ("ab", ())).lift_map(&Doubler);
    assert_eq!(mapped, (42u64, ("abab".to_string(), ())));
    let nine = (1u32, 2u32, 3u32, 4u32, 5u32, 6u32, 7u32, 8u32, "x").map(&Doubler);
    assert_eq!(nine, (2, 4, 6, 8, 10, 12, 14, 16, "xx".to_string()));
}

#[test]
fn the_email_request_posts_to_the_email_endpoint() {
    let sender = SubscriberEmail::<ArcHKT>::try_from("sender@domain.com").ok().unwrap();
    let client = EmailClient::<ArcHKT>::new(from_str("http://mail.example"), sender, from_str("secret"), std::time::Duration::from_secs(1))
        .ok()
        .unwrap();
    let recipient = SubscriberEmail::<ArcHKT>::try_from("ursula@domain.com").ok().unwrap();
    let request = client.clone().email_request(recipient, from_str("Subject"), from_string("<p>h</p>".to_string()), from_str("t"));
    assert_eq!(request.url, "http://mail.example/email");
    assert_eq!(&*request.authorization_token, "secret");
    assert_eq!(&*request.body.from, "http://mail.example");
    assert_eq!(&*request.body.to, "ursula@domain.com");
    assert_eq!(&*request.body.subject, "Subject");
    assert_eq!(&*request.body.html_body, "<p>h</p>");
}

#[test]
fn only_logged_in_writers_reach_the_admin_area() {
    let id = uuid::Uuid::from_u128(3);
    assert!(matches!(required_user_id(Ok(Some(id))), Ok(u) if u == id));
    let missing = required_user_id(Ok(None)).err().unwrap();
    assert_eq!(missing.message(), Some("User has not logged in."));
    assert!(matches!(admin_access(Ok(id)), AdminAccess::Allowed(u) if u.0 == id));
    assert!(matches!(admin_access(Err(RequiredUserIdError::NotLoggedIn)), AdminAccess::RedirectToLogin(_)));
    assert!(matches!(required_user_id(Err(eyre::Report::msg("bad cookie"))), Err(RequiredUserIdError::Session(_))));
}

#[test]
fn results_unpack_into_their_parts() {
    assert_eq!(unpack_result_to_some_tuple::<u8, &str>(Ok(1)), (Some(1), None));
    assert_eq!(unpack_result_to_some_tuple::<u8, &str>(Err("e")), (None, Some("e")));
    assert_eq!(unpack_result_to_result_tuple::<u8, &str>(Ok(1)), (Ok(1), Ok(())));
    assert_eq!(unpack_result_to_result_tuple::<u8, &str>(Err("e")), (Err(()), Err("e")));
    assert_eq!(3.pipe(|x| x + 1), 4);
    assert_eq!("ab".to_string().pipe_ref(|s| s.len()), 2);
    let k: K1<ArcHKT, str> = K1::newtype(Arc::<str>::from("x"));
    assert_eq!(&**k.ref_cast(), "x");
}

#[test]
fn thin_data_wraps_the_value() {
    let wrapped = <ThinDataHKT as Lift<u32>>::lift(5);
    assert_eq!(wrapped.0, 5);
}

#[test]
fn generated_uuids_are_fresh_version_four_ids() {
    let a = DefaultUuidGenerator.generate_uuid();
    let b = DefaultUuidGenerator.generate_uuid();
    assert_ne!(a, b);
    assert_eq!(a.get_version_num(), 4);
}

struct Counter {
    seen: u32,
}

impl LifterMut<u32> for Counter {
    type T = (u32, u32);
    fn lift(&mut self, t: u32) -> (u32, u32) {
        self.seen += 1;
        (self.seen, t)
    }
}

impl LifterMut<&'static str> for Counter {
    type T = String;
    fn lift(&mut self, t: &'static str) -> String {
        self.seen += 1;
        format!("{}:{t}", self.seen)
    }
}

#[test]
fn a_stateful_lifter_maps_the_elements_in_order() {
    let mut counter = Counter { seen: 0 };
    let mapped = (10u32, 20u32, 30u32, 40u32, 50u32, 60u32, 70u32, 80u32, "last").map_mut(&mut counter);
    assert_eq!(mapped.0, (1, 10));
    assert_eq!(mapped.4, (5, 50));
    assert_eq!(mapped.7, (8, 80));
    assert_eq!(mapped.8, "9:last");
    assert_eq!(counter.seen, 9);
}
