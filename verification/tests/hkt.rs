use zero2prod::hkt::{ArcHKT, RcHKT, RefHKT, SharedPointerHKT};

fn any_shared_ptr_test<P: SharedPointerHKT<Box<str>>>() {
    let a = P::new(Box::<str>::from("Hello World!")).inner();
    let b = P::clone(&a);
    assert_eq!(&**P::deref(b.inner_ref()), "Hello World!");
}

#[test]
fn arc_test() {
    any_shared_ptr_test::<ArcHKT>();
    any_shared_ptr_test::<RcHKT>();
}

#[test]
fn an_unsized_pointee_comes_back_as_the_same_pointer() {
    let text: std::rc::Rc<str> = std::rc::Rc::from("shared text");
    let alias = text.clone();
    let back = zero2prod::hkt::K1::<RcHKT, str>::newtype(text).inner();
    assert!(std::rc::Rc::ptr_eq(&back, &alias));
    assert_eq!(std::rc::Rc::strong_count(&alias), 2);
    let bytes: std::sync::Arc<[u8]> = std::sync::Arc::from(vec![1u8, 2, 3]);
    let same = bytes.clone();
    let back = zero2prod::hkt::newtype::<ArcHKT, [u8]>(bytes).inner();
    assert!(std::sync::Arc::ptr_eq(&back, &same));
}
