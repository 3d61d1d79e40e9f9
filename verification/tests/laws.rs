use prop_value::into_prop_value::{lift_optional, lift_present};
use prop_value::virtual_dom::{VNode, VText};
use prop_value::{AttrValue, Callback, Children, ImplicitClone, IntoPropValue};
use std::cell::RefCell;
use std::rc::Rc;

#[derive(Clone, Debug, PartialEq)]
struct Theme {
    name: Rc<str>,
}

impl ImplicitClone for Theme {
    fn implicit_clone(&self) -> Self {
        self.clone()
    }
}

fn text_node(content: &'static str) -> VText {
    VText { text: AttrValue::Static(content) }
}

#[test]
fn identity_keeps_the_value() {
    let number: u32 = 42u32.into_prop_value();
    assert_eq!(number, 42);

    let owned: String = String::from("title").into_prop_value();
    assert_eq!(owned, "title");

    let items: Vec<u8> = vec![1u8, 2, 3].into_prop_value();
    assert_eq!(items, vec![1, 2, 3]);
}

#[test]
fn identity_moves_without_reallocating() {
    let text = String::from("a text that lives on the heap");
    let before = text.as_ptr();
    let after: String = text.into_prop_value();
    assert_eq!(after.as_ptr(), before);
}

#[test]
fn identity_on_optional_values_keeps_both_cases() {
    let present: Option<u32> = Some(7u32).into_prop_value();
    assert_eq!(present, Some(7));
    let absent: Option<u32> = None::<u32>.into_prop_value();
    assert_eq!(absent, None);
}

#[test]
fn bare_value_lifts_to_present() {
    let lifted: Option<u32> = 7u32.into_prop_value();
    assert_eq!(lifted, Some(7));

    let direct: String = "foo".into_prop_value();
    let lifted: Option<String> = "foo".into_prop_value();
    assert_eq!(lifted, Some(direct));

    let direct: AttrValue = String::from("bar").into_prop_value();
    let lifted: Option<AttrValue> = String::from("bar").into_prop_value();
    assert_eq!(lifted, Some(direct));
}

#[test]
fn absent_stays_absent() {
    let text: Option<String> = None::<&'static str>.into_prop_value();
    assert_eq!(text, None);
    let constant: Option<AttrValue> = None::<&'static str>.into_prop_value();
    assert_eq!(constant, None);
    let owned: Option<AttrValue> = None::<String>.into_prop_value();
    assert_eq!(owned, None);
    let shared: Option<AttrValue> = None::<Rc<str>>.into_prop_value();
    assert_eq!(shared, None);
}

#[test]
fn present_converts_what_it_holds() {
    let text: Option<String> = Some("foo").into_prop_value();
    assert_eq!(text, Some(String::from("foo")));

    let constant: Option<AttrValue> = Some("foo").into_prop_value();
    assert!(matches!(constant, Some(AttrValue::Static("foo"))));

    let owned: Option<AttrValue> = Some(String::from("foo")).into_prop_value();
    assert!(matches!(owned, Some(AttrValue::Rc(_))));
    assert_eq!(owned.unwrap().as_str(), "foo");

    let shared: Option<AttrValue> = Some(Rc::<str>::from("foo")).into_prop_value();
    assert!(matches!(shared, Some(AttrValue::Rc(_))));
    assert_eq!(shared.unwrap().as_str(), "foo");
}

#[test]
fn reference_gives_an_equal_value() {
    let number = 5u64;
    let copy: u64 = (&number).into_prop_value();
    assert_eq!(copy, number);

    let theme = Theme { name: Rc::from("dark") };
    let copy: Theme = (&theme).into_prop_value();
    assert_eq!(copy, theme);

    let lifted: Option<Theme> = (&theme).into_prop_value();
    assert_eq!(lifted, Some(theme));
}

#[test]
fn reference_clones_once_and_shallowly() {
    let shared: Rc<String> = Rc::new(String::from("shared"));
    assert_eq!(Rc::strong_count(&shared), 1);
    let copy: Rc<String> = (&shared).into_prop_value();
    assert_eq!(Rc::strong_count(&shared), 2);
    assert!(Rc::ptr_eq(&shared, &copy));

    let text: AttrValue = AttrValue::Rc(Rc::from("shared"));
    let copy: AttrValue = (&text).into_prop_value();
    match (&text, &copy) {
        (AttrValue::Rc(left), AttrValue::Rc(right)) => {
            assert!(Rc::ptr_eq(left, right));
            assert_eq!(Rc::strong_count(left), 2);
        }
        _ => panic!("a shared text stays shared"),
    }
}

#[test]
fn children_keep_their_number_and_order() {
    let items = vec![text_node("first"), text_node("second"), text_node("third")];
    let children: Children = items.into_prop_value();
    assert_eq!(children.len(), 3);
    assert!(children.get(0) == Some(&VNode::VText(text_node("first"))));
    assert!(children.get(1) == Some(&VNode::VText(text_node("second"))));
    assert!(children.get(2) == Some(&VNode::VText(text_node("third"))));
    assert!(children.get(3).is_none());
}

#[test]
fn each_child_is_converted_on_its_own() {
    let all: Children = vec![text_node("a"), text_node("b")].into_prop_value();
    let first: Children = vec![text_node("a")].into_prop_value();
    let second: Children = vec![text_node("b")].into_prop_value();
    assert!(all.get(0) == first.get(0));
    assert!(all.get(1) == second.get(0));
}

#[test]
fn callback_returns_what_the_function_returns() {
    let double = |x: u32| x * 2;
    let callback: Callback<u32, u32> = double.into_prop_value();
    for input in [0u32, 1, 21, 1000] {
        assert_eq!(callback.emit(input), double(input));
    }
}

#[test]
fn callback_has_the_effect_of_the_function() {
    let seen = Rc::new(RefCell::new(Vec::new()));
    let sink = seen.clone();
    let record = move |value: u32| sink.borrow_mut().push(value);
    let callback: Callback<u32> = record.into_prop_value();
    callback.emit(1);
    callback.emit(2);
    assert_eq!(*seen.borrow(), vec![1, 2]);
}

#[test]
fn lifts_apply_to_any_conversion() {
    let present: Option<AttrValue> = lift_present("foo");
    assert!(matches!(present, Some(AttrValue::Static("foo"))));

    let mapped: Option<String> = lift_optional(Some("foo"));
    assert_eq!(mapped, Some(String::from("foo")));

    let absent: Option<String> = lift_optional(None::<&'static str>);
    assert_eq!(absent, None);

    let number = 9u16;
    let cloned: Option<u16> = lift_present(&number);
    assert_eq!(cloned, Some(9));
}
