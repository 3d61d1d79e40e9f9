use prop_value::virtual_dom::{VNode, VText};
use prop_value::{AttrValue, Callback, Children, IArray, IntoPropValue};
use std::cell::RefCell;
use std::rc::Rc;

#[test]
fn constant_text_converts_to_four_targets() {
    let owned: String = "foo".into_prop_value();
    let optional_owned: Option<String> = "foo".into_prop_value();
    let shared: AttrValue = "foo".into_prop_value();
    let optional_shared: Option<AttrValue> = "foo".into_prop_value();

    assert_eq!(owned, "foo");
    assert_eq!(optional_owned.as_deref(), Some("foo"));
    assert_eq!(shared.as_str(), "foo");
    assert_eq!(optional_shared.as_ref().map(|text| text.as_str()), Some("foo"));

    assert!(matches!(shared, AttrValue::Static("foo")));
    assert!(matches!(optional_shared, Some(AttrValue::Static("foo"))));
}

#[test]
fn constant_text_is_borrowed_and_not_copied() {
    let constant: &'static str = "foo";
    let shared: AttrValue = constant.into_prop_value();
    match shared {
        AttrValue::Static(text) => assert_eq!(text.as_ptr(), constant.as_ptr()),
        AttrValue::Rc(_) => panic!("a constant text is not moved to the heap"),
    }
}

#[test]
fn owned_text_becomes_shared() {
    let shared: AttrValue = String::from("foo").into_prop_value();
    assert!(matches!(shared, AttrValue::Rc(_)));
    assert_eq!(shared.as_str(), "foo");
    assert_eq!(shared, AttrValue::Static("foo"));
}

#[test]
fn shared_text_keeps_its_allocation() {
    let text: Rc<str> = Rc::from("foo");
    let shared: AttrValue = text.clone().into_prop_value();
    match shared {
        AttrValue::Rc(inner) => assert!(Rc::ptr_eq(&inner, &text)),
        AttrValue::Static(_) => panic!("a shared text is not constant"),
    }
}

#[test]
fn function_wrapped_in_callback_acts_as_the_function() {
    let direct = Rc::new(RefCell::new(Vec::<String>::new()));
    let through = Rc::new(RefCell::new(Vec::<String>::new()));

    let sink = direct.clone();
    let f = move |s: String| sink.borrow_mut().push(s);
    f(String::from("x"));

    let sink = through.clone();
    let g = move |s: String| sink.borrow_mut().push(s);
    let callback: Callback<String> = g.into_prop_value();
    callback.emit(String::from("x"));

    assert_eq!(*through.borrow(), *direct.borrow());
    assert_eq!(*through.borrow(), vec![String::from("x")]);
}

#[test]
fn optional_function_wraps_to_optional_callback() {
    let seen = Rc::new(RefCell::new(Vec::<String>::new()));
    let sink = seen.clone();
    let f = move |s: String| sink.borrow_mut().push(s);

    let present: Option<Callback<String>> = Some(f).into_prop_value();
    match present {
        Some(callback) => callback.emit(String::from("x")),
        None => panic!("a present function gives a present callback"),
    }
    assert_eq!(*seen.borrow(), vec![String::from("x")]);

    let absent: Option<Callback<String>> = None::<fn(String)>.into_prop_value();
    assert!(absent.is_none());
}

#[test]
fn bare_function_wraps_to_present_callback() {
    let twice = |s: String| format!("{s}{s}");
    let present: Option<Callback<String, String>> = twice.into_prop_value();
    match present {
        Some(callback) => assert_eq!(callback.emit(String::from("ab")), "abab"),
        None => panic!("a function gives a present callback"),
    }
}

#[test]
fn one_renderable_gives_one_child() {
    let node = VNode::VText(VText { text: AttrValue::Static("only") });
    let children: Children = node.clone().into_prop_value();
    assert_eq!(children.len(), 1);
    assert!(!children.is_empty());
    assert!(children.get(0) == Some(&node));

    let text = VText { text: AttrValue::Static("only") };
    let children: Children = text.into_prop_value();
    assert_eq!(children.len(), 1);
    assert!(children.get(0) == Some(&node));
}

#[test]
fn three_renderables_give_three_children_in_order() {
    let nodes = vec![
        VNode::VText(VText { text: AttrValue::Static("one") }),
        VNode::VText(VText { text: AttrValue::Static("two") }),
        VNode::VText(VText { text: AttrValue::Static("three") }),
    ];
    let children: Children = nodes.clone().into_prop_value();
    assert_eq!(children.len(), 3);
    for (index, node) in nodes.iter().enumerate() {
        assert!(children.get(index) == Some(node));
    }
}

#[test]
fn no_renderable_gives_no_child() {
    let children: Children = Vec::<VNode>::new().into_prop_value();
    assert_eq!(children.len(), 0);
    assert!(children.is_empty());
    assert!(children.get(0).is_none());
    assert!(Children::default().is_empty());
}

#[test]
fn owned_vector_becomes_immutable_array() {
    let array: IArray<u32> = vec![1u32, 2, 3].into_prop_value();
    assert_eq!(array.len(), 3);
    assert_eq!(array.get(0), Some(1));
    assert_eq!(array.get(1), Some(2));
    assert_eq!(array.get(2), Some(3));
    assert_eq!(array.get(3), None);
    assert_eq!(array.as_slice(), &[1, 2, 3]);

    let copy = array.clone();
    assert_eq!(copy, array);
    match (&array, &copy) {
        (IArray::Rc(left), IArray::Rc(right)) => {
            assert!(Rc::ptr_eq(left, right));
            assert_eq!(Rc::strong_count(left), 2);
        }
        _ => panic!("an owned vector is moved behind a reference count"),
    }
}
