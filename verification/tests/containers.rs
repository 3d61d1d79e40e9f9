use indexmap::IndexMap;
use prop_value::{AttrValue, IArray, IMap, ImplicitClone, IntoPropValue};
use std::rc::Rc;
use std::sync::Arc;

static NUMBERS: [u32; 3] = [1, 2, 3];
static NAMES: [(u32, &str); 2] = [(1, "one"), (2, "two")];

#[test]
fn constant_slice_becomes_static_array() {
    let slice: &'static [u32] = &NUMBERS;
    let array: IArray<u32> = slice.into_prop_value();
    match array {
        IArray::Static(items) => assert_eq!(items.as_ptr(), slice.as_ptr()),
        IArray::Rc(_) => panic!("constant items are not moved to the heap"),
    }
    assert_eq!(array.len(), 3);
    assert_eq!(array.as_slice(), &[1, 2, 3]);
    assert_eq!(array.get(2), Some(3));
    assert_eq!(array.get(3), None);
}

#[test]
fn empty_vector_becomes_empty_array() {
    let array: IArray<u8> = Vec::<u8>::new().into_prop_value();
    assert!(array.is_empty());
    assert_eq!(array.len(), 0);
    assert_eq!(array.get(0), None);
    assert!(matches!(array, IArray::Rc(_)));
}

#[test]
fn array_keeps_the_order_of_the_vector() {
    let texts = vec![AttrValue::Static("a"), AttrValue::Static("b"), AttrValue::Static("c")];
    let array: IArray<AttrValue> = texts.clone().into_prop_value();
    assert_eq!(array.len(), texts.len());
    for (index, text) in texts.iter().enumerate() {
        assert_eq!(array.get(index).as_ref(), Some(text));
    }
}

#[test]
fn array_converts_by_reference() {
    let array: IArray<u32> = vec![4u32, 5].into_prop_value();
    let copy: IArray<u32> = (&array).into_prop_value();
    assert_eq!(copy, array);
    let lifted: Option<IArray<u32>> = (&array).into_prop_value();
    assert_eq!(lifted, Some(array));
}

#[test]
fn constant_entries_become_static_map() {
    let entries: &'static [(u32, &str)] = &NAMES;
    let map: IMap<u32, &str> = entries.into_prop_value();
    match map {
        IMap::Static(held) => {
            assert_eq!(held.as_ptr(), entries.as_ptr());
            assert_eq!(held, &[(1, "one"), (2, "two")]);
        }
        IMap::Rc(_) => panic!("constant entries are not moved to the heap"),
    }
}

#[test]
fn ordered_map_becomes_shared_map() {
    let mut entries: IndexMap<u32, &str> = IndexMap::new();
    entries.insert(2, "two");
    entries.insert(1, "one");
    let expected = entries.clone();

    let map: IMap<u32, &str> = entries.into_prop_value();
    match &map {
        IMap::Rc(held) => {
            assert_eq!(**held, expected);
            let order: Vec<u32> = held.keys().copied().collect();
            assert_eq!(order, vec![2, 1]);
        }
        IMap::Static(_) => panic!("an owned map is moved behind a reference count"),
    }

    let copy = map.clone();
    assert_eq!(copy, map);
    match (&map, &copy) {
        (IMap::Rc(left), IMap::Rc(right)) => assert!(Rc::ptr_eq(left, right)),
        _ => panic!("a clone shares the entries"),
    }
}

#[test]
fn copies_are_cheap_clones() {
    assert_eq!(7u8.implicit_clone(), 7);
    assert_eq!((-7i64).implicit_clone(), -7);
    assert_eq!(usize::MAX.implicit_clone(), usize::MAX);
    assert!(true.implicit_clone());
    assert_eq!('x'.implicit_clone(), 'x');
    ().implicit_clone();
    let text = "constant";
    assert_eq!((&text).implicit_clone().as_ptr(), text.as_ptr());
}

#[test]
fn optional_and_tuple_clone_their_parts() {
    assert_eq!(Some(3u32).implicit_clone(), Some(3));
    assert_eq!(None::<u32>.implicit_clone(), None);
    assert_eq!((1u8,).implicit_clone(), (1,));
    assert_eq!((1u8, 'b', true).implicit_clone(), (1, 'b', true));
    let twelve = (1u8, 2u8, 3u8, 4u8, 5u8, 6u8, 7u8, 8u8, 9u8, 10u8, 11u8, 12u8);
    assert_eq!(twelve.implicit_clone(), twelve);
}

#[test]
fn shared_handles_clone_by_count() {
    let single: Rc<str> = Rc::from("text");
    let copy = single.implicit_clone();
    assert!(Rc::ptr_eq(&single, &copy));
    assert_eq!(Rc::strong_count(&single), 2);

    let threaded: Arc<Vec<u8>> = Arc::new(vec![1, 2]);
    let copy: Arc<Vec<u8>> = (&threaded).into_prop_value();
    assert!(Arc::ptr_eq(&threaded, &copy));
    assert_eq!(Arc::strong_count(&threaded), 2);
}
