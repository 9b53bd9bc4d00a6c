use gg_sdk::{Kv, KvMap, List, Object, UnpackedObject, UnpackedObjectMut};

fn same(a: &Object, b: &Object) -> bool {
    match (a.unpack(), b.unpack()) {
        (UnpackedObject::Null, UnpackedObject::Null) => true,
        (UnpackedObject::Bool(x), UnpackedObject::Bool(y)) => x == y,
        (UnpackedObject::I64(x), UnpackedObject::I64(y)) => x == y,
        (UnpackedObject::F64(x), UnpackedObject::F64(y)) => x == y,
        (UnpackedObject::Buf(x), UnpackedObject::Buf(y)) => x == y,
        (UnpackedObject::List(x), UnpackedObject::List(y)) => {
            x.len() == y.len() && x.0.iter().zip(y.0.iter()).all(|(p, q)| same(p, q))
        }
        (UnpackedObject::KvMap(x), UnpackedObject::KvMap(y)) => {
            x.len() == y.len()
                && x.0.iter().zip(y.0.iter()).all(|(p, q)| p.key() == q.key() && same(p.val(), q.val()))
        }
        _ => false,
    }
}

fn nested() -> Object {
    let texts = vec![Object::buf("alpha"), Object::buf("beta"), Object::buf("")];
    Object::map(vec![
        Kv::new("names", Object::list(texts)),
        Kv::new("count", Object::i64(3)),
        Kv::new("on", Object::bool(true)),
    ])
}

#[test]
fn bool_unpacks_to_same_bool() {
    assert!(matches!(Object::bool(false).unpack(), UnpackedObject::Bool(false)));
    assert!(matches!(Object::bool(true).unpack(), UnpackedObject::Bool(true)));
}

#[test]
fn i64_unpacks_to_same_integer() {
    assert!(matches!(Object::i64(42).unpack(), UnpackedObject::I64(42)));
    assert!(matches!(Object::i64(i64::MIN).unpack(), UnpackedObject::I64(i64::MIN)));
    assert!(matches!(Object::i64(i64::MAX).unpack(), UnpackedObject::I64(i64::MAX)));
    assert!(matches!(Object::i64(-7).unpack(), UnpackedObject::I64(-7)));
}

#[test]
fn f64_unpacks_to_same_bits() {
    let f = 72.5f64;
    match Object::f64_bits(f.to_bits()).unpack() {
        UnpackedObject::F64(bits) => assert_eq!(f64::from_bits(bits), 72.5),
        _ => panic!("wrong variant"),
    }
    let nan = f64::NAN.to_bits();
    assert!(matches!(Object::f64_bits(nan).unpack(), UnpackedObject::F64(b) if b == nan));
}

#[test]
fn buf_unpacks_to_same_text() {
    assert!(matches!(Object::buf("borrowed").unpack(), UnpackedObject::Buf("borrowed")));
    assert!(matches!(Object::buf("").unpack(), UnpackedObject::Buf("")));
    assert!(matches!(Object::buf("h\u{e9}llo \u{1f600}").unpack(), UnpackedObject::Buf("h\u{e9}llo \u{1f600}")));
}

#[test]
fn null_and_default_unpack_to_null() {
    assert!(matches!(Object::Null.unpack(), UnpackedObject::Null));
    assert!(matches!(Object::default().unpack(), UnpackedObject::Null));
}

#[test]
fn list_unpacks_to_its_items() {
    let obj = Object::list(vec![Object::i64(1), Object::buf("two")]);
    match obj.unpack() {
        UnpackedObject::List(items) => {
            assert_eq!(items.len(), 2);
            assert!(matches!(items.0[0].unpack(), UnpackedObject::I64(1)));
            assert!(matches!(items.0[1].unpack(), UnpackedObject::Buf("two")));
        }
        _ => panic!("wrong variant"),
    }
}

#[test]
fn map_unpacks_to_its_pairs() {
    let obj = Object::map(vec![Kv::new("key", Object::bool(true))]);
    match obj.unpack() {
        UnpackedObject::KvMap(pairs) => {
            assert_eq!(pairs.len(), 1);
            assert_eq!(pairs.0[0].key(), "key");
            assert!(matches!(pairs.0[0].val().unpack(), UnpackedObject::Bool(true)));
        }
        _ => panic!("wrong variant"),
    }
}

#[test]
fn kv_new_keeps_key_and_value() {
    let kv = Kv::new("key", Object::i64(10));
    assert_eq!(kv.key(), "key");
    assert!(matches!(kv.val().unpack(), UnpackedObject::I64(10)));
}

#[test]
fn map_get_finds_value_by_key() {
    let pairs = [Kv::new("a", Object::i64(1)), Kv::new("b", Object::i64(2))];
    let map = KvMap(&pairs[..]);
    let val = map.get("b").unwrap();
    assert!(matches!(val.unpack(), UnpackedObject::I64(2)));
    assert!(matches!(map.get("a").unwrap().unpack(), UnpackedObject::I64(1)));
}

#[test]
fn map_get_missing_key_is_none() {
    let pairs = [Kv::new("a", Object::i64(1)), Kv::new("b", Object::i64(2))];
    let map = KvMap(&pairs[..]);
    assert!(map.get("c").is_none());
    assert!(map.get("").is_none());
    assert!(map.get("ab").is_none());
    let empty: [Kv; 0] = [];
    assert!(KvMap(&empty[..]).get("a").is_none());
}

#[test]
fn map_get_returns_first_of_equal_keys() {
    let pairs = [
        Kv::new("k", Object::i64(1)),
        Kv::new("x", Object::i64(5)),
        Kv::new("k", Object::i64(2)),
    ];
    let map = KvMap(&pairs[..]);
    assert!(matches!(map.get("k").unwrap().unpack(), UnpackedObject::I64(1)));
}

#[test]
fn owned_copy_of_nested_view_unpacks_equal() {
    let original = nested();
    let view = original.unpack();
    let owned = view.to_owned();
    assert!(same(&owned, &original));
    match owned.unpack() {
        UnpackedObject::KvMap(pairs) => {
            assert_eq!(pairs.len(), 3);
            match pairs.get("names").unwrap().unpack() {
                UnpackedObject::List(items) => {
                    assert_eq!(items.len(), 3);
                    assert!(matches!(items.0[0].unpack(), UnpackedObject::Buf("alpha")));
                    assert!(matches!(items.0[1].unpack(), UnpackedObject::Buf("beta")));
                    assert!(matches!(items.0[2].unpack(), UnpackedObject::Buf("")));
                }
                _ => panic!("wrong variant"),
            }
        }
        _ => panic!("wrong variant"),
    }
}

#[test]
fn deep_copy_is_independent_of_original() {
    let original = nested();
    let mut copy = original.to_owned();
    if let Object::KvMap(pairs) = &mut copy {
        *pairs[1].val_mut() = Object::i64(99);
        pairs[0].set_key("renamed");
    }
    assert!(!same(&copy, &original));
    match original.unpack() {
        UnpackedObject::KvMap(pairs) => {
            assert!(matches!(pairs.get("count").unwrap().unpack(), UnpackedObject::I64(3)));
            assert!(pairs.get("renamed").is_none());
        }
        _ => panic!("wrong variant"),
    }
    match copy.unpack() {
        UnpackedObject::KvMap(pairs) => {
            assert!(matches!(pairs.get("count").unwrap().unpack(), UnpackedObject::I64(99)));
            assert!(pairs.get("renamed").is_some());
            assert!(pairs.get("names").is_none());
        }
        _ => panic!("wrong variant"),
    }
}

#[test]
fn kv_set_key_keeps_value() {
    let mut kv = Kv::new("old", Object::buf("v"));
    kv.set_key("new");
    assert_eq!(kv.key(), "new");
    assert!(matches!(kv.val().unpack(), UnpackedObject::Buf("v")));
    let copy = kv.to_owned();
    assert_eq!(copy.key(), "new");
}

#[test]
fn owned_list_of_texts_survives_copy_and_drop_cycles() {
    let list = Object::list(vec![Object::buf("one"), Object::buf("two"), Object::buf("three")]);
    let mut current = list.to_owned();
    for _ in 0..100 {
        let next = current.to_owned();
        drop(current);
        current = next;
    }
    assert!(same(&current, &list));
    drop(list);
    match current.unpack() {
        UnpackedObject::List(items) => assert_eq!(items.len(), 3),
        _ => panic!("wrong variant"),
    }
}

#[test]
fn unpack_mut_replaces_payload_in_place() {
    let mut n = Object::i64(3);
    if let UnpackedObjectMut::I64(v) = n.unpack_mut() {
        *v = 5;
    }
    assert!(matches!(n.unpack(), UnpackedObject::I64(5)));

    let mut list = Object::list(vec![Object::buf("a"), Object::buf("b")]);
    if let UnpackedObjectMut::List(items) = list.unpack_mut() {
        items[1] = Object::bool(true);
        items.push(Object::Null);
    }
    match list.unpack() {
        UnpackedObject::List(items) => {
            assert_eq!(items.len(), 3);
            assert!(matches!(items.0[0].unpack(), UnpackedObject::Buf("a")));
            assert!(matches!(items.0[1].unpack(), UnpackedObject::Bool(true)));
            assert!(matches!(items.0[2].unpack(), UnpackedObject::Null));
        }
        _ => panic!("wrong variant"),
    }

    let mut text = Object::buf("x");
    if let UnpackedObjectMut::Buf(s) = text.unpack_mut() {
        s.push_str("yz");
    }
    assert!(matches!(text.unpack(), UnpackedObject::Buf("xyz")));
    assert!(matches!(Object::Null.unpack_mut(), UnpackedObjectMut::Null));
}

#[test]
fn mutable_view_copies_to_equal_owned_tree() {
    let mut original = nested();
    let copy = original.unpack_mut().to_owned();
    assert!(same(&copy, &original));
    let mut flag = Object::bool(false);
    let copied_flag = flag.unpack_mut().to_owned();
    assert!(matches!(copied_flag.unpack(), UnpackedObject::Bool(false)));
}

#[test]
fn conversions_build_matching_values() {
    assert!(matches!(Object::from(true).unpack(), UnpackedObject::Bool(true)));
    assert!(matches!(Object::from(-3i64).unpack(), UnpackedObject::I64(-3)));
    let list = Object::from(vec![Object::i64(1)]);
    assert!(matches!(list.unpack(), UnpackedObject::List(l) if l.len() == 1));
    let map = Object::from(vec![Kv::new("k", Object::Null)]);
    assert!(matches!(map.unpack(), UnpackedObject::KvMap(m) if m.len() == 1));
    let pairs = [Kv::new("a", Object::i64(1)), Kv::new("b", Object::i64(2))];
    let view: KvMap = pairs.as_slice().into();
    assert!(matches!(view.get("b").unwrap().unpack(), UnpackedObject::I64(2)));
    let items = [Object::i64(1), Object::i64(2)];
    let lview: List = items.as_slice().into();
    assert_eq!(lview.len(), 2);
}
