use scriptful::item::Item;
use scriptful::item::Item::{Operator, Value};
use scriptful::value::Value::Integer;

#[test]
fn test_eq() {
    let op_item1: Item<u8> = Operator(u8::default());
    let op_item2: Item<u8> = Operator(u8::default());

    assert_eq!(op_item1, op_item2);

    let val_item1: Item<u8> = Value(Integer(i128::default()));
    let val_item2: Item<u8> = Value(Integer(i128::default()));

    assert_eq!(val_item1, val_item2);
}

#[test]
fn test_ne() {
    let op_item1: Item<u8> = Operator(u8::default());
    let op_item2: Item<u8> = Operator(u8::default() + 1);

    assert_ne!(op_item1, op_item2);

    let val_item1: Item<u8> = Value(Integer(i128::default()));
    let val_item2: Item<u8> = Value(Integer(i128::default() + 1));

    assert_ne!(val_item1, val_item2);

    assert_ne!(op_item1, val_item1);
    assert_ne!(op_item1, val_item2);
    assert_ne!(op_item2, val_item1);
    assert_ne!(op_item2, val_item2);
}
