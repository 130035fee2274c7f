//! Reading the fields of a container.

use std::cell::Cell;

use variant_data::VariantData;

#[test]
fn fields_of_unit_is_empty() {
    let unit: VariantData<String> = VariantData::Unit;
    assert_eq!(unit.fields(), Vec::<&String>::new());
}

#[test]
fn fields_of_empty_shells_is_empty() {
    let positional: VariantData<u8> = VariantData::Tuple(vec![]);
    let named: VariantData<u8> = VariantData::Struct(vec![]);
    assert!(positional.fields().is_empty());
    assert!(named.fields().is_empty());
}

#[test]
fn fields_keeps_count_and_order() {
    let positional = VariantData::Tuple(vec![10, 20, 30]);
    assert_eq!(positional.fields(), vec![&10, &20, &30]);
    let named = VariantData::Struct(vec!["x", "y"]);
    assert_eq!(named.fields(), vec![&"x", &"y"]);
}

#[test]
fn fields_reads_the_same_from_both_shapes() {
    let positional = VariantData::Tuple(vec![1u8, 2, 3]);
    let named = VariantData::Struct(vec![1u8, 2, 3]);
    assert_eq!(positional.fields(), named.fields());
    assert_ne!(positional, named);
}

#[test]
fn fields_borrows_and_does_not_copy() {
    let data = VariantData::Struct(vec![String::from("a"), String::from("b")]);
    let stored = match data {
        VariantData::Struct(ref items) => items,
        _ => unreachable!(),
    };
    let fields = data.fields();
    assert_eq!(fields.len(), 2);
    assert!(std::ptr::eq(fields[0], &stored[0]));
    assert!(std::ptr::eq(fields[1], &stored[1]));
}

#[test]
fn fields_leaves_the_container_as_it_was() {
    let data = VariantData::Tuple(vec![1, 2, 3]);
    let before = data.clone();
    let count = data.fields().len();
    assert_eq!(count, 3);
    assert_eq!(data, before);
}

#[test]
fn as_ref_keeps_variant_and_order() {
    let positional = VariantData::Tuple(vec![7, 8, 9]);
    assert_eq!(positional.as_ref(), VariantData::Tuple(vec![&7, &8, &9]));
    let named = VariantData::Struct(vec!['p', 'q']);
    assert_eq!(named.as_ref(), VariantData::Struct(vec![&'p', &'q']));
    let unit: VariantData<char> = VariantData::Unit;
    assert_eq!(unit.as_ref(), VariantData::Unit);
}

#[test]
fn as_ref_of_an_empty_shell_is_not_unit() {
    let positional: VariantData<u8> = VariantData::Tuple(vec![]);
    assert_eq!(positional.as_ref(), VariantData::Tuple(vec![]));
    assert_ne!(positional.as_ref(), VariantData::Unit);
}

#[test]
fn as_ref_borrows_and_does_not_copy() {
    let data = VariantData::Tuple(vec![String::from("a"), String::from("b")]);
    let stored = match data {
        VariantData::Tuple(ref items) => items,
        _ => unreachable!(),
    };
    match data.as_ref() {
        VariantData::Tuple(borrowed) => {
            assert_eq!(borrowed.len(), 2);
            assert!(std::ptr::eq(borrowed[0], &stored[0]));
            assert!(std::ptr::eq(borrowed[1], &stored[1]));
        }
        _ => panic!("the variant changed"),
    }
}

#[test]
fn as_ref_sees_a_change_of_what_it_refers_to() {
    let data = VariantData::Struct(vec![Cell::new(1), Cell::new(2)]);
    let borrowed = data.as_ref();
    if let VariantData::Struct(ref items) = data {
        items[1].set(20);
    }
    let seen: Vec<i32> = borrowed.fields().iter().map(|cell| cell.get()).collect();
    assert_eq!(seen, vec![1, 20]);
}

#[test]
fn as_ref_then_fields_is_fields() {
    let data = VariantData::Struct(vec![5u32, 6, 7]);
    let through: Vec<u32> = data.as_ref().fields().iter().map(|item| ***item).collect();
    let direct: Vec<u32> = data.fields().iter().map(|item| **item).collect();
    assert_eq!(through, direct);
    assert_eq!(direct, vec![5, 6, 7]);
}

#[test]
fn as_ref_then_map_leaves_the_container_usable() {
    let data = VariantData::Tuple(vec![String::from("ab"), String::from("cde")]);
    let lengths = data.as_ref().map(|item| item.len());
    assert_eq!(lengths, VariantData::Tuple(vec![2, 3]));
    assert_eq!(data.fields().len(), 2);
}

#[test]
fn equality_tells_the_three_shapes_apart() {
    let positional = VariantData::Tuple(vec![1]);
    let named = VariantData::Struct(vec![1]);
    let unit: VariantData<i32> = VariantData::Unit;
    assert_ne!(positional, named);
    assert_ne!(positional, unit);
    assert_ne!(named, unit);
    assert_eq!(positional.clone(), positional);
    assert_ne!(VariantData::Tuple(vec![1, 2]), VariantData::Tuple(vec![2, 1]));
}

#[test]
fn debug_names_the_variant() {
    assert_eq!(format!("{:?}", VariantData::Tuple(vec![1, 2])), "Tuple([1, 2])");
    assert_eq!(format!("{:?}", VariantData::Struct(vec!['a'])), "Struct(['a'])");
    let unit: VariantData<u8> = VariantData::Unit;
    assert_eq!(format!("{:?}", unit), "Unit");
}
