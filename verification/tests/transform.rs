//! Mapping a container.

use variant_data::VariantData;

#[test]
fn map_keeps_variant_and_length() {
    let positional = VariantData::Tuple(vec![1, 2, 3]).map(|x| x * 10);
    assert_eq!(positional, VariantData::Tuple(vec![10, 20, 30]));
    let named = VariantData::Struct(vec!["a", "bc"]).map(|s| s.len());
    assert_eq!(named, VariantData::Struct(vec![1, 2]));
}

#[test]
fn map_of_unit_is_unit_and_never_calls() {
    let mut calls = 0;
    let unit: VariantData<u8> = VariantData::Unit;
    let out = unit.map(|x| {
        calls += 1;
        x
    });
    assert_eq!(out, VariantData::Unit);
    assert_eq!(calls, 0);
}

#[test]
fn map_of_an_empty_shell_keeps_it() {
    let positional: VariantData<u8> = VariantData::Tuple(vec![]);
    assert_eq!(positional.map(|x| x.to_string()), VariantData::Tuple(vec![]));
    let named: VariantData<u8> = VariantData::Struct(vec![]);
    let mapped = named.map(|x| x.to_string());
    assert_eq!(mapped, VariantData::Struct(vec![]));
    assert_ne!(mapped, VariantData::Unit);
}

#[test]
fn map_changes_the_payload_type() {
    let out: VariantData<String> = VariantData::Struct(vec![1u8, 22, 133]).map(|x| x.to_string());
    assert_eq!(
        out,
        VariantData::Struct(vec!["1".to_string(), "22".to_string(), "133".to_string()])
    );
}

#[test]
fn map_calls_once_per_field_from_the_first_on() {
    let mut seen = Vec::new();
    let out = VariantData::Tuple(vec!['a', 'b', 'c']).map(|c| {
        seen.push(c);
        seen.len()
    });
    assert_eq!(out, VariantData::Tuple(vec![1, 2, 3]));
    assert_eq!(seen, vec!['a', 'b', 'c']);
}

#[test]
fn map_moves_each_field_into_the_function() {
    let data = VariantData::Struct(vec![String::from("left"), String::from("right")]);
    let out = data.map(|mut owned| {
        owned.push('!');
        owned
    });
    assert_eq!(
        out,
        VariantData::Struct(vec!["left!".to_string(), "right!".to_string()])
    );
}

#[test]
fn map_twice_is_map_of_the_composition() {
    let f = |x: i64| x + 3;
    let g = |y: i64| y * y;
    let data = VariantData::Tuple(vec![-4, 0, 5]);
    let twice = data.clone().map(f).map(g);
    let once = data.map(|x| g(f(x)));
    assert_eq!(twice, once);
    assert_eq!(once, VariantData::Tuple(vec![1, 9, 64]));
    let unit: VariantData<i64> = VariantData::Unit;
    assert_eq!(unit.clone().map(f).map(g), unit.map(|x| g(f(x))));
}

#[test]
fn map_with_the_identity_gives_the_container_back() {
    let data = VariantData::Struct(vec![3, 1, 2]);
    assert_eq!(data.clone().map(|x| x), data);
}

#[test]
fn map_takes_a_named_function() {
    fn double(x: u16) -> u32 {
        u32::from(x) * 2
    }
    assert_eq!(
        VariantData::Tuple(vec![1u16, 40000]).map(double),
        VariantData::Tuple(vec![2u32, 80000])
    );
}
