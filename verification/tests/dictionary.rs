use http_util::dictionary::get_or_default;
use std::collections::HashMap;

#[derive(Debug, Clone, PartialEq, Default)]
struct Fruit {
    name: String,
    quantity: usize,
}

#[test]
fn test_get_or_default_existing_key() {
    let mut map = HashMap::new();
    map.insert("apple", 3);
    let count = get_or_default(&map, "apple");
    assert_eq!(count, 3, "Should return the value for existing key.");
}

#[test]
fn test_get_or_default_non_existing_key() {
    let mut map = HashMap::new();
    map.insert("apple", 3);
    let count = get_or_default(&map, "orange");
    assert_eq!(
        count, 0,
        "Should return the default value for non-existing key."
    );
}

#[test]
fn test_get_or_default_with_custom_type() {
    let mut map = HashMap::new();
    map.insert(
        "apple",
        Fruit {
            name: "Apple".to_string(),
            quantity: 10,
        },
    );

    let result = get_or_default(&map, "apple");
    assert_eq!(
        result,
        Fruit {
            name: "Apple".to_string(),
            quantity: 10
        },
        "Should return the correct fruit object."
    );

    let default_fruit = get_or_default(&map, "banana");
    assert_eq!(
        default_fruit,
        Fruit::default(),
        "Should return the default fruit object."
    );
}

#[test]
fn integer_keys_and_text_values() {
    let mut map: HashMap<u64, String> = HashMap::new();
    map.insert(7, "seven".to_string());
    assert_eq!(get_or_default(&map, 7), "seven");
    assert_eq!(get_or_default(&map, 8), "");
}

#[test]
fn empty_map_gives_the_default() {
    let map: HashMap<u64, Vec<u8>> = HashMap::new();
    assert_eq!(get_or_default(&map, 0), Vec::<u8>::new());
}

#[test]
fn the_map_is_left_as_it_was() {
    let mut map: HashMap<u64, i32> = HashMap::new();
    map.insert(1, -1);
    assert_eq!(get_or_default(&map, 2), 0);
    assert_eq!(map.len(), 1);
    assert_eq!(map.get(&2), None);
}
