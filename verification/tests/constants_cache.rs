use global_state::constants::ConstantsMap;
use global_state::constants::GlobalConstants;
use global_state::dynamic::Dynamic;

fn names(table: &ConstantsMap) -> Vec<String> {
    table.list().iter().map(|item| item.0.clone()).collect()
}

#[test]
fn empty_table_holds_nothing() {
    let table = ConstantsMap::new();
    assert_eq!(table.len(), 0);
    assert_eq!(table.get("X"), None);
    assert!(table.list().is_empty());
}

#[test]
fn table_hands_back_what_was_stored() {
    let mut table = ConstantsMap::new();
    assert_eq!(table.insert(String::from("X"), Dynamic::Int(1)), None);
    assert_eq!(table.insert(String::from("Y"), Dynamic::Bool(true)), None);
    assert_eq!(table.len(), 2);
    assert_eq!(table.get("X"), Some(&Dynamic::Int(1)));
    assert_eq!(table.get("Y"), Some(&Dynamic::Bool(true)));
    assert_eq!(table.get("Z"), None);
    assert_eq!(table.get(""), None);
    assert_eq!(table.get("x"), None);
}

#[test]
fn storing_again_replaces_the_value() {
    let mut table = ConstantsMap::new();
    table.insert(String::from("X"), Dynamic::Int(1));
    table.insert(String::from("A"), Dynamic::Int(0));
    assert_eq!(table.insert(String::from("X"), Dynamic::Int(2)), Some(Dynamic::Int(1)));
    assert_eq!(table.len(), 2);
    assert_eq!(table.get("X"), Some(&Dynamic::Int(2)));
    assert_eq!(table.get("A"), Some(&Dynamic::Int(0)));
}

#[test]
fn table_lists_in_the_order_of_names() {
    let mut table = ConstantsMap::new();
    for name in ["delta", "alpha", "charlie", "bravo", "echo", "alph", "alphab", "", "Zulu", "é"] {
        table.insert(String::from(name), Dynamic::Str(String::from(name)));
    }
    let listed = names(&table);
    let mut sorted = listed.clone();
    sorted.sort();
    assert_eq!(listed, sorted);
    assert_eq!(
        listed,
        vec!["", "Zulu", "alph", "alpha", "alphab", "bravo", "charlie", "delta", "echo", "é"]
    );
    for item in table.list() {
        assert_eq!(item.1, &Dynamic::Str(item.0.clone()));
        assert_eq!(table.get(item.0), Some(item.1));
    }
}

#[test]
fn table_finds_every_name_among_many() {
    let mut table = ConstantsMap::new();
    for i in 0..200i64 {
        let name = format!("K{}", (i * 37) % 200);
        table.insert(name, Dynamic::Int((i * 37) % 200));
    }
    assert_eq!(table.len(), 200);
    for i in 0..200i64 {
        assert_eq!(table.get(&format!("K{}", i)), Some(&Dynamic::Int(i)));
    }
    assert_eq!(table.get("K200"), None);
    let listed = names(&table);
    let mut sorted = listed.clone();
    sorted.sort();
    assert_eq!(listed, sorted);
}

#[test]
fn cache_starts_empty() {
    let cache = GlobalConstants::new();
    assert_eq!(cache.get("X"), None);
    assert!(cache.snapshot().is_empty());
}

#[test]
fn cache_is_shared_between_handles() {
    let cache = GlobalConstants::new();
    let other = cache.clone();
    assert_eq!(other.insert(String::from("X"), Dynamic::Int(1)), None);
    assert_eq!(cache.get("X"), Some(Dynamic::Int(1)));
    assert_eq!(cache.insert(String::from("X"), Dynamic::Int(2)), Some(Dynamic::Int(1)));
    assert_eq!(other.get("X"), Some(Dynamic::Int(2)));
    cache.insert(String::from("A"), Dynamic::Unit);
    assert_eq!(
        other.snapshot(),
        vec![(String::from("A"), Dynamic::Unit), (String::from("X"), Dynamic::Int(2))]
    );
}

#[test]
fn separate_caches_are_separate() {
    let one = GlobalConstants::new();
    let two = GlobalConstants::new();
    one.insert(String::from("X"), Dynamic::Int(1));
    assert_eq!(two.get("X"), None);
}

#[test]
fn cache_outlives_the_handle_that_made_it() {
    let other;
    {
        let cache = GlobalConstants::new();
        cache.insert(String::from("X"), Dynamic::Int(1));
        other = cache.clone();
    }
    assert_eq!(other.get("X"), Some(Dynamic::Int(1)));
}

fn shared_between_threads<T: Send + Sync>(_value: &T) -> bool {
    true
}

#[test]
fn cache_may_be_handed_to_another_thread() {
    let cache = GlobalConstants::new();
    assert!(shared_between_threads(&cache));
}

#[test]
fn table_hands_out_copies_of_values() {
    let mut table = ConstantsMap::new();
    assert_eq!(table.value_of("X"), None);
    table.insert(String::from("X"), Dynamic::Str(String::from("text")));
    table.insert(String::from("N"), Dynamic::Int(-3));
    assert_eq!(table.value_of("X"), Some(Dynamic::Str(String::from("text"))));
    assert_eq!(table.value_of("N"), Some(Dynamic::Int(-3)));
    assert_eq!(table.value_of("Y"), None);
    assert_eq!(table.get("X"), Some(&Dynamic::Str(String::from("text"))));
}

#[test]
fn table_copies_its_listing_in_the_order_of_names() {
    let mut table = ConstantsMap::new();
    assert!(table.to_vec().is_empty());
    table.insert(String::from("b"), Dynamic::Bool(false));
    table.insert(String::from("a"), Dynamic::Int(1));
    table.insert(String::from("c"), Dynamic::Unit);
    table.insert(String::from("a"), Dynamic::Int(2));
    assert_eq!(
        table.to_vec(),
        vec![
            (String::from("a"), Dynamic::Int(2)),
            (String::from("b"), Dynamic::Bool(false)),
            (String::from("c"), Dynamic::Unit),
        ]
    );
    assert_eq!(table.len(), 3);
}
