use global_state::text::bytes_eq;
use global_state::text::compare_names;
use global_state::text::str_eq;
use global_state::text::NameOrder;

#[test]
fn equal_names_are_equal() {
    assert!(str_eq("", ""));
    assert!(str_eq("abc", "abc"));
    assert!(str_eq("模块", "模块"));
    assert!(!str_eq("abc", "abd"));
    assert!(!str_eq("abc", "ab"));
    assert!(!str_eq("ab", "abc"));
    assert!(!str_eq("", "a"));
    assert!(bytes_eq(&[1, 2, 3], &[1, 2, 3]));
    assert!(!bytes_eq(&[1, 2, 3], &[1, 2, 4]));
    assert!(!bytes_eq(&[1, 2], &[1, 2, 3]));
}

#[test]
fn names_are_ordered_like_strings() {
    let names = ["", "a", "A", "ab", "abc", "abd", "b", "Zulu", "é", "模块", "z", "a\u{0}"];
    for a in names {
        for b in names {
            let expected = if a < b {
                NameOrder::Before
            } else if a == b {
                NameOrder::Same
            } else {
                NameOrder::After
            };
            assert_eq!(compare_names(a, b), expected);
        }
    }
}

#[test]
fn a_prefix_comes_first() {
    assert_eq!(compare_names("alph", "alpha"), NameOrder::Before);
    assert_eq!(compare_names("alpha", "alph"), NameOrder::After);
    assert_eq!(compare_names("", "a"), NameOrder::Before);
    assert_eq!(compare_names("", ""), NameOrder::Same);
}
