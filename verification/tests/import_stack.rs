use global_state::engine::Engine;
use global_state::global_state::GlobalRuntimeState;
use global_state::imports::ImportStack;
use global_state::module::CallableFunction;
use global_state::module::Module;
use global_state::module::SharedModule;
use std::sync::Arc;

fn named_module(id: &str) -> SharedModule {
    let mut module = Module::new();
    module.set_id(String::from(id));
    Arc::new(module)
}

fn fresh() -> GlobalRuntimeState {
    GlobalRuntimeState::new(&Engine::new())
}

#[test]
fn empty_stack_has_no_imports() {
    let state = fresh();
    assert_eq!(state.num_imports(), 0);
    assert_eq!(state.find_import("m"), None);
    assert!(state.get_shared_import(0).is_none());
    assert!(state.iter_imports().is_empty());
    assert!(state.iter_imports_raw().is_empty());
    assert!(state.scan_imports_raw().is_empty());
}

#[test]
fn push_then_truncate_keeps_the_prefix() {
    let mut state = fresh();
    let a = named_module("a");
    let b = named_module("b");
    let c = named_module("c");
    state.push_import(String::from("x"), a.clone());
    state.push_import(String::from("y"), b.clone());
    state.push_import(String::from("z"), c.clone());
    assert_eq!(state.num_imports(), 3);
    state.truncate_imports(2);
    assert_eq!(state.num_imports(), 2);
    assert_eq!(state.find_import("x"), Some(0));
    assert_eq!(state.find_import("y"), Some(1));
    assert_eq!(state.find_import("z"), None);
    assert!(Arc::ptr_eq(&state.get_shared_import(0).unwrap(), &a));
    assert!(Arc::ptr_eq(&state.get_shared_import(1).unwrap(), &b));
    assert!(state.get_shared_import(2).is_none());
    let listing = state.scan_imports_raw();
    assert_eq!(listing.len(), 2);
    assert_eq!(listing[0].0.as_str(), "x");
    assert!(Arc::ptr_eq(listing[0].1, &a));
    assert_eq!(listing[1].0.as_str(), "y");
    assert!(Arc::ptr_eq(listing[1].1, &b));
}

#[test]
fn truncate_to_zero_empties_the_stack() {
    let mut state = fresh();
    state.push_import(String::from("x"), named_module("a"));
    state.push_import(String::from("y"), named_module("b"));
    state.truncate_imports(0);
    assert_eq!(state.num_imports(), 0);
    assert_eq!(state.find_import("x"), None);
}

#[test]
fn truncate_to_the_current_length_changes_nothing() {
    let mut state = fresh();
    state.push_import(String::from("x"), named_module("a"));
    state.push_import(String::from("y"), named_module("b"));
    state.truncate_imports(2);
    assert_eq!(state.num_imports(), 2);
    assert_eq!(state.find_import("y"), Some(1));
}

#[test]
fn truncate_beyond_the_length_changes_nothing() {
    let mut state = fresh();
    state.push_import(String::from("x"), named_module("a"));
    state.truncate_imports(7);
    assert_eq!(state.num_imports(), 1);
    assert_eq!(state.find_import("x"), Some(0));
}

#[test]
fn later_import_shadows_earlier_one() {
    let mut state = fresh();
    let a = named_module("A");
    let b = named_module("B");
    state.push_import(String::from("m"), a.clone());
    state.push_import(String::from("m"), b.clone());
    assert_eq!(state.find_import("m"), Some(1));
    let found = state.get_shared_import(1).unwrap();
    assert!(Arc::ptr_eq(&found, &b));
    assert!(!Arc::ptr_eq(&found, &a));
    assert_eq!(found.id_raw().map(|s| s.as_str()), Some("B"));
}

#[test]
fn shadowing_ends_when_the_block_exits() {
    let mut state = fresh();
    let a = named_module("A");
    state.push_import(String::from("m"), a.clone());
    let saved = state.num_imports();
    state.push_import(String::from("m"), named_module("B"));
    state.push_import(String::from("n"), named_module("C"));
    state.truncate_imports(saved);
    assert_eq!(state.find_import("m"), Some(0));
    assert!(Arc::ptr_eq(&state.get_shared_import(0).unwrap(), &a));
    assert_eq!(state.find_import("n"), None);
}

#[test]
fn find_tells_names_apart() {
    let mut state = fresh();
    state.push_import(String::from("ab"), named_module("1"));
    state.push_import(String::from("a"), named_module("2"));
    state.push_import(String::from("abc"), named_module("3"));
    state.push_import(String::from(""), named_module("4"));
    assert_eq!(state.find_import("a"), Some(1));
    assert_eq!(state.find_import("ab"), Some(0));
    assert_eq!(state.find_import("abc"), Some(2));
    assert_eq!(state.find_import(""), Some(3));
    assert_eq!(state.find_import("b"), None);
    assert_eq!(state.find_import("abcd"), None);
    assert_eq!(state.find_import("AB"), None);
}

#[test]
fn find_handles_names_beyond_ascii() {
    let mut state = fresh();
    state.push_import(String::from("módulo"), named_module("1"));
    state.push_import(String::from("模块"), named_module("2"));
    assert_eq!(state.find_import("módulo"), Some(0));
    assert_eq!(state.find_import("模块"), Some(1));
    assert_eq!(state.find_import("modulo"), None);
}

#[test]
fn reverse_iteration_is_most_recent_first() {
    let mut state = fresh();
    let a = named_module("a");
    let b = named_module("b");
    let c = named_module("c");
    state.push_import(String::from("x"), a.clone());
    state.push_import(String::from("y"), b.clone());
    state.push_import(String::from("z"), c.clone());
    let names: Vec<&str> = state.iter_imports().iter().map(|item| item.0).collect();
    assert_eq!(names, vec!["z", "y", "x"]);
    let ids: Vec<Option<&str>> =
        state.iter_imports().iter().map(|item| item.1.id_raw().map(|s| s.as_str())).collect();
    assert_eq!(ids, vec![Some("c"), Some("b"), Some("a")]);
    let raw = state.iter_imports_raw();
    assert_eq!(raw.len(), 3);
    assert_eq!(raw[0].0.as_str(), "z");
    assert!(Arc::ptr_eq(raw[0].1, &c));
    assert_eq!(raw[2].0.as_str(), "x");
    assert!(Arc::ptr_eq(raw[2].1, &a));
}

#[test]
fn forward_iteration_is_insertion_order() {
    let mut state = fresh();
    let a = named_module("a");
    let b = named_module("b");
    state.push_import(String::from("x"), a.clone());
    state.push_import(String::from("y"), b.clone());
    let raw = state.scan_imports_raw();
    assert_eq!(raw.len(), 2);
    assert_eq!(raw[0].0.as_str(), "x");
    assert!(Arc::ptr_eq(raw[0].1, &a));
    assert_eq!(raw[1].0.as_str(), "y");
    assert!(Arc::ptr_eq(raw[1].1, &b));
}

#[test]
fn both_iterations_visit_the_same_pairs() {
    let mut state = fresh();
    state.push_import(String::from("x"), named_module("a"));
    state.push_import(String::from("y"), named_module("b"));
    state.push_import(String::from("x"), named_module("c"));
    let mut forward: Vec<(String, String)> = state
        .scan_imports_raw()
        .iter()
        .map(|item| (item.0.clone(), item.1.id_raw().unwrap().clone()))
        .collect();
    let mut reverse: Vec<(String, String)> = state
        .iter_imports_raw()
        .iter()
        .map(|item| (item.0.clone(), item.1.id_raw().unwrap().clone()))
        .collect();
    let backwards: Vec<(String, String)> = forward.iter().rev().cloned().collect();
    assert_eq!(reverse, backwards);
    forward.sort();
    reverse.sort();
    assert_eq!(forward, reverse);
}

#[test]
fn slot_of_an_import_can_be_replaced() {
    let mut state = fresh();
    let a = named_module("a");
    let b = named_module("b");
    state.push_import(String::from("x"), a.clone());
    assert!(state.get_shared_import_mut(1).is_none());
    match state.get_shared_import_mut(0) {
        Some(slot) => {
            assert!(Arc::ptr_eq(slot, &a));
            *slot = b.clone();
        }
        None => panic!("the slot exists"),
    }
    assert_eq!(state.num_imports(), 1);
    assert_eq!(state.find_import("x"), Some(0));
    assert!(Arc::ptr_eq(&state.get_shared_import(0).unwrap(), &b));
}

#[test]
fn extend_pushes_in_order() {
    let mut state = fresh();
    let a = named_module("a");
    let b = named_module("b");
    let c = named_module("c");
    state.push_import(String::from("x"), a.clone());
    state.extend(vec![(String::from("y"), b.clone()), (String::from("x"), c.clone())]);
    assert_eq!(state.num_imports(), 3);
    assert_eq!(state.find_import("y"), Some(1));
    assert_eq!(state.find_import("x"), Some(2));
    assert!(Arc::ptr_eq(&state.get_shared_import(2).unwrap(), &c));
    state.extend(Vec::new());
    assert_eq!(state.num_imports(), 3);
}

#[test]
fn stack_on_its_own_moves_in_lockstep() {
    let mut stack = ImportStack::new();
    let a = named_module("a");
    let b = named_module("b");
    assert_eq!(stack.len(), 0);
    stack.push(String::from("p"), a.clone());
    stack.push(String::from("q"), b.clone());
    assert_eq!(stack.len(), 2);
    assert_eq!(stack.find("q"), Some(1));
    assert!(Arc::ptr_eq(&stack.get(1).unwrap(), &b));
    let copy = stack.clone();
    stack.truncate(1);
    assert_eq!(stack.len(), 1);
    assert_eq!(copy.len(), 2);
    assert!(Arc::ptr_eq(&copy.get(0).unwrap(), &a));
    assert_eq!(stack.iter_forward().len(), 1);
    assert_eq!(copy.iter_reverse()[0].0.as_str(), "q");
    let mut module = Module::new();
    module.set_fn(7, CallableFunction { id: 1 });
    stack.push(String::from("r"), Arc::new(module));
    assert!(stack.contains_fn(7));
    assert!(!copy.contains_fn(7));
}
