use global_state::constants::GlobalConstants;
use global_state::debugger::Debugger;
use global_state::debugger::DebuggerStatus;
use global_state::dynamic::Dynamic;
use global_state::engine::Engine;
use global_state::global_state::GlobalRuntimeState;
use global_state::module::Module;
use global_state::resolver::StaticModuleResolver;
use std::sync::Arc;

#[test]
fn new_state_starts_from_the_defaults() {
    let state = GlobalRuntimeState::new(&Engine::new());
    assert_eq!(state.num_imports(), 0);
    assert!(state.lib.is_empty());
    assert_eq!(state.source, None);
    assert_eq!(state.source(), None);
    assert_eq!(state.source_raw(), None);
    assert_eq!(state.num_operations, 0);
    assert_eq!(state.num_modules_loaded, 0);
    assert_eq!(state.level, 0);
    assert_eq!(state.scope_level, 0);
    assert!(!state.always_search_scope);
    assert!(!state.fn_hash_indexing.is_computed());
    assert_eq!(state.fn_hash_indexing.pair(), (0, 0));
    assert!(state.embedded_module_resolver.is_none());
    assert!(state.constants.is_none());
    assert_eq!(state.tag, Dynamic::Unit);
}

#[test]
fn new_state_takes_the_default_tag_of_the_engine() {
    let mut engine = Engine::new();
    engine.def_tag = Dynamic::Int(42);
    assert_eq!(engine.default_tag(), &Dynamic::Int(42));
    let state = GlobalRuntimeState::new(&engine);
    assert_eq!(state.tag, Dynamic::Int(42));
    engine.def_tag = Dynamic::Str(String::from("host"));
    let other = GlobalRuntimeState::new(&engine);
    assert_eq!(other.tag, Dynamic::Str(String::from("host")));
    assert_eq!(state.tag, Dynamic::Int(42));
}

#[test]
fn debugger_runs_on_where_none_is_registered() {
    let state = GlobalRuntimeState::new(&Engine::new());
    assert_eq!(state.debugger.status, DebuggerStatus::Continue);
    assert_eq!(state.debugger.state, Dynamic::Unit);
}

#[test]
fn debugger_waits_with_the_context_of_the_engine() {
    let mut engine = Engine::new();
    engine.debugger = Some(Dynamic::Str(String::from("context")));
    let state = GlobalRuntimeState::new(&engine);
    assert_eq!(state.debugger.status, DebuggerStatus::Init);
    assert_eq!(state.debugger.state, Dynamic::Str(String::from("context")));
}

#[test]
fn debugger_carries_what_the_collaborator_sets() {
    let mut engine = Engine::new();
    engine.debugger = Some(Dynamic::Unit);
    let mut state = GlobalRuntimeState::new(&engine);
    state.debugger.status = DebuggerStatus::Next;
    state.debugger.state = Dynamic::Int(3);
    let _ = state.num_imports();
    let _ = state.hash_idx_get();
    assert_eq!(state.debugger.status, DebuggerStatus::Next);
    assert_eq!(state.debugger.state, Dynamic::Int(3));
    state.debugger.status = DebuggerStatus::Terminate;
    assert_eq!(state.debugger.status, DebuggerStatus::Terminate);
    let made = Debugger::new(DebuggerStatus::Init, Dynamic::Bool(true));
    assert_eq!(made.status, DebuggerStatus::Init);
    assert_eq!(made.clone().state, Dynamic::Bool(true));
}

#[test]
fn always_search_scope_stays_on_once_set() {
    let mut state = GlobalRuntimeState::new(&Engine::new());
    assert!(!state.always_search_scope);
    state.always_search_scope = true;
    let _ = state.num_imports();
    let _ = state.find_import("m");
    let _ = state.source();
    let _ = state.contains_qualified_fn(1);
    assert!(state.always_search_scope);
    state.push_import(String::from("m"), Arc::new(Module::new()));
    let _ = state.hash_idx_get();
    let _ = state.hash_idx_set();
    state.truncate_imports(0);
    assert!(state.always_search_scope);
}

#[test]
fn counters_are_left_alone_by_the_import_stack() {
    let mut state = GlobalRuntimeState::new(&Engine::new());
    state.num_operations = 17;
    state.num_modules_loaded = 2;
    state.level = 3;
    state.scope_level = 4;
    state.push_import(String::from("m"), Arc::new(Module::new()));
    state.truncate_imports(0);
    let _ = state.hash_idx_get();
    assert_eq!(state.num_operations, 17);
    assert_eq!(state.num_modules_loaded, 2);
    assert_eq!(state.level, 3);
    assert_eq!(state.scope_level, 4);
}

#[test]
fn source_is_handed_out_as_held() {
    let mut state = GlobalRuntimeState::new(&Engine::new());
    state.source = Some(String::from("main.script"));
    assert_eq!(state.source(), Some("main.script"));
    assert_eq!(state.source_raw(), Some(&String::from("main.script")));
    state.source = Some(String::new());
    assert_eq!(state.source(), Some(""));
    state.source = None;
    assert_eq!(state.source(), None);
}

#[test]
fn clone_shares_the_constants_and_owns_its_imports() {
    let mut parent = GlobalRuntimeState::new(&Engine::new());
    parent.constants = Some(GlobalConstants::new());
    parent.push_import(String::from("kept"), Arc::new(Module::new()));
    let mut copy = parent.clone();
    match &copy.constants {
        Some(cache) => {
            cache.insert(String::from("ANSWER"), Dynamic::Int(42));
        }
        None => panic!("the copy holds the cache"),
    }
    match &parent.constants {
        Some(cache) => assert_eq!(cache.get("ANSWER"), Some(Dynamic::Int(42))),
        None => panic!("the first state holds the cache"),
    }
    copy.push_import(String::from("added"), Arc::new(Module::new()));
    assert_eq!(copy.num_imports(), 2);
    assert_eq!(copy.find_import("added"), Some(1));
    assert_eq!(parent.num_imports(), 1);
    assert_eq!(parent.find_import("added"), None);
    assert_eq!(parent.find_import("kept"), Some(0));
}

#[test]
fn clone_copies_counters_and_flags() {
    let mut engine = Engine::new();
    engine.def_tag = Dynamic::Int(7);
    engine.debugger = Some(Dynamic::Bool(true));
    let mut parent = GlobalRuntimeState::new(&engine);
    parent.num_operations = 10;
    parent.num_modules_loaded = 1;
    parent.level = 2;
    parent.scope_level = 3;
    parent.always_search_scope = true;
    parent.source = Some(String::from("src"));
    parent.lib.push(Arc::new(Module::new()));
    let hash = parent.hash_idx_get();
    let mut copy = parent.clone();
    assert_eq!(copy.num_operations, 10);
    assert_eq!(copy.num_modules_loaded, 1);
    assert_eq!(copy.level, 2);
    assert_eq!(copy.scope_level, 3);
    assert!(copy.always_search_scope);
    assert_eq!(copy.source(), Some("src"));
    assert_eq!(copy.lib.len(), 1);
    assert!(Arc::ptr_eq(&copy.lib[0], &parent.lib[0]));
    assert_eq!(copy.tag, Dynamic::Int(7));
    assert_eq!(copy.debugger.status, DebuggerStatus::Init);
    assert_eq!(copy.debugger.state, Dynamic::Bool(true));
    assert!(copy.fn_hash_indexing.is_computed());
    assert_eq!(copy.hash_idx_get(), hash);
    copy.num_operations += 5;
    copy.scope_level = 0;
    copy.always_search_scope = false;
    copy.lib.clear();
    assert_eq!(parent.num_operations, 10);
    assert_eq!(parent.scope_level, 3);
    assert!(parent.always_search_scope);
    assert_eq!(parent.lib.len(), 1);
}

#[test]
fn clone_shares_the_embedded_resolver() {
    let mut resolver = StaticModuleResolver::new();
    let mut module = Module::new();
    module.set_id(String::from("builtin"));
    let shared = Arc::new(module);
    resolver.insert(String::from("std/builtin"), shared.clone());
    let mut parent = GlobalRuntimeState::new(&Engine::new());
    parent.embedded_module_resolver = Some(Arc::new(resolver));
    let copy = parent.clone();
    let ours = parent.embedded_module_resolver.as_ref().unwrap();
    let theirs = copy.embedded_module_resolver.as_ref().unwrap();
    assert!(Arc::ptr_eq(ours, theirs));
    assert!(Arc::ptr_eq(&theirs.resolve("std/builtin").unwrap(), &shared));
    assert!(theirs.resolve("std/other").is_none());
}

#[test]
fn clone_without_a_cache_has_none() {
    let parent = GlobalRuntimeState::new(&Engine::new());
    let copy = parent.clone();
    assert!(copy.constants.is_none());
    assert!(copy.embedded_module_resolver.is_none());
}

#[test]
fn resolver_hands_out_the_last_registration() {
    let mut resolver = StaticModuleResolver::new();
    let first = Arc::new(Module::new());
    let second = Arc::new(Module::new());
    resolver.insert(String::from("a"), first.clone());
    resolver.insert(String::from("a"), second.clone());
    resolver.insert(String::from("b"), first.clone());
    assert!(Arc::ptr_eq(&resolver.resolve("a").unwrap(), &second));
    assert!(Arc::ptr_eq(&resolver.resolve("b").unwrap(), &first));
    assert!(resolver.resolve("c").is_none());
}

#[test]
fn dynamic_values_copy_and_compare() {
    assert_eq!(Dynamic::Unit.clone(), Dynamic::Unit);
    assert_ne!(Dynamic::Int(0), Dynamic::Unit);
    let text = Dynamic::Str(String::from("t"));
    assert_eq!(text.clone(), text);
    assert_ne!(Dynamic::Bool(true), Dynamic::Bool(false));
    assert_eq!(Dynamic::Int(-5).clone(), Dynamic::Int(-5));
}
