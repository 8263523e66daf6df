use noisebench::scripts::{ScriptEvent, ScriptStore};

fn created(path: &str, contents: &str) -> ScriptEvent {
    ScriptEvent::Created { path: String::from(path), contents: String::from(contents) }
}

fn modified(path: &str, contents: &str) -> ScriptEvent {
    ScriptEvent::Modified { path: String::from(path), contents: String::from(contents) }
}

fn removed(path: &str) -> ScriptEvent {
    ScriptEvent::Removed { path: String::from(path) }
}

#[test]
fn created_files_are_stored() {
    let mut store = ScriptStore::new();
    assert!(!store.on_event(created("a.lua", "return 1"), None));
    let h = store.upsert(String::from("a.lua"), String::from("return 1"));
    assert_eq!(store.get(h).as_deref(), Some("return 1"));
}

#[test]
fn modifications_replace_text_and_flag_the_selected_script() {
    let mut store = ScriptStore::new();
    let a = store.upsert(String::from("a.lua"), String::from("old"));
    let b = store.upsert(String::from("b.lua"), String::from("other"));
    // Modifying an unselected script stores the text but asks no rebuild.
    assert!(!store.on_event(modified("a.lua", "new"), Some(b)));
    assert_eq!(store.get(a).as_deref(), Some("new"));
    // Modifying the selected script asks for a rebuild.
    assert!(store.on_event(modified("a.lua", "newer"), Some(a)));
    assert_eq!(store.get(a).as_deref(), Some("newer"));
    assert_eq!(store.get(b).as_deref(), Some("other"));
}

#[test]
fn removed_files_are_forgotten_but_handles_stay_valid() {
    let mut store = ScriptStore::new();
    let a = store.upsert(String::from("a.lua"), String::from("x"));
    let b = store.upsert(String::from("b.lua"), String::from("y"));
    assert!(!store.on_event(removed("a.lua"), Some(a)));
    assert_eq!(store.get(a).as_deref(), None);
    assert_eq!(store.get(b).as_deref(), Some("y"));
    // Re-creating the file reuses the interned handle.
    let a2 = store.upsert(String::from("a.lua"), String::from("z"));
    assert_eq!(a, a2);
    assert_eq!(store.get(a).as_deref(), Some("z"));
}
