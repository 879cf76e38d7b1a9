use idklol::prompts::{
    compact_preview, component_to_string, is_prompt_file, path_to_prompt_key, LoadedPrompt,
    PromptPath, PromptStore, PromptStoreError,
};

fn path(text: &str) -> PromptPath {
    let mut components = Vec::new();
    if text.starts_with('/') {
        components.push("/".to_string());
    }
    for part in text.split('/') {
        if !part.is_empty() {
            components.push(part.to_string());
        }
    }
    PromptPath { display: text.to_string(), components }
}

fn file(text: &str, content: &str) -> LoadedPrompt {
    LoadedPrompt { path: path(text), content: Ok(content.to_string()) }
}

fn unreadable(text: &str, message: &str) -> LoadedPrompt {
    LoadedPrompt { path: path(text), content: Err(message.to_string()) }
}

#[test]
fn prompt_files_are_recognised_by_extension() {
    assert!(is_prompt_file(&path("/p/a.md")));
    assert!(is_prompt_file(&path("/p/a.TXT")));
    assert!(is_prompt_file(&path("/p/dir/a.Prompt")));
    assert!(!is_prompt_file(&path("/p/a.json")));
    assert!(!is_prompt_file(&path("/p/.md")));
    assert!(!is_prompt_file(&path("/p/README")));
    assert!(!is_prompt_file(&path("/")));
}

#[test]
fn prompt_keys_are_relative_paths_without_extension() {
    let root = path("/p");
    assert_eq!(path_to_prompt_key(&root, &path("/p/npc/guard.prompt")).unwrap(), "npc/guard");
    assert_eq!(path_to_prompt_key(&root, &path("/p/system.md")).unwrap(), "system");
    assert_eq!(path_to_prompt_key(&root, &path("/p/a.b.txt")).unwrap(), "a.b");
    match path_to_prompt_key(&root, &path("/q/x.md")) {
        Err(PromptStoreError::InvalidPromptPath(p)) => assert_eq!(p, "/q/x.md"),
        other => panic!("unexpected {:?}", other),
    }
    match path_to_prompt_key(&root, &path("/p/..txt")) {
        Err(PromptStoreError::InvalidPromptPath(p)) => assert_eq!(p, "/p/..txt"),
        other => panic!("unexpected {:?}", other),
    }
}

#[test]
fn only_names_are_key_components() {
    assert_eq!(component_to_string("guard"), Some("guard".to_string()));
    assert_eq!(component_to_string(".."), None);
    assert_eq!(component_to_string("."), None);
    assert_eq!(component_to_string("/"), None);
}

#[test]
fn previews_collapse_white_space_and_cut() {
    assert_eq!(compact_preview("  hello   world \n again ", 100), "hello world again");
    assert_eq!(compact_preview("hello world", 5), "hello…");
    assert_eq!(compact_preview("hello", 5), "hello");
    assert_eq!(compact_preview("   ", 3), "");
}

#[test]
fn load_orders_keys_and_keeps_the_last_file_of_a_key() {
    let files = vec![
        file("/p/b.md", "B"),
        file("/p/a.txt", "from txt"),
        file("/p/a.md", "from md"),
    ];
    let store = PromptStore::load(path("/p"), files, None).unwrap();
    assert_eq!(store.list_prompt_keys(), vec!["a".to_string(), "b".to_string()]);
    assert_eq!(store.active_prompt_key(), Some("a"));
    let (key, text) = store.resolve_system_prompt(None).unwrap();
    assert_eq!(key.as_deref(), Some("a"));
    assert_eq!(text.as_deref(), Some("from txt"));
    let summary = store.summary();
    assert_eq!(summary.prompt_count, 2);
    assert_eq!(summary.active_prompt_key.as_deref(), Some("a"));
    assert_eq!(store.root_dir().display, "/p");
}

#[test]
fn load_activates_the_preferred_prompt_or_refuses_it() {
    let files = vec![file("/p/a.md", "A"), file("/p/b.md", "B")];
    let store = PromptStore::load(path("/p"), files, Some("b".to_string())).unwrap();
    assert_eq!(store.active_prompt_key(), Some("b"));

    let files = vec![file("/p/a.md", "A")];
    match PromptStore::load(path("/p"), files, Some("zzz".to_string())) {
        Err(PromptStoreError::MissingPromptKey(k)) => assert_eq!(k, "zzz"),
        other => panic!("unexpected {:?}", other.map(|s| s.summary())),
    }
}

#[test]
fn load_of_no_files_has_no_active_prompt() {
    let store = PromptStore::load(path("/p"), Vec::new(), None).unwrap();
    assert!(store.list_prompt_keys().is_empty());
    assert_eq!(store.active_prompt_key(), None);
    assert_eq!(store.resolve_system_prompt(None).unwrap(), (None, None));
    assert_eq!(store.active_prompt_preview(10), None);
}

#[test]
fn load_reports_the_first_failing_file_in_path_order() {
    let files = vec![
        file("/p/a.md", "A"),
        unreadable("/p/z.md", "denied"),
        unreadable("/p/c.md", "broken"),
    ];
    match PromptStore::load(path("/p"), files, None) {
        Err(PromptStoreError::Io { path, message }) => {
            assert_eq!(path, "/p/c.md");
            assert_eq!(message, "broken");
        }
        other => panic!("unexpected {:?}", other.map(|s| s.summary())),
    }
    let files = vec![unreadable("/p/b.md", "denied"), file("/p/..md", "x")];
    match PromptStore::load(path("/p"), files, None) {
        Err(PromptStoreError::InvalidPromptPath(p)) => assert_eq!(p, "/p/..md"),
        other => panic!("unexpected {:?}", other.map(|s| s.summary())),
    }
}

#[test]
fn set_active_prompt_and_resolve() {
    let files = vec![file("/p/a.md", "A text"), file("/p/npc/guard.prompt", "Guard text")];
    let mut store = PromptStore::load(path("/p"), files, None).unwrap();
    assert!(store.set_active_prompt("npc/guard").is_ok());
    assert_eq!(store.active_prompt_key(), Some("npc/guard"));
    assert_eq!(
        store.resolve_system_prompt(None).unwrap(),
        (Some("npc/guard".to_string()), Some("Guard text".to_string()))
    );
    assert_eq!(
        store.resolve_system_prompt(Some("a")).unwrap(),
        (Some("a".to_string()), Some("A text".to_string()))
    );
    match store.resolve_system_prompt(Some("nope")) {
        Err(PromptStoreError::MissingPromptKey(k)) => assert_eq!(k, "nope"),
        other => panic!("unexpected {:?}", other),
    }
    match store.set_active_prompt("nope") {
        Err(PromptStoreError::MissingPromptKey(k)) => assert_eq!(k, "nope"),
        other => panic!("unexpected {:?}", other),
    }
    assert_eq!(store.active_prompt_key(), Some("npc/guard"));
    assert_eq!(store.active_prompt_preview(5), Some("Guard…".to_string()));
}

#[test]
fn reload_keeps_the_active_prompt_when_it_remains() {
    let files = vec![file("/p/a.md", "A"), file("/p/b.md", "B")];
    let mut store = PromptStore::load(path("/p"), files, Some("b".to_string())).unwrap();
    let summary = store.reload(vec![file("/p/b.md", "B2"), file("/p/c.md", "C")]).unwrap();
    assert_eq!(summary.prompt_count, 2);
    assert_eq!(summary.active_prompt_key.as_deref(), Some("b"));
    assert_eq!(store.resolve_system_prompt(None).unwrap().1.as_deref(), Some("B2"));

    let summary = store.reload(vec![file("/p/c.md", "C"), file("/p/d.md", "D")]).unwrap();
    assert_eq!(summary.active_prompt_key.as_deref(), Some("c"));
}

#[test]
fn failed_reload_leaves_the_store_unchanged() {
    let files = vec![file("/p/a.md", "A")];
    let mut store = PromptStore::load(path("/p"), files, None).unwrap();
    assert!(store.reload(vec![unreadable("/p/a.md", "gone")]).is_err());
    assert_eq!(store.list_prompt_keys(), vec!["a".to_string()]);
    assert_eq!(store.active_prompt_key(), Some("a"));
}

#[test]
fn prompt_store_error_messages() {
    assert_eq!(
        PromptStoreError::RootNotFound("/x".to_string()).message(),
        "prompt root directory not found: /x"
    );
    assert_eq!(PromptStoreError::MissingPromptKey("k".to_string()).message(), "prompt key not found: k");
    assert_eq!(
        PromptStoreError::InvalidPromptPath("/p/q".to_string()).message(),
        "invalid prompt file path: /p/q"
    );
    assert_eq!(
        PromptStoreError::Io { path: "/p".to_string(), message: "denied".to_string() }.message(),
        "io error at /p: denied"
    );
}
