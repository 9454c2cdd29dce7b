use ffind::{
    chars_of, contains_chars, is_hidden, is_library, resolve_root, should_prune, visit_entry,
    ConfigError, Emit, Entry, Pattern, Settings, WalkItem,
};

fn entry(path: &str, root: &str) -> Entry {
    let rel = path.strip_prefix(root).unwrap().trim_start_matches('/');
    let parts: Vec<String> = if rel.is_empty() {
        Vec::new()
    } else {
        rel.split('/').map(|c| c.to_string()).collect()
    };
    let is_root = parts.is_empty();
    let name = if is_root {
        root.rsplit('/').next().unwrap().to_string()
    } else {
        parts[parts.len() - 1].clone()
    };
    let ancestors = if is_root { Vec::new() } else { parts[..parts.len() - 1].to_vec() };
    Entry { path: path.to_string(), name, ancestors, is_root }
}

fn found(paths: &[&str], root: &str) -> Vec<WalkItem> {
    paths.iter().map(|p| WalkItem::Found(entry(p, root))).collect()
}

fn settings(pattern: &str, exclusion: &str) -> Settings {
    Settings::new("/root".to_string(), true, pattern, exclusion).unwrap()
}

#[test]
fn hidden_names() {
    assert!(is_hidden(".git"));
    assert!(is_hidden(".config"));
    assert!(!is_hidden("src"));
    assert!(!is_hidden(""));
    assert!(!is_hidden("a.b"));
}

#[test]
fn library_names_are_substrings() {
    assert!(is_library("node_modules"));
    assert!(is_library("my-venv-backup"));
    assert!(is_library("x.github"));
    assert!(is_library("venv"));
    assert!(!is_library("src"));
    assert!(!is_library("ven"));
    assert!(!is_library(""));
}

#[test]
fn prune_rule() {
    assert!(should_prune(".hidden"));
    assert!(should_prune("node_modules"));
    assert!(!should_prune("lib"));
    assert!(visit_entry(".hidden", true));
    assert!(!visit_entry(".hidden", false));
    assert!(visit_entry("lib", false));
}

#[test]
fn substring_search() {
    assert!(contains_chars(&chars_of("abcabd"), &chars_of("abd")));
    assert!(contains_chars(&chars_of("abc"), &chars_of("")));
    assert!(contains_chars(&chars_of("abc"), &chars_of("abc")));
    assert!(!contains_chars(&chars_of("ab"), &chars_of("abc")));
    assert!(!contains_chars(&chars_of("abcabc"), &chars_of("acb")));
    assert_eq!(chars_of("héllo"), vec!['h', 'é', 'l', 'l', 'o']);
}

#[test]
fn pattern_compiles_and_matches() {
    let p = Pattern::new(r".*\.txt$").unwrap();
    assert_eq!(p.as_str(), r".*\.txt$");
    assert!(p.is_match("a.txt"));
    assert!(!p.is_match("a.txt.bak"));
    assert!(Pattern::new("foo(bar").is_none());
}

#[test]
fn root_defaults_to_cwd() {
    assert_eq!(resolve_root(None, "/home/u/f".to_string()), "/home/u/f");
    assert_eq!(resolve_root(Some("/data".to_string()), "/home/u/f".to_string()), "/data");
}

#[test]
fn invalid_pattern_is_fatal() {
    match Settings::new("/root".to_string(), true, "foo(bar", "") {
        Err(ConfigError::InvalidPattern(p)) => assert_eq!(p, "foo(bar"),
        _ => panic!("expected an invalid pattern"),
    }
}

#[test]
fn invalid_exclusion_is_fatal() {
    match Settings::new("/root".to_string(), true, "x", "[b") {
        Err(ConfigError::InvalidExclusion(p)) => assert_eq!(p, "[b"),
        _ => panic!("expected an invalid exclusion"),
    }
}

#[test]
fn missing_root_is_fatal() {
    match Settings::new("/no/such/dir".to_string(), false, "x", "") {
        Err(ConfigError::MissingRoot(p)) => assert_eq!(p, "/no/such/dir"),
        _ => panic!("expected a missing root"),
    }
}

#[test]
fn pattern_error_comes_before_missing_root() {
    assert!(matches!(
        Settings::new("/no/such/dir".to_string(), false, "(", ""),
        Err(ConfigError::InvalidPattern(_))
    ));
}

#[test]
fn settings_keep_root() {
    assert_eq!(settings("x", "").root(), "/root");
}

#[test]
fn scenario_vcs_and_dependencies_pruned() {
    let s = settings(r".*\.x$", "");
    let items = found(
        &[
            "/root",
            "/root/.git",
            "/root/.git/config",
            "/root/src",
            "/root/src/main.x",
            "/root/node_modules",
            "/root/node_modules/pkg",
            "/root/node_modules/pkg/index.x",
        ],
        "/root",
    );
    assert_eq!(s.collect_output(&items), vec!["/root/src/main.x".to_string()]);
}

#[test]
fn scenario_exclusion_wins() {
    let s = settings(r".*\.txt$", "b");
    let items = found(&["/root", "/root/a.txt", "/root/b.txt"], "/root");
    assert_eq!(s.collect_output(&items), vec!["/root/a.txt".to_string()]);
}

#[test]
fn scenario_failure_does_not_stop_walk() {
    let s = settings(r"\.txt$", "");
    let mut items = found(&["/root", "/root/ok"], "/root");
    items.push(WalkItem::Failed("/root/locked: Permission denied".to_string()));
    items.extend(found(&["/root/ok/a.txt", "/root/b.txt"], "/root"));
    assert_eq!(
        s.collect_output(&items),
        vec!["/root/ok/a.txt".to_string(), "/root/b.txt".to_string()]
    );
    match s.handle(&WalkItem::Failed("boom".to_string())) {
        Emit::Diagnostic(m) => assert_eq!(m, "boom"),
        _ => panic!("expected a diagnostic"),
    }
}

#[test]
fn hidden_file_and_descendants_never_printed() {
    let s = settings(".*", "");
    let items = found(&["/root/.env", "/root/.cache/x/y", "/root/d/.e", "/root/d/f"], "/root");
    assert_eq!(s.collect_output(&items), vec!["/root/d/f".to_string()]);
}

#[test]
fn library_descendants_never_printed() {
    let s = settings(".*", "");
    let items = found(
        &["/root/my-venv-backup/a", "/root/x/node_modules", "/root/.github/w", "/root/keep"],
        "/root",
    );
    assert_eq!(s.collect_output(&items), vec!["/root/keep".to_string()]);
}

#[test]
fn pattern_matches_base_name_only() {
    let s = settings("^src", "");
    let items = found(&["/root/src", "/root/src/main.x", "/root/lib/srcfile"], "/root");
    assert_eq!(
        s.collect_output(&items),
        vec!["/root/src".to_string(), "/root/lib/srcfile".to_string()]
    );
}

#[test]
fn exclusion_matches_full_path() {
    let s = settings(r"\.x$", "gen/");
    let items = found(&["/root/gen/a.x", "/root/src/b.x"], "/root");
    assert_eq!(s.collect_output(&items), vec!["/root/src/b.x".to_string()]);
}

#[test]
fn hidden_root_is_still_walked() {
    let s = settings(".*", "");
    let root = entry("/tmp/.work", "/tmp/.work");
    assert!(root.is_root);
    match s.handle(&WalkItem::Found(root)) {
        Emit::Path(p) => assert_eq!(p, "/tmp/.work"),
        _ => panic!("the root is not subject to the hidden rule"),
    }
}

#[test]
fn order_does_not_change_printed_set() {
    let s = settings(r"\.txt$", "");
    let a = found(&["/root/a.txt", "/root/b.txt", "/root/.h.txt", "/root/c.md"], "/root");
    let b = found(&["/root/c.md", "/root/.h.txt", "/root/b.txt", "/root/a.txt"], "/root");
    let mut x = s.collect_output(&a);
    let mut y = s.collect_output(&b);
    assert_eq!(x, s.collect_output(&a));
    x.sort();
    y.sort();
    assert_eq!(x, y);
}

#[test]
fn non_matching_entry_emits_nothing() {
    let s = settings(r"\.rs$", "");
    assert!(matches!(s.handle(&WalkItem::Found(entry("/root/a.txt", "/root"))), Emit::Nothing));
    assert!(s.reports(&entry("/root/a.rs", "/root")));
}
