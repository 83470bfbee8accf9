use tron::{
    count_synced, expand_path, find_entry, join_path, resolve_configs, select_entries,
    shown_in_status, ConfigEntry, DotfilesConfig, PathEnv, ResolvedConfig, SyncStatus, TronConfig,
};

fn env() -> PathEnv {
    PathEnv {
        home: "/home/u".to_string(),
        roaming: "/home/u/AppData/Roaming".to_string(),
        local: "/home/u/AppData/Local".to_string(),
        separator: "/".to_string(),
    }
}

fn entry(name: &str, category: &str) -> ResolvedConfig {
    ResolvedConfig {
        name: name.to_string(),
        category: category.to_string(),
        repo_path: format!("/r/{}", name),
        system_path: format!("/s/{}", name),
    }
}

#[test]
fn expands_all_token_forms() {
    let e = env();
    assert_eq!(expand_path("${HOME}/.config", &e), "/home/u/.config");
    assert_eq!(expand_path("$HOME/.config", &e), "/home/u/.config");
    assert_eq!(expand_path("~/.bashrc", &e), "/home/u/.bashrc");
    assert_eq!(expand_path("${APPDATA}/x", &e), "/home/u/AppData/Roaming/x");
    assert_eq!(expand_path("$APPDATA/x", &e), "/home/u/AppData/Roaming/x");
    assert_eq!(expand_path("${LOCALAPPDATA}/y", &e), "/home/u/AppData/Local/y");
    assert_eq!(expand_path("$LOCALAPPDATA/y", &e), "/home/u/AppData/Local/y");
    assert_eq!(expand_path("a$HOME~b", &e), "a/home/u/home/ub");
}

#[test]
fn unknown_tokens_pass_through() {
    let e = env();
    assert_eq!(expand_path("$USER/${X}/plain", &e), "$USER/${X}/plain");
    assert_eq!(expand_path("", &e), "");
}

#[test]
fn replacements_are_not_expanded_again() {
    let mut e = env();
    e.home = "/h/$APPDATA".to_string();
    assert_eq!(expand_path("$HOME/z", &e), "/h/$APPDATA/z");
}

#[test]
fn joins_paths() {
    assert_eq!(join_path("/repo", "nvim/init.lua", "/"), "/repo/nvim/init.lua");
    assert_eq!(join_path("/repo/", "a", "/"), "/repo/a");
    assert_eq!(join_path("", "a", "/"), "a");
    assert_eq!(join_path("/repo", "/abs/a", "/"), "/abs/a");
}

#[test]
fn resolves_configured_entries() {
    let cfg = TronConfig {
        dotfiles: DotfilesConfig { repo_path: "~/dots".to_string() },
        config: vec![
            ConfigEntry {
                name: "git".to_string(),
                category: "cli".to_string(),
                repo_path: "git/.gitconfig".to_string(),
                system_path: "$HOME/.gitconfig".to_string(),
            },
            ConfigEntry {
                name: "term".to_string(),
                category: "gui".to_string(),
                repo_path: "term.json".to_string(),
                system_path: "${LOCALAPPDATA}/term.json".to_string(),
            },
        ],
    };
    let r = resolve_configs(&cfg, &env());
    assert_eq!(r.len(), 2);
    assert_eq!(r[0].name, "git");
    assert_eq!(r[0].category, "cli");
    assert_eq!(r[0].repo_path, "/home/u/dots/git/.gitconfig");
    assert_eq!(r[0].system_path, "/home/u/.gitconfig");
    assert_eq!(r[1].repo_path, "/home/u/dots/term.json");
    assert_eq!(r[1].system_path, "/home/u/AppData/Local/term.json");
}

#[test]
fn selection_prefers_names_then_category() {
    let cs = vec![entry("a", "cli"), entry("b", "gui"), entry("c", "cli")];
    assert_eq!(select_entries(&cs, &vec![], &None), vec![0, 1, 2]);
    assert_eq!(select_entries(&cs, &vec![], &Some("cli".to_string())), vec![0, 2]);
    assert_eq!(
        select_entries(&cs, &vec!["b".to_string()], &Some("cli".to_string())),
        vec![1]
    );
    assert_eq!(select_entries(&cs, &vec!["zz".to_string()], &None), Vec::<usize>::new());
    assert_eq!(select_entries(&cs, &vec![], &Some("none".to_string())), Vec::<usize>::new());
}

#[test]
fn finds_first_entry_by_name() {
    let cs = vec![entry("a", "x"), entry("b", "y"), entry("b", "z")];
    assert_eq!(find_entry(&cs, &"b".to_string()), Some(1));
    assert_eq!(find_entry(&cs, &"q".to_string()), None);
}

#[test]
fn counts_synced_and_hides_them_when_outdated() {
    let s = vec![SyncStatus::Synced, SyncStatus::Conflict, SyncStatus::Synced];
    assert_eq!(count_synced(&s), 2);
    assert_eq!(count_synced(&vec![]), 0);
    assert!(!shown_in_status(SyncStatus::Synced, true));
    assert!(shown_in_status(SyncStatus::Synced, false));
    assert!(shown_in_status(SyncStatus::RepoNewer, true));
}

#[test]
fn categories_sorted_with_counts() {
    let cs = vec![
        entry("a", "shell"),
        entry("b", "editor"),
        entry("c", "shell"),
        entry("d", "Zed"),
        entry("e", "editor"),
        entry("f", "shell"),
    ];
    let got: Vec<(String, usize)> =
        tron::count_categories(&cs).into_iter().map(|c| (c.name, c.count)).collect();
    assert_eq!(
        got,
        vec![("Zed".to_string(), 1), ("editor".to_string(), 2), ("shell".to_string(), 3)]
    );
    assert!(tron::count_categories(&vec![]).is_empty());
}
