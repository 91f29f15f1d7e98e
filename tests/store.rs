use launcher_store::launch::launch_command;
use launcher_store::model::{AppEntry, Group, LauncherState, STATE_VERSION};
use launcher_store::repository::{
    apps_for_group, entry_from_row, resolve_active, rows_from_state, state_from_rows,
};
use launcher_store::rows::{AppRow, GroupRow, StoreRows};
use launcher_store::text::blank;
use launcher_store::window::{toggle_action, ToggleAction};

fn app(id: &str, name: &str, path: &str, args: Option<&str>, added_at: i64) -> AppEntry {
    AppEntry {
        id: id.to_string(),
        name: name.to_string(),
        path: path.to_string(),
        args: args.map(|a| a.to_string()),
        added_at,
    }
}

fn group(id: &str, name: &str, apps: Vec<AppEntry>) -> Group {
    Group { id: id.to_string(), name: name.to_string(), apps }
}

fn state(active: &str, groups: Vec<Group>) -> LauncherState {
    LauncherState { version: STATE_VERSION, active_group_id: active.to_string(), groups }
}

fn save_then_load(s: &LauncherState) -> Option<LauncherState> {
    state_from_rows(&rows_from_state(s))
}

fn two_groups(active: &str) -> LauncherState {
    state(
        active,
        vec![
            group(
                "g1",
                "Work",
                vec![app("a1", "Editor", "/usr/bin/editor", None, 1000)],
            ),
            group("g2", "Games", vec![]),
        ],
    )
}

fn app_row(id: &str, group_id: &str, args: &str, position: i64) -> AppRow {
    AppRow {
        id: id.to_string(),
        group_id: group_id.to_string(),
        name: format!("name-{}", id),
        path: format!("/bin/{}", id),
        args: args.to_string(),
        position,
        added_at: 7,
    }
}

#[test]
fn fresh_store_loads_none() {
    let rows = StoreRows { active_group_id: None, groups: vec![], apps: vec![] };
    assert_eq!(state_from_rows(&rows), None);
}

#[test]
fn scenario_work_and_games() {
    let loaded = save_then_load(&two_groups("g1")).unwrap();
    assert_eq!(loaded.version, 1);
    assert_eq!(loaded.active_group_id, "g1");
    let ids: Vec<&str> = loaded.groups.iter().map(|g| g.id.as_str()).collect();
    assert_eq!(ids, vec!["g1", "g2"]);
    assert_eq!(
        loaded.groups[0].apps,
        vec![app("a1", "Editor", "/usr/bin/editor", None, 1000)]
    );
    assert_eq!(loaded.groups[1].apps, vec![]);
}

#[test]
fn scenario_missing_active_falls_back_to_first() {
    let loaded = save_then_load(&two_groups("missing")).unwrap();
    assert_eq!(loaded.active_group_id, "g1");
}

#[test]
fn empty_active_falls_back_to_first() {
    let loaded = save_then_load(&two_groups("")).unwrap();
    assert_eq!(loaded.active_group_id, "g1");
}

#[test]
fn valid_active_is_kept() {
    let loaded = save_then_load(&two_groups("g2")).unwrap();
    assert_eq!(loaded.active_group_id, "g2");
}

#[test]
fn round_trip_keeps_groups_and_order() {
    let s = state(
        "b",
        vec![
            group(
                "a",
                "First",
                vec![
                    app("x3", "Three", "/p/3", Some("--fast"), 30),
                    app("x1", "One", "/p/1", None, 10),
                    app("x2", "Two", "/p/2", Some("-v file"), 20),
                ],
            ),
            group("b", "Second", vec![app("y1", "Only", "/q", None, 5)]),
            group("c", "Empty", vec![]),
        ],
    );
    let loaded = save_then_load(&s).unwrap();
    assert_eq!(loaded, s);
}

#[test]
fn empty_and_absent_args_read_as_absent() {
    let s = state(
        "g",
        vec![group(
            "g",
            "G",
            vec![
                app("e", "Empty", "/e", Some(""), 1),
                app("n", "None", "/n", None, 2),
                app("w", "Spaces", "/w", Some(" \t\n"), 3),
                app("k", "Kept", "/k", Some(" -a "), 4),
            ],
        )],
    );
    let loaded = save_then_load(&s).unwrap();
    let args: Vec<Option<String>> = loaded.groups[0].apps.iter().map(|a| a.args.clone()).collect();
    assert_eq!(args, vec![None, None, None, Some(" -a ".to_string())]);
}

#[test]
fn emptied_snapshot_loads_none() {
    let mut s = two_groups("g1");
    s.groups.clear();
    let rows = rows_from_state(&s);
    assert_eq!(rows.groups.len(), 0);
    assert_eq!(rows.apps.len(), 0);
    assert_eq!(state_from_rows(&rows), None);
}

#[test]
fn saving_twice_loads_as_once() {
    let s = two_groups("g2");
    let once = rows_from_state(&s);
    let twice = rows_from_state(&s);
    assert_eq!(once, twice);
    assert_eq!(state_from_rows(&once), state_from_rows(&twice));
}

#[test]
fn save_numbers_positions_densely() {
    let s = state(
        "g1",
        vec![
            group("g1", "A", vec![app("a", "a", "/a", None, 1), app("b", "b", "/b", Some("x"), 2)]),
            group("g2", "B", vec![app("c", "c", "/c", None, 3)]),
        ],
    );
    let rows = rows_from_state(&s);
    assert_eq!(rows.active_group_id, Some("g1".to_string()));
    let groups: Vec<(String, i64)> = rows.groups.iter().map(|g| (g.id.clone(), g.position)).collect();
    assert_eq!(groups, vec![("g1".to_string(), 0), ("g2".to_string(), 1)]);
    let apps: Vec<(String, String, String, i64)> = rows
        .apps
        .iter()
        .map(|a| (a.id.clone(), a.group_id.clone(), a.args.clone(), a.position))
        .collect();
    assert_eq!(
        apps,
        vec![
            ("a".to_string(), "g1".to_string(), "".to_string(), 0),
            ("b".to_string(), "g1".to_string(), "x".to_string(), 1),
            ("c".to_string(), "g2".to_string(), "".to_string(), 0),
        ]
    );
}

#[test]
fn interleaved_app_rows_are_bucketed_by_group() {
    let rows = StoreRows {
        active_group_id: Some("g2".to_string()),
        groups: vec![
            GroupRow { id: "g1".to_string(), name: "One".to_string(), position: 0 },
            GroupRow { id: "g2".to_string(), name: "Two".to_string(), position: 1 },
        ],
        apps: vec![
            app_row("c", "g2", "", 0),
            app_row("a", "g1", "", 0),
            app_row("b", "g1", "-q", 1),
            app_row("d", "g2", "", 1),
        ],
    };
    let loaded = state_from_rows(&rows).unwrap();
    assert_eq!(loaded.active_group_id, "g2");
    let ids: Vec<Vec<&str>> = loaded
        .groups
        .iter()
        .map(|g| g.apps.iter().map(|a| a.id.as_str()).collect())
        .collect();
    assert_eq!(ids, vec![vec!["a", "b"], vec!["c", "d"]]);
    assert_eq!(loaded.groups[0].apps[1].args, Some("-q".to_string()));
}

#[test]
fn dangling_app_rows_are_dropped() {
    let rows = StoreRows {
        active_group_id: Some("g1".to_string()),
        groups: vec![GroupRow { id: "g1".to_string(), name: "One".to_string(), position: 0 }],
        apps: vec![app_row("a", "gone", "", 0), app_row("b", "g1", "", 0)],
    };
    let loaded = state_from_rows(&rows).unwrap();
    assert_eq!(loaded.groups.len(), 1);
    assert_eq!(loaded.groups[0].apps.len(), 1);
    assert_eq!(loaded.groups[0].apps[0].id, "b");
}

#[test]
fn missing_meta_falls_back_to_first_group() {
    let groups = vec![
        GroupRow { id: "first".to_string(), name: "F".to_string(), position: 0 },
        GroupRow { id: "second".to_string(), name: "S".to_string(), position: 1 },
    ];
    assert_eq!(resolve_active(&None, &groups), "first");
    assert_eq!(resolve_active(&Some("second".to_string()), &groups), "second");
    assert_eq!(resolve_active(&Some("other".to_string()), &groups), "first");
    assert_eq!(resolve_active(&Some("".to_string()), &vec![]), "");
}

#[test]
fn apps_for_group_keeps_row_order() {
    let rows = vec![app_row("b", "g", "", 1), app_row("x", "h", "", 0), app_row("a", "g", "", 0)];
    let apps = apps_for_group(&rows, &"g".to_string());
    let ids: Vec<&str> = apps.iter().map(|a| a.id.as_str()).collect();
    assert_eq!(ids, vec!["b", "a"]);
    assert!(apps_for_group(&rows, &"none".to_string()).is_empty());
}

#[test]
fn entry_from_row_reads_blank_args_as_absent() {
    let e = entry_from_row(&app_row("a", "g", "\u{3000}\u{2009} ", 0));
    assert_eq!(e.args, None);
    let e = entry_from_row(&app_row("a", "g", "  run  ", 0));
    assert_eq!(e.args, Some("  run  ".to_string()));
    assert_eq!(e.name, "name-a");
    assert_eq!(e.path, "/bin/a");
    assert_eq!(e.added_at, 7);
}

#[test]
fn blank_detects_white_space_only() {
    assert!(blank(""));
    assert!(blank(" \t\r\n\u{a0}\u{85}"));
    assert!(!blank(" a "));
    assert!(!blank("x"));
}

#[test]
fn launch_without_args_on_windows_uses_explorer() {
    let c = launch_command("C:\\apps\\tool.exe".to_string(), vec![], true);
    assert_eq!(c.program, "explorer");
    assert_eq!(c.args, vec!["C:\\apps\\tool.exe".to_string()]);
}

#[test]
fn launch_without_args_elsewhere_runs_path() {
    let c = launch_command("/usr/bin/tool".to_string(), vec![], false);
    assert_eq!(c.program, "/usr/bin/tool");
    assert!(c.args.is_empty());
}

#[test]
fn launch_with_args_runs_path_with_args() {
    let args = vec!["-a".to_string(), "b c".to_string()];
    for windows in [true, false] {
        let c = launch_command("/usr/bin/tool".to_string(), args.clone(), windows);
        assert_eq!(c.program, "/usr/bin/tool");
        assert_eq!(c.args, args);
    }
}

#[test]
fn toggle_restores_hides_or_reveals() {
    assert_eq!(toggle_action(true, true), ToggleAction::Restore);
    assert_eq!(toggle_action(true, false), ToggleAction::Restore);
    assert_eq!(toggle_action(false, true), ToggleAction::Hide);
    assert_eq!(toggle_action(false, false), ToggleAction::Reveal);
}
