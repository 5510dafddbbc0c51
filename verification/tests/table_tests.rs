use pymanager::clock::{current_timestamp, timestamp_from};
use std::time::{Duration, SystemTime, UNIX_EPOCH};
use pymanager::store::{Project, ProjectLog};
use pymanager::table::{
    action_for, append_rows, next_state, table_header, table_rows, version_listed_line,
    InputEvent, RendererAction, RendererState, TableRow, COLUMN_PERCENT, QUIT_KEY, TABLE_TITLE,
};

fn row(version: &str, project: &str, created_at: &str, last_accessed: &str) -> TableRow {
    TableRow {
        version: version.to_string(),
        project: project.to_string(),
        created_at: created_at.to_string(),
        last_accessed: last_accessed.to_string(),
    }
}

fn log(version: &str, projects: &[(&str, u64, u64)]) -> ProjectLog {
    ProjectLog {
        version: version.to_string(),
        projects: projects
            .iter()
            .map(|p| Project { name: p.0.to_string(), created_at: p.1, last_accessed: p.2 })
            .collect(),
    }
}

#[test]
fn header_has_four_columns() {
    assert_eq!(table_header(), row("Version", "Project", "Created At", "Last Accessed"));
    assert_eq!(TABLE_TITLE, "Python Projects");
    assert_eq!(COLUMN_PERCENT, 25);
    assert_eq!(4 * COLUMN_PERCENT, 100);
}

#[test]
fn rows_pair_versions_with_projects() {
    let loaded = vec![
        ("3.11".to_string(), log("3.11", &[("web", 10, 20), ("cli", 30, 40)])),
        ("3.9".to_string(), log("3.9", &[])),
        ("2.7".to_string(), log("2.7", &[("old", 0, 18446744073709551615)])),
    ];
    assert_eq!(
        table_rows(&loaded),
        vec![
            row("3.11", "web", "10", "20"),
            row("3.11", "cli", "30", "40"),
            row("2.7", "old", "0", "18446744073709551615"),
        ]
    );
}

#[test]
fn rows_show_the_scanned_version() {
    let loaded = vec![("3.11".to_string(), log("other", &[("web", 1, 2)]))];
    assert_eq!(table_rows(&loaded), vec![row("3.11", "web", "1", "2")]);
}

#[test]
fn no_logs_give_headers_only() {
    assert!(table_rows(&Vec::new()).is_empty());
    assert_eq!(table_header().version, "Version");
    let state = RendererState::Running;
    assert_eq!(action_for(state), RendererAction::Redraw);
    let state = next_state(state, InputEvent::Character('q'));
    assert_eq!(state, RendererState::Terminated);
    assert_eq!(action_for(state), RendererAction::Restore);
}

#[test]
fn rows_are_appended_behind_what_is_there() {
    let mut rows = vec![row("3.9", "a", "1", "1")];
    append_rows(&mut rows, "3.10", &log("3.10", &[("b", 2, 3)]));
    append_rows(&mut rows, "3.11", &log("3.11", &[]));
    assert_eq!(rows, vec![row("3.9", "a", "1", "1"), row("3.10", "b", "2", "3")]);
}

#[test]
fn only_the_quit_key_ends_the_view() {
    assert_eq!(QUIT_KEY, 'q');
    let running = RendererState::Running;
    assert_eq!(next_state(running, InputEvent::Character('q')), RendererState::Terminated);
    assert_eq!(next_state(running, InputEvent::Character('Q')), RendererState::Running);
    assert_eq!(next_state(running, InputEvent::Character('x')), RendererState::Running);
    assert_eq!(next_state(running, InputEvent::OtherKey), RendererState::Running);
    assert_eq!(next_state(running, InputEvent::Other), RendererState::Running);
}

#[test]
fn an_ended_view_stays_ended() {
    let ended = RendererState::Terminated;
    assert_eq!(next_state(ended, InputEvent::Character('x')), RendererState::Terminated);
    assert_eq!(next_state(ended, InputEvent::Other), RendererState::Terminated);
    assert_eq!(next_state(ended, InputEvent::Character('q')), RendererState::Terminated);
}

#[test]
fn listed_line_names_the_version() {
    assert_eq!(version_listed_line("3.11"), "Python version listed: 3.11");
}

#[test]
fn clock_gives_the_seconds_since_the_epoch() {
    let before = SystemTime::now().duration_since(UNIX_EPOCH).map(|d| d.as_secs()).ok();
    let read = current_timestamp();
    let after = SystemTime::now().duration_since(UNIX_EPOCH).map(|d| d.as_secs()).ok();
    if let (Some(before), Some(after)) = (before, after) {
        if before <= after {
            let read = read.expect("a clock past the epoch gives a timestamp");
            assert!(before <= read && read <= after);
        }
    }
}

#[test]
fn timestamp_is_the_whole_seconds() {
    assert_eq!(timestamp_from(Ok(Duration::from_secs(5))), Some(5));
    assert_eq!(timestamp_from(Ok(Duration::from_millis(1999))), Some(1));
    assert_eq!(timestamp_from(Ok(Duration::new(1_700_000_000, 999_999_999))), Some(1_700_000_000));
    assert_eq!(timestamp_from(Ok(Duration::from_secs(0))), Some(0));
}

#[test]
fn time_before_the_epoch_gives_no_timestamp() {
    let later = UNIX_EPOCH + Duration::from_secs(10);
    assert_eq!(timestamp_from(UNIX_EPOCH.duration_since(later)), None);
    assert_eq!(timestamp_from(later.duration_since(UNIX_EPOCH)), Some(10));
    assert!(timestamp_from(SystemTime::now().duration_since(UNIX_EPOCH)).is_some());
}
