use istage::model::Direction;
use istage::model::Event;
use istage::model::SelectionModel;
use istage::model::Step;
use istage::reconcile::assemble_report;
use istage::reconcile::has_stage_batch;
use istage::reconcile::has_unstage_batch;
use istage::reconcile::plan_operations;
use istage::reconcile::ReconcileError;
use istage::render::render_row;
use istage::status::build_entries;
use istage::status::classify_staged;
use istage::status::Entry;
use istage::status::LoadError;
use istage::status::StatusRow;

fn row(path: &str, index_new: bool, index_modified: bool, wt_modified: bool) -> StatusRow {
    StatusRow {
        path: String::from(path),
        index_new,
        index_modified,
        wt_modified,
    }
}

fn entry(path: &str, original_staged: bool, desired_staged: bool) -> Entry {
    Entry {
        path: String::from(path),
        original_staged,
        desired_staged,
    }
}

#[test]
fn classify_index_change_alone_is_staged() {
    assert!(classify_staged(true, false, false));
    assert!(classify_staged(false, true, false));
    assert!(classify_staged(true, true, false));
}

#[test]
fn classify_working_tree_delta_marks_unstaged() {
    // A path with both a staged and an unstaged change counts as unstaged.
    assert!(!classify_staged(true, false, true));
    assert!(!classify_staged(false, true, true));
}

#[test]
fn classify_untracked_is_unstaged() {
    assert!(!classify_staged(false, false, false));
    assert!(!classify_staged(false, false, true));
}

#[test]
fn empty_load_reports_no_changes() {
    let r = build_entries(Vec::new());
    assert!(matches!(r, Err(LoadError::NoChanges)));
}

#[test]
fn load_preserves_order_and_initializes_desired() {
    let rows = vec![
        row("a.txt", false, false, true),
        row("b.txt", true, false, false),
        row("c.txt", false, true, true),
    ];
    let entries = build_entries(rows).unwrap();
    assert_eq!(entries.len(), 3);
    assert_eq!(entries[0].path, "a.txt");
    assert!(!entries[0].original_staged);
    assert!(!entries[0].desired_staged);
    assert_eq!(entries[1].path, "b.txt");
    assert!(entries[1].original_staged);
    assert!(entries[1].desired_staged);
    assert_eq!(entries[2].path, "c.txt");
    assert!(!entries[2].original_staged);
    assert!(!entries[2].desired_staged);
}

#[test]
fn fresh_load_plans_no_operations() {
    let rows = vec![row("a.txt", false, false, true), row("b.txt", true, false, false)];
    let entries = build_entries(rows).unwrap();
    let plan = plan_operations(entries);
    assert!(plan.to_stage.is_empty());
    assert!(plan.to_unstage.is_empty());
    assert!(!has_stage_batch(&plan));
    assert!(!has_unstage_batch(&plan));
}

#[test]
fn cursor_up_at_first_index_stays() {
    let mut m = SelectionModel::new(vec![entry("a", false, false), entry("b", true, true)]);
    assert_eq!(m.cursor, 0);
    m.move_cursor(Direction::Up);
    assert_eq!(m.cursor, 0);
}

#[test]
fn cursor_down_at_last_index_stays() {
    let mut m = SelectionModel::new(vec![entry("a", false, false), entry("b", true, true)]);
    m.move_cursor(Direction::Down);
    assert_eq!(m.cursor, 1);
    m.move_cursor(Direction::Down);
    assert_eq!(m.cursor, 1);
}

#[test]
fn cursor_moves_within_bounds() {
    let mut m = SelectionModel::new(vec![
        entry("a", false, false),
        entry("b", true, true),
        entry("c", false, false),
    ]);
    m.move_cursor(Direction::Down);
    m.move_cursor(Direction::Down);
    assert_eq!(m.cursor, 2);
    m.move_cursor(Direction::Up);
    assert_eq!(m.cursor, 1);
    m.move_cursor(Direction::Up);
    assert_eq!(m.cursor, 0);
}

#[test]
fn toggle_flips_only_entry_under_cursor() {
    let mut m = SelectionModel::new(vec![entry("a", false, false), entry("b", true, true)]);
    m.toggle_current();
    assert!(m.entries[0].desired_staged);
    assert!(!m.entries[0].original_staged);
    assert!(m.entries[1].desired_staged);
    assert_eq!(m.cursor, 0);
}

#[test]
fn double_toggle_restores_original() {
    let mut m = SelectionModel::new(vec![entry("a", false, false)]);
    m.toggle_current();
    assert!(m.entries[0].desired_staged);
    m.toggle_current();
    assert!(!m.entries[0].desired_staged);
}

#[test]
fn odd_toggle_count_flips_even_count_restores() {
    let mut m = SelectionModel::new(vec![entry("a", true, true)]);
    for _ in 0..5 {
        m.toggle_current();
    }
    assert!(!m.entries[0].desired_staged);
    for _ in 0..5 {
        m.toggle_current();
    }
    assert!(m.entries[0].desired_staged);
}

#[test]
fn handle_event_drives_the_model() {
    let mut m = SelectionModel::new(vec![entry("a", false, false), entry("b", true, true)]);
    assert_eq!(m.handle_event(Event::Down), Step::Continue);
    assert_eq!(m.cursor, 1);
    assert_eq!(m.handle_event(Event::Toggle), Step::Continue);
    assert!(!m.entries[1].desired_staged);
    assert_eq!(m.handle_event(Event::Up), Step::Continue);
    assert_eq!(m.cursor, 0);
    assert_eq!(m.handle_event(Event::Other), Step::Continue);
    assert_eq!(m.cursor, 0);
    assert!(!m.entries[1].desired_staged);
    assert_eq!(m.handle_event(Event::Confirm), Step::Finished);
    assert_eq!(m.handle_event(Event::Quit), Step::Cancelled);
}

#[test]
fn unchanged_entries_reach_no_batch() {
    // Toggles that net out to the original value issue no operation.
    let mut m = SelectionModel::new(vec![entry("a", false, false), entry("b", true, true)]);
    m.toggle_current();
    m.toggle_current();
    m.handle_event(Event::Down);
    m.handle_event(Event::Toggle);
    m.handle_event(Event::Toggle);
    let plan = plan_operations(m.entries);
    assert!(plan.to_stage.is_empty());
    assert!(plan.to_unstage.is_empty());
}

#[test]
fn plan_partitions_by_net_change() {
    let entries = vec![
        entry("stage-me", false, true),
        entry("keep-staged", true, true),
        entry("unstage-me", true, false),
        entry("keep-unstaged", false, false),
    ];
    let plan = plan_operations(entries);
    assert_eq!(plan.to_stage, vec![String::from("stage-me")]);
    assert_eq!(plan.to_unstage, vec![String::from("unstage-me")]);
}

#[test]
fn single_toggle_stages_one_file() {
    // Load gives a.txt unstaged and b.txt staged; the user toggles a.txt
    // once and confirms without touching b.txt.
    let rows = vec![row("a.txt", false, false, true), row("b.txt", true, false, false)];
    let mut m = SelectionModel::new(build_entries(rows).unwrap());
    assert_eq!(m.handle_event(Event::Toggle), Step::Continue);
    assert_eq!(m.handle_event(Event::Confirm), Step::Finished);
    let plan = plan_operations(m.entries);
    assert_eq!(plan.to_stage, vec![String::from("a.txt")]);
    assert!(plan.to_unstage.is_empty());
    assert!(!has_unstage_batch(&plan));
    let report = assemble_report(&plan, Ok(()), Ok(()));
    assert_eq!(report.staged_count, 1);
    assert_eq!(report.unstaged_count, 0);
    assert!(report.staging_error.is_none());
    assert!(report.unstaging_error.is_none());
}

#[test]
fn toggle_twice_then_confirm_issues_nothing() {
    // Load gives c.txt staged; the user toggles it twice and confirms.
    let rows = vec![row("c.txt", true, false, false)];
    let mut m = SelectionModel::new(build_entries(rows).unwrap());
    m.handle_event(Event::Toggle);
    m.handle_event(Event::Toggle);
    assert_eq!(m.handle_event(Event::Confirm), Step::Finished);
    let plan = plan_operations(m.entries);
    assert!(!has_stage_batch(&plan));
    assert!(!has_unstage_batch(&plan));
    let report = assemble_report(&plan, Ok(()), Ok(()));
    assert_eq!(report.staged_count, 0);
    assert_eq!(report.unstaged_count, 0);
    assert!(report.staging_error.is_none());
    assert!(report.unstaging_error.is_none());
}

#[test]
fn staging_failure_does_not_hide_unstaging_success() {
    // The staging batch fails while the unstage batch for a different
    // path succeeds: each batch is reported on its own.
    let entries = vec![entry("new.txt", false, true), entry("old.txt", true, false)];
    let plan = plan_operations(entries);
    let failure = ReconcileError {
        message: String::from("backend rejected the batch"),
    };
    let report = assemble_report(&plan, Err(failure), Ok(()));
    assert!(report.unstaged_count > 0);
    assert_eq!(report.unstaged_count, 1);
    assert_eq!(report.staged_count, 0);
    assert!(report.staging_error.is_some());
    assert_eq!(
        report.staging_error.unwrap().message,
        "backend rejected the batch"
    );
    assert!(report.unstaging_error.is_none());
}

#[test]
fn unstaging_failure_does_not_hide_staging_success() {
    let entries = vec![entry("new.txt", false, true), entry("old.txt", true, false)];
    let plan = plan_operations(entries);
    let failure = ReconcileError {
        message: String::from("restore failed"),
    };
    let report = assemble_report(&plan, Ok(()), Err(failure));
    assert_eq!(report.staged_count, 1);
    assert_eq!(report.unstaged_count, 0);
    assert!(report.staging_error.is_none());
    assert_eq!(report.unstaging_error.unwrap().message, "restore failed");
}

#[test]
fn snapshot_marks_cursor_and_desired() {
    let mut m = SelectionModel::new(vec![entry("a.txt", false, true), entry("b.txt", true, true)]);
    m.move_cursor(Direction::Down);
    let rows = m.snapshot_for_render();
    assert_eq!(rows.len(), 2);
    assert_eq!(rows[0].path, "a.txt");
    assert!(rows[0].desired_staged);
    assert!(!rows[0].is_cursor);
    assert_eq!(rows[1].path, "b.txt");
    assert!(rows[1].desired_staged);
    assert!(rows[1].is_cursor);
}

#[test]
fn render_row_formats_markers_and_checkbox() {
    let m = SelectionModel::new(vec![entry("a.txt", false, true), entry("b.txt", false, false)]);
    let rows = m.snapshot_for_render();
    assert_eq!(render_row(&rows[0]), ">[x] a.txt<");
    assert_eq!(render_row(&rows[1]), " [ ] b.txt ");
}
