use rustycanvas::api::{
    CanvasError, ClearCanvasResponse, PixelUpdateInput, PixelUpdateResponse,
};
use rustycanvas::grid::{GridStore, CANVAS_HEIGHT, CANVAS_WIDTH, DEFAULT_COLOR};
use rustycanvas::journal::{PixelUpdate, UpdateJournal, JOURNAL_CAPACITY};
use rustycanvas::key::make_key;
use rustycanvas::state::{
    apply_pixel_update, commit_pixel_update, fetch_updates_since, init_app_state,
    log_pixel_update, make_canvas_response, reset_canvas, AppState,
};

fn fresh_state() -> AppState {
    init_app_state(CANVAS_WIDTH, CANVAS_HEIGHT, &Vec::new())
}

fn event(timestamp: u64) -> PixelUpdate {
    PixelUpdate { x: 1, y: 2, color: format!("#{:06}", timestamp), timestamp }
}

fn full_journal_from(t0: u64) -> AppState {
    let mut state = fresh_state();
    for i in 0..JOURNAL_CAPACITY as u64 {
        state.journal.append(event(t0 + i));
    }
    state
}

#[test]
fn set_cell_changes_only_that_cell() {
    let mut grid = GridStore::new(4, 3);
    let before = grid.make_canvas_response();
    assert_eq!(grid.set_cell(2, 1, "#00FF00".to_string()), Ok(()));
    let after = grid.make_canvas_response();
    for y in 0..3 {
        for x in 0..4 {
            if x == 2 && y == 1 {
                assert_eq!(after.pixels[y][x], "#00FF00");
            } else {
                assert_eq!(after.pixels[y][x], before.pixels[y][x]);
            }
        }
    }
}

#[test]
fn set_cell_out_of_bounds_changes_nothing() {
    let mut state = fresh_state();
    let before = make_canvas_response(&state);
    for (x, y) in [(CANVAS_WIDTH, 0), (0, CANVAS_HEIGHT), (u32::MAX, u32::MAX)] {
        let input = PixelUpdateInput { x, y, color: "#123456".to_string() };
        assert_eq!(apply_pixel_update(&mut state, &input), Err(CanvasError::OutOfBounds));
        assert_eq!(
            commit_pixel_update(&mut state, &input, true, 7),
            Err(CanvasError::OutOfBounds)
        );
    }
    assert_eq!(make_canvas_response(&state).pixels, before.pixels);
    assert_eq!(state.journal.len(), 0);
}

#[test]
fn failed_commit_is_not_journalled() {
    let mut state = fresh_state();
    let input = PixelUpdateInput { x: 3, y: 4, color: "#0000FF".to_string() };
    assert_eq!(apply_pixel_update(&mut state, &input), Ok(()));
    let outcome = commit_pixel_update(&mut state, &input, false, 9);
    assert_eq!(outcome, Err(CanvasError::PersistError));
    assert_eq!(state.journal.len(), 0);
    // The in-memory grid keeps the write.
    assert_eq!(make_canvas_response(&state).pixels[4][3], "#0000FF");

    let response = PixelUpdateResponse::from_outcome(&outcome);
    assert!(!response.success);
    assert_eq!(response.error, Some("persist_error".to_string()));
    assert_eq!(CanvasError::PersistError.status_code(), 500);
}

#[test]
fn committed_write_is_journalled() {
    let mut state = fresh_state();
    let input = PixelUpdateInput { x: 3, y: 4, color: "#0000FF".to_string() };
    apply_pixel_update(&mut state, &input).unwrap();
    assert_eq!(commit_pixel_update(&mut state, &input, true, 9), Ok(()));
    let events = state.journal.events();
    assert_eq!(events.len(), 1);
    assert_eq!((events[0].x, events[0].y, events[0].timestamp), (3, 4, 9));
    assert_eq!(events[0].color, "#0000FF");
}

#[test]
fn journal_keeps_the_newest_in_order() {
    let mut journal = UpdateJournal::new();
    for t in 0..(JOURNAL_CAPACITY as u64 + 1) {
        journal.append(event(t));
        assert!(journal.len() <= JOURNAL_CAPACITY);
    }
    let events = journal.events();
    assert_eq!(events.len(), JOURNAL_CAPACITY);
    assert!(journal.is_full());
    let stamps: Vec<u64> = events.iter().map(|e| e.timestamp).collect();
    let expected: Vec<u64> = (1..=JOURNAL_CAPACITY as u64).collect();
    assert_eq!(stamps, expected);
}

#[test]
fn query_since_returns_only_newer_events() {
    let mut journal = UpdateJournal::new();
    for t in [5u64, 10, 10, 20, 30] {
        journal.append(event(t));
    }
    let got: Vec<u64> = journal.query_since(10).iter().map(|e| e.timestamp).collect();
    assert_eq!(got, vec![20, 30]);
    assert!(journal.query_since(30).is_empty());
    assert_eq!(journal.query_since(0).len(), 5);
}

#[test]
fn short_journal_never_requires_reset() {
    let mut state = fresh_state();
    for t in 100..149u64 {
        state.journal.append(event(t));
    }
    assert_eq!(state.journal.len(), JOURNAL_CAPACITY - 1);
    for since in [0u64, 99, 100, 120, 148, 1000] {
        let (_, reset) = fetch_updates_since(&state, since);
        assert!(!reset);
    }
    let (updates, reset) = fetch_updates_since(&state, 0);
    assert!(!reset);
    assert_eq!(updates.len(), 49);
}

#[test]
fn empty_journal_returns_nothing() {
    let state = fresh_state();
    let (updates, reset) = fetch_updates_since(&state, 0);
    assert!(updates.is_empty());
    assert!(!reset);
}

#[test]
fn full_journal_boundary_of_the_oldest_event() {
    let state = full_journal_from(1000);
    // One millisecond before the oldest event: resync.
    let (updates, reset) = fetch_updates_since(&state, 999);
    assert!(reset);
    assert!(updates.is_empty());
    // Exactly at the oldest event: no resync, every later event.
    let (updates, reset) = fetch_updates_since(&state, 1000);
    assert!(!reset);
    assert_eq!(updates.len(), JOURNAL_CAPACITY - 1);
    assert_eq!(updates[0].timestamp, 1001);
    assert_eq!(updates.last().unwrap().timestamp, 1049);
}

#[test]
fn full_journal_scenario_of_fifty_events() {
    let t0: u64 = 5000;
    let state = full_journal_from(t0);
    let (updates, reset) = fetch_updates_since(&state, t0 - 1);
    assert!(reset);
    assert!(updates.is_empty());
    let t49 = t0 + 49;
    let (updates, reset) = fetch_updates_since(&state, t49);
    assert!(!reset);
    assert!(updates.is_empty());
}

#[test]
fn reset_makes_every_cell_default_and_keeps_the_journal() {
    let mut state = fresh_state();
    for (x, y) in [(0u32, 0u32), (31, 15), (7, 3)] {
        let input = PixelUpdateInput { x, y, color: "#FFFFFF".to_string() };
        apply_pixel_update(&mut state, &input).unwrap();
        commit_pixel_update(&mut state, &input, true, 1).unwrap();
    }
    reset_canvas(&mut state);
    let canvas = make_canvas_response(&state);
    assert_eq!(canvas.width, CANVAS_WIDTH);
    assert_eq!(canvas.height, CANVAS_HEIGHT);
    for row in &canvas.pixels {
        assert_eq!(row.len(), CANVAS_WIDTH as usize);
        for cell in row {
            assert_eq!(cell, DEFAULT_COLOR);
        }
    }
    assert_eq!(state.journal.len(), 3);
}

#[test]
fn scenario_grid_write_and_out_of_bounds() {
    let mut state = fresh_state();
    let input = PixelUpdateInput { x: 0, y: 0, color: "#FF0000".to_string() };
    assert_eq!(apply_pixel_update(&mut state, &input), Ok(()));
    assert_eq!(make_canvas_response(&state).pixels[0][0], "#FF0000");
    let input = PixelUpdateInput { x: 999, y: 999, color: "#123456".to_string() };
    assert_eq!(apply_pixel_update(&mut state, &input), Err(CanvasError::OutOfBounds));
}

#[test]
fn keys_are_decimal_coordinates() {
    assert_eq!(make_key(5, 10), "5:10");
    assert_eq!(make_key(0, 0), "0:0");
    assert_eq!(make_key(31, 15), "31:15");
    assert_eq!(make_key(u32::MAX, 1234567890), "4294967295:1234567890");
}

#[test]
fn load_fills_missing_cells_with_default() {
    let stored = vec![
        vec![Some("#111111".to_string()), None],
        vec![None, Some("#222222".to_string()), Some("#333333".to_string())],
    ];
    let grid = GridStore::load(2, 3, &stored);
    assert_eq!(grid.width(), 2);
    assert_eq!(grid.height(), 3);
    let canvas = grid.make_canvas_response();
    assert_eq!(canvas.pixels.len(), 3);
    assert_eq!(canvas.pixels[0], vec!["#111111", DEFAULT_COLOR]);
    assert_eq!(canvas.pixels[1], vec![DEFAULT_COLOR, "#222222"]);
    assert_eq!(canvas.pixels[2], vec![DEFAULT_COLOR, DEFAULT_COLOR]);
    assert_eq!(grid.cell(1, 1), "#222222");
}

#[test]
fn log_evicts_oldest_after_capacity() {
    let mut state = fresh_state();
    for t in 0..=JOURNAL_CAPACITY as u64 {
        log_pixel_update(&mut state, 0, 0, "#000000".to_string(), t);
    }
    assert_eq!(state.journal.len(), JOURNAL_CAPACITY);
    assert_eq!(state.journal.oldest().unwrap().timestamp, 1);
}

#[test]
fn error_codes_and_reset_messages() {
    assert_eq!(CanvasError::OutOfBounds.code(), "out_of_bounds");
    assert_eq!(CanvasError::PersistError.code(), "persist_error");
    let failed = ClearCanvasResponse::from_outcome(&Err(CanvasError::PersistError));
    assert!(!failed.success);
    assert_eq!(failed.message, "persist_error");
    let ok = PixelUpdateResponse::from_outcome(&Ok(()));
    assert!(ok.success);
    assert_eq!(ok.error, None);
}
