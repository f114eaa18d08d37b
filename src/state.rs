//! The shared application state and the operations that keep the grid and the
//! journal in step.

use vstd::prelude::*;
use crate::api::{CanvasError, CanvasResponse, PixelUpdateInput};
use crate::grid::{GridStore, GridView, rows_view, stored_color, stored_view};
use crate::journal::{EventView, PixelUpdate, UpdateJournal, bounded_push, events_view};
use crate::sync::sync_decision;

verus! {

/// The grid and its journal, constructed once and handed to every request.
pub struct AppState {
    pub grid: GridStore,
    pub journal: UpdateJournal,
}

/// The journal event for a write of `color` to `(x, y)` at `timestamp`.
pub open spec fn event_of(x: u32, y: u32, color: Seq<char>, timestamp: u64) -> EventView {
    EventView { x, y, color, timestamp }
}

/// A state whose grid is loaded from stored tokens (see `GridStore::load`)
/// and whose journal is empty.
pub fn init_app_state(width: u32, height: u32, stored: &Vec<Vec<Option<String>>>) -> (r: AppState)
    ensures
        r.grid@.width == width,
        r.grid@.height == height,
        r.grid@.well_formed(),
        forall|x: int, y: int|
            r.grid@.in_bounds(x, y) ==> #[trigger] r.grid@.cell(x, y) == stored_color(
                stored_view(stored),
                x,
                y,
            ),
        r.journal@ == Seq::<EventView>::empty(),
{
    AppState { grid: GridStore::load(width, height, stored), journal: UpdateJournal::new() }
}

/// A full snapshot of the grid.
pub fn make_canvas_response(state: &AppState) -> (r: CanvasResponse)
    ensures
        r.width == state.grid@.width,
        r.height == state.grid@.height,
        rows_view(&r.pixels) == state.grid@.cells,
{
    state.grid.make_canvas_response()
}

/// Writes one cell in memory. Fails with `OutOfBounds`, changing nothing,
/// when the cell lies outside the grid. The journal is never touched here:
/// the write is recorded by `commit_pixel_update` once it is durable.
pub fn apply_pixel_update(state: &mut AppState, input: &PixelUpdateInput) -> (r: Result<(), CanvasError>)
    ensures
        old(state).grid@.in_bounds(input.x as int, input.y as int) ==> r is Ok
            && final(state).grid@ == old(state).grid@.set_cell(
            input.x as int,
            input.y as int,
            input.color@,
        ),
        !old(state).grid@.in_bounds(input.x as int, input.y as int) ==> r == Err::<(), CanvasError>(
            CanvasError::OutOfBounds,
        ) && final(state).grid@ == old(state).grid@,
        final(state).journal@ == old(state).journal@,
{
    state.grid.set_cell(input.x, input.y, input.color.clone())
}

/// Appends the event for a write of `color` to `(x, y)` at `timestamp`.
pub fn log_pixel_update(state: &mut AppState, x: u32, y: u32, color: String, timestamp: u64)
    ensures
        final(state).journal@ == bounded_push(
            old(state).journal@,
            event_of(x, y, color@, timestamp),
        ),
        final(state).grid@ == old(state).grid@,
{
    state.journal.append(PixelUpdate { x, y, color, timestamp });
}

/// Settles a cell write once its durable commit has been attempted:
/// `persisted` says whether it succeeded. The event is journalled exactly
/// when the cell is on the grid and the commit succeeded; a failed commit
/// is reported as `PersistError`. The grid is not changed.
pub fn commit_pixel_update(
    state: &mut AppState,
    input: &PixelUpdateInput,
    persisted: bool,
    timestamp: u64,
) -> (r: Result<(), CanvasError>)
    ensures
        !old(state).grid@.in_bounds(input.x as int, input.y as int) ==> r == Err::<(), CanvasError>(
            CanvasError::OutOfBounds,
        ) && final(state).journal@ == old(state).journal@,
        old(state).grid@.in_bounds(input.x as int, input.y as int) && persisted ==> r is Ok
            && final(state).journal@ == bounded_push(
            old(state).journal@,
            event_of(input.x, input.y, input.color@, timestamp),
        ),
        old(state).grid@.in_bounds(input.x as int, input.y as int) && !persisted ==> r
            == Err::<(), CanvasError>(CanvasError::PersistError) && final(state).journal@ == old(
            state,
        ).journal@,
        final(state).grid@ == old(state).grid@,
{
    if input.x >= state.grid.width() || input.y >= state.grid.height() {
        return Err(CanvasError::OutOfBounds);
    }
    if !persisted {
        return Err(CanvasError::PersistError);
    }
    log_pixel_update(state, input.x, input.y, input.color.clone(), timestamp);
    Ok(())
}

/// Sets every cell to the default colour. The journal is kept as it is.
pub fn reset_canvas(state: &mut AppState)
    ensures
        final(state).grid@ == GridView::blank(old(state).grid@.width, old(state).grid@.height),
        final(state).journal@ == old(state).journal@,
{
    state.grid.reset();
}

/// Answers a poll with cursor `since`: the events to apply, and whether the
/// client must fetch a full snapshot instead (see `sync_decision`).
pub fn fetch_updates_since(state: &AppState, since: u64) -> (r: (Vec<PixelUpdate>, bool))
    ensures
        (events_view(r.0@), r.1) == sync_decision(state.journal@, since),
{
    let journal = &state.journal;
    match journal.oldest() {
        None => {
            let r: (Vec<PixelUpdate>, bool) = (Vec::new(), false);
            assert(events_view(r.0@) =~= Seq::<EventView>::empty());
            r
        },
        Some(first) => {
            if journal.is_full() && since < first.timestamp {
                let r: (Vec<PixelUpdate>, bool) = (Vec::new(), true);
                assert(events_view(r.0@) =~= Seq::<EventView>::empty());
                r
            } else {
                (journal.query_since(since), false)
            }
        },
    }
}

} // verus!
