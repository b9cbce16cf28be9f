use pixel_canvas::CanvasError;
use pixel_canvas::Image;
use pixel_canvas::InternalState;
use pixel_canvas::RGB;
use pixel_canvas::default_color;

fn default_bytes(cells: usize) -> Vec<u8> {
    let mut out: Vec<u8> = Vec::new();
    for _ in 0..cells {
        out.push(31);
        out.push(95);
        out.push(111);
    }
    out
}

#[test]
fn default_color_components() {
    assert_eq!(default_color(), RGB { r: 31, g: 95, b: 111 });
}

#[test]
fn new_canvas_is_all_default() {
    let img = Image::new(2, 2);
    assert_eq!(img.width(), 2);
    assert_eq!(img.height(), 2);
    assert_eq!(img.cells(), default_bytes(4));
}

#[test]
fn flatten_length_matches_grid() {
    let img = Image::new(3, 2);
    assert_eq!(img.cells().len(), 3 * 3 * 2);
    assert_eq!(img.cells(), default_bytes(6));
}

#[test]
fn brush_paints_exactly_one_cell() {
    let img = Image::new(2, 2);
    let img2 = img.brush(0, 0, vec![255, 0, 0]).unwrap().unwrap();
    assert_eq!(img2.cells(), vec![255, 0, 0, 31, 95, 111, 31, 95, 111, 31, 95, 111]);
    assert_eq!(img2.width(), 2);
    assert_eq!(img2.height(), 2);
}

#[test]
fn brush_leaves_source_snapshot_unchanged() {
    let img = Image::new(2, 2);
    let img2 = img.brush(1, 1, vec![1, 2, 3]).unwrap().unwrap();
    // the older snapshot still reads the colors it held before
    assert_eq!(img.cells(), default_bytes(4));
    // and the derived one differs only at (1, 1)
    assert_eq!(img2.cells(), vec![31, 95, 111, 31, 95, 111, 31, 95, 111, 1, 2, 3]);
}

#[test]
fn brush_same_color_is_noop() {
    let img = Image::new(2, 2);
    let r = img.brush(1, 0, vec![31, 95, 111]);
    assert!(matches!(r, Ok(None)));
}

#[test]
fn brush_rejects_short_color() {
    let img = Image::new(2, 2);
    assert!(matches!(img.brush(0, 0, vec![1, 2]), Err(CanvasError::InvalidColor)));
    assert!(matches!(img.brush(0, 0, vec![1, 2, 3, 4]), Err(CanvasError::InvalidColor)));
}

#[test]
fn brush_rejects_out_of_bounds() {
    let img = Image::new(2, 3);
    assert!(matches!(img.brush(2, 0, vec![1, 2, 3]), Err(CanvasError::IndexOutOfBounds)));
    assert!(matches!(img.brush(0, 3, vec![1, 2, 3]), Err(CanvasError::IndexOutOfBounds)));
    assert!(matches!(img.brush(0, 0, vec![1, 2, 3]), Ok(Some(_))));
}

#[test]
fn scenario_two_by_two_round_trip() {
    let mut s = InternalState::new(2, 2);
    assert_eq!(s.image().cells(), default_bytes(4));
    s.brush(0, 0, vec![255, 0, 0]).unwrap();
    assert_eq!(s.image().cells(), vec![255, 0, 0, 31, 95, 111, 31, 95, 111, 31, 95, 111]);
    s.undo();
    assert_eq!(s.image().cells(), default_bytes(4));
    s.redo();
    assert_eq!(s.image().cells(), vec![255, 0, 0, 31, 95, 111, 31, 95, 111, 31, 95, 111]);
}

#[test]
fn noop_brush_adds_no_undo_step() {
    let mut s = InternalState::new(2, 2);
    s.brush(0, 0, vec![255, 0, 0]).unwrap();
    // painting the same color again changes nothing and records nothing
    s.brush(0, 0, vec![255, 0, 0]).unwrap();
    let painted = s.image().cells();
    assert_eq!(painted, vec![255, 0, 0, 31, 95, 111, 31, 95, 111, 31, 95, 111]);
    s.undo();
    assert_eq!(s.image().cells(), default_bytes(4));
}

#[test]
fn undo_then_push_discards_redo_branch() {
    let mut s = InternalState::new(2, 2);
    s.brush(0, 0, vec![255, 0, 0]).unwrap();
    s.brush(1, 0, vec![0, 255, 0]).unwrap();
    s.undo();
    s.brush(1, 1, vec![0, 0, 255]).unwrap();
    let after_branch = s.image().cells();
    // the branch holding the green stroke is gone: redo is a no-op
    s.redo();
    assert_eq!(s.image().cells(), after_branch);
    assert_eq!(after_branch, vec![255, 0, 0, 31, 95, 111, 31, 95, 111, 0, 0, 255]);
}

#[test]
fn undo_redo_restores_current_exactly() {
    let mut s = InternalState::new(3, 3);
    s.brush(0, 0, vec![10, 20, 30]).unwrap();
    s.brush(2, 2, vec![40, 50, 60]).unwrap();
    s.brush(1, 1, vec![70, 80, 90]).unwrap();
    let before = s.image().cells();
    s.undo();
    s.redo();
    assert_eq!(s.image().cells(), before);
}

#[test]
fn block_coalesces_into_one_undo_step() {
    let mut s = InternalState::new(2, 2);
    s.start_undo_block();
    s.brush(0, 0, vec![255, 0, 0]).unwrap();
    s.brush(1, 0, vec![0, 255, 0]).unwrap();
    s.brush(0, 1, vec![0, 0, 255]).unwrap();
    s.close_undo_block();
    let gesture = s.image().cells();
    assert_eq!(gesture, vec![255, 0, 0, 0, 255, 0, 0, 0, 255, 31, 95, 111]);
    // a single undo steps over the whole gesture, not to an intermediate stroke
    s.undo();
    assert_eq!(s.image().cells(), default_bytes(4));
    s.redo();
    assert_eq!(s.image().cells(), gesture);
}

#[test]
fn cursor_clamps_at_both_ends() {
    let mut s = InternalState::new(2, 2);
    s.brush(0, 0, vec![255, 0, 0]).unwrap();
    let newest = s.image().cells();
    for _ in 0..5 {
        s.undo();
    }
    assert_eq!(s.image().cells(), default_bytes(4));
    for _ in 0..5 {
        s.redo();
    }
    assert_eq!(s.image().cells(), newest);
}

#[test]
fn state_brush_reports_errors_and_keeps_history() {
    let mut s = InternalState::new(2, 2);
    assert_eq!(s.brush(0, 0, vec![1, 2]), Err(CanvasError::InvalidColor));
    assert_eq!(s.brush(5, 0, vec![1, 2, 3]), Err(CanvasError::IndexOutOfBounds));
    assert_eq!(s.image().cells(), default_bytes(4));
    s.undo();
    assert_eq!(s.image().cells(), default_bytes(4));
}
