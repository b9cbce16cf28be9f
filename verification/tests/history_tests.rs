use pixel_canvas::UndoQueue;

#[test]
fn fresh_queue_holds_initial_entry() {
    let q: UndoQueue<u32> = UndoQueue::new(7);
    assert_eq!(q.current(), 7);
}

#[test]
fn push_undo_redo_walk_the_history() {
    let mut q: UndoQueue<u32> = UndoQueue::new(1);
    q.push(2);
    q.push(3);
    assert_eq!(q.current(), 3);
    q.undo();
    assert_eq!(q.current(), 2);
    q.undo();
    assert_eq!(q.current(), 1);
    q.redo();
    assert_eq!(q.current(), 2);
    q.redo();
    assert_eq!(q.current(), 3);
}

#[test]
fn undo_clamps_at_initial_entry() {
    let mut q: UndoQueue<u32> = UndoQueue::new(1);
    q.push(2);
    for _ in 0..4 {
        q.undo();
    }
    assert_eq!(q.current(), 1);
}

#[test]
fn redo_clamps_at_newest_entry() {
    let mut q: UndoQueue<u32> = UndoQueue::new(1);
    q.push(2);
    q.undo();
    for _ in 0..4 {
        q.redo();
    }
    assert_eq!(q.current(), 2);
}

#[test]
fn push_after_undo_truncates_tail() {
    let mut q: UndoQueue<u32> = UndoQueue::new(1);
    q.push(2);
    q.push(3);
    q.undo();
    q.push(4);
    assert_eq!(q.current(), 4);
    q.redo();
    assert_eq!(q.current(), 4);
    q.undo();
    assert_eq!(q.current(), 2);
}

#[test]
fn block_pushes_share_one_slot() {
    let mut q: UndoQueue<u32> = UndoQueue::new(1);
    q.push(2);
    q.start_undo_block();
    q.push(10);
    q.push(20);
    q.push(30);
    q.close_undo_block();
    assert_eq!(q.current(), 30);
    q.undo();
    assert_eq!(q.current(), 2);
    q.redo();
    assert_eq!(q.current(), 30);
}

#[test]
fn start_block_while_in_block_rearms() {
    let mut q: UndoQueue<u32> = UndoQueue::new(1);
    q.start_undo_block();
    q.push(2);
    // starting again mid-block splits the gesture: the next push is a new entry
    q.start_undo_block();
    q.push(3);
    q.close_undo_block();
    assert_eq!(q.current(), 3);
    q.undo();
    assert_eq!(q.current(), 2);
    q.undo();
    assert_eq!(q.current(), 1);
}

#[test]
fn close_block_returns_to_one_entry_per_push() {
    let mut q: UndoQueue<u32> = UndoQueue::new(1);
    q.start_undo_block();
    q.push(2);
    q.close_undo_block();
    q.push(3);
    q.push(4);
    assert_eq!(q.current(), 4);
    q.undo();
    assert_eq!(q.current(), 3);
    q.undo();
    assert_eq!(q.current(), 2);
}
