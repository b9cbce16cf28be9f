mod canvas;
mod color;
mod history;
mod state;

pub use canvas::CanvasError;
pub use canvas::Image;
pub use canvas::ImageView;
pub use canvas::lemma_painted_preserves_other_cells;
pub use canvas::lemma_row_major_in_range;
pub use color::RGB;
pub use color::default_color;
pub use color::spec_color_of;
pub use color::spec_default_color;
pub use history::Mode;
pub use history::QueueModel;
pub use history::UndoQueue;
pub use history::lemma_block_coalescing;
pub use history::lemma_cursor_clamping;
pub use history::lemma_push_truncates;
pub use history::lemma_undo_push_discards_redo;
pub use history::lemma_undo_redo_round_trip;
pub use history::spec_close_block;
pub use history::spec_new_queue;
pub use history::spec_push;
pub use history::spec_redo;
pub use history::spec_start_block;
pub use history::spec_undo;
pub use state::InternalState;
