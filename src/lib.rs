mod coordinate_box;
mod gui;
mod object;
pub mod traits;

pub use coordinate_box::{fits_i32, CoordinateBox};
pub use gui::{
    acquire_steps, connection_failure_releases_nothing, default_display_id, display_id_or_default,
    is_failure_of, is_text_plan, is_title_plan, only_close_requests_end_the_loop, open_plan,
    release_of, rollback, rollback_closes_display_last, rollback_ops, show_is_idempotent, step_at,
    teardown_closes_connection_last, teardown_plan, utf8_len_at_most_four_per_char,
    ACQUIRE_STEP_COUNT, AcquireStep, Acquisition, AcquisitionView, CanvasEvent, CanvasPhase,
    CanvasView, GCanvas, GCanvasState, GCoordinateHelper, NativeOp, ScreenMetrics, X11Error,
};
pub use object::Object;
