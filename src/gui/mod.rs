mod acquisition;
mod canvas;
mod coordinate_helper;
mod errors;
mod ops;

pub use acquisition::{
    acquire_steps, connection_failure_releases_nothing, is_failure_of, release_of, rollback,
    rollback_closes_display_last, rollback_ops, step_at, AcquireStep, Acquisition, AcquisitionView,
    ACQUIRE_STEP_COUNT,
};
pub use canvas::{
    is_text_plan, is_title_plan, only_close_requests_end_the_loop, open_plan, show_is_idempotent,
    teardown_closes_connection_last, teardown_plan, utf8_len_at_most_four_per_char, CanvasEvent,
    CanvasPhase, CanvasView, GCanvas, GCanvasState, ScreenMetrics,
};
pub use coordinate_helper::GCoordinateHelper;
pub use errors::X11Error;
pub use ops::NativeOp;

use vstd::prelude::*;

verus! {

/// The display that a connection goes to when the caller names none.
pub open spec fn default_display_id() -> Seq<char> {
    seq![':', '0']
}

/// The identifier of the display to connect to: the one given, or the local
/// default display.
pub fn display_id_or_default(display_id: Option<String>) -> (r: String)
    ensures
        display_id matches Some(id) ==> r@ == id@,
        display_id is None ==> r@ == default_display_id(),
{
    match display_id {
        Some(id) => id,
        None => {
            let id = ":0".to_owned();
            proof {
                reveal_strlit(":0");
            }
            assert(id@ =~= default_display_id());
            id
        },
    }
}

} // verus!
