use super::display_id_or_default;
use super::errors::X11Error;
use super::ops::NativeOp;
use vstd::prelude::*;

verus! {

/// The native resources a canvas acquires, one step each, in this order.
#[derive(Debug, Clone, Copy, PartialEq, Eq)]
pub enum AcquireStep {
    /// Connect to the display server.
    OpenDisplay,
    /// Pick a true-colour visual of the screen's default depth.
    MatchVisual,
    /// Create the window under the screen's root.
    CreateWindow,
    /// Create the graphics context for 2-D drawing.
    CreateGraphicsContext,
    /// Create the accelerated rendering context.
    CreateRenderContext,
}

/// How many steps building a canvas takes.
pub const ACQUIRE_STEP_COUNT: usize = 5;

pub open spec fn acquire_steps() -> Seq<AcquireStep> {
    seq![
        AcquireStep::OpenDisplay,
        AcquireStep::MatchVisual,
        AcquireStep::CreateWindow,
        AcquireStep::CreateGraphicsContext,
        AcquireStep::CreateRenderContext,
    ]
}

/// What gives back the resource a step acquired. The visual is a plain
/// description and the window goes away with the connection, so neither
/// has a release of its own.
pub open spec fn release_of(step: AcquireStep) -> Seq<NativeOp> {
    match step {
        AcquireStep::OpenDisplay => seq![NativeOp::CloseDisplay],
        AcquireStep::CreateGraphicsContext => seq![NativeOp::FreeGraphicsContext],
        AcquireStep::CreateRenderContext => seq![NativeOp::DestroyRenderContext],
        _ => seq![],
    }
}

/// The releases that undo the first `done` steps, the newest first.
pub open spec fn rollback(done: nat) -> Seq<NativeOp>
    decreases done,
{
    if done == 0 {
        seq![]
    } else {
        release_of(acquire_steps()[done - 1]) + rollback((done - 1) as nat)
    }
}

/// `e` is the error that reports a failure of `step` on the display
/// `display_id`.
pub open spec fn is_failure_of(e: X11Error, step: AcquireStep, display_id: Seq<char>) -> bool {
    match step {
        AcquireStep::OpenDisplay => e matches X11Error::CouldNotOpen(id) && id@ == display_id,
        AcquireStep::MatchVisual => e is NoMatchingVisual,
        AcquireStep::CreateWindow => e is CouldNotCreateWindow,
        AcquireStep::CreateGraphicsContext => e is CouldNotCreateGC,
        AcquireStep::CreateRenderContext => e is CouldNotCreateGLContext,
    }
}

/// The step at position `i` of the acquisition order.
pub fn step_at(i: usize) -> (r: AcquireStep)
    requires
        i < ACQUIRE_STEP_COUNT,
    ensures
        r == acquire_steps()[i as int],
{
    match i {
        0 => AcquireStep::OpenDisplay,
        1 => AcquireStep::MatchVisual,
        2 => AcquireStep::CreateWindow,
        3 => AcquireStep::CreateGraphicsContext,
        _ => AcquireStep::CreateRenderContext,
    }
}

/// The requests that undo the first `done` steps, the newest first.
pub fn rollback_ops(done: usize) -> (r: Vec<NativeOp>)
    requires
        done <= ACQUIRE_STEP_COUNT,
    ensures
        r@ == rollback(done as nat),
{
    let mut ops: Vec<NativeOp> = Vec::new();
    let mut i: usize = 0;
    while i < done
        invariant
            i <= done <= ACQUIRE_STEP_COUNT,
            ops@ == rollback(i as nat),
        decreases done - i,
    {
        let step = step_at(i);
        match step {
            AcquireStep::OpenDisplay => ops.insert(0, NativeOp::CloseDisplay),
            AcquireStep::CreateGraphicsContext => ops.insert(0, NativeOp::FreeGraphicsContext),
            AcquireStep::CreateRenderContext => ops.insert(0, NativeOp::DestroyRenderContext),
            _ => {},
        }
        i = i + 1;
        assert(ops@ =~= rollback(i as nat));
    }
    ops
}

/// A failed connection is reported with the display's identifier, and
/// nothing has been acquired that would need releasing.
pub proof fn connection_failure_releases_nothing(e: X11Error, display_id: Seq<char>)
    ensures
        is_failure_of(e, acquire_steps()[0], display_id) <==> (e matches X11Error::CouldNotOpen(
            id,
        ) && id@ == display_id),
        rollback(0) == Seq::<NativeOp>::empty(),
{
}

/// Once the connection is open, undoing any number of later steps closes
/// the connection exactly once, and last: every context is released while
/// the connection is still there.
pub proof fn rollback_closes_display_last(done: nat)
    requires
        1 <= done <= ACQUIRE_STEP_COUNT,
    ensures
        rollback(done).len() >= 1,
        rollback(done).last() == NativeOp::CloseDisplay,
        forall|i: int| 0 <= i < rollback(done).len() - 1 ==> rollback(done)[i] != NativeOp::CloseDisplay,
    decreases done,
{
    if done == 1 {
        assert(rollback(0) == Seq::<NativeOp>::empty());
        assert(rollback(1) =~= seq![NativeOp::CloseDisplay]);
    } else {
        let prev = (done - 1) as nat;
        rollback_closes_display_last(prev);
        let head = release_of(acquire_steps()[done - 1]);
        assert(rollback(done) == head + rollback(prev));
        assert(forall|i: int| 0 <= i < head.len() ==> head[i] != NativeOp::CloseDisplay);
        assert forall|i: int| 0 <= i < rollback(done).len() - 1 implies rollback(done)[i]
            != NativeOp::CloseDisplay by {
            if i >= head.len() {
                assert(rollback(done)[i] == rollback(prev)[i - head.len()]);
            }
        }
    }
}

/// The acquisition as a value: the display it goes to and how many steps
/// have succeeded.
pub struct AcquisitionView {
    pub display_id: Seq<char>,
    pub done: nat,
}

/// Building a canvas in progress. Each step either succeeds, and the next
/// one is due, or fails, and the acquisition is consumed: the caller gets
/// the error and the releases that undo what was acquired, never a partly
/// built canvas.
pub struct Acquisition {
    display_id: String,
    done: usize,
}

impl View for Acquisition {
    type V = AcquisitionView;

    closed spec fn view(&self) -> AcquisitionView {
        AcquisitionView { display_id: self.display_id@, done: self.done as nat }
    }
}

impl Acquisition {
    /// No more steps have succeeded than there are.
    pub open spec fn wf(&self) -> bool {
        self@.done <= ACQUIRE_STEP_COUNT
    }

    /// Starts building a canvas on the given display, or on the local
    /// default display when none is given.
    pub fn begin(display_id: Option<String>) -> (r: Self)
        ensures
            r.wf(),
            r@.done == 0,
            display_id matches Some(id) ==> r@.display_id == id@,
            display_id is None ==> r@.display_id == super::default_display_id(),
    {
        Acquisition { display_id: display_id_or_default(display_id), done: 0 }
    }

    /// The identifier of the display being connected to.
    pub fn display_id(&self) -> (r: &String)
        ensures
            r@ == self@.display_id,
    {
        &self.display_id
    }

    /// The step to take next, or `None` once all have succeeded.
    pub fn next_step(&self) -> (r: Option<AcquireStep>)
        requires
            self.wf(),
        ensures
            self@.done < ACQUIRE_STEP_COUNT ==> r == Some(acquire_steps()[self@.done as int]),
            self@.done >= ACQUIRE_STEP_COUNT ==> r is None,
    {
        if self.done < ACQUIRE_STEP_COUNT {
            Some(step_at(self.done))
        } else {
            None
        }
    }

    /// Whether every step has succeeded.
    pub fn is_complete(&self) -> (r: bool)
        ensures
            r == (self@.done == ACQUIRE_STEP_COUNT),
    {
        self.done == ACQUIRE_STEP_COUNT
    }

    /// Records how the step that was due went. On success the next step is
    /// due; on failure the error names the step, and the requests returned
    /// release everything acquired before it, the newest first.
    pub fn record(self, acquired: bool) -> (r: Result<Acquisition, (X11Error, Vec<NativeOp>)>)
        requires
            self.wf(),
            self@.done < ACQUIRE_STEP_COUNT,
        ensures
            acquired <==> r is Ok,
            r matches Ok(a) ==> a.wf() && a@ == (AcquisitionView {
                display_id: self@.display_id,
                done: self@.done + 1,
            }),
            r matches Err((e, ops)) ==> is_failure_of(
                e,
                acquire_steps()[self@.done as int],
                self@.display_id,
            ) && ops@ == rollback(self@.done),
    {
        if acquired {
            Ok(Acquisition { display_id: self.display_id, done: self.done + 1 })
        } else {
            let ops = rollback_ops(self.done);
            let e = match step_at(self.done) {
                AcquireStep::OpenDisplay => X11Error::CouldNotOpen(self.display_id),
                AcquireStep::MatchVisual => X11Error::NoMatchingVisual,
                AcquireStep::CreateWindow => X11Error::CouldNotCreateWindow,
                AcquireStep::CreateGraphicsContext => X11Error::CouldNotCreateGC,
                AcquireStep::CreateRenderContext => X11Error::CouldNotCreateGLContext,
            };
            Err((e, ops))
        }
    }
}

} // verus!
