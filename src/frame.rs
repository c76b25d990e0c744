use vstd::prelude::*;

verus! {

/// Number of frames that may be in flight at once; each owns one slot.
pub const MAX_FRAMES_IN_FLIGHT: usize = 2;

/// Width in pixels of the kernel's local work group.
pub const TILE_WIDTH: u32 = 4;

/// Height in pixels of the kernel's local work group.
pub const TILE_HEIGHT: u32 = 8;

/// Where the GPU-side resources of one frame-in-flight slot stand.
#[derive(Clone, Copy, Debug, PartialEq, Eq, Structural)]
pub enum SlotPhase {
    /// Its fence has signaled: nothing of this slot is in flight.
    Idle,
    /// Its fence was reset and its command buffer is being recorded.
    Recording,
    /// Its command buffer was submitted; its fence signals on completion.
    Submitted,
}

/// How far the frame in progress has come.
#[derive(Clone, Copy, Debug, PartialEq, Eq, Structural)]
pub enum Stage {
    /// No frame in progress.
    Ready,
    /// Waiting on the active slot's fence.
    WaitingFence,
    /// Waiting for a presentable image.
    Acquiring,
    /// Recording the active slot's command buffer.
    Recording,
    /// Submitted; waiting for the image to be presented.
    Presenting,
    /// The surface is out of date: it, the render target and the
    /// descriptor sets must be rebuilt before the next frame.
    Stale,
}

/// Which compute kernel a frame dispatches.
#[derive(Clone, Copy, Debug, PartialEq, Eq, Structural)]
pub enum Kernel {
    Preview,
    Full,
}

/// What the surface answered to a request for the next image.
#[derive(Clone, Copy, Debug)]
pub enum AcquireOutcome {
    Acquired { image_index: u32, suboptimal: bool },
    OutOfDate,
    Failed,
}

/// What the surface answered to a present.
#[derive(Clone, Copy, Debug)]
pub enum PresentOutcome {
    Presented { suboptimal: bool },
    OutOfDate,
    Failed,
}

/// What the host has done or observed since the scheduler's last answer.
#[derive(Clone, Copy, Debug)]
pub enum FrameEvent {
    /// A tick asks for a frame; the drawable has this extent.
    Begin { width: u32, height: u32 },
    /// The wait on the active slot's fence returned.
    FenceSignaled,
    /// The surface answered the acquire request.
    Acquire(AcquireOutcome),
    /// The recorded command buffer was submitted to the graphics queue.
    Submitted,
    /// The surface answered the present request.
    Present(PresentOutcome),
    /// After the device went idle, the surface, render target and
    /// descriptor sets were rebuilt with a render target of this extent.
    Recreated { width: u32, height: u32 },
    /// The device went idle: every submitted slot has completed.
    DeviceIdle,
}

/// Everything the host records into the active slot's command buffer.
#[derive(Clone, Copy, Debug)]
pub struct FramePlan {
    pub slot: usize,
    pub image_index: u32,
    /// The accumulation index written into the camera record.
    pub camera_frame_index: u32,
    /// Clear the render target before the dispatch.
    pub clear_target: bool,
    pub kernel: Kernel,
    pub groups_x: u32,
    pub groups_y: u32,
    pub groups_z: u32,
}

/// What the host is to do next.
#[derive(Clone, Copy, Debug)]
pub enum FrameAction {
    /// The drawable has no area: render nothing this tick.
    Skip,
    /// Block on this slot's fence.
    WaitFence { slot: usize },
    /// Acquire the next image, signaling this slot's "available" semaphore.
    AcquireImage { slot: usize },
    /// Reset the slot's fence, write the camera record and record the frame.
    Record(FramePlan),
    /// Present the image, waiting on this slot's "finished" semaphore.
    PresentImage { slot: usize, image_index: u32 },
    /// Wait for the device to go idle, rebuild the surface, the render
    /// target and the descriptor sets, then report `Recreated`.
    Recreate,
    /// Nothing more to do for this event.
    Done,
}

/// Why an event was refused; the scheduler's state is then unchanged.
#[derive(Clone, Copy, Debug, PartialEq, Eq, Structural)]
pub enum ScheduleError {
    /// The event does not fit the frame's current stage.
    OutOfOrder,
    /// The driver reported a failure other than a stale surface.
    DeviceFailed,
}

/// The scheduler's state as mathematics.
pub struct SchedulerModel {
    pub slots: Seq<SlotPhase>,
    /// Whether each slot's fence is signaled.
    pub fences: Seq<bool>,
    pub active: usize,
    pub frames_since_start: u32,
    pub reset_pending: bool,
    pub preview_mode: bool,
    pub stage: Stage,
    pub width: u32,
    pub height: u32,
    pub image_index: u32,
    pub stale_after_present: bool,
}

/// Work groups along one axis: enough tiles of `tile` pixels to cover `extent`.
pub open spec fn groups_for(extent: u32, tile: u32) -> u32
    recommends
        tile > 0,
{
    (extent / tile + if extent % tile == 0 { 0u32 } else { 1u32 }) as u32
}

impl SchedulerModel {
    pub open spec fn wf(self) -> bool {
        &&& self.slots.len() == MAX_FRAMES_IN_FLIGHT
        &&& self.fences.len() == MAX_FRAMES_IN_FLIGHT
        &&& self.active < MAX_FRAMES_IN_FLIGHT
        &&& forall|i: int|
            0 <= i < MAX_FRAMES_IN_FLIGHT ==> (self.slots[i] == SlotPhase::Idle <==> self.fences[i])
        &&& forall|i: int|
            0 <= i < MAX_FRAMES_IN_FLIGHT && i != self.active ==> self.slots[i]
                != SlotPhase::Recording
        &&& (self.stage == Stage::Recording) == (self.slots[self.active as int]
            == SlotPhase::Recording)
        &&& self.stage == Stage::Acquiring ==> self.slots[self.active as int] == SlotPhase::Idle
        &&& self.stage == Stage::Presenting ==> self.slots[self.active as int]
            == SlotPhase::Submitted
    }

    /// The accumulation index that the next recorded frame receives.
    pub open spec fn next_frame_index(self) -> u32 {
        if self.reset_pending {
            0
        } else {
            self.frames_since_start
        }
    }

    pub open spec fn plan(self, image_index: u32) -> FramePlan {
        FramePlan {
            slot: self.active,
            image_index,
            camera_frame_index: self.next_frame_index(),
            clear_target: self.reset_pending,
            kernel: if self.preview_mode { Kernel::Preview } else { Kernel::Full },
            groups_x: groups_for(self.width, TILE_WIDTH),
            groups_y: groups_for(self.height, TILE_HEIGHT),
            groups_z: 1,
        }
    }

    /// The state once the frame in progress has been presented.
    pub open spec fn advanced(self, stale: bool) -> SchedulerModel {
        SchedulerModel {
            frames_since_start: if self.frames_since_start < u32::MAX {
                (self.frames_since_start + 1) as u32
            } else {
                self.frames_since_start
            },
            active: ((self.active + 1) % (MAX_FRAMES_IN_FLIGHT as int)) as usize,
            stage: if stale { Stage::Stale } else { Stage::Ready },
            stale_after_present: false,
            ..self
        }
    }

    /// Every slot idle with its fence signaled.
    pub open spec fn idled(self) -> SchedulerModel {
        SchedulerModel {
            slots: Seq::new(MAX_FRAMES_IN_FLIGHT as nat, |i: int| SlotPhase::Idle),
            fences: Seq::new(MAX_FRAMES_IN_FLIGHT as nat, |i: int| true),
            ..self
        }
    }

    pub open spec fn with_stage(self, stage: Stage) -> SchedulerModel {
        SchedulerModel { stage, ..self }
    }
}

/// The scheduler's answer to one event: its next state and the action, or
/// the refusal, in which case the state is unchanged.
pub open spec fn next(m: SchedulerModel, e: FrameEvent) -> (
    SchedulerModel,
    Result<FrameAction, ScheduleError>,
) {
    let refused = (m, Err(ScheduleError::OutOfOrder));
    match e {
        FrameEvent::Begin { width, height } => {
            if width == 0 || height == 0 {
                (m, Ok(FrameAction::Skip))
            } else if m.stage == Stage::Ready {
                (m.with_stage(Stage::WaitingFence), Ok(FrameAction::WaitFence { slot: m.active }))
            } else if m.stage == Stage::Stale {
                (m, Ok(FrameAction::Recreate))
            } else {
                refused
            }
        },
        FrameEvent::FenceSignaled => {
            if m.stage == Stage::WaitingFence {
                (
                    SchedulerModel {
                        slots: m.slots.update(m.active as int, SlotPhase::Idle),
                        fences: m.fences.update(m.active as int, true),
                        stage: Stage::Acquiring,
                        ..m
                    },
                    Ok(FrameAction::AcquireImage { slot: m.active }),
                )
            } else {
                refused
            }
        },
        FrameEvent::Acquire(outcome) => {
            if m.stage != Stage::Acquiring {
                refused
            } else {
                match outcome {
                    AcquireOutcome::Acquired { image_index, suboptimal } => (
                        SchedulerModel {
                            slots: m.slots.update(m.active as int, SlotPhase::Recording),
                            fences: m.fences.update(m.active as int, false),
                            stage: Stage::Recording,
                            frames_since_start: m.next_frame_index(),
                            reset_pending: false,
                            image_index,
                            stale_after_present: suboptimal,
                            ..m
                        },
                        Ok(FrameAction::Record(m.plan(image_index))),
                    ),
                    AcquireOutcome::OutOfDate => (
                        m.with_stage(Stage::Stale),
                        Ok(FrameAction::Recreate),
                    ),
                    AcquireOutcome::Failed => (m, Err(ScheduleError::DeviceFailed)),
                }
            }
        },
        FrameEvent::Submitted => {
            if m.stage == Stage::Recording {
                (
                    SchedulerModel {
                        slots: m.slots.update(m.active as int, SlotPhase::Submitted),
                        stage: Stage::Presenting,
                        ..m
                    },
                    Ok(FrameAction::PresentImage { slot: m.active, image_index: m.image_index }),
                )
            } else {
                refused
            }
        },
        FrameEvent::Present(outcome) => {
            if m.stage != Stage::Presenting {
                refused
            } else {
                match outcome {
                    PresentOutcome::Presented { suboptimal } => (
                        m.advanced(m.stale_after_present || suboptimal),
                        Ok(FrameAction::Done),
                    ),
                    PresentOutcome::OutOfDate => (m.advanced(true), Ok(FrameAction::Done)),
                    PresentOutcome::Failed => (m, Err(ScheduleError::DeviceFailed)),
                }
            }
        },
        FrameEvent::Recreated { width, height } => {
            if m.stage == Stage::Stale {
                (
                    SchedulerModel {
                        width,
                        height,
                        reset_pending: true,
                        stage: Stage::Ready,
                        ..m.idled()
                    },
                    Ok(FrameAction::Done),
                )
            } else {
                refused
            }
        },
        FrameEvent::DeviceIdle => {
            if m.stage == Stage::Ready || m.stage == Stage::Stale {
                (m.idled(), Ok(FrameAction::Done))
            } else {
                refused
            }
        },
    }
}

/// Every event keeps the scheduler well formed: each slot is in one phase,
/// its fence is signaled exactly when it is idle, and only the active slot
/// may be recording.
pub proof fn lemma_next_wf(m: SchedulerModel, e: FrameEvent)
    requires
        m.wf(),
    ensures
        next(m, e).0.wf(),
{
    let m2 = next(m, e).0;
    match e {
        FrameEvent::Recreated { .. } => {
            if m.stage == Stage::Stale {
                assert(m2.slots[m2.active as int] == SlotPhase::Idle);
            }
        },
        FrameEvent::DeviceIdle => {
            if m.stage == Stage::Ready || m.stage == Stage::Stale {
                assert(m2.slots[m2.active as int] == SlotPhase::Idle);
            }
        },
        FrameEvent::Present(_) => {
            if m.stage == Stage::Presenting {
                assert(m2.slots[m2.active as int] != SlotPhase::Recording);
            }
        },
        _ => {},
    }
}

/// The frame scheduler: the per-slot synchronisation protocol, the frame
/// stage and the accumulation counter with its pending reset.
pub struct FrameScheduler {
    slots: Vec<SlotPhase>,
    fences: Vec<bool>,
    active: usize,
    frames_since_start: u32,
    reset_pending: bool,
    preview_mode: bool,
    stage: Stage,
    width: u32,
    height: u32,
    image_index: u32,
    stale_after_present: bool,
}

impl View for FrameScheduler {
    type V = SchedulerModel;

    closed spec fn view(&self) -> SchedulerModel {
        SchedulerModel {
            slots: self.slots@,
            fences: self.fences@,
            active: self.active,
            frames_since_start: self.frames_since_start,
            reset_pending: self.reset_pending,
            preview_mode: self.preview_mode,
            stage: self.stage,
            width: self.width,
            height: self.height,
            image_index: self.image_index,
            stale_after_present: self.stale_after_present,
        }
    }
}

impl FrameScheduler {
    /// A scheduler for a render target of `width` x `height`: every slot idle
    /// with its fence created signaled, slot 0 active, the counter at 0, no
    /// reset pending and the full kernel selected.
    pub fn new(width: u32, height: u32) -> (r: FrameScheduler)
        ensures
            r@.wf(),
            r@.slots == Seq::new(MAX_FRAMES_IN_FLIGHT as nat, |i: int| SlotPhase::Idle),
            r@.fences == Seq::new(MAX_FRAMES_IN_FLIGHT as nat, |i: int| true),
            r@.active == 0,
            r@.frames_since_start == 0,
            !r@.reset_pending,
            !r@.preview_mode,
            r@.stage == Stage::Ready,
            r@.width == width,
            r@.height == height,
            !r@.stale_after_present,
    {
        let r = FrameScheduler {
            slots: vec![SlotPhase::Idle, SlotPhase::Idle],
            fences: vec![true, true],
            active: 0,
            frames_since_start: 0,
            reset_pending: false,
            preview_mode: false,
            stage: Stage::Ready,
            width,
            height,
            image_index: 0,
            stale_after_present: false,
        };
        assert(r@.slots =~= Seq::new(MAX_FRAMES_IN_FLIGHT as nat, |i: int| SlotPhase::Idle));
        assert(r@.fences =~= Seq::new(MAX_FRAMES_IN_FLIGHT as nat, |i: int| true));
        r
    }

    /// Marks the accumulated image as invalid: the next recorded frame
    /// clears the render target and receives accumulation index 0.
    pub fn request_reset(&mut self)
        ensures
            final(self)@ == (SchedulerModel { reset_pending: true, ..old(self)@ }),
    {
        self.reset_pending = true;
    }

    /// Selects the preview kernel (`true`) or the full kernel for the frames
    /// recorded from now on.
    pub fn set_preview_mode(&mut self, preview: bool)
        ensures
            final(self)@ == (SchedulerModel { preview_mode: preview, ..old(self)@ }),
    {
        self.preview_mode = preview;
    }

    pub fn preview_mode(&self) -> (r: bool)
        ensures
            r == self@.preview_mode,
    {
        self.preview_mode
    }

    /// Frames accumulated since the last reset.
    pub fn frames_since_start(&self) -> (r: u32)
        ensures
            r == self@.frames_since_start,
    {
        self.frames_since_start
    }

    /// The slot that the next (or current) frame uses.
    pub fn active_slot(&self) -> (r: usize)
        ensures
            r == self@.active,
    {
        self.active
    }

    pub fn stage(&self) -> (r: Stage)
        ensures
            r == self@.stage,
    {
        self.stage
    }

    pub fn reset_pending(&self) -> (r: bool)
        ensures
            r == self@.reset_pending,
    {
        self.reset_pending
    }

    /// The phase of slot `slot`.
    pub fn slot_phase(&self, slot: usize) -> (r: SlotPhase)
        requires
            self@.wf(),
            slot < MAX_FRAMES_IN_FLIGHT,
        ensures
            r == self@.slots[slot as int],
    {
        self.slots[slot]
    }

    /// True when no slot has work recorded or in flight, so that the GPU
    /// resources may be destroyed.
    pub fn all_slots_idle(&self) -> (r: bool)
        requires
            self@.wf(),
        ensures
            r == (forall|i: int|
                0 <= i < MAX_FRAMES_IN_FLIGHT ==> self@.slots[i] == SlotPhase::Idle),
    {
        self.slots[0] == SlotPhase::Idle && self.slots[1] == SlotPhase::Idle
    }

    fn mark_all_idle(&mut self)
        requires
            old(self)@.wf(),
        ensures
            final(self)@ == old(self)@.idled(),
    {
        self.slots.set(0, SlotPhase::Idle);
        self.slots.set(1, SlotPhase::Idle);
        self.fences.set(0, true);
        self.fences.set(1, true);
        assert(self.slots@ =~= Seq::new(MAX_FRAMES_IN_FLIGHT as nat, |i: int| SlotPhase::Idle));
        assert(self.fences@ =~= Seq::new(MAX_FRAMES_IN_FLIGHT as nat, |i: int| true));
    }

    fn plan(&self, image_index: u32) -> (r: FramePlan)
        ensures
            r == self@.plan(image_index),
    {
        FramePlan {
            slot: self.active,
            image_index,
            camera_frame_index: if self.reset_pending {
                0
            } else {
                self.frames_since_start
            },
            clear_target: self.reset_pending,
            kernel: if self.preview_mode {
                Kernel::Preview
            } else {
                Kernel::Full
            },
            groups_x: dispatch_groups(self.width, TILE_WIDTH),
            groups_y: dispatch_groups(self.height, TILE_HEIGHT),
            groups_z: 1,
        }
    }

    fn advance(&mut self, stale: bool)
        requires
            old(self)@.wf(),
        ensures
            final(self)@ == old(self)@.advanced(stale),
    {
        if self.frames_since_start < u32::MAX {
            self.frames_since_start = self.frames_since_start + 1;
        }
        self.active = (self.active + 1) % MAX_FRAMES_IN_FLIGHT;
        self.stage = if stale {
            Stage::Stale
        } else {
            Stage::Ready
        };
        self.stale_after_present = false;
    }

    /// Takes one event and answers with the next action, moving the state as
    /// `next` says; an event that the state refuses leaves it unchanged.
    pub fn handle(&mut self, event: FrameEvent) -> (r: Result<FrameAction, ScheduleError>)
        requires
            old(self)@.wf(),
        ensures
            final(self)@ == next(old(self)@, event).0,
            r == next(old(self)@, event).1,
            final(self)@.wf(),
    {
        proof {
            lemma_next_wf(self@, event);
        }
        let active = self.active;
        match event {
            FrameEvent::Begin { width, height } => {
                if width == 0 || height == 0 {
                    Ok(FrameAction::Skip)
                } else if self.stage == Stage::Ready {
                    self.stage = Stage::WaitingFence;
                    Ok(FrameAction::WaitFence { slot: active })
                } else if self.stage == Stage::Stale {
                    Ok(FrameAction::Recreate)
                } else {
                    Err(ScheduleError::OutOfOrder)
                }
            },
            FrameEvent::FenceSignaled => {
                if self.stage == Stage::WaitingFence {
                    self.slots.set(active, SlotPhase::Idle);
                    self.fences.set(active, true);
                    self.stage = Stage::Acquiring;
                    Ok(FrameAction::AcquireImage { slot: active })
                } else {
                    Err(ScheduleError::OutOfOrder)
                }
            },
            FrameEvent::Acquire(outcome) => {
                if self.stage != Stage::Acquiring {
                    Err(ScheduleError::OutOfOrder)
                } else {
                    match outcome {
                        AcquireOutcome::Acquired { image_index, suboptimal } => {
                            let plan = self.plan(image_index);
                            self.slots.set(active, SlotPhase::Recording);
                            self.fences.set(active, false);
                            self.stage = Stage::Recording;
                            if self.reset_pending {
                                self.frames_since_start = 0;
                            }
                            self.reset_pending = false;
                            self.image_index = image_index;
                            self.stale_after_present = suboptimal;
                            Ok(FrameAction::Record(plan))
                        },
                        AcquireOutcome::OutOfDate => {
                            self.stage = Stage::Stale;
                            Ok(FrameAction::Recreate)
                        },
                        AcquireOutcome::Failed => Err(ScheduleError::DeviceFailed),
                    }
                }
            },
            FrameEvent::Submitted => {
                if self.stage == Stage::Recording {
                    self.slots.set(active, SlotPhase::Submitted);
                    self.stage = Stage::Presenting;
                    Ok(FrameAction::PresentImage { slot: active, image_index: self.image_index })
                } else {
                    Err(ScheduleError::OutOfOrder)
                }
            },
            FrameEvent::Present(outcome) => {
                if self.stage != Stage::Presenting {
                    Err(ScheduleError::OutOfOrder)
                } else {
                    match outcome {
                        PresentOutcome::Presented { suboptimal } => {
                            let stale = self.stale_after_present || suboptimal;
                            self.advance(stale);
                            Ok(FrameAction::Done)
                        },
                        PresentOutcome::OutOfDate => {
                            self.advance(true);
                            Ok(FrameAction::Done)
                        },
                        PresentOutcome::Failed => Err(ScheduleError::DeviceFailed),
                    }
                }
            },
            FrameEvent::Recreated { width, height } => {
                if self.stage == Stage::Stale {
                    self.mark_all_idle();
                    self.width = width;
                    self.height = height;
                    self.reset_pending = true;
                    self.stage = Stage::Ready;
                    Ok(FrameAction::Done)
                } else {
                    Err(ScheduleError::OutOfOrder)
                }
            },
            FrameEvent::DeviceIdle => {
                if self.stage == Stage::Ready || self.stage == Stage::Stale {
                    self.mark_all_idle();
                    Ok(FrameAction::Done)
                } else {
                    Err(ScheduleError::OutOfOrder)
                }
            },
        }
    }
}

/// Work groups along one axis: `extent / tile`, rounded up.
pub fn dispatch_groups(extent: u32, tile: u32) -> (r: u32)
    requires
        tile > 0,
    ensures
        r == groups_for(extent, tile),
        r as int * tile as int >= extent as int,
        (r as int - 1) * (tile as int) < (extent as int),
{
    let q = extent / tile;
    proof {
        let e = extent as int;
        let t = tile as int;
        assert(e == t * (e / t) + e % t && 0 <= e % t < t) by (nonlinear_arith)
            requires
                t > 0,
                e >= 0,
        ;
        if e % t != 0 {
            assert(t >= 2);
            assert(e / t < u32::MAX) by (nonlinear_arith)
                requires
                    t >= 2,
                    e == t * (e / t) + e % t,
                    0 <= e % t,
                    e <= u32::MAX,
            ;
        }
        assert((e / t) * t == t * (e / t)) by (nonlinear_arith);
        assert((e / t + 1 - 1) * t == t * (e / t)) by (nonlinear_arith);
        assert((e / t - 1) * t == t * (e / t) - t) by (nonlinear_arith);
        assert((e / t + 1) * t == t * (e / t) + t) by (nonlinear_arith);
    }
    let r = if extent % tile == 0 {
        q
    } else {
        q + 1
    };
    r
}

/// A slot starts recording only from idle, with its fence signaled, while it
/// is the active slot: no command buffer is recorded again before the fence
/// of its previous submission has signaled.
pub proof fn lemma_record_only_after_fence(m: SchedulerModel, e: FrameEvent, i: int)
    requires
        m.wf(),
        0 <= i < MAX_FRAMES_IN_FLIGHT,
        m.slots[i] != SlotPhase::Recording,
        next(m, e).0.slots[i] == SlotPhase::Recording,
    ensures
        m.slots[i] == SlotPhase::Idle,
        m.fences[i],
        m.stage == Stage::Acquiring,
        i == m.active,
{
}

/// A submitted slot becomes idle again only through its fence: the host's
/// wait on it, or the device going idle.
pub proof fn lemma_submitted_until_fence(m: SchedulerModel, e: FrameEvent, i: int)
    requires
        m.wf(),
        0 <= i < MAX_FRAMES_IN_FLIGHT,
        m.slots[i] == SlotPhase::Submitted,
        next(m, e).0.slots[i] != SlotPhase::Submitted,
    ensures
        next(m, e).0.slots[i] == SlotPhase::Idle,
        next(m, e).0.fences[i],
        (e is FenceSignaled && i == m.active) || e is DeviceIdle || e is Recreated,
{
}

/// The accumulation index of the frame that an answer asks to record.
pub open spec fn recorded_index(r: Result<FrameAction, ScheduleError>) -> Option<u32> {
    match r {
        Ok(FrameAction::Record(plan)) => Some(plan.camera_frame_index),
        _ => None,
    }
}

/// Whether an answer asks to clear the render target before the dispatch.
pub open spec fn clears_target(r: Result<FrameAction, ScheduleError>) -> bool {
    match r {
        Ok(FrameAction::Record(plan)) => plan.clear_target,
        _ => false,
    }
}

/// One whole frame from a ready state on a drawable of `width` x `height`:
/// begin, fence signaled, image `image_index` acquired, submitted, presented.
/// Gives the state after it and the answer to the acquire.
pub open spec fn frame_cycle(m: SchedulerModel, width: u32, height: u32, image_index: u32) -> (
    SchedulerModel,
    Result<FrameAction, ScheduleError>,
) {
    let s1 = next(m, FrameEvent::Begin { width, height }).0;
    let s2 = next(s1, FrameEvent::FenceSignaled).0;
    let s3 = next(s2, FrameEvent::Acquire(AcquireOutcome::Acquired { image_index, suboptimal: false }));
    let s4 = next(s3.0, FrameEvent::Submitted).0;
    let s5 = next(s4, FrameEvent::Present(PresentOutcome::Presented { suboptimal: false })).0;
    (s5, s3.1)
}

/// A reset request is kept until a frame is recorded, and that frame clears
/// the render target and gets accumulation index 0.
pub proof fn lemma_reset_gives_zero(m: SchedulerModel, e: FrameEvent)
    requires
        m.wf(),
        m.reset_pending,
    ensures
        recorded_index(next(m, e).1) is Some ==> recorded_index(next(m, e).1) == Some(0u32)
            && clears_target(next(m, e).1),
        recorded_index(next(m, e).1) is None ==> next(m, e).0.reset_pending,
{
}

/// Frame after frame with no reset between them, each frame's accumulation
/// index is one more than the previous frame's; the first frame after a
/// reset request gets 0 and clears the render target.
pub proof fn lemma_successive_frames(
    m: SchedulerModel,
    width: u32,
    height: u32,
    first_image: u32,
    second_image: u32,
)
    requires
        m.wf(),
        m.stage == Stage::Ready,
        width > 0,
        height > 0,
        m.next_frame_index() < u32::MAX,
    ensures
        ({
            let (m1, r1) = frame_cycle(m, width, height, first_image);
            let (m2, r2) = frame_cycle(m1, width, height, second_image);
            &&& m1.wf()
            &&& m1.stage == Stage::Ready
            &&& m1.frames_since_start == m.next_frame_index() + 1
            &&& recorded_index(r1) == Some(m.next_frame_index())
            &&& clears_target(r1) == m.reset_pending
            &&& recorded_index(r2) == Some((m.next_frame_index() + 1) as u32)
            &&& !clears_target(r2)
        }),
{
    let s1 = next(m, FrameEvent::Begin { width, height }).0;
    lemma_next_wf(m, FrameEvent::Begin { width, height });
    let s2 = next(s1, FrameEvent::FenceSignaled).0;
    lemma_next_wf(s1, FrameEvent::FenceSignaled);
    let acq = FrameEvent::Acquire(AcquireOutcome::Acquired { image_index: first_image, suboptimal: false });
    let s3 = next(s2, acq).0;
    lemma_next_wf(s2, acq);
    let s4 = next(s3, FrameEvent::Submitted).0;
    lemma_next_wf(s3, FrameEvent::Submitted);
    let pres = FrameEvent::Present(PresentOutcome::Presented { suboptimal: false });
    lemma_next_wf(s4, pres);
    let m1 = frame_cycle(m, width, height, first_image).0;
    let t1 = next(m1, FrameEvent::Begin { width, height }).0;
    lemma_next_wf(m1, FrameEvent::Begin { width, height });
    let t2 = next(t1, FrameEvent::FenceSignaled).0;
    lemma_next_wf(t1, FrameEvent::FenceSignaled);
}

/// A stale surface holds the frame where it stopped: until the rebuild is
/// reported, no event moves the active slot, starts a frame or touches a
/// slot's phase.
pub proof fn lemma_stale_keeps_slot(m: SchedulerModel, e: FrameEvent)
    requires
        m.wf(),
        m.stage == Stage::Stale,
        !(e is Recreated),
        !(e is DeviceIdle),
    ensures
        next(m, e).0 == m,
{
}

/// An acquire that finds the surface out of date leaves the active slot, its
/// phase and its fence as they were, and asks for the rebuild.
pub proof fn lemma_stale_acquire_keeps_slot(m: SchedulerModel)
    requires
        m.wf(),
        m.stage == Stage::Acquiring,
    ensures
        next(m, FrameEvent::Acquire(AcquireOutcome::OutOfDate)).0 == m.with_stage(Stage::Stale),
        next(m, FrameEvent::Acquire(AcquireOutcome::OutOfDate)).1 == Ok::<
            FrameAction,
            ScheduleError,
        >(FrameAction::Recreate),
{
}

} // verus!
