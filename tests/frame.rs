use oxitrace::frame::{
    dispatch_groups, AcquireOutcome, FrameAction, FrameEvent, FramePlan, FrameScheduler, Kernel,
    PresentOutcome, ScheduleError, SlotPhase, Stage,
};

fn record(s: &mut FrameScheduler, width: u32, height: u32, image_index: u32) -> FramePlan {
    match s.handle(FrameEvent::Begin { width, height }) {
        Ok(FrameAction::WaitFence { .. }) => {}
        other => panic!("unexpected {:?}", other),
    }
    match s.handle(FrameEvent::FenceSignaled) {
        Ok(FrameAction::AcquireImage { .. }) => {}
        other => panic!("unexpected {:?}", other),
    }
    match s.handle(FrameEvent::Acquire(AcquireOutcome::Acquired { image_index, suboptimal: false })) {
        Ok(FrameAction::Record(plan)) => plan,
        other => panic!("unexpected {:?}", other),
    }
}

fn finish(s: &mut FrameScheduler) {
    match s.handle(FrameEvent::Submitted) {
        Ok(FrameAction::PresentImage { .. }) => {}
        other => panic!("unexpected {:?}", other),
    }
    match s.handle(FrameEvent::Present(PresentOutcome::Presented { suboptimal: false })) {
        Ok(FrameAction::Done) => {}
        other => panic!("unexpected {:?}", other),
    }
}

#[test]
fn new_scheduler_is_idle() {
    let s = FrameScheduler::new(1200, 800);
    assert_eq!(s.active_slot(), 0);
    assert_eq!(s.frames_since_start(), 0);
    assert_eq!(s.stage(), Stage::Ready);
    assert!(!s.reset_pending());
    assert!(s.all_slots_idle());
    assert_eq!(s.slot_phase(0), SlotPhase::Idle);
    assert_eq!(s.slot_phase(1), SlotPhase::Idle);
}

#[test]
fn three_quiet_ticks_count_up() {
    let mut s = FrameScheduler::new(1200, 800);
    let mut seen = vec![];
    for image in 0..3u32 {
        let plan = record(&mut s, 1200, 800, image);
        assert!(!plan.clear_target);
        seen.push(plan.camera_frame_index);
        finish(&mut s);
    }
    assert_eq!(seen, vec![0, 1, 2]);
    assert_eq!(s.frames_since_start(), 3);
}

#[test]
fn reset_after_scroll_gives_index_zero_and_clears() {
    let mut s = FrameScheduler::new(1200, 800);
    for image in 0..4u32 {
        record(&mut s, 1200, 800, image);
        finish(&mut s);
    }
    assert_eq!(s.frames_since_start(), 4);
    s.request_reset();
    let plan = record(&mut s, 1200, 800, 0);
    assert_eq!(plan.camera_frame_index, 0);
    assert!(plan.clear_target);
    assert!(!s.reset_pending());
    finish(&mut s);
    let plan = record(&mut s, 1200, 800, 1);
    assert_eq!(plan.camera_frame_index, 1);
    assert!(!plan.clear_target);
}

#[test]
fn reset_stays_pending_over_skipped_tick() {
    let mut s = FrameScheduler::new(1200, 800);
    record(&mut s, 1200, 800, 0);
    finish(&mut s);
    s.request_reset();
    match s.handle(FrameEvent::Begin { width: 0, height: 800 }) {
        Ok(FrameAction::Skip) => {}
        other => panic!("unexpected {:?}", other),
    }
    assert!(s.reset_pending());
    let plan = record(&mut s, 1200, 800, 0);
    assert_eq!(plan.camera_frame_index, 0);
}

#[test]
fn zero_extent_skips_without_state_change() {
    let mut s = FrameScheduler::new(1200, 800);
    match s.handle(FrameEvent::Begin { width: 1200, height: 0 }) {
        Ok(FrameAction::Skip) => {}
        other => panic!("unexpected {:?}", other),
    }
    assert_eq!(s.stage(), Stage::Ready);
    assert_eq!(s.active_slot(), 0);
}

#[test]
fn dispatch_grid_covers_target() {
    let mut s = FrameScheduler::new(1201, 801);
    let plan = record(&mut s, 1201, 801, 0);
    assert_eq!(plan.groups_x, 301);
    assert_eq!(plan.groups_y, 101);
    assert_eq!(plan.groups_z, 1);
    assert_eq!(plan.kernel, Kernel::Full);
    assert_eq!(plan.slot, 0);
    assert_eq!(plan.image_index, 0);
    assert_eq!(dispatch_groups(1200, 4), 300);
    assert_eq!(dispatch_groups(800, 8), 100);
    assert_eq!(dispatch_groups(0, 8), 0);
    assert_eq!(dispatch_groups(u32::MAX, 4), 1073741824);
}

#[test]
fn preview_mode_selects_preview_kernel() {
    let mut s = FrameScheduler::new(64, 64);
    s.set_preview_mode(true);
    assert!(s.preview_mode());
    let plan = record(&mut s, 64, 64, 0);
    assert_eq!(plan.kernel, Kernel::Preview);
}

#[test]
fn slot_reused_only_after_fence() {
    let mut s = FrameScheduler::new(640, 480);
    let first = record(&mut s, 640, 480, 0);
    assert_eq!(first.slot, 0);
    finish(&mut s);
    assert_eq!(s.slot_phase(0), SlotPhase::Submitted);
    let second = record(&mut s, 640, 480, 1);
    assert_eq!(second.slot, 1);
    finish(&mut s);
    assert_eq!(s.slot_phase(1), SlotPhase::Submitted);
    // The third frame comes back to slot 0, still in flight.
    match s.handle(FrameEvent::Begin { width: 640, height: 480 }) {
        Ok(FrameAction::WaitFence { slot }) => assert_eq!(slot, 0),
        other => panic!("unexpected {:?}", other),
    }
    let early = s.handle(FrameEvent::Acquire(AcquireOutcome::Acquired { image_index: 2, suboptimal: false }));
    assert!(matches!(early, Err(ScheduleError::OutOfOrder)));
    assert_eq!(s.slot_phase(0), SlotPhase::Submitted);
    match s.handle(FrameEvent::FenceSignaled) {
        Ok(FrameAction::AcquireImage { slot }) => assert_eq!(slot, 0),
        other => panic!("unexpected {:?}", other),
    }
    assert_eq!(s.slot_phase(0), SlotPhase::Idle);
    match s.handle(FrameEvent::Acquire(AcquireOutcome::Acquired { image_index: 2, suboptimal: false })) {
        Ok(FrameAction::Record(plan)) => {
            assert_eq!(plan.slot, 0);
            assert_eq!(plan.camera_frame_index, 2);
        }
        other => panic!("unexpected {:?}", other),
    }
    assert_eq!(s.slot_phase(0), SlotPhase::Recording);
    assert_eq!(s.slot_phase(1), SlotPhase::Submitted);
}

#[test]
fn stale_acquire_keeps_slot_until_recreated() {
    let mut s = FrameScheduler::new(640, 480);
    record(&mut s, 640, 480, 0);
    finish(&mut s);
    assert_eq!(s.active_slot(), 1);
    s.handle(FrameEvent::Begin { width: 640, height: 480 }).unwrap();
    s.handle(FrameEvent::FenceSignaled).unwrap();
    match s.handle(FrameEvent::Acquire(AcquireOutcome::OutOfDate)) {
        Ok(FrameAction::Recreate) => {}
        other => panic!("unexpected {:?}", other),
    }
    assert_eq!(s.stage(), Stage::Stale);
    assert_eq!(s.active_slot(), 1);
    match s.handle(FrameEvent::Begin { width: 800, height: 600 }) {
        Ok(FrameAction::Recreate) => {}
        other => panic!("unexpected {:?}", other),
    }
    assert_eq!(s.active_slot(), 1);
    assert_eq!(s.frames_since_start(), 1);
    match s.handle(FrameEvent::Recreated { width: 800, height: 600 }) {
        Ok(FrameAction::Done) => {}
        other => panic!("unexpected {:?}", other),
    }
    assert_eq!(s.stage(), Stage::Ready);
    assert!(s.all_slots_idle());
    let plan = record(&mut s, 800, 600, 0);
    assert_eq!(plan.slot, 1);
    assert_eq!(plan.camera_frame_index, 0);
    assert!(plan.clear_target);
    assert_eq!(plan.groups_x, 200);
    assert_eq!(plan.groups_y, 75);
}

#[test]
fn suboptimal_present_leads_to_recreation() {
    let mut s = FrameScheduler::new(640, 480);
    record(&mut s, 640, 480, 0);
    s.handle(FrameEvent::Submitted).unwrap();
    match s.handle(FrameEvent::Present(PresentOutcome::Presented { suboptimal: true })) {
        Ok(FrameAction::Done) => {}
        other => panic!("unexpected {:?}", other),
    }
    assert_eq!(s.stage(), Stage::Stale);
    assert_eq!(s.active_slot(), 1);
}

#[test]
fn stale_present_advances_and_recreates() {
    let mut s = FrameScheduler::new(640, 480);
    record(&mut s, 640, 480, 0);
    s.handle(FrameEvent::Submitted).unwrap();
    s.handle(FrameEvent::Present(PresentOutcome::OutOfDate)).unwrap();
    assert_eq!(s.stage(), Stage::Stale);
    assert_eq!(s.frames_since_start(), 1);
}

#[test]
fn driver_failure_is_fatal_and_keeps_state() {
    let mut s = FrameScheduler::new(640, 480);
    s.handle(FrameEvent::Begin { width: 640, height: 480 }).unwrap();
    s.handle(FrameEvent::FenceSignaled).unwrap();
    let r = s.handle(FrameEvent::Acquire(AcquireOutcome::Failed));
    assert!(matches!(r, Err(ScheduleError::DeviceFailed)));
    assert_eq!(s.stage(), Stage::Acquiring);
    assert_eq!(s.slot_phase(0), SlotPhase::Idle);
}

#[test]
fn events_out_of_order_are_refused() {
    let mut s = FrameScheduler::new(640, 480);
    assert!(matches!(s.handle(FrameEvent::FenceSignaled), Err(ScheduleError::OutOfOrder)));
    assert!(matches!(s.handle(FrameEvent::Submitted), Err(ScheduleError::OutOfOrder)));
    assert!(matches!(
        s.handle(FrameEvent::Recreated { width: 1, height: 1 }),
        Err(ScheduleError::OutOfOrder)
    ));
    record(&mut s, 640, 480, 0);
    assert!(matches!(s.handle(FrameEvent::DeviceIdle), Err(ScheduleError::OutOfOrder)));
    assert!(matches!(
        s.handle(FrameEvent::Begin { width: 640, height: 480 }),
        Err(ScheduleError::OutOfOrder)
    ));
}

#[test]
fn device_idle_releases_all_slots() {
    let mut s = FrameScheduler::new(640, 480);
    record(&mut s, 640, 480, 0);
    finish(&mut s);
    assert!(!s.all_slots_idle());
    s.handle(FrameEvent::DeviceIdle).unwrap();
    assert!(s.all_slots_idle());
}
