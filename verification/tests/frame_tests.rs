use image_presenter::frame::{
    record_frame, Action, Event, FrameCommand, FramePlan, FrameScheduler, Phase, SchedulerError,
    DEFAULT_FRAME_SLOTS, WAIT_FOREVER,
};
use image_presenter::swapchain::Extent;

fn extent() -> Extent {
    Extent { width: 800, height: 600 }
}

/// A device that does what it is told and keeps book of it.
struct GpuStub {
    images: u32,
    next_image: u32,
    fence_signaled: Vec<bool>,
    semaphore_signaled: Vec<bool>,
    submissions: u64,
    presents: u64,
    pool_resets: Vec<u64>,
    unacknowledged: usize,
    most_unacknowledged: usize,
    present_fails_at: Vec<u64>,
    acquire_fails_at: Vec<u64>,
    acquisitions: u64,
}

impl GpuStub {
    fn new(slots: usize, images: u32) -> GpuStub {
        GpuStub {
            images,
            next_image: 0,
            fence_signaled: vec![true; slots],
            semaphore_signaled: vec![false; images as usize + 1],
            submissions: 0,
            presents: 0,
            pool_resets: vec![0; slots],
            unacknowledged: 0,
            most_unacknowledged: 0,
            present_fails_at: Vec::new(),
            acquire_fails_at: Vec::new(),
            acquisitions: 0,
        }
    }

    fn perform(&mut self, action: Action) -> Option<Event> {
        match action {
            Action::Acquire { semaphore } => {
                self.acquisitions += 1;
                if self.acquire_fails_at.contains(&self.acquisitions) {
                    return Some(Event::AcquireFailed);
                }
                assert!(!self.semaphore_signaled[semaphore], "semaphore signaled twice");
                self.semaphore_signaled[semaphore] = true;
                let image = self.next_image;
                self.next_image = (self.next_image + 1) % self.images;
                Some(Event::Acquired { image })
            }
            Action::WaitFence { slot } => {
                if !self.fence_signaled[slot] {
                    // The wait returns once the submission is complete.
                    self.fence_signaled[slot] = true;
                    self.unacknowledged -= 1;
                }
                Some(Event::FenceSignaled)
            }
            Action::Render(plan) => {
                let mut ok = true;
                for command in record_frame(&plan) {
                    match command {
                        FrameCommand::ResetFence { slot } => {
                            assert!(self.fence_signaled[slot]);
                            self.fence_signaled[slot] = false;
                        }
                        FrameCommand::ResetPool { slot } => {
                            // The fence was signaled before it was reset just now.
                            assert_eq!(slot, plan.slot);
                            self.pool_resets[slot] += 1;
                        }
                        FrameCommand::Submit { wait_semaphore, fence, .. } => {
                            assert!(self.semaphore_signaled[wait_semaphore]);
                            self.semaphore_signaled[wait_semaphore] = false;
                            assert!(!self.fence_signaled[fence]);
                            self.submissions += 1;
                            self.unacknowledged += 1;
                            self.most_unacknowledged =
                                self.most_unacknowledged.max(self.unacknowledged);
                        }
                        FrameCommand::Present { .. } => {
                            ok = !self.present_fails_at.contains(&self.submissions);
                            if ok {
                                self.presents += 1;
                            }
                        }
                        _ => {}
                    }
                }
                Some(Event::Presented { ok })
            }
            Action::WaitIdle => {
                for signaled in self.fence_signaled.iter_mut() {
                    *signaled = true;
                }
                self.unacknowledged = 0;
                Some(Event::DeviceIdle)
            }
            Action::Skip | Action::FrameDone { .. } | Action::Teardown => None,
        }
    }
}

/// Runs `iterations` iterations of the loop and hands back the actions.
fn run(scheduler: &mut FrameScheduler, gpu: &mut GpuStub, iterations: u64) -> Vec<Action> {
    let mut actions = Vec::new();
    for _ in 0..iterations {
        let mut event = Some(Event::Tick { cancelled: false });
        while let Some(e) = event {
            let action = scheduler.step(e).unwrap();
            actions.push(action);
            event = gpu.perform(action);
        }
        assert_eq!(scheduler.phase(), Phase::Idle);
    }
    actions
}

#[test]
fn reference_values() {
    assert_eq!(DEFAULT_FRAME_SLOTS, 3);
    assert_eq!(WAIT_FOREVER, !0u64);
}

#[test]
fn scheduler_needs_a_slot_and_an_image() {
    assert!(FrameScheduler::new(0, 2, extent()).is_none());
    assert!(FrameScheduler::new(3, 0, extent()).is_none());
    assert!(FrameScheduler::new(3, usize::MAX, extent()).is_none());
    let scheduler = FrameScheduler::new(3, 2, extent()).unwrap();
    assert_eq!(scheduler.slots(), 3);
    assert_eq!(scheduler.images(), 2);
    assert_eq!(scheduler.semaphore_count(), 3);
    assert_eq!(scheduler.extent(), extent());
    assert_eq!(scheduler.phase(), Phase::Idle);
    assert_eq!(scheduler.frame_counter(), 0);
    assert_eq!(scheduler.submissions(), 0);
    assert_eq!(scheduler.presented(), 0);
    assert_eq!(scheduler.skipped(), 0);
    assert_eq!(scheduler.outstanding(), 0);
    assert_eq!(scheduler.free_semaphore(), 2);
    assert_eq!(scheduler.image_semaphore(0), Some(0));
    assert_eq!(scheduler.image_semaphore(1), Some(1));
    assert_eq!(scheduler.image_semaphore(2), None);
    assert_eq!(scheduler.slot_pending(0), Some(false));
    assert_eq!(scheduler.slot_pending(3), None);
}

#[test]
fn one_iteration_step_by_step() {
    let mut scheduler = FrameScheduler::new(3, 2, extent()).unwrap();
    assert_eq!(
        scheduler.step(Event::Tick { cancelled: false }),
        Ok(Action::Acquire { semaphore: 2 })
    );
    assert_eq!(scheduler.phase(), Phase::Acquiring);
    assert_eq!(scheduler.step(Event::Acquired { image: 1 }), Ok(Action::WaitFence { slot: 0 }));
    assert_eq!(scheduler.phase(), Phase::AwaitingFence { image: 1, slot: 0 });
    assert_eq!(scheduler.free_semaphore(), 1);
    assert_eq!(scheduler.image_semaphore(1), Some(2));
    assert_eq!(scheduler.image_semaphore(0), Some(0));
    assert_eq!(
        scheduler.step(Event::FenceSignaled),
        Ok(Action::Render(FramePlan {
            slot: 0,
            image: 1,
            wait_semaphore: 2,
            wait_stage: 0x400,
            extent: extent(),
        }))
    );
    assert_eq!(scheduler.phase(), Phase::Presenting { image: 1, slot: 0 });
    assert_eq!(scheduler.submissions(), 1);
    assert_eq!(scheduler.frame_counter(), 0);
    assert_eq!(scheduler.slot_pending(0), Some(true));
    assert_eq!(scheduler.outstanding(), 1);
    assert_eq!(
        scheduler.step(Event::Presented { ok: true }),
        Ok(Action::FrameDone { present_failed: false })
    );
    assert_eq!(scheduler.phase(), Phase::Idle);
    assert_eq!(scheduler.frame_counter(), 1);
    assert_eq!(scheduler.presented(), 1);
}

#[test]
fn frame_commands_in_order() {
    let plan =
        FramePlan { slot: 2, image: 1, wait_semaphore: 0, wait_stage: 0x400, extent: extent() };
    assert_eq!(
        record_frame(&plan),
        vec![
            FrameCommand::ResetFence { slot: 2 },
            FrameCommand::ResetPool { slot: 2 },
            FrameCommand::BeginRecording { slot: 2 },
            FrameCommand::SetViewport { extent: extent() },
            FrameCommand::SetScissor { extent: extent() },
            FrameCommand::BindPipeline,
            FrameCommand::BindVertexBuffer { binding: 0, offset: 0 },
            FrameCommand::BindDescriptorSet { index: 0 },
            FrameCommand::BeginRenderPass { framebuffer: 1, extent: extent() },
            FrameCommand::Draw { vertices: 6, instances: 1 },
            FrameCommand::EndRenderPass,
            FrameCommand::FinishRecording { slot: 2 },
            FrameCommand::Submit {
                slot: 2,
                wait_semaphore: 0,
                wait_stage: 0x400,
                signal_semaphore: 2,
                fence: 2,
            },
            FrameCommand::Present { image: 1, wait_semaphore: 2 },
        ]
    );
}

#[test]
fn ten_iterations_with_three_slots_and_two_images() {
    let mut scheduler = FrameScheduler::new(3, 2, extent()).unwrap();
    let mut gpu = GpuStub::new(3, 2);
    let actions = run(&mut scheduler, &mut gpu, 10);
    assert_eq!(scheduler.frame_counter(), 10);
    assert_eq!(gpu.submissions, 10);
    assert_eq!(gpu.presents, 10);
    assert_eq!(gpu.pool_resets, vec![4, 3, 3]);
    assert_eq!(scheduler.slot_use_count(0), 4);
    assert_eq!(scheduler.slot_use_count(1), 3);
    assert_eq!(scheduler.slot_use_count(2), 3);
    let mut uses = vec![0u64; 3];
    let mut frame = 0usize;
    for action in &actions {
        if let Action::Render(plan) = action {
            assert_eq!(plan.slot, frame % 3);
            assert_eq!(plan.image, frame % 2);
            uses[plan.slot] += 1;
            frame += 1;
        }
    }
    assert_eq!(uses, vec![4, 3, 3]);
    assert!(gpu.most_unacknowledged <= 3);
}

#[test]
fn fence_is_waited_for_before_each_render() {
    let mut scheduler = FrameScheduler::new(2, 3, extent()).unwrap();
    let mut gpu = GpuStub::new(2, 3);
    let actions = run(&mut scheduler, &mut gpu, 9);
    for (i, action) in actions.iter().enumerate() {
        if let Action::Render(plan) = action {
            assert_eq!(actions[i - 1], Action::WaitFence { slot: plan.slot });
        }
    }
}

#[test]
fn outstanding_submissions_never_exceed_slots() {
    for slots in 1usize..5 {
        let mut scheduler = FrameScheduler::new(slots, 2, extent()).unwrap();
        let mut gpu = GpuStub::new(slots, 2);
        for frame in 0u64..12 {
            run(&mut scheduler, &mut gpu, 1);
            let expected = (frame as usize + 1).min(slots);
            assert_eq!(scheduler.outstanding(), expected);
            assert!(scheduler.outstanding() <= slots);
            assert_eq!(gpu.unacknowledged, expected);
        }
        assert_eq!(gpu.most_unacknowledged, slots);
    }
}

#[test]
fn acquire_semaphores_stay_distinct() {
    let images = 3u32;
    let mut scheduler = FrameScheduler::new(2, images as usize, extent()).unwrap();
    let order = [2u32, 0, 0, 1, 2, 2, 1, 0, 1, 1, 2];
    for image in order {
        let semaphore = match scheduler.step(Event::Tick { cancelled: false }).unwrap() {
            Action::Acquire { semaphore } => semaphore,
            other => panic!("unexpected {:?}", other),
        };
        for other in 0..images as usize {
            assert!(scheduler.image_semaphore(other) != Some(semaphore));
        }
        scheduler.step(Event::Acquired { image }).unwrap();
        assert_eq!(scheduler.image_semaphore(image as usize), Some(semaphore));
        let mut seen = vec![scheduler.free_semaphore()];
        for other in 0..images as usize {
            seen.push(scheduler.image_semaphore(other).unwrap());
        }
        seen.sort();
        assert_eq!(seen, vec![0, 1, 2, 3]);
        match scheduler.step(Event::FenceSignaled).unwrap() {
            Action::Render(plan) => {
                assert_eq!(plan.wait_semaphore, semaphore);
                assert_eq!(plan.image, image as usize);
            }
            other => panic!("unexpected {:?}", other),
        }
        scheduler.step(Event::Presented { ok: true }).unwrap();
    }
}

#[test]
fn k_iterations_make_k_submissions() {
    for k in [0u64, 1, 2, 7, 25] {
        let mut scheduler = FrameScheduler::new(3, 2, extent()).unwrap();
        let mut gpu = GpuStub::new(3, 2);
        let actions = run(&mut scheduler, &mut gpu, k);
        let renders = actions.iter().filter(|a| matches!(a, Action::Render(_))).count() as u64;
        assert_eq!(renders, k);
        assert_eq!(gpu.submissions, k);
        assert_eq!(scheduler.submissions(), k);
        assert_eq!(scheduler.frame_counter(), k);
        assert_eq!(scheduler.presented(), k);
    }
}

#[test]
fn failed_presents_are_reported_and_do_not_stop_the_loop() {
    let mut scheduler = FrameScheduler::new(3, 2, extent()).unwrap();
    let mut gpu = GpuStub::new(3, 2);
    gpu.present_fails_at = vec![2, 5, 6];
    let actions = run(&mut scheduler, &mut gpu, 8);
    assert_eq!(scheduler.frame_counter(), 8);
    assert_eq!(scheduler.submissions(), 8);
    assert_eq!(scheduler.presented(), 5);
    assert_eq!(gpu.presents, 5);
    let reported =
        actions.iter().filter(|a| **a == Action::FrameDone { present_failed: true }).count();
    assert_eq!(reported, 3);
}

#[test]
fn failed_acquire_skips_the_iteration() {
    let mut scheduler = FrameScheduler::new(3, 2, extent()).unwrap();
    let mut gpu = GpuStub::new(3, 2);
    gpu.acquire_fails_at = vec![1, 4];
    let actions = run(&mut scheduler, &mut gpu, 6);
    assert_eq!(scheduler.skipped(), 2);
    assert_eq!(scheduler.frame_counter(), 4);
    assert_eq!(gpu.submissions, 4);
    assert_eq!(actions[0], Action::Acquire { semaphore: 2 });
    assert_eq!(actions[1], Action::Skip);
    assert_eq!(actions[2], Action::Acquire { semaphore: 2 });
    assert_eq!(actions.iter().filter(|a| **a == Action::Skip).count(), 2);
}

#[test]
fn failed_acquire_changes_nothing_but_the_skip_count() {
    let mut scheduler = FrameScheduler::new(2, 2, extent()).unwrap();
    let mut gpu = GpuStub::new(2, 2);
    run(&mut scheduler, &mut gpu, 3);
    let before = (
        scheduler.frame_counter(),
        scheduler.presented(),
        scheduler.free_semaphore(),
        scheduler.image_semaphore(0),
        scheduler.image_semaphore(1),
        scheduler.outstanding(),
    );
    scheduler.step(Event::Tick { cancelled: false }).unwrap();
    assert_eq!(scheduler.step(Event::AcquireFailed), Ok(Action::Skip));
    let after = (
        scheduler.frame_counter(),
        scheduler.presented(),
        scheduler.free_semaphore(),
        scheduler.image_semaphore(0),
        scheduler.image_semaphore(1),
        scheduler.outstanding(),
    );
    assert_eq!(before, after);
    assert_eq!(scheduler.skipped(), 1);
    assert_eq!(scheduler.phase(), Phase::Idle);
}

#[test]
fn cancellation_drains_device_before_teardown() {
    let mut scheduler = FrameScheduler::new(3, 2, extent()).unwrap();
    let mut gpu = GpuStub::new(3, 2);
    run(&mut scheduler, &mut gpu, 5);
    assert_eq!(scheduler.outstanding(), 3);
    assert_eq!(scheduler.step(Event::Tick { cancelled: true }), Ok(Action::WaitIdle));
    assert_eq!(scheduler.phase(), Phase::Draining);
    assert_eq!(
        scheduler.step(Event::Tick { cancelled: false }),
        Err(SchedulerError::UnexpectedEvent)
    );
    assert_eq!(scheduler.step(Event::DeviceIdle), Ok(Action::Teardown));
    assert_eq!(scheduler.phase(), Phase::Stopped);
    assert_eq!(scheduler.outstanding(), 0);
    assert_eq!(scheduler.frame_counter(), 5);
    for event in [
        Event::Tick { cancelled: false },
        Event::Tick { cancelled: true },
        Event::Acquired { image: 0 },
        Event::AcquireFailed,
        Event::FenceSignaled,
        Event::Presented { ok: true },
        Event::DeviceIdle,
    ] {
        assert_eq!(scheduler.step(event), Err(SchedulerError::UnexpectedEvent));
    }
    assert_eq!(scheduler.phase(), Phase::Stopped);
}

#[test]
fn cancellation_is_seen_only_at_the_top_of_an_iteration() {
    let mut scheduler = FrameScheduler::new(3, 2, extent()).unwrap();
    scheduler.step(Event::Tick { cancelled: false }).unwrap();
    assert_eq!(
        scheduler.step(Event::Tick { cancelled: true }),
        Err(SchedulerError::UnexpectedEvent)
    );
    assert_eq!(scheduler.phase(), Phase::Acquiring);
}

#[test]
fn events_out_of_turn_are_turned_down() {
    let mut scheduler = FrameScheduler::new(3, 2, extent()).unwrap();
    for event in [
        Event::Acquired { image: 0 },
        Event::AcquireFailed,
        Event::FenceSignaled,
        Event::Presented { ok: true },
        Event::DeviceIdle,
    ] {
        assert_eq!(scheduler.step(event), Err(SchedulerError::UnexpectedEvent));
        assert_eq!(scheduler.phase(), Phase::Idle);
    }
    scheduler.step(Event::Tick { cancelled: false }).unwrap();
    assert_eq!(scheduler.step(Event::FenceSignaled), Err(SchedulerError::UnexpectedEvent));
    scheduler.step(Event::Acquired { image: 0 }).unwrap();
    assert_eq!(scheduler.step(Event::Acquired { image: 0 }), Err(SchedulerError::UnexpectedEvent));
    assert_eq!(scheduler.step(Event::Presented { ok: true }), Err(SchedulerError::UnexpectedEvent));
    scheduler.step(Event::FenceSignaled).unwrap();
    assert_eq!(scheduler.step(Event::FenceSignaled), Err(SchedulerError::UnexpectedEvent));
    assert_eq!(scheduler.phase(), Phase::Presenting { image: 0, slot: 0 });
}

#[test]
fn image_index_out_of_range_is_turned_down() {
    let mut scheduler = FrameScheduler::new(3, 2, extent()).unwrap();
    scheduler.step(Event::Tick { cancelled: false }).unwrap();
    assert_eq!(scheduler.step(Event::Acquired { image: 2 }), Err(SchedulerError::ImageOutOfRange));
    assert_eq!(
        scheduler.step(Event::Acquired { image: u32::MAX }),
        Err(SchedulerError::ImageOutOfRange)
    );
    assert_eq!(scheduler.phase(), Phase::Acquiring);
    assert_eq!(scheduler.free_semaphore(), 2);
    assert_eq!(scheduler.step(Event::Acquired { image: 1 }), Ok(Action::WaitFence { slot: 0 }));
}

#[test]
fn single_slot_and_single_image() {
    let mut scheduler = FrameScheduler::new(1, 1, extent()).unwrap();
    let mut gpu = GpuStub::new(1, 1);
    let actions = run(&mut scheduler, &mut gpu, 4);
    assert_eq!(scheduler.slot_use_count(0), 4);
    assert_eq!(scheduler.outstanding(), 1);
    let semaphores: Vec<usize> = actions
        .iter()
        .filter_map(|a| match a {
            Action::Acquire { semaphore } => Some(*semaphore),
            _ => None,
        })
        .collect();
    assert_eq!(semaphores, vec![1, 0, 1, 0]);
}
