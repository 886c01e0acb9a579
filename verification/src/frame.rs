//! The frame scheduler: the state machine behind the steady-state loop.
//!
//! The scheduler decides; its driver acts. In each round the driver hands the
//! scheduler an [`Event`] (what the window system or the device answered) and
//! performs the [`Action`] that comes back. One iteration of the loop is the
//! chain
//!
//! ```text
//! Tick -> Acquire -> Acquired -> WaitFence -> FenceSignaled -> Render
//!      -> Presented -> FrameDone
//! ```
//!
//! or, where no image could be acquired, `Tick -> Acquire -> AcquireFailed ->
//! Skip`. A cancelled `Tick` leads through `WaitIdle` and `DeviceIdle` to
//! `Teardown`.

use crate::barrier::STAGE_COLOR_ATTACHMENT_OUTPUT;
use crate::pipeline::QUAD_VERTEX_COUNT;
use crate::swapchain::Extent;
use vstd::prelude::*;

verus! {

/// The usual number of frame slots.
pub const DEFAULT_FRAME_SLOTS: usize = 3;

/// The timeout, in nanoseconds, of a wait that is not bounded.
pub const WAIT_FOREVER: u64 = 0xFFFF_FFFF_FFFF_FFFF;

/// Where the scheduler stands within an iteration.
#[derive(Clone, Copy, Debug, PartialEq, Eq, Structural)]
pub enum Phase {
    /// Between two iterations.
    Idle,
    /// An image was requested from the swapchain.
    Acquiring,
    /// The fence of `slot` is being waited for; `image` was acquired.
    AwaitingFence { image: usize, slot: usize },
    /// The frame was submitted from `slot` and `image` handed to presentation.
    Presenting { image: usize, slot: usize },
    /// Cancelled; the device is being drained.
    Draining,
    /// The device is idle and the loop has ended.
    Stopped,
}

/// What the driver reports to the scheduler.
#[derive(Clone, Copy, Debug, PartialEq, Eq, Structural)]
pub enum Event {
    /// The top of an iteration, with the cancellation flag as it stands.
    Tick { cancelled: bool },
    /// The swapchain handed out the image with this index.
    Acquired { image: u32 },
    /// The swapchain handed out no image.
    AcquireFailed,
    /// The fence that was waited for is signaled.
    FenceSignaled,
    /// Presentation was requested; `ok` tells whether the request succeeded.
    Presented { ok: bool },
    /// The device reports that it is idle.
    DeviceIdle,
}

/// What one frame does, from the reuse of its slot to presentation.
#[derive(Clone, Copy, Debug, PartialEq, Eq, Structural)]
pub struct FramePlan {
    /// The frame slot whose fence, command pool and command buffer are used.
    pub slot: usize,
    /// The swapchain image that is drawn to and presented.
    pub image: usize,
    /// The acquire semaphore that the submission waits on.
    pub wait_semaphore: usize,
    /// The pipeline stage at which it waits.
    pub wait_stage: u32,
    /// The extent of viewport and scissor.
    pub extent: Extent,
}

/// What the driver is to do next.
#[derive(Clone, Copy, Debug, PartialEq, Eq, Structural)]
pub enum Action {
    /// Request the next image, with this semaphore and `WAIT_FOREVER`.
    Acquire { semaphore: usize },
    /// Nothing was submitted in this iteration; go to the next one.
    Skip,
    /// Block until the fence of this slot is signaled, with `WAIT_FOREVER`.
    WaitFence { slot: usize },
    /// Reset the slot's fence and command pool, record, submit and present.
    Render(FramePlan),
    /// The frame is done. A failed presentation is reported and not fatal.
    FrameDone { present_failed: bool },
    /// Block until the device is idle.
    WaitIdle,
    /// Destroy the resources.
    Teardown,
}

/// Why an event was turned down. The scheduler's state is then unchanged.
#[derive(Clone, Copy, Debug, PartialEq, Eq, Structural)]
pub enum SchedulerError {
    /// The event does not answer the action that is outstanding.
    UnexpectedEvent,
    /// The swapchain has no image with the acquired index.
    ImageOutOfRange,
    /// A counter has reached the end of its range.
    CounterExhausted,
}

/// The scheduler's state, as the contracts speak of it.
pub struct SchedulerModel {
    /// Number of frame slots.
    pub slots: nat,
    /// Number of swapchain images.
    pub images: nat,
    /// Extent of the swapchain images.
    pub extent: Extent,
    /// Number of frames that were completed.
    pub frame_counter: nat,
    /// Number of iterations that ended without a submission.
    pub skipped: nat,
    /// Number of successful presentations.
    pub presented: nat,
    /// Per slot: a submission was made whose fence was not waited for since.
    pub pending: Seq<bool>,
    /// Per swapchain image: the acquire semaphore that belongs to it.
    pub image_semaphores: Seq<usize>,
    /// The spare semaphore that the next acquisition uses.
    pub free_semaphore: usize,
    pub phase: Phase,
}

/// Number of `true` entries.
pub open spec fn count_true(flags: Seq<bool>) -> nat
    decreases flags.len(),
{
    if flags.len() == 0 {
        0
    } else {
        count_true(flags.drop_last()) + if flags.last() {
            1nat
        } else {
            0nat
        }
    }
}

impl SchedulerModel {
    /// The slot that the next frame uses: the frame counter modulo the number
    /// of slots.
    pub open spec fn next_slot(self) -> int {
        (self.frame_counter as int) % (self.slots as int)
    }

    /// Number of submissions made so far.
    pub open spec fn submissions(self) -> nat {
        if self.phase is Presenting {
            self.frame_counter + 1
        } else {
            self.frame_counter
        }
    }

    /// Number of submissions that are not known to be complete.
    pub open spec fn outstanding(self) -> nat {
        count_true(self.pending)
    }

    /// No semaphore serves two purposes: the semaphores of the images differ
    /// from each other and from the spare one.
    pub open spec fn semaphores_distinct(self) -> bool {
        &&& forall|i: int, j: int|
            0 <= i < j < self.image_semaphores.len() ==> self.image_semaphores[i]
                != self.image_semaphores[j]
        &&& forall|i: int|
            0 <= i < self.image_semaphores.len() ==> self.image_semaphores[i]
                != self.free_semaphore
    }

    /// Slot `i` is pending exactly where it is among the first `used` slots.
    pub open spec fn pending_below(self, used: nat) -> bool {
        forall|i: int| 0 <= i < self.pending.len() ==> self.pending[i] == (i < used)
    }

    /// The invariant of the scheduler.
    pub open spec fn wf(self) -> bool {
        &&& self.slots >= 1
        &&& self.images >= 1
        &&& self.pending.len() == self.slots
        &&& self.image_semaphores.len() == self.images
        &&& self.images < usize::MAX
        &&& self.slots <= usize::MAX
        &&& self.free_semaphore <= self.images
        &&& forall|i: int|
            0 <= i < self.image_semaphores.len() ==> self.image_semaphores[i] <= self.images
        &&& self.semaphores_distinct()
        &&& self.frame_counter <= u64::MAX
        &&& self.skipped <= u64::MAX
        &&& self.presented <= self.frame_counter
        &&& match self.phase {
            Phase::Idle | Phase::Draining => self.pending_below(self.frame_counter),
            Phase::Acquiring => {
                &&& self.pending_below(self.frame_counter)
                &&& self.frame_counter < u64::MAX
                &&& self.skipped < u64::MAX
            },
            Phase::AwaitingFence { image, slot } => {
                &&& self.pending_below(self.frame_counter)
                &&& self.frame_counter < u64::MAX
                &&& image < self.images
                &&& slot == self.next_slot()
            },
            Phase::Presenting { image, slot } => {
                &&& self.pending_below(self.frame_counter + 1)
                &&& self.frame_counter < u64::MAX
                &&& image < self.images
                &&& slot == self.next_slot()
            },
            Phase::Stopped => self.pending_below(0),
        }
    }

    /// Whether the scheduler takes `event` in its present phase.
    pub open spec fn accepts(self, event: Event) -> bool {
        match (self.phase, event) {
            (Phase::Idle, Event::Tick { cancelled }) => cancelled || (self.frame_counter < u64::MAX
                && self.skipped < u64::MAX),
            (Phase::Acquiring, Event::Acquired { image }) => image < self.images,
            (Phase::Acquiring, Event::AcquireFailed) => true,
            (Phase::AwaitingFence { .. }, Event::FenceSignaled) => true,
            (Phase::Presenting { .. }, Event::Presented { .. }) => true,
            (Phase::Draining, Event::DeviceIdle) => true,
            _ => false,
        }
    }

    /// Why `event` is turned down, where it is.
    pub open spec fn rejection(self, event: Event) -> SchedulerError {
        match (self.phase, event) {
            (Phase::Idle, Event::Tick { .. }) => SchedulerError::CounterExhausted,
            (Phase::Acquiring, Event::Acquired { .. }) => SchedulerError::ImageOutOfRange,
            _ => SchedulerError::UnexpectedEvent,
        }
    }

    /// The image semaphores after the spare semaphore was swapped with that
    /// of `image`.
    pub open spec fn rotated(self, image: int) -> Seq<usize> {
        self.image_semaphores.update(image, self.free_semaphore)
    }

    /// The state after `event`, where the scheduler takes it.
    pub open spec fn next_state(self, event: Event) -> SchedulerModel {
        match (self.phase, event) {
            (Phase::Idle, Event::Tick { cancelled }) => SchedulerModel {
                phase: if cancelled {
                    Phase::Draining
                } else {
                    Phase::Acquiring
                },
                ..self
            },
            (Phase::Acquiring, Event::Acquired { image }) => SchedulerModel {
                image_semaphores: self.rotated(image as int),
                free_semaphore: self.image_semaphores[image as int],
                phase: Phase::AwaitingFence {
                    image: image as usize,
                    slot: self.next_slot() as usize,
                },
                ..self
            },
            (Phase::Acquiring, Event::AcquireFailed) => SchedulerModel {
                skipped: self.skipped + 1,
                phase: Phase::Idle,
                ..self
            },
            (Phase::AwaitingFence { image, slot }, Event::FenceSignaled) => SchedulerModel {
                pending: self.pending.update(slot as int, true),
                phase: Phase::Presenting { image, slot },
                ..self
            },
            (Phase::Presenting { .. }, Event::Presented { ok }) => SchedulerModel {
                frame_counter: self.frame_counter + 1,
                presented: if ok {
                    self.presented + 1
                } else {
                    self.presented
                },
                phase: Phase::Idle,
                ..self
            },
            (Phase::Draining, Event::DeviceIdle) => SchedulerModel {
                pending: Seq::new(self.pending.len(), |i: int| false),
                phase: Phase::Stopped,
                ..self
            },
            _ => self,
        }
    }

    /// The action that answers `event`, where the scheduler takes it.
    pub open spec fn action_for(self, event: Event) -> Action {
        match (self.phase, event) {
            (Phase::Idle, Event::Tick { cancelled }) => if cancelled {
                Action::WaitIdle
            } else {
                Action::Acquire { semaphore: self.free_semaphore }
            },
            (Phase::Acquiring, Event::Acquired { image }) => Action::WaitFence {
                slot: self.next_slot() as usize,
            },
            (Phase::Acquiring, Event::AcquireFailed) => Action::Skip,
            (Phase::AwaitingFence { image, slot }, Event::FenceSignaled) => Action::Render(
                FramePlan {
                    slot,
                    image,
                    wait_semaphore: self.image_semaphores[image as int],
                    wait_stage: STAGE_COLOR_ATTACHMENT_OUTPUT,
                    extent: self.extent,
                },
            ),
            (Phase::Presenting { .. }, Event::Presented { ok }) => Action::FrameDone {
                present_failed: !ok,
            },
            (Phase::Draining, Event::DeviceIdle) => Action::Teardown,
            _ => Action::Skip,
        }
    }

    /// The state in which a scheduler starts: no frame was made, every fence
    /// counts as signaled, image `j` owns semaphore `j`, and the semaphore
    /// after them is the spare one.
    pub open spec fn initial(slots: nat, images: nat, extent: Extent) -> SchedulerModel {
        SchedulerModel {
            slots,
            images,
            extent,
            frame_counter: 0,
            skipped: 0,
            presented: 0,
            pending: Seq::new(slots, |i: int| false),
            image_semaphores: Seq::new(images, |j: int| j as usize),
            free_semaphore: images as usize,
            phase: Phase::Idle,
        }
    }
}

/// The scheduler's invariant holds of the initial state.
pub proof fn initial_is_wf(slots: nat, images: nat, extent: Extent)
    requires
        1 <= slots <= usize::MAX,
        1 <= images < usize::MAX,
    ensures
        SchedulerModel::initial(slots, images, extent).wf(),
{
}

/// Every event that the scheduler takes leads from a state that satisfies
/// the invariant to one that satisfies it.
pub proof fn next_state_preserves_wf(m: SchedulerModel, event: Event)
    requires
        m.wf(),
        m.accepts(event),
    ensures
        m.next_state(event).wf(),
{
    let next = m.next_state(event);
    match (m.phase, event) {
        (Phase::Acquiring, Event::Acquired { image }) => {
            assert(next.semaphores_distinct());
        },
        (Phase::AwaitingFence { image, slot }, Event::FenceSignaled) => {
            if m.frame_counter < m.slots {
                vstd::arithmetic::div_mod::lemma_small_mod(m.frame_counter, m.slots);
            }
            assert(next.pending_below(m.frame_counter + 1));
        },
        _ => {},
    }
}

/// Among flags of which exactly the first `used` are set, as many are set as
/// `used` or, where that is less, as there are flags.
pub proof fn count_true_of_prefix(flags: Seq<bool>, used: nat)
    requires
        forall|i: int| 0 <= i < flags.len() ==> flags[i] == (i < used),
    ensures
        count_true(flags) == if used < flags.len() {
            used
        } else {
            flags.len()
        },
    decreases flags.len(),
{
    if flags.len() > 0 {
        count_true_of_prefix(flags.drop_last(), used);
    }
}

/// A command pool is reset only as part of a `Render` action, and the
/// scheduler gives that action only in answer to the signal of a fence: the
/// fence of the very slot that the action names, which is the slot that the
/// frame counter selects and the one that `WaitFence` named before.
pub proof fn render_follows_fence_signal(m: SchedulerModel, event: Event)
    requires
        m.wf(),
        m.accepts(event),
        m.action_for(event) is Render,
    ensures
        event is FenceSignaled,
        m.phase matches Phase::AwaitingFence { image, slot } && m.action_for(event)
            == Action::Render(
            FramePlan {
                slot,
                image,
                wait_semaphore: m.image_semaphores[image as int],
                wait_stage: STAGE_COLOR_ATTACHMENT_OUTPUT,
                extent: m.extent,
            },
        ) && slot == m.next_slot() && slot < m.slots,
{
}

/// The slot whose fence is waited for is the slot that the frame counter
/// selects, and the scheduler then stands waiting for that fence.
pub proof fn wait_names_selected_slot(m: SchedulerModel, image: u32)
    requires
        m.wf(),
        m.accepts(Event::Acquired { image }),
    ensures
        m.action_for(Event::Acquired { image }) == (Action::WaitFence {
            slot: m.next_slot() as usize,
        }),
        m.next_state(Event::Acquired { image }).phase == (Phase::AwaitingFence {
            image: image as usize,
            slot: m.next_slot() as usize,
        }),
        0 <= m.next_slot() < m.slots,
{
}

/// At no point are more submissions outstanding than there are frame
/// slots: as long as the loop runs, their number is that of the submissions
/// made, capped by the number of slots, and once the device is idle it is 0.
pub proof fn outstanding_at_most_slots(m: SchedulerModel)
    requires
        m.wf(),
    ensures
        m.outstanding() <= m.slots,
        m.outstanding() <= m.submissions(),
        !(m.phase is Stopped) ==> m.outstanding() == if m.submissions() < m.slots {
            m.submissions()
        } else {
            m.slots
        },
        m.phase is Stopped ==> m.outstanding() == 0,
{
    match m.phase {
        Phase::Presenting { .. } => count_true_of_prefix(m.pending, m.frame_counter + 1),
        Phase::Stopped => count_true_of_prefix(m.pending, 0),
        _ => count_true_of_prefix(m.pending, m.frame_counter),
    }
}

/// Semaphore rotation. The semaphore that an acquisition is given belongs to
/// no image. Once the image is acquired the semaphore belongs to that image
/// and to no other, the spare semaphore is another one again, and the frame's
/// submission waits on exactly the semaphore that its acquisition was given.
pub proof fn frame_waits_on_its_acquire_semaphore(m: SchedulerModel, image: u32)
    requires
        m.wf(),
        m.accepts(Event::Tick { cancelled: false }),
        image < m.images,
    ensures
        ({
            let acquiring = m.next_state(Event::Tick { cancelled: false });
            let waiting = acquiring.next_state(Event::Acquired { image });
            let semaphore = m.free_semaphore;
            &&& m.action_for(Event::Tick { cancelled: false }) == Action::Acquire { semaphore }
            &&& forall|j: int| 0 <= j < m.images ==> m.image_semaphores[j] != semaphore
            &&& acquiring.accepts(Event::Acquired { image })
            &&& waiting.accepts(Event::FenceSignaled)
            &&& waiting.image_semaphores[image as int] == semaphore
            &&& forall|j: int|
                0 <= j < m.images && j != image ==> waiting.image_semaphores[j] != semaphore
            &&& waiting.free_semaphore != semaphore
            &&& waiting.semaphores_distinct()
            &&& waiting.action_for(Event::FenceSignaled) matches Action::Render(plan)
            &&& plan.wait_semaphore == semaphore
            &&& plan.image == image
        }),
{
    let acquiring = m.next_state(Event::Tick { cancelled: false });
    next_state_preserves_wf(m, Event::Tick { cancelled: false });
    next_state_preserves_wf(acquiring, Event::Acquired { image });
}

/// The state that the events lead to from `m`, one after the other.
pub open spec fn run(m: SchedulerModel, events: Seq<Event>) -> SchedulerModel
    decreases events.len(),
{
    if events.len() == 0 {
        m
    } else {
        run(m, events.drop_last()).next_state(events.last())
    }
}

/// Whether the scheduler, started in `m`, takes every one of the events.
pub open spec fn accepted(m: SchedulerModel, events: Seq<Event>) -> bool
    decreases events.len(),
{
    events.len() == 0 || (accepted(m, events.drop_last()) && run(m, events.drop_last()).accepts(
        events.last(),
    ))
}

/// The actions with which the scheduler, started in `m`, answers the events.
pub open spec fn actions(m: SchedulerModel, events: Seq<Event>) -> Seq<Action>
    decreases events.len(),
{
    if events.len() == 0 {
        Seq::empty()
    } else {
        actions(m, events.drop_last()).push(run(m, events.drop_last()).action_for(events.last()))
    }
}

/// How many of the actions satisfy `wanted`.
pub open spec fn count_actions(actions: Seq<Action>, wanted: spec_fn(Action) -> bool) -> nat
    decreases actions.len(),
{
    if actions.len() == 0 {
        0
    } else {
        count_actions(actions.drop_last(), wanted) + if wanted(actions.last()) {
            1nat
        } else {
            0nat
        }
    }
}

/// Number of iterations that got past the cancellation check: each of them
/// begins with the request for an image.
pub open spec fn iterations_in(actions: Seq<Action>) -> nat {
    count_actions(actions, |a: Action| a is Acquire)
}

/// Number of submissions: each `Render` action makes one.
pub open spec fn submissions_in(actions: Seq<Action>) -> nat {
    count_actions(actions, |a: Action| a is Render)
}

/// Number of frames that were completed.
pub open spec fn frames_in(actions: Seq<Action>) -> nat {
    count_actions(actions, |a: Action| a is FrameDone)
}

/// Number of presentations that succeeded.
pub open spec fn presentations_in(actions: Seq<Action>) -> nat {
    count_actions(actions, |a: Action| a == Action::FrameDone { present_failed: false })
}

/// Number of presentations that were reported as failed.
pub open spec fn failed_presentations_in(actions: Seq<Action>) -> nat {
    count_actions(actions, |a: Action| a == Action::FrameDone { present_failed: true })
}

/// Number of iterations that ended without a submission.
pub open spec fn skips_in(actions: Seq<Action>) -> nat {
    count_actions(actions, |a: Action| a is Skip)
}

/// 1 where an iteration has begun and nothing was submitted in it yet.
pub open spec fn unsubmitted(m: SchedulerModel) -> nat {
    if m.phase is Acquiring || m.phase is AwaitingFence {
        1
    } else {
        0
    }
}

/// The books of a run. Whatever events the scheduler takes, the invariant
/// holds at the end; each iteration that was begun has led to a submission or
/// was skipped or is still under way; and the counters of the state have
/// grown by what the actions show.
pub proof fn run_accounting(m: SchedulerModel, events: Seq<Event>)
    requires
        m.wf(),
        accepted(m, events),
    ensures
        run(m, events).wf(),
        actions(m, events).len() == events.len(),
        iterations_in(actions(m, events)) + unsubmitted(m) == submissions_in(actions(m, events))
            + skips_in(actions(m, events)) + unsubmitted(run(m, events)),
        run(m, events).submissions() == m.submissions() + submissions_in(actions(m, events)),
        run(m, events).frame_counter == m.frame_counter + frames_in(actions(m, events)),
        run(m, events).presented == m.presented + presentations_in(actions(m, events)),
        run(m, events).skipped == m.skipped + skips_in(actions(m, events)),
        presentations_in(actions(m, events)) <= frames_in(actions(m, events)),
        run(m, events).slots == m.slots,
        run(m, events).images == m.images,
        run(m, events).extent == m.extent,
    decreases events.len(),
{
    if events.len() > 0 {
        let before = events.drop_last();
        let event = events.last();
        let reached = run(m, before);
        run_accounting(m, before);
        next_state_preserves_wf(reached, event);
        let earlier = actions(m, before);
        let all = actions(m, events);
        assert(all.drop_last() =~= earlier);
        assert(all.last() == reached.action_for(event));
    }
}

/// The action with which a run answers its event number `i` is the one that
/// the state reached by the events before it gives.
pub proof fn action_at(m: SchedulerModel, events: Seq<Event>, i: int)
    requires
        m.wf(),
        accepted(m, events),
        0 <= i < events.len(),
    ensures
        accepted(m, events.take(i)),
        run(m, events.take(i)).wf(),
        run(m, events.take(i)).accepts(events[i]),
        actions(m, events).len() == events.len(),
        actions(m, events)[i] == run(m, events.take(i)).action_for(events[i]),
        run(m, events.take(i + 1)) == run(m, events.take(i)).next_state(events[i]),
    decreases events.len(),
{
    let before = events.drop_last();
    run_accounting(m, before);
    run_accounting(m, events);
    if i == events.len() - 1 {
        assert(events.take(i) =~= before);
        assert(events.take(i + 1) =~= events);
    } else {
        action_at(m, before, i);
        assert(before.take(i) =~= events.take(i));
        assert(before.take(i + 1) =~= events.take(i + 1));
    }
}

/// Fence discipline over a run. Whenever the scheduler has a frame rendered,
/// and with that a command pool reset, the event just reported is the signal
/// of a fence, and the action just before was the wait for the fence of the
/// very slot that is rendered from.
pub proof fn render_comes_right_after_wait(m: SchedulerModel, events: Seq<Event>, i: int)
    requires
        m.wf(),
        accepted(m, events),
        0 <= i < events.len(),
        actions(m, events)[i] is Render,
    ensures
        events[i] == Event::FenceSignaled,
        i >= 1 ==> actions(m, events)[i - 1] == (Action::WaitFence {
            slot: actions(m, events)[i]->Render_0.slot,
        }),
        i == 0 ==> m.phase is AwaitingFence,
{
    action_at(m, events, i);
    let reached = run(m, events.take(i));
    render_follows_fence_signal(reached, events[i]);
    if i >= 1 {
        action_at(m, events, i - 1);
        let earlier = run(m, events.take(i - 1));
        assert(events.take(i - 1 + 1) =~= events.take(i));
        assert(earlier.next_state(events[i - 1]) == reached);
    } else {
        assert(events.take(0) =~= Seq::<Event>::empty());
    }
}

/// At no point of a run are more submissions outstanding than there are
/// frame slots, and at no point do two images, or an image and the next
/// acquisition, share a semaphore.
pub proof fn invariants_hold_throughout(m: SchedulerModel, events: Seq<Event>, i: int)
    requires
        m.wf(),
        accepted(m, events),
        0 <= i <= events.len(),
    ensures
        run(m, events.take(i)).outstanding() <= m.slots,
        run(m, events.take(i)).semaphores_distinct(),
{
    if i < events.len() {
        action_at(m, events, i);
    } else {
        assert(events.take(i) =~= events);
    }
    run_accounting(m, events.take(i));
    outstanding_at_most_slots(run(m, events.take(i)));
}

/// The semaphores that, after the events, are signaled and not waited on
/// yet. An acquisition signals the semaphore that it was given; the
/// submission of a frame waits on the semaphore that its plan names.
pub open spec fn unwaited(m: SchedulerModel, events: Seq<Event>) -> Set<usize>
    decreases events.len(),
{
    if events.len() == 0 {
        Set::empty()
    } else {
        let before = unwaited(m, events.drop_last());
        let reached = run(m, events.drop_last());
        match (reached.phase, events.last()) {
            (Phase::Acquiring, Event::Acquired { .. }) => before.insert(reached.free_semaphore),
            (Phase::AwaitingFence { image, .. }, Event::FenceSignaled) => before.remove(
                reached.image_semaphores[image as int],
            ),
            _ => before,
        }
    }
}

/// No semaphore is signaled twice before it is waited on. Over a run that
/// begins between two iterations, the only semaphore that is ever signaled
/// and not yet waited on is that of the image just acquired, and it is
/// waited on by the submission of the same iteration: so the semaphore that
/// an acquisition is given is never one that is still signaled.
pub proof fn semaphores_are_waited_on_before_reuse(m: SchedulerModel, events: Seq<Event>)
    requires
        m.wf(),
        (m.phase is Idle),
        accepted(m, events),
    ensures
        unwaited(m, events) == match run(m, events).phase {
            Phase::AwaitingFence { image, .. } => set![
                run(m, events).image_semaphores[image as int],
            ],
            _ => Set::<usize>::empty(),
        },
        !unwaited(m, events).contains(run(m, events).free_semaphore),
    decreases events.len(),
{
    if events.len() > 0 {
        let before = events.drop_last();
        let reached = run(m, before);
        semaphores_are_waited_on_before_reuse(m, before);
        run_accounting(m, before);
        next_state_preserves_wf(reached, events.last());
        match (reached.phase, events.last()) {
            (Phase::Acquiring, Event::Acquired { image }) => {
                assert(unwaited(m, events) =~= set![reached.free_semaphore]);
            },
            (Phase::AwaitingFence { image, .. }, Event::FenceSignaled) => {
                assert(unwaited(m, events) =~= Set::<usize>::empty());
            },
            _ => {},
        }
    }
}

/// Steady state. Where the scheduler runs from the start of one iteration to
/// the start of another, with no cancellation and with every acquisition
/// successful, `k` iterations make exactly `k` submissions and complete `k`
/// frames, and at most `k` presentations succeed: as many as were not
/// reported as failed.
pub proof fn steady_state_submits_once_per_iteration(
    m: SchedulerModel,
    events: Seq<Event>,
    k: nat,
)
    requires
        m.wf(),
        (m.phase is Idle),
        accepted(m, events),
        (run(m, events).phase is Idle),
        forall|i: int| 0 <= i < events.len() ==> events[i] != Event::AcquireFailed,
        forall|i: int| 0 <= i < events.len() ==> events[i] != (Event::Tick { cancelled: true }),
        iterations_in(actions(m, events)) == k,
    ensures
        submissions_in(actions(m, events)) == k,
        frames_in(actions(m, events)) == k,
        run(m, events).frame_counter == m.frame_counter + k,
        presentations_in(actions(m, events)) <= k,
        presentations_in(actions(m, events)) + failed_presentations_in(actions(m, events)) == k,
{
    run_accounting(m, events);
    no_failure_no_skip(m, events);
    presentations_and_failures(actions(m, events));
}

/// The scheduler skips an iteration only where an acquisition failed.
pub proof fn no_failure_no_skip(m: SchedulerModel, events: Seq<Event>)
    requires
        m.wf(),
        accepted(m, events),
        forall|i: int| 0 <= i < events.len() ==> events[i] != Event::AcquireFailed,
    ensures
        skips_in(actions(m, events)) == 0,
    decreases events.len(),
{
    if events.len() > 0 {
        let before = events.drop_last();
        no_failure_no_skip(m, before);
        run_accounting(m, before);
        assert(actions(m, events).drop_last() =~= actions(m, before));
        assert(events.last() == events[events.len() - 1]);
    }
}

/// Each completed frame was presented or reported as not presented.
pub proof fn presentations_and_failures(actions: Seq<Action>)
    ensures
        presentations_in(actions) + failed_presentations_in(actions) == frames_in(actions),
    decreases actions.len(),
{
    if actions.len() > 0 {
        presentations_and_failures(actions.drop_last());
    }
}

/// How often `slot` was chosen among the first `submissions` frames, where
/// frame `f` goes to slot `f % slots`.
pub open spec fn slot_uses(submissions: nat, slots: nat, slot: nat) -> nat
    decreases submissions,
{
    if submissions == 0 {
        0
    } else {
        slot_uses((submissions - 1) as nat, slots, slot) + if (submissions - 1) % (slots as int)
            == slot {
            1nat
        } else {
            0nat
        }
    }
}

/// Round robin is fair: after any number of submissions each slot was used
/// the rounded-down or the rounded-up share of them, the first
/// `submissions % slots` slots once more than the others.
pub proof fn slot_uses_is_fair(submissions: nat, slots: nat, slot: nat)
    requires
        slots >= 1,
        slot < slots,
    ensures
        slot_uses(submissions, slots, slot) == submissions / slots + if slot < submissions
            % slots {
            1nat
        } else {
            0nat
        },
        submissions / slots <= slot_uses(submissions, slots, slot) <= submissions / slots + 1,
        submissions % slots == 0 ==> slot_uses(submissions, slots, slot) == submissions / slots,
        slot_uses(submissions, slots, slot) <= submissions,
    decreases submissions,
{
    let n = slots as int;
    if submissions > 0 {
        let earlier = (submissions - 1) as nat;
        slot_uses_is_fair(earlier, slots, slot);
        let q = earlier as int / n;
        let r = earlier as int % n;
        vstd::arithmetic::div_mod::lemma_fundamental_div_mod(earlier as int, n);
        assert(0 <= r < n) by {
            vstd::arithmetic::div_mod::lemma_mod_pos_bound(earlier as int, n);
        }
        assert(q * n == n * q) by (nonlinear_arith);
        if r + 1 < n {
            vstd::arithmetic::div_mod::lemma_fundamental_div_mod_converse(
                submissions as int,
                n,
                q,
                r + 1,
            );
        } else {
            assert((q + 1) * n + 0 == q * n + n) by (nonlinear_arith);
            vstd::arithmetic::div_mod::lemma_fundamental_div_mod_converse(
                submissions as int,
                n,
                q + 1,
                0,
            );
        }
        assert(0 <= q) by {
            vstd::arithmetic::div_mod::lemma_div_pos_is_pos(earlier as int, n);
        }
    } else {
        assert(0int / n == 0 && 0int % n == 0) by {
            vstd::arithmetic::div_mod::lemma_small_mod(0, slots);
            vstd::arithmetic::div_mod::lemma_basic_div(0, n);
        }
    }
}

/// Number of `Render` actions that use `slot`.
pub open spec fn renders_of_slot(actions: Seq<Action>, slot: nat) -> nat {
    count_actions(actions, |a: Action| a matches Action::Render(plan) && plan.slot == slot)
}

/// The slots are reused in turn: over any run, the frames that a slot
/// renders are those whose number is the slot's modulo the number of slots.
pub proof fn slots_are_reused_in_turn(m: SchedulerModel, events: Seq<Event>, slot: nat)
    requires
        m.wf(),
        accepted(m, events),
    ensures
        renders_of_slot(actions(m, events), slot) + slot_uses(m.submissions(), m.slots, slot)
            == slot_uses(run(m, events).submissions(), m.slots, slot),
    decreases events.len(),
{
    if events.len() > 0 {
        let before = events.drop_last();
        let event = events.last();
        let reached = run(m, before);
        slots_are_reused_in_turn(m, before, slot);
        run_accounting(m, before);
        next_state_preserves_wf(reached, event);
        assert(actions(m, events).drop_last() =~= actions(m, before));
        assert(actions(m, events).last() == reached.action_for(event));
    }
}

/// One step of what a frame does.
#[derive(Clone, Copy, Debug, PartialEq, Eq, Structural)]
pub enum FrameCommand {
    /// Reset the fence of the slot, which is signaled.
    ResetFence { slot: usize },
    /// Reset the slot's command pool, and with it the slot's command buffer.
    ResetPool { slot: usize },
    /// Begin recording into the slot's command buffer.
    BeginRecording { slot: usize },
    SetViewport { extent: Extent },
    SetScissor { extent: Extent },
    BindPipeline,
    BindVertexBuffer { binding: u32, offset: u64 },
    BindDescriptorSet { index: usize },
    /// Begin the render pass on the framebuffer of a swapchain image.
    BeginRenderPass { framebuffer: usize, extent: Extent },
    Draw { vertices: u32, instances: u32 },
    EndRenderPass,
    FinishRecording { slot: usize },
    /// Submit the slot's command buffer. It waits on an acquire semaphore at
    /// a pipeline stage and signals the slot's semaphore and fence.
    Submit {
        slot: usize,
        wait_semaphore: usize,
        wait_stage: u32,
        signal_semaphore: usize,
        fence: usize,
    },
    /// Present the image once the slot's semaphore is signaled.
    Present { image: usize, wait_semaphore: usize },
}

/// The commands of a frame, in their order: the slot is taken back, the
/// quad is drawn into the framebuffer of the acquired image, and the work is
/// submitted and the image presented.
pub open spec fn frame_commands(plan: FramePlan) -> Seq<FrameCommand> {
    seq![
        FrameCommand::ResetFence { slot: plan.slot },
        FrameCommand::ResetPool { slot: plan.slot },
        FrameCommand::BeginRecording { slot: plan.slot },
        FrameCommand::SetViewport { extent: plan.extent },
        FrameCommand::SetScissor { extent: plan.extent },
        FrameCommand::BindPipeline,
        FrameCommand::BindVertexBuffer { binding: 0, offset: 0 },
        FrameCommand::BindDescriptorSet { index: 0 },
        FrameCommand::BeginRenderPass { framebuffer: plan.image, extent: plan.extent },
        FrameCommand::Draw { vertices: QUAD_VERTEX_COUNT, instances: 1 },
        FrameCommand::EndRenderPass,
        FrameCommand::FinishRecording { slot: plan.slot },
        FrameCommand::Submit {
            slot: plan.slot,
            wait_semaphore: plan.wait_semaphore,
            wait_stage: plan.wait_stage,
            signal_semaphore: plan.slot,
            fence: plan.slot,
        },
        FrameCommand::Present { image: plan.image, wait_semaphore: plan.slot },
    ]
}

/// Lists the commands of a frame in the order in which they are issued.
pub fn record_frame(plan: &FramePlan) -> (commands: Vec<FrameCommand>)
    ensures
        commands@ == frame_commands(*plan),
{
    let mut commands: Vec<FrameCommand> = Vec::new();
    commands.push(FrameCommand::ResetFence { slot: plan.slot });
    commands.push(FrameCommand::ResetPool { slot: plan.slot });
    commands.push(FrameCommand::BeginRecording { slot: plan.slot });
    commands.push(FrameCommand::SetViewport { extent: plan.extent });
    commands.push(FrameCommand::SetScissor { extent: plan.extent });
    commands.push(FrameCommand::BindPipeline);
    commands.push(FrameCommand::BindVertexBuffer { binding: 0, offset: 0 });
    commands.push(FrameCommand::BindDescriptorSet { index: 0 });
    commands.push(FrameCommand::BeginRenderPass { framebuffer: plan.image, extent: plan.extent });
    commands.push(FrameCommand::Draw { vertices: QUAD_VERTEX_COUNT, instances: 1 });
    commands.push(FrameCommand::EndRenderPass);
    commands.push(FrameCommand::FinishRecording { slot: plan.slot });
    commands.push(
        FrameCommand::Submit {
            slot: plan.slot,
            wait_semaphore: plan.wait_semaphore,
            wait_stage: plan.wait_stage,
            signal_semaphore: plan.slot,
            fence: plan.slot,
        },
    );
    commands.push(FrameCommand::Present { image: plan.image, wait_semaphore: plan.slot });
    assert(commands@ =~= frame_commands(*plan));
    commands
}

/// The frame scheduler. It owns the bookkeeping of the frame slots and of the
/// acquire semaphores; the device objects themselves stay with the driver,
/// which finds them by the indices that the actions carry.
pub struct FrameScheduler {
    slots: usize,
    extent: Extent,
    frame_counter: u64,
    skipped: u64,
    presented: u64,
    pending: Vec<bool>,
    image_semaphores: Vec<usize>,
    free_semaphore: usize,
    phase: Phase,
}

impl View for FrameScheduler {
    type V = SchedulerModel;

    closed spec fn view(&self) -> SchedulerModel {
        SchedulerModel {
            slots: self.slots as nat,
            images: self.image_semaphores@.len(),
            extent: self.extent,
            frame_counter: self.frame_counter as nat,
            skipped: self.skipped as nat,
            presented: self.presented as nat,
            pending: self.pending@,
            image_semaphores: self.image_semaphores@,
            free_semaphore: self.free_semaphore,
            phase: self.phase,
        }
    }
}

/// `count` flags, none of them set.
fn cleared_flags(count: usize) -> (flags: Vec<bool>)
    ensures
        flags@ == Seq::new(count as nat, |i: int| false),
{
    let mut flags: Vec<bool> = Vec::new();
    let mut i: usize = 0;
    while i < count
        invariant
            i <= count,
            flags@.len() == i,
            forall|k: int| 0 <= k < i ==> !flags@[k],
        decreases count - i,
    {
        flags.push(false);
        i += 1;
    }
    assert(flags@ =~= Seq::new(count as nat, |i: int| false));
    flags
}

/// The numbers from 0 up to `count`, without `count`.
fn identity_indices(count: usize) -> (indices: Vec<usize>)
    ensures
        indices@ == Seq::new(count as nat, |j: int| j as usize),
{
    let mut indices: Vec<usize> = Vec::new();
    let mut j: usize = 0;
    while j < count
        invariant
            j <= count,
            indices@.len() == j,
            forall|k: int| 0 <= k < j ==> indices@[k] == k,
        decreases count - j,
    {
        indices.push(j);
        j += 1;
    }
    assert(indices@ =~= Seq::new(count as nat, |j: int| j as usize));
    indices
}

impl FrameScheduler {
    /// A scheduler for `slots` frame slots and a swapchain of `images`
    /// images of the given extent. There is none without a slot or without
    /// an image, nor where the images and the spare semaphore cannot be
    /// numbered.
    pub fn new(slots: usize, images: usize, extent: Extent) -> (scheduler: Option<FrameScheduler>)
        ensures
            scheduler is Some <==> slots >= 1 && images >= 1 && images < usize::MAX,
            scheduler matches Some(s) ==> s@ == SchedulerModel::initial(
                slots as nat,
                images as nat,
                extent,
            ) && s@.wf(),
    {
        if slots == 0 || images == 0 || images == usize::MAX {
            return None;
        }
        let scheduler = FrameScheduler {
            slots,
            extent,
            frame_counter: 0,
            skipped: 0,
            presented: 0,
            pending: cleared_flags(slots),
            image_semaphores: identity_indices(images),
            free_semaphore: images,
            phase: Phase::Idle,
        };
        Some(scheduler)
    }

    /// Takes `event` and says what the driver is to do next. An event that
    /// does not fit the present phase is turned down and changes nothing.
    pub fn step(&mut self, event: Event) -> (answer: Result<Action, SchedulerError>)
        requires
            old(self)@.wf(),
        ensures
            final(self)@.wf(),
            answer is Ok <==> old(self)@.accepts(event),
            answer matches Ok(action) ==> final(self)@ == old(self)@.next_state(event) && action
                == old(self)@.action_for(event),
            answer matches Err(e) ==> final(self)@ == old(self)@ && e == old(self)@.rejection(
                event,
            ),
    {
        let answer = match (self.phase, event) {
            (Phase::Idle, Event::Tick { cancelled }) => {
                if cancelled {
                    self.phase = Phase::Draining;
                    Ok(Action::WaitIdle)
                } else if self.frame_counter < u64::MAX && self.skipped < u64::MAX {
                    self.phase = Phase::Acquiring;
                    Ok(Action::Acquire { semaphore: self.free_semaphore })
                } else {
                    Err(SchedulerError::CounterExhausted)
                }
            },
            (Phase::Acquiring, Event::Acquired { image }) => {
                let image = image as usize;
                if image < self.image_semaphores.len() {
                    let slot = (self.frame_counter % (self.slots as u64)) as usize;
                    // The spare semaphore, which the acquisition was given,
                    // becomes the image's; the image's becomes the spare one.
                    let owned = self.image_semaphores[image];
                    self.image_semaphores.set(image, self.free_semaphore);
                    self.free_semaphore = owned;
                    self.phase = Phase::AwaitingFence { image, slot };
                    Ok(Action::WaitFence { slot })
                } else {
                    Err(SchedulerError::ImageOutOfRange)
                }
            },
            (Phase::Acquiring, Event::AcquireFailed) => {
                self.skipped = self.skipped + 1;
                self.phase = Phase::Idle;
                Ok(Action::Skip)
            },
            (Phase::AwaitingFence { image, slot }, Event::FenceSignaled) => {
                // The fence is signaled: nothing of the slot is in flight.
                self.pending.set(slot, false);
                let plan = FramePlan {
                    slot,
                    image,
                    wait_semaphore: self.image_semaphores[image],
                    wait_stage: STAGE_COLOR_ATTACHMENT_OUTPUT,
                    extent: self.extent,
                };
                // The plan ends in a submission that signals the fence anew.
                self.pending.set(slot, true);
                self.phase = Phase::Presenting { image, slot };
                Ok(Action::Render(plan))
            },
            (Phase::Presenting { .. }, Event::Presented { ok }) => {
                self.frame_counter = self.frame_counter + 1;
                if ok {
                    self.presented = self.presented + 1;
                }
                self.phase = Phase::Idle;
                Ok(Action::FrameDone { present_failed: !ok })
            },
            (Phase::Draining, Event::DeviceIdle) => {
                self.pending = cleared_flags(self.pending.len());
                self.phase = Phase::Stopped;
                Ok(Action::Teardown)
            },
            _ => Err(SchedulerError::UnexpectedEvent),
        };
        proof {
            if answer is Ok {
                let next = old(self)@.next_state(event);
                assert(self@.pending =~= next.pending);
                assert(self@.image_semaphores =~= next.image_semaphores);
                next_state_preserves_wf(old(self)@, event);
            }
        }
        answer
    }

    /// Where the scheduler stands.
    pub fn phase(&self) -> (phase: Phase)
        ensures
            phase == self@.phase,
    {
        self.phase
    }

    /// Number of frame slots.
    pub fn slots(&self) -> (slots: usize)
        ensures
            slots == self@.slots,
    {
        self.slots
    }

    /// Number of swapchain images.
    pub fn images(&self) -> (images: usize)
        ensures
            images == self@.images,
    {
        self.image_semaphores.len()
    }

    /// Number of acquire semaphores: one for each image, and the spare one.
    pub fn semaphore_count(&self) -> (count: usize)
        requires
            self@.wf(),
        ensures
            count == self@.images + 1,
    {
        self.image_semaphores.len() + 1
    }

    /// Extent of the swapchain images.
    pub fn extent(&self) -> (extent: Extent)
        ensures
            extent == self@.extent,
    {
        self.extent
    }

    /// Number of frames that were completed.
    pub fn frame_counter(&self) -> (frames: u64)
        ensures
            frames == self@.frame_counter,
    {
        self.frame_counter
    }

    /// Number of iterations that ended without a submission.
    pub fn skipped(&self) -> (skipped: u64)
        ensures
            skipped == self@.skipped,
    {
        self.skipped
    }

    /// Number of successful presentations.
    pub fn presented(&self) -> (presented: u64)
        ensures
            presented == self@.presented,
    {
        self.presented
    }

    /// Number of submissions made so far.
    pub fn submissions(&self) -> (submissions: u64)
        requires
            self@.wf(),
        ensures
            submissions == self@.submissions(),
    {
        match self.phase {
            Phase::Presenting { .. } => self.frame_counter + 1,
            _ => self.frame_counter,
        }
    }

    /// Number of submissions that are not known to be complete.
    pub fn outstanding(&self) -> (outstanding: usize)
        ensures
            outstanding == self@.outstanding(),
    {
        let mut count: usize = 0;
        let mut i: usize = 0;
        while i < self.pending.len()
            invariant
                i <= self.pending.len(),
                count <= i,
                count == count_true(self.pending@.take(i as int)),
            decreases self.pending.len() - i,
        {
            assert(self.pending@.take(i + 1).drop_last() =~= self.pending@.take(i as int));
            if self.pending[i] {
                count += 1;
            }
            i += 1;
        }
        assert(self.pending@.take(self.pending.len() as int) =~= self.pending@);
        count
    }

    /// The spare semaphore, which the next acquisition uses.
    pub fn free_semaphore(&self) -> (semaphore: usize)
        ensures
            semaphore == self@.free_semaphore,
    {
        self.free_semaphore
    }

    /// The acquire semaphore that belongs to a swapchain image, if there is
    /// such an image.
    pub fn image_semaphore(&self, image: usize) -> (semaphore: Option<usize>)
        ensures
            semaphore == if image < self@.images {
                Some(self@.image_semaphores[image as int])
            } else {
                None
            },
    {
        if image < self.image_semaphores.len() {
            Some(self.image_semaphores[image])
        } else {
            None
        }
    }

    /// Whether a submission from the slot is outstanding, if there is such a
    /// slot.
    pub fn slot_pending(&self, slot: usize) -> (pending: Option<bool>)
        ensures
            pending == if slot < self@.pending.len() {
                Some(self@.pending[slot as int])
            } else {
                None
            },
    {
        if slot < self.pending.len() {
            Some(self.pending[slot])
        } else {
            None
        }
    }

    /// How often the slot was used for a submission.
    pub fn slot_use_count(&self, slot: usize) -> (uses: u64)
        requires
            self@.wf(),
            slot < self@.slots,
        ensures
            uses == slot_uses(self@.submissions(), self@.slots, slot as nat),
    {
        let submissions = self.submissions();
        let slots = self.slots as u64;
        proof {
            slot_uses_is_fair(submissions as nat, slots as nat, slot as nat);
        }
        if (slot as u64) < submissions % slots {
            submissions / slots + 1
        } else {
            submissions / slots
        }
    }
}

} // verus!
