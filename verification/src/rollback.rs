//! The match run ahead of the peer's confirmed input, and run again from a
//! saved state when a prediction proves wrong.

use vstd::prelude::*;
use crate::input::{PaddleInput, PaddleInputs};
use crate::input_queue::{
    blank_table, confirm_spec, entry_of, lemma_predict_confirmed_as_predicted,
    lemma_predict_prefix, predict, InputQueue, FRAME_LIMIT, QUEUE_CAPACITY,
};
use crate::pong::{Match, PongError};
use crate::stepper::{lemma_simulate_wf, simulate, step, step_spec};

verus! {

/// The largest prediction window an engine can be made with.
pub const WINDOW_LIMIT: usize = 64;

/// The largest input delay an engine can be made with.
pub const DELAY_LIMIT: usize = 32;

/// What became of an input handed to the engine.
#[derive(Clone, Copy, Debug, PartialEq, Eq, Structural)]
pub enum Confirmation {
    /// It is recorded, and no simulated frame had used another input.
    Recorded,
    /// It is recorded, and this many frames were simulated again.
    Corrected { resimulated: usize },
    /// It lies further ahead than the engine holds inputs for. Nothing is
    /// recorded.
    OutOfReach,
}

/// What a call of `advance_frame` did.
#[derive(Clone, Copy, Debug, PartialEq, Eq, Structural)]
pub enum Advance {
    /// One frame was simulated. It is speculative where the peer's input for it
    /// was a prediction.
    Advanced { speculative: bool },
    /// The peer's confirmed input lies a whole prediction window behind.
    /// Nothing was recorded or simulated.
    Stalled,
}

/// The inputs of both players for a frame, each confirmed or predicted.
pub open spec fn inputs_of(
    left: Seq<Option<PaddleInput>>,
    right: Seq<Option<PaddleInput>>,
    frame: int,
) -> PaddleInputs {
    PaddleInputs { left: predict(left, frame), right: predict(right, frame) }
}

/// The inputs of the first `frames` frames.
pub open spec fn timeline_of(
    left: Seq<Option<PaddleInput>>,
    right: Seq<Option<PaddleInput>>,
    frames: int,
) -> Seq<PaddleInputs> {
    Seq::new(frames as nat, |frame: int| inputs_of(left, right, frame))
}

/// The match after its first `frames` frames, simulated from `initial` with the
/// inputs that the two tables give.
#[verifier::opaque]
pub open spec fn replay(
    initial: Match,
    left: Seq<Option<PaddleInput>>,
    right: Seq<Option<PaddleInput>>,
    frames: int,
) -> Match {
    simulate(initial, timeline_of(left, right, frames))
}

/// One more frame of a replay is one more tick.
pub proof fn lemma_replay_step(
    initial: Match,
    left: Seq<Option<PaddleInput>>,
    right: Seq<Option<PaddleInput>>,
    frames: int,
)
    requires
        0 <= frames,
    ensures
        replay(initial, left, right, frames + 1) == step_spec(
            replay(initial, left, right, frames),
            inputs_of(left, right, frames),
        ),
{
    reveal(replay);
    assert(timeline_of(left, right, frames + 1).drop_last() =~= timeline_of(left, right, frames));
}

/// Tables that agree on every frame before `frames` replay to the same state.
pub proof fn lemma_replay_prefix(
    initial: Match,
    left: Seq<Option<PaddleInput>>,
    right: Seq<Option<PaddleInput>>,
    other_left: Seq<Option<PaddleInput>>,
    other_right: Seq<Option<PaddleInput>>,
    frames: int,
)
    requires
        0 <= frames,
        forall|frame: int|
            0 <= frame < frames ==> entry_of(left, frame) == entry_of(other_left, frame),
        forall|frame: int|
            0 <= frame < frames ==> entry_of(right, frame) == entry_of(other_right, frame),
    ensures
        replay(initial, left, right, frames) == replay(initial, other_left, other_right, frames),
{
    assert forall|frame: int| 0 <= frame < frames implies #[trigger] inputs_of(left, right, frame)
        == inputs_of(other_left, other_right, frame) by {
        lemma_predict_prefix(left, other_left, frame);
        lemma_predict_prefix(right, other_right, frame);
    }
    lemma_replay_same_inputs(initial, left, right, other_left, other_right, frames);
}

/// Tables that give every frame the same inputs replay to the same state.
pub proof fn lemma_replay_same_inputs(
    initial: Match,
    left: Seq<Option<PaddleInput>>,
    right: Seq<Option<PaddleInput>>,
    other_left: Seq<Option<PaddleInput>>,
    other_right: Seq<Option<PaddleInput>>,
    frames: int,
)
    requires
        0 <= frames,
        forall|frame: int|
            0 <= frame < frames ==> #[trigger] inputs_of(left, right, frame) == inputs_of(
                other_left,
                other_right,
                frame,
            ),
    ensures
        replay(initial, left, right, frames) == replay(initial, other_left, other_right, frames),
{
    reveal(replay);
    assert(timeline_of(left, right, frames) =~= timeline_of(other_left, other_right, frames));
}

/// A replay of a valid match is a valid match.
pub proof fn lemma_replay_wf(
    initial: Match,
    left: Seq<Option<PaddleInput>>,
    right: Seq<Option<PaddleInput>>,
    frames: int,
)
    requires
        initial.wf(),
    ensures
        replay(initial, left, right, frames).wf(),
{
    reveal(replay);
    lemma_simulate_wf(initial, timeline_of(left, right, frames));
}

/// A replay of no frames is the initial match.
pub proof fn lemma_replay_start(
    initial: Match,
    left: Seq<Option<PaddleInput>>,
    right: Seq<Option<PaddleInput>>,
)
    ensures
        replay(initial, left, right, 0) == initial,
{
    reveal(replay);
    assert(timeline_of(left, right, 0) =~= Seq::empty());
}

/// What an engine stands for: the match it started from, its settings, how
/// many frames it has simulated, and what it knows of both players' inputs.
/// Its state follows from these.
#[verifier::ext_equal]
pub struct RollbackView {
    /// The match that frame 0 started from.
    pub initial: Match,
    /// How many frames the engine may run ahead of the peer's confirmed input.
    pub window: int,
    /// How many frames lie between reading a local input and simulating it.
    pub delay: int,
    /// The slot of the local player.
    pub local: int,
    /// How many frames have been simulated.
    pub frame: int,
    /// The inputs of slot 0, frame by frame, confirmed where there is an entry.
    pub left: Seq<Option<PaddleInput>>,
    /// The inputs of slot 1.
    pub right: Seq<Option<PaddleInput>>,
}

impl RollbackView {
    /// The slot of the peer.
    pub open spec fn remote(self) -> int {
        1 - self.local
    }

    /// The inputs of one slot.
    pub open spec fn table(self, handle: int) -> Seq<Option<PaddleInput>> {
        if handle == 0 {
            self.left
        } else {
            self.right
        }
    }

    /// This view with the inputs of one slot replaced.
    pub open spec fn with_table(self, handle: int, table: Seq<Option<PaddleInput>>) -> RollbackView {
        if handle == 0 {
            RollbackView { left: table, ..self }
        } else {
            RollbackView { right: table, ..self }
        }
    }

    /// The confirmed input of a slot for a frame, if there is one.
    pub open spec fn confirmed(self, handle: int, frame: int) -> Option<PaddleInput> {
        entry_of(self.table(handle), frame)
    }

    /// Whether a slot's input is confirmed for every frame before `frame`.
    pub open spec fn confirmed_before(self, handle: int, frame: int) -> bool {
        forall|earlier: int|
            0 <= earlier < frame ==> (#[trigger] entry_of(self.table(handle), earlier)).is_some()
    }

    /// The inputs that a frame is simulated with.
    pub open spec fn inputs_at(self, frame: int) -> PaddleInputs {
        inputs_of(self.left, self.right, frame)
    }

    /// The state that a plain run of `frames` frames reaches under the inputs
    /// held now.
    pub open spec fn state_at(self, frames: int) -> Match {
        replay(self.initial, self.left, self.right, frames)
    }

    /// The state after the frames simulated so far.
    pub open spec fn state(self) -> Match {
        self.state_at(self.frame)
    }

    /// The oldest frame whose saved state is still held: the current frame
    /// less the prediction window. An input for an older frame can no longer
    /// be taken.
    pub open spec fn oldest_frame(self) -> int {
        if self.frame > self.window {
            self.frame - self.window
        } else {
            0
        }
    }

    /// Whether a frame is settled and its state still held: it is not older
    /// than the oldest saved state nor ahead of the current frame, and both
    /// players' inputs are confirmed for every frame before it. Later inputs
    /// cannot change the state at a settled frame.
    pub open spec fn settled(self, frame: int) -> bool {
        &&& self.oldest_frame() <= frame <= self.frame
        &&& self.confirmed_before(0, frame)
        &&& self.confirmed_before(1, frame)
    }

    /// Whether the engine has to wait for the peer: some frame a whole window
    /// or more behind the current one has no confirmed input from the peer.
    pub open spec fn stalled(self) -> bool {
        !self.confirmed_before(self.remote(), self.frame - self.window + 1)
    }

    /// What taking a confirmed input does.
    ///
    /// A frame older than the oldest saved state is refused as a fatal
    /// desynchronisation, and a frame `QUEUE_CAPACITY` or more past it is left
    /// out of the record; in both cases nothing changes. Any other frame's
    /// input is recorded, and that is a correction exactly where the frame was
    /// already simulated with another input.
    pub open spec fn add_input(self, handle: int, frame: int, input: PaddleInput) -> (
        RollbackView,
        Result<Confirmation, PongError>,
    ) {
        if frame < self.oldest_frame() {
            (self, Err(PongError::DesyncFatal))
        } else if frame >= self.oldest_frame() + QUEUE_CAPACITY {
            (self, Ok(Confirmation::OutOfReach))
        } else {
            (
                self.with_table(handle, confirm_spec(self.table(handle), frame, input)),
                if frame < self.frame && predict(self.table(handle), frame) != input {
                    Ok(Confirmation::Corrected { resimulated: (self.frame - frame) as usize })
                } else {
                    Ok(Confirmation::Recorded)
                },
            )
        }
    }

    /// What asking for one more frame does.
    ///
    /// A stalled engine changes nothing. Any other records the local player's
    /// input `delay` frames ahead and simulates one frame, which is speculative
    /// where the peer's input for it is not confirmed.
    pub open spec fn advance_frame(self, local_input: PaddleInput) -> (RollbackView, Advance) {
        if self.stalled() {
            (self, Advance::Stalled)
        } else {
            (
                RollbackView {
                    frame: self.frame + 1,
                    ..self.with_table(
                        self.local,
                        confirm_spec(self.table(self.local), self.frame + self.delay, local_input),
                    )
                },
                Advance::Advanced {
                    speculative: self.confirmed(self.remote(), self.frame).is_none(),
                },
            )
        }
    }
}

/// A match, the inputs of both players frame by frame, and the saved states of
/// the last frames. The state it shows is always the one that a plain run from
/// the initial match reaches under the inputs it holds now.
pub struct Rollback {
    window: usize,
    delay: usize,
    local: usize,
    snapshots: Vec<Match>,
    left: InputQueue,
    right: InputQueue,
    start: Ghost<Match>,
}

impl View for Rollback {
    type V = RollbackView;

    closed spec fn view(&self) -> RollbackView {
        RollbackView {
            initial: self.start@,
            window: self.window as int,
            delay: self.delay as int,
            local: self.local as int,
            frame: self.left.base_frame() + self.snapshots@.len() - 1,
            left: self.left.table(),
            right: self.right.table(),
        }
    }
}

impl Rollback {
    /// Whether the first `count` saved states are what a plain run reaches
    /// under the inputs held now.
    spec fn saved(&self, count: int) -> bool {
        forall|index: int|
            0 <= index < count ==> #[trigger] self.snapshots@[index] == replay(
                self.start@,
                self.left.table(),
                self.right.table(),
                self.left.base_frame() + index,
            )
    }

    /// The settings are within their limits, and every saved state is what a
    /// plain run reaches under the inputs held now.
    pub closed spec fn wf(&self) -> bool {
        &&& self.window <= WINDOW_LIMIT
        &&& self.delay <= DELAY_LIMIT
        &&& self.local < 2
        &&& self.left.wf()
        &&& self.right.wf()
        &&& self.left.base_frame() == self.right.base_frame()
        &&& 1 <= self.snapshots@.len() <= self.window + 1
        &&& self.left.base_frame() == 0 || self.snapshots@.len() == self.window + 1
        &&& self@.frame <= FRAME_LIMIT
        &&& self.start@.wf()
        &&& self.saved(self.snapshots@.len() as int)
        &&& self@.confirmed_before(self.local as int, self@.frame + self.delay)
    }

    /// What holds of every engine: it started from a valid match and shows a
    /// valid one, its settings are within their limits, the local player's
    /// inputs are confirmed up to `delay` frames ahead, and both players' inputs
    /// are confirmed for every frame older than the oldest saved state.
    pub proof fn lemma_invariant(&self)
        requires
            self.wf(),
        ensures
            self@.initial.wf(),
            self@.state().wf(),
            0 <= self@.frame <= FRAME_LIMIT,
            0 <= self@.window <= WINDOW_LIMIT,
            0 <= self@.delay <= DELAY_LIMIT,
            0 <= self@.local < 2,
            self@.confirmed_before(self@.local, self@.frame + self@.delay),
            self@.confirmed_before(0, self@.oldest_frame()),
            self@.confirmed_before(1, self@.oldest_frame()),
    {
        lemma_replay_wf(self.start@, self.left.table(), self.right.table(), self@.frame);
        self.lemma_oldest();
    }

    /// The queues start at the oldest frame held, every earlier frame is
    /// confirmed for both players, and the newest saved state is the state.
    proof fn lemma_oldest(&self)
        requires
            self.wf(),
        ensures
            self.left.base_frame() == self@.oldest_frame(),
            self.right.base_frame() == self@.oldest_frame(),
            self@.confirmed_before(0, self@.oldest_frame()),
            self@.confirmed_before(1, self@.oldest_frame()),
            0 <= self@.oldest_frame() <= self@.frame <= FRAME_LIMIT,
            self@.frame - self@.oldest_frame() <= self.window,
            self.snapshots@.len() == self@.frame - self@.oldest_frame() + 1,
            self.snapshots@.last() == self@.state(),
    {
        self.left.lemma_reach();
        self.right.lemma_reach();
        assert forall|earlier: int| 0 <= earlier < self@.oldest_frame() implies (#[trigger] entry_of(
            self@.table(0),
            earlier,
        )).is_some() by {
            assert(self.left.confirmed(earlier).is_some());
        }
        assert forall|earlier: int| 0 <= earlier < self@.oldest_frame() implies (#[trigger] entry_of(
            self@.table(1),
            earlier,
        )).is_some() by {
            assert(self.right.confirmed(earlier).is_some());
        }
        let last = self.snapshots@.len() - 1;
        assert(self.snapshots@[last] == self.snapshots@.last());
    }

    /// Whether an engine can be made with these settings: the match is a valid
    /// one, window and delay are within their limits, and the local player has
    /// one of the two slots.
    pub open spec fn can_start(initial: Match, window: usize, delay: usize, local: usize) -> bool {
        &&& initial.wf()
        &&& window <= WINDOW_LIMIT
        &&& delay <= DELAY_LIMIT
        &&& local < 2
    }

    /// An engine at frame 0 of `initial`, in which the first `delay` frames of
    /// both players are confirmed as blank. Settings that no engine can be
    /// made with are refused.
    pub fn new(initial: Match, window: usize, delay: usize, local: usize) -> (made: Result<
        Rollback,
        PongError,
    >)
        ensures
            Rollback::can_start(initial, window, delay, local) <==> made is Ok,
            made matches Err(error) ==> error == PongError::PreconditionViolation,
            made matches Ok(engine) ==> {
                &&& engine.wf()
                &&& engine@ == (RollbackView {
                    initial,
                    window: window as int,
                    delay: delay as int,
                    local: local as int,
                    frame: 0,
                    left: blank_table(delay as int),
                    right: blank_table(delay as int),
                })
                &&& engine@.state() == initial
            },
    {
        if !initial.validate() || window > WINDOW_LIMIT || delay > DELAY_LIMIT || local >= 2 {
            return Err(PongError::PreconditionViolation);
        }
        let mut snapshots: Vec<Match> = Vec::new();
        snapshots.push(initial);
        let engine = Rollback {
            window,
            delay,
            local,
            snapshots,
            left: InputQueue::new(delay),
            right: InputQueue::new(delay),
            start: Ghost(initial),
        };
        proof {
            lemma_replay_start(engine.start@, engine.left.table(), engine.right.table());
            assert forall|earlier: int| 0 <= earlier < delay implies (#[trigger] entry_of(
                engine@.table(local as int),
                earlier,
            )).is_some() by {}
        }
        Ok(engine)
    }

    /// The state after the frames simulated so far.
    pub fn current_state(&self) -> (state: Match)
        requires
            self.wf(),
        ensures
            state == self@.state(),
            state.wf(),
    {
        proof {
            self.lemma_invariant();
            self.lemma_oldest();
        }
        self.snapshots[self.snapshots.len() - 1]
    }

    /// How many frames have been simulated.
    pub fn current_frame(&self) -> (frame: usize)
        requires
            self.wf(),
        ensures
            frame == self@.frame,
            frame <= FRAME_LIMIT,
    {
        self.left.oldest() + (self.snapshots.len() - 1)
    }

    /// The slot of the local player.
    pub fn local_handle(&self) -> (handle: usize)
        requires
            self.wf(),
        ensures
            handle == self@.local,
            handle < 2,
    {
        self.local
    }

    /// How many frames lie between reading a local input and simulating it.
    pub fn input_delay(&self) -> (delay: usize)
        requires
            self.wf(),
        ensures
            delay == self@.delay,
            delay <= DELAY_LIMIT,
    {
        self.delay
    }

    /// The first frame for which some player's input is not confirmed. Every
    /// frame before it is settled: both peers simulate it with the same inputs.
    pub fn confirmed_frame(&self) -> (frame: usize)
        requires
            self.wf(),
        ensures
            self@.confirmed_before(0, frame as int),
            self@.confirmed_before(1, frame as int),
            self@.confirmed(0, frame as int).is_none() || self@.confirmed(1, frame as int).is_none(),
    {
        let left: usize = self.left.first_unconfirmed();
        let right: usize = self.right.first_unconfirmed();
        let frame: usize = if left <= right {
            left
        } else {
            right
        };
        proof {
            assert forall|earlier: int| 0 <= earlier < frame implies (#[trigger] entry_of(
                self@.table(0),
                earlier,
            )).is_some() by {
                assert(self.left.confirmed(earlier).is_some());
            }
            assert forall|earlier: int| 0 <= earlier < frame implies (#[trigger] entry_of(
                self@.table(1),
                earlier,
            )).is_some() by {
                assert(self.right.confirmed(earlier).is_some());
            }
        }
        frame
    }

    /// Whether the engine has to wait for the peer before it can simulate
    /// another frame.
    pub fn is_stalled(&self) -> (stalled: bool)
        requires
            self.wf(),
        ensures
            stalled == self@.stalled(),
    {
        proof {
            self.lemma_oldest();
            self.left.lemma_reach();
            self.right.lemma_reach();
        }
        let current: usize = self.current_frame();
        let settled: usize = if self.local == 0 {
            self.right.first_unconfirmed()
        } else {
            self.left.first_unconfirmed()
        };
        let ghost peer = self@.table(self@.remote());
        if settled + self.window <= current {
            assert(entry_of(peer, settled as int).is_none());
            true
        } else {
            assert forall|earlier: int| 0 <= earlier < current - self.window + 1 implies (
            #[trigger] entry_of(peer, earlier)).is_some() by {
                if self.local == 0 {
                    assert(self.right.confirmed(earlier).is_some());
                } else {
                    assert(self.left.confirmed(earlier).is_some());
                }
            }
            false
        }
    }

    /// The newest settled frame.
    pub fn newest_settled(&self) -> (frame: usize)
        requires
            self.wf(),
        ensures
            self@.settled(frame as int),
            forall|later: int| later > frame ==> !self@.settled(later),
            frame <= FRAME_LIMIT,
    {
        proof {
            self.lemma_oldest();
        }
        let current: usize = self.current_frame();
        let confirmed: usize = self.confirmed_frame();
        let frame: usize = if confirmed <= current {
            confirmed
        } else {
            current
        };
        proof {
            let ghost view = self@;
            assert(view.oldest_frame() <= frame) by {
                if frame < view.oldest_frame() {
                    assert(entry_of(view.table(0), frame as int).is_some());
                    assert(entry_of(view.table(1), frame as int).is_some());
                }
            }
            assert forall|later: int| later > frame implies !view.settled(later) by {
                if later <= current {
                    assert(entry_of(view.table(0), confirmed as int).is_none() || entry_of(
                        view.table(1),
                        confirmed as int,
                    ).is_none());
                }
            }
        }
        frame
    }

    /// The state at a settled frame; nothing for any other frame.
    pub fn settled_state(&self, frame: usize) -> (state: Option<Match>)
        requires
            self.wf(),
        ensures
            state == (if self@.settled(frame as int) {
                Some(self@.state_at(frame as int))
            } else {
                None
            }),
            state matches Some(held) ==> held.wf(),
    {
        proof {
            self.lemma_oldest();
        }
        let base: usize = self.left.oldest();
        let current: usize = self.current_frame();
        let confirmed: usize = self.confirmed_frame();
        let ghost view = self@;
        if frame < base || frame > current {
            return None;
        }
        if frame > confirmed {
            proof {
                assert(entry_of(view.table(0), confirmed as int).is_none() || entry_of(
                    view.table(1),
                    confirmed as int,
                ).is_none());
            }
            return None;
        }
        proof {
            assert(self.snapshots@[frame - base] == replay(
                self.start@,
                self.left.table(),
                self.right.table(),
                base + (frame - base),
            ));
            lemma_replay_wf(self.start@, self.left.table(), self.right.table(), frame as int);
        }
        Some(self.snapshots[frame - base])
    }

    /// Simulates again from the newest saved state to frame `current`.
    fn resimulate(&mut self, current: usize)
        requires
            old(self).left.wf(),
            old(self).right.wf(),
            old(self).left.base_frame() == old(self).right.base_frame(),
            old(self).start@.wf(),
            1 <= old(self).snapshots@.len(),
            old(self).left.base_frame() + old(self).snapshots@.len() - 1 <= current <= FRAME_LIMIT,
            old(self).saved(old(self).snapshots@.len() as int),
        ensures
            final(self).left == old(self).left,
            final(self).right == old(self).right,
            final(self).start == old(self).start,
            final(self).window == old(self).window,
            final(self).delay == old(self).delay,
            final(self).local == old(self).local,
            final(self).snapshots@.len() == current - old(self).left.base_frame() + 1,
            final(self).saved(final(self).snapshots@.len() as int),
            forall|index: int|
                0 <= index < old(self).snapshots@.len() ==> final(self).snapshots@[index] == old(
                    self).snapshots@[index],
    {
        let base: usize = self.left.oldest();
        let mut at: usize = base + (self.snapshots.len() - 1);
        while at < current
            invariant
                base <= at <= current <= FRAME_LIMIT,
                self.snapshots@.len() == at - base + 1,
                self.snapshots@.len() >= old(self).snapshots@.len(),
                self.left == old(self).left,
                self.right == old(self).right,
                self.start == old(self).start,
                self.window == old(self).window,
                self.delay == old(self).delay,
                self.local == old(self).local,
                self.left.wf(),
                self.right.wf(),
                self.left.base_frame() == base,
                self.right.base_frame() == base,
                self.start@.wf(),
                self.saved(self.snapshots@.len() as int),
                forall|index: int|
                    0 <= index < old(self).snapshots@.len() ==> self.snapshots@[index] == old(
                        self).snapshots@[index],
            decreases current - at,
        {
            let inputs = PaddleInputs { left: self.left.get(at).0, right: self.right.get(at).0 };
            let ghost before = self.snapshots@;
            proof {
                assert(before[at - base] == replay(
                    self.start@,
                    self.left.table(),
                    self.right.table(),
                    base + (at - base),
                ));
                lemma_replay_wf(self.start@, self.left.table(), self.right.table(), at as int);
                lemma_replay_step(self.start@, self.left.table(), self.right.table(), at as int);
            }
            let next = step(&self.snapshots[at - base], &inputs);
            self.snapshots.push(next);
            proof {
                assert forall|index: int|
                    0 <= index < self.snapshots@.len() implies #[trigger] self.snapshots@[index]
                    == replay(
                    self.start@,
                    self.left.table(),
                    self.right.table(),
                    self.left.base_frame() + index,
                ) by {
                    if index < before.len() {
                        assert(self.snapshots@[index] == before[index]);
                    }
                }
            }
            at = at + 1;
        }
    }

    /// Records a confirmed input in its slot's queue and hands back the input
    /// that the frame was given until now. The states saved for the frames up
    /// to the confirmed one stand; all of them stand where the input is the one
    /// that was predicted.
    fn record(&mut self, handle: usize, frame: usize, input: PaddleInput) -> (predicted:
        PaddleInput)
        requires
            old(self).left.wf(),
            old(self).right.wf(),
            old(self).left.base_frame() == old(self).right.base_frame(),
            old(self).left.base_frame() <= frame < old(self).left.base_frame() + QUEUE_CAPACITY,
            old(self).saved(old(self).snapshots@.len() as int),
            handle < 2,
        ensures
            final(self).left.wf(),
            final(self).right.wf(),
            final(self).left.base_frame() == old(self).left.base_frame(),
            final(self).right.base_frame() == old(self).right.base_frame(),
            final(self).snapshots == old(self).snapshots,
            final(self).start == old(self).start,
            final(self).window == old(self).window,
            final(self).delay == old(self).delay,
            final(self).local == old(self).local,
            final(self)@ == old(self)@.with_table(
                handle as int,
                confirm_spec(old(self)@.table(handle as int), frame as int, input),
            ),
            predicted == predict(old(self)@.table(handle as int), frame as int),
            forall|index: int|
                0 <= index < final(self).snapshots@.len() && (predicted == input
                    || final(self).left.base_frame() + index <= frame)
                    ==> #[trigger] final(self).snapshots@[index] == replay(
                    final(self).start@,
                    final(self).left.table(),
                    final(self).right.table(),
                    final(self).left.base_frame() + index,
                ),
    {
        let ghost base = self.left.base_frame();
        let ghost left_before = self.left.table();
        let ghost right_before = self.right.table();
        let predicted = if handle == 0 {
            self.left.get(frame).0
        } else {
            self.right.get(frame).0
        };
        if handle == 0 {
            self.left.confirm(frame, input);
        } else {
            self.right.confirm(frame, input);
        }
        let ghost left_after = self.left.table();
        let ghost right_after = self.right.table();
        proof {
            self.left.lemma_reach();
            assert forall|index: int|
                0 <= index < self.snapshots@.len() && (predicted == input || base + index
                    <= frame) implies #[trigger] self.snapshots@[index] == replay(
                self.start@,
                left_after,
                right_after,
                base + index,
            ) by {
                assert(old(self).snapshots@[index] == replay(
                    self.start@,
                    left_before,
                    right_before,
                    base + index,
                ));
                if base + index <= frame {
                    lemma_replay_prefix(
                        self.start@,
                        left_before,
                        right_before,
                        left_after,
                        right_after,
                        base + index,
                    );
                } else {
                    Self::lemma_same_inputs(
                        left_before,
                        right_before,
                        left_after,
                        right_after,
                        handle as int,
                        frame as int,
                        base + index,
                    );
                    lemma_replay_same_inputs(
                        self.start@,
                        left_before,
                        right_before,
                        left_after,
                        right_after,
                        base + index,
                    );
                }
            }
        }
        predicted
    }

    /// Confirming, for one frame of one slot, the input that was predicted for
    /// it leaves every frame's inputs as they were.
    proof fn lemma_same_inputs(
        left_before: Seq<Option<PaddleInput>>,
        right_before: Seq<Option<PaddleInput>>,
        left_after: Seq<Option<PaddleInput>>,
        right_after: Seq<Option<PaddleInput>>,
        handle: int,
        changed: int,
        frames: int,
    )
        requires
            0 <= changed,
            handle == 0 ==> right_after == right_before && left_after == confirm_spec(
                left_before,
                changed,
                predict(left_before, changed),
            ),
            handle != 0 ==> left_after == left_before && right_after == confirm_spec(
                right_before,
                changed,
                predict(right_before, changed),
            ),
        ensures
            forall|frame: int|
                0 <= frame < frames ==> #[trigger] inputs_of(left_before, right_before, frame)
                    == inputs_of(left_after, right_after, frame),
    {
        assert forall|frame: int| 0 <= frame < frames implies #[trigger] inputs_of(
            left_before,
            right_before,
            frame,
        ) == inputs_of(left_after, right_after, frame) by {
            if handle == 0 {
                lemma_predict_confirmed_as_predicted(left_before, left_after, changed, frame);
            } else {
                lemma_predict_confirmed_as_predicted(right_before, right_after, changed, frame);
            }
        }
    }

    /// Lets the oldest saved state, and the inputs of its frame, go.
    fn release_oldest(&mut self)
        requires
            old(self).left.wf(),
            old(self).right.wf(),
            old(self).left.base_frame() == old(self).right.base_frame(),
            old(self).left.base_frame() < FRAME_LIMIT,
            old(self).snapshots@.len() >= 2,
            old(self).left.confirmed(old(self).left.base_frame()).is_some(),
            old(self).right.confirmed(old(self).left.base_frame()).is_some(),
            old(self).saved(old(self).snapshots@.len() as int),
        ensures
            final(self).left.wf(),
            final(self).right.wf(),
            final(self).left.base_frame() == old(self).left.base_frame() + 1,
            final(self).right.base_frame() == old(self).left.base_frame() + 1,
            final(self)@ == old(self)@,
            final(self).snapshots@ == old(self).snapshots@.subrange(
                1,
                old(self).snapshots@.len() as int,
            ),
            final(self).start == old(self).start,
            final(self).window == old(self).window,
            final(self).delay == old(self).delay,
            final(self).local == old(self).local,
            final(self).saved(final(self).snapshots@.len() as int),
    {
        let ghost kept = self.snapshots@;
        self.snapshots.remove(0);
        self.left.evict();
        self.right.evict();
        proof {
            assert(self.snapshots@ =~= kept.subrange(1, kept.len() as int));
            assert forall|index: int|
                0 <= index < self.snapshots@.len() implies #[trigger] self.snapshots@[index]
                == replay(
                self.start@,
                self.left.table(),
                self.right.table(),
                self.left.base_frame() + index,
            ) by {
                assert(self.snapshots@[index] == kept[index + 1]);
            }
        }
    }

    /// Takes a confirmed input of one player for one frame; what that does is
    /// `RollbackView::add_input`.
    ///
    /// Where the frame was already simulated with another input, the engine
    /// goes back to the state saved before it and simulates again from there to
    /// the current frame, which is never more than the prediction window. In
    /// every other case the state stays as it is.
    pub fn add_input(&mut self, handle: usize, frame: usize, input: PaddleInput) -> (outcome: Result<
        Confirmation,
        PongError,
    >)
        requires
            old(self).wf(),
            handle < 2,
        ensures
            final(self).wf(),
            (final(self)@, outcome) == old(self)@.add_input(handle as int, frame as int, input),
            outcome matches Ok(Confirmation::Corrected { resimulated }) ==> 0 < resimulated
                <= old(self)@.window,
            !(outcome matches Ok(Confirmation::Corrected { resimulated })) ==> final(
                self)@.state() == old(self)@.state(),
    {
        proof {
            self.lemma_invariant();
            self.lemma_oldest();
        }
        let base: usize = self.left.oldest();
        let current: usize = self.current_frame();
        if frame < base {
            return Err(PongError::DesyncFatal);
        }
        if frame - base >= QUEUE_CAPACITY {
            return Ok(Confirmation::OutOfReach);
        }
        let ghost states_before = self.snapshots@;
        let predicted = self.record(handle, frame, input);
        proof {
            assert forall|earlier: int|
                0 <= earlier < current + self.delay implies (#[trigger] entry_of(
                self@.table(self.local as int),
                earlier,
            )).is_some() by {
                assert(entry_of(old(self)@.table(self.local as int), earlier).is_some());
            }
        }
        if frame < current && !(predicted == input) {
            self.snapshots.truncate(frame - base + 1);
            proof {
                assert forall|index: int|
                    0 <= index < self.snapshots@.len() implies #[trigger] self.snapshots@[index]
                    == replay(
                    self.start@,
                    self.left.table(),
                    self.right.table(),
                    self.left.base_frame() + index,
                ) by {
                    assert(self.snapshots@[index] == states_before[index]);
                }
            }
            self.resimulate(current);
            Ok(Confirmation::Corrected { resimulated: current - frame })
        } else {
            proof {
                let last = self.snapshots@.len() - 1;
                assert(self.snapshots@[last] == replay(
                    self.start@,
                    self.left.table(),
                    self.right.table(),
                    self.left.base_frame() + last,
                ));
            }
            Ok(Confirmation::Recorded)
        }
    }

    /// Asks for one more frame; what that does is `RollbackView::advance_frame`.
    ///
    /// Unless the engine is stalled, the local player's input is recorded
    /// `delay` frames ahead and one tick is run on the current state, with the
    /// peer's confirmed input where there is one and the peer's last known
    /// input where there is not.
    ///
    /// The engine must not stand at `FRAME_LIMIT` yet.
    pub fn advance_frame(&mut self, local_input: PaddleInput) -> (outcome: Advance)
        requires
            old(self).wf(),
            old(self)@.frame < FRAME_LIMIT,
        ensures
            final(self).wf(),
            (final(self)@, outcome) == old(self)@.advance_frame(local_input),
            outcome == Advance::Stalled ==> final(self)@.state() == old(self)@.state(),
            outcome != Advance::Stalled ==> final(self)@.state() == step_spec(
                old(self)@.state(),
                final(self)@.inputs_at(old(self)@.frame),
            ),
    {
        proof {
            self.lemma_invariant();
            self.lemma_oldest();
        }
        if self.is_stalled() {
            return Advance::Stalled;
        }
        let base: usize = self.left.oldest();
        let current: usize = self.current_frame();
        let ghost states_before = self.snapshots@;
        let _ = self.record(self.local, current + self.delay, local_input);
        let peer_confirmed = if self.local == 0 {
            self.right.get(current).1
        } else {
            self.left.get(current).1
        };
        let ghost left_now = self.left.table();
        let ghost right_now = self.right.table();
        self.resimulate(current + 1);
        proof {
            lemma_replay_step(self.start@, left_now, right_now, current as int);
            lemma_replay_prefix(
                self.start@,
                old(self).left.table(),
                old(self).right.table(),
                left_now,
                right_now,
                current as int,
            );
            assert(self.snapshots@[current - base] == states_before[current - base]);
            assert(self.snapshots@[current + 1 - base] == replay(
                self.start@,
                left_now,
                right_now,
                base + (current + 1 - base),
            ));
            assert(self.snapshots@[current - base] == replay(
                self.start@,
                left_now,
                right_now,
                base + (current - base),
            ));
        }
        if self.snapshots.len() > self.window + 1 {
            proof {
                // The frame about to leave is confirmed for both players.
                if base != current + self.delay {
                    assert(entry_of(old(self)@.table(self.local as int), base as int).is_some());
                }
                assert(entry_of(self@.table(self.local as int), base as int).is_some());
                assert(entry_of(old(self)@.table(1 - self.local), base as int).is_some());
                assert(self.left.confirmed(base as int).is_some());
                assert(self.right.confirmed(base as int).is_some());
            }
            self.release_oldest();
        }
        proof {
            assert forall|earlier: int|
                0 <= earlier < current + 1 + self.delay implies (#[trigger] entry_of(
                self@.table(self.local as int),
                earlier,
            )).is_some() by {
                if earlier != current + self.delay {
                    assert(entry_of(old(self)@.table(self.local as int), earlier).is_some());
                }
            }
        }
        Advance::Advanced { speculative: !peer_confirmed }
    }
}

/// However the inputs arrived, and whatever was predicted and corrected on the
/// way: once both players' inputs are confirmed for every simulated frame, the
/// engine's state is the one that a plain run from the initial match reaches
/// under those confirmed inputs.
pub proof fn lemma_rollback_equivalence(engine: Rollback, inputs: Seq<PaddleInputs>)
    requires
        engine.wf(),
        inputs.len() == engine@.frame,
        forall|frame: int|
            0 <= frame < engine@.frame ==> engine@.confirmed(0, frame) == Some(
                inputs[frame].left,
            ),
        forall|frame: int|
            0 <= frame < engine@.frame ==> engine@.confirmed(1, frame) == Some(
                inputs[frame].right,
            ),
    ensures
        engine@.state() == simulate(engine@.initial, inputs),
{
    reveal(replay);
    engine.lemma_invariant();
    assert forall|frame: int| 0 <= frame < engine@.frame implies #[trigger] inputs_of(
        engine@.left,
        engine@.right,
        frame,
    ) == inputs[frame] by {
        assert(engine@.confirmed(0, frame) == Some(inputs[frame].left));
        assert(engine@.confirmed(1, frame) == Some(inputs[frame].right));
    }
    assert(timeline_of(engine@.left, engine@.right, engine@.frame) =~= inputs);
}

/// Two engines that started from the same match and hold the same confirmed
/// inputs for every frame before `frame` have the same state at that frame,
/// wherever each of them stands now.
pub proof fn lemma_peers_agree(first: Rollback, second: Rollback, frame: int)
    requires
        first.wf(),
        second.wf(),
        first@.initial == second@.initial,
        0 <= frame,
        forall|handle: int, earlier: int|
            0 <= handle < 2 && 0 <= earlier < frame ==> first@.confirmed(
                handle,
                earlier,
            ).is_some() && first@.confirmed(handle, earlier) == second@.confirmed(handle, earlier),
    ensures
        first@.state_at(frame) == second@.state_at(frame),
        frame == first@.frame && frame == second@.frame ==> first@.state() == second@.state(),
{
    assert forall|earlier: int| 0 <= earlier < frame implies entry_of(first@.left, earlier)
        == entry_of(second@.left, earlier) by {
        assert(first@.confirmed(0, earlier) == second@.confirmed(0, earlier));
    }
    assert forall|earlier: int| 0 <= earlier < frame implies entry_of(first@.right, earlier)
        == entry_of(second@.right, earlier) by {
        assert(first@.confirmed(1, earlier) == second@.confirmed(1, earlier));
    }
    lemma_replay_prefix(
        first@.initial,
        first@.left,
        first@.right,
        second@.left,
        second@.right,
        frame,
    );
}

/// Inputs that arrive for a settled frame or a later one leave the state at
/// the settled frame as it is.
pub proof fn lemma_settled_stays(
    view: RollbackView,
    frame: int,
    handle: int,
    arrived: int,
    input: PaddleInput,
)
    requires
        0 <= frame <= arrived,
    ensures
        view.with_table(handle, confirm_spec(view.table(handle), arrived, input)).state_at(frame)
            == view.state_at(frame),
{
    let after = view.with_table(handle, confirm_spec(view.table(handle), arrived, input));
    lemma_replay_prefix(view.initial, view.left, view.right, after.left, after.right, frame);
}

} // verus!
