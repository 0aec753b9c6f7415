//! The inputs of one player, frame by frame: those that are confirmed, and a
//! prediction for every frame that is not.

use vstd::prelude::*;
use crate::input::PaddleInput;

verus! {

/// The last frame number a session may reach.
pub const FRAME_LIMIT: usize = 0x7fff_ffff;

/// The most frames of one player that are held at a time.
pub const QUEUE_CAPACITY: usize = 256;

/// The confirmed input of a frame, if the table holds one.
pub open spec fn entry_of(table: Seq<Option<PaddleInput>>, frame: int) -> Option<PaddleInput> {
    if 0 <= frame < table.len() {
        table[frame]
    } else {
        None
    }
}

/// The input to simulate a frame with: the confirmed one where there is one,
/// else that of the nearest earlier confirmed frame, else the blank input.
pub open spec fn predict(table: Seq<Option<PaddleInput>>, frame: int) -> PaddleInput
    decreases frame + 1,
{
    if frame < 0 {
        PaddleInput::blank_spec()
    } else {
        match entry_of(table, frame) {
            Some(input) => input,
            None => predict(table, frame - 1),
        }
    }
}

/// The table in which the first `delay` frames are confirmed as blank and no
/// other frame is confirmed.
pub open spec fn blank_table(delay: int) -> Seq<Option<PaddleInput>> {
    Seq::new(delay as nat, |frame: int| Some(PaddleInput::blank_spec()))
}

/// The table with the input of one frame confirmed, and grown to reach that
/// frame where it did not.
pub open spec fn confirm_spec(
    table: Seq<Option<PaddleInput>>,
    frame: int,
    input: PaddleInput,
) -> Seq<Option<PaddleInput>> {
    Seq::new(
        if frame < table.len() {
            table.len()
        } else {
            (frame + 1) as nat
        },
        |at: int|
            if at == frame {
                Some(input)
            } else {
                entry_of(table, at)
            },
    )
}

/// Two tables that hold the same entries up to a frame give that frame the
/// same input.
pub proof fn lemma_predict_prefix(
    first: Seq<Option<PaddleInput>>,
    second: Seq<Option<PaddleInput>>,
    frame: int,
)
    requires
        forall|earlier: int|
            0 <= earlier <= frame ==> entry_of(first, earlier) == entry_of(second, earlier),
    ensures
        predict(first, frame) == predict(second, frame),
    decreases frame + 1,
{
    if frame >= 0 {
        lemma_predict_prefix(first, second, frame - 1);
    }
}

/// Across a stretch of frames that hold no confirmed input the prediction does
/// not change.
pub proof fn lemma_predict_gap(table: Seq<Option<PaddleInput>>, from: int, to: int)
    requires
        -1 <= from <= to,
        forall|frame: int| from < frame <= to ==> entry_of(table, frame).is_none(),
    ensures
        predict(table, to) == predict(table, from),
    decreases to - from,
{
    if from < to {
        lemma_predict_gap(table, from, to - 1);
    }
}

/// Confirming, for one frame, the very input that was predicted for it changes
/// no frame's input.
pub proof fn lemma_predict_confirmed_as_predicted(
    before: Seq<Option<PaddleInput>>,
    after: Seq<Option<PaddleInput>>,
    changed: int,
    frame: int,
)
    requires
        0 <= changed,
        entry_of(after, changed) == Some(predict(before, changed)),
        forall|other: int| other != changed ==> entry_of(after, other) == entry_of(before, other),
    ensures
        predict(after, frame) == predict(before, frame),
    decreases frame + 1,
{
    if frame >= 0 {
        lemma_predict_confirmed_as_predicted(before, after, changed, frame - 1);
    }
}

/// The inputs of one player. Frames before `base` have left the queue; all of
/// them were confirmed when they left.
pub struct InputQueue {
    base: usize,
    entries: Vec<Option<PaddleInput>>,
    carry: PaddleInput,
    evicted: Ghost<Seq<PaddleInput>>,
}

impl InputQueue {
    /// Every frame from the first on, with its confirmed input if it has one.
    pub closed spec fn table(&self) -> Seq<Option<PaddleInput>> {
        self.evicted@.map_values(|input: PaddleInput| Some(input)) + self.entries@
    }

    /// The oldest frame still held.
    pub closed spec fn base_frame(&self) -> int {
        self.base as int
    }

    /// How many frames are held, from `base_frame` on.
    pub closed spec fn held(&self) -> int {
        self.entries@.len() as int
    }

    /// The queue holds no more than its capacity, starts within the frame
    /// limit, and remembers the last input that left it.
    pub closed spec fn wf(&self) -> bool {
        &&& self.base == self.evicted@.len()
        &&& self.base <= FRAME_LIMIT
        &&& self.entries@.len() <= QUEUE_CAPACITY
        &&& self.carry == predict(self.table(), self.base - 1)
    }

    /// The confirmed input of a frame, if there is one.
    pub open spec fn confirmed(&self, frame: int) -> Option<PaddleInput> {
        entry_of(self.table(), frame)
    }

    /// The input to simulate a frame with.
    pub open spec fn input_for(&self, frame: int) -> PaddleInput {
        predict(self.table(), frame)
    }

    /// Whether every frame before `frame` is confirmed.
    pub open spec fn confirmed_before(&self, frame: int) -> bool {
        forall|earlier: int| 0 <= earlier < frame ==> self.confirmed(earlier).is_some()
    }

    proof fn lemma_table(&self)
        requires
            self.wf(),
        ensures
            self.table().len() == self.base + self.entries@.len(),
            forall|frame: int|
                0 <= frame < self.base ==> #[trigger] self.table()[frame] == Some(
                    self.evicted@[frame],
                ),
            forall|index: int|
                0 <= index < self.entries@.len() ==> #[trigger] self.table()[self.base + index]
                    == self.entries@[index],
    {
    }

    /// Frames that have left the queue are confirmed, and frames past those it
    /// holds are not.
    pub proof fn lemma_reach(&self)
        requires
            self.wf(),
        ensures
            self.confirmed_before(self.base_frame()),
            forall|frame: int|
                frame >= self.base_frame() + self.held() ==> self.confirmed(frame).is_none(),
            0 <= self.base_frame() <= FRAME_LIMIT,
            0 <= self.held() <= QUEUE_CAPACITY,
    {
        self.lemma_table();
    }

    /// A queue in which the first `delay` frames are confirmed as blank, and no
    /// other frame is confirmed.
    pub fn new(delay: usize) -> (queue: InputQueue)
        requires
            delay <= QUEUE_CAPACITY,
        ensures
            queue.wf(),
            queue.base_frame() == 0,
            queue.held() == delay,
            queue.table() == blank_table(delay as int),
    {
        let mut entries: Vec<Option<PaddleInput>> = Vec::new();
        let mut filled: usize = 0;
        while filled < delay
            invariant
                filled <= delay,
                entries@.len() == filled,
                forall|index: int|
                    0 <= index < filled ==> entries@[index] == Some(PaddleInput::blank_spec()),
            decreases delay - filled,
        {
            entries.push(Some(PaddleInput::blank()));
            filled = filled + 1;
        }
        let queue = InputQueue {
            base: 0,
            entries,
            carry: PaddleInput::blank(),
            evicted: Ghost(Seq::empty()),
        };
        proof {
            assert(queue.table() =~= queue.entries@);
            assert(queue.table() =~= blank_table(delay as int));
        }
        queue
    }

    /// The oldest frame still held.
    pub fn oldest(&self) -> (frame: usize)
        requires
            self.wf(),
        ensures
            frame == self.base_frame(),
    {
        self.base
    }

    /// Whether `frame` is one that `confirm` can record: not older than the
    /// oldest frame held, and within the capacity from there.
    pub open spec fn in_reach(&self, frame: int) -> bool {
        self.base_frame() <= frame < self.base_frame() + QUEUE_CAPACITY
    }

    /// Records the confirmed input of a frame that is in reach. No other
    /// frame's entry changes.
    pub fn confirm(&mut self, frame: usize, input: PaddleInput)
        requires
            old(self).wf(),
            old(self).in_reach(frame as int),
        ensures
            final(self).wf(),
            final(self).base_frame() == old(self).base_frame(),
            final(self).table() == confirm_spec(old(self).table(), frame as int, input),
            final(self).confirmed(frame as int) == Some(input),
            forall|other: int|
                other != frame ==> final(self).confirmed(other) == old(self).confirmed(other),
    {
        let offset: usize = frame - self.base;
        proof {
            self.lemma_table();
        }
        let ghost before = self.table();
        while self.entries.len() <= offset
            invariant
                self.wf(),
                self.base == old(self).base,
                offset == frame - self.base,
                offset < QUEUE_CAPACITY,
                self.entries@.len() >= old(self).entries@.len(),
                self.entries@.len() == old(self).entries@.len() || self.entries@.len() <= offset
                    + 1,
                forall|other: int| entry_of(self.table(), other) == entry_of(before, other),
            decreases offset + 1 - self.entries@.len(),
        {
            let ghost earlier = self.table();
            proof {
                self.lemma_table();
            }
            self.entries.push(None);
            proof {
                assert(self.table() =~= earlier.push(None));
                assert forall|other: int| entry_of(self.table(), other) == entry_of(
                    earlier,
                    other,
                ) by {}
                lemma_predict_prefix(self.table(), earlier, self.base - 1);
            }
        }
        let ghost extended = self.table();
        proof {
            self.lemma_table();
        }
        self.entries.set(offset, Some(input));
        proof {
            assert(self.table() =~= extended.update(frame as int, Some(input)));
            lemma_predict_prefix(self.table(), extended, self.base - 1);
            assert forall|other: int| 0 <= other < self.table().len() implies self.table()[other]
                == confirm_spec(before, frame as int, input)[other] by {
                assert(entry_of(extended, other) == entry_of(before, other));
            }
            assert(self.table() =~= confirm_spec(before, frame as int, input));
        }
    }

    /// Looks up the input to simulate a frame with, and whether it is a
    /// confirmed one. The frame must not have left the queue.
    pub fn get(&self, frame: usize) -> (found: (PaddleInput, bool))
        requires
            self.wf(),
            self.base_frame() <= frame,
        ensures
            found.0 == self.input_for(frame as int),
            found.1 == self.confirmed(frame as int).is_some(),
    {
        proof {
            self.lemma_table();
        }
        let offset: usize = frame - self.base;
        let length: usize = self.entries.len();
        let confirmed = offset < length && self.entries[offset].is_some();
        let mut index: usize = if offset < length {
            offset + 1
        } else {
            length
        };
        proof {
            lemma_predict_gap(self.table(), self.base + index - 1, frame as int);
        }
        while index > 0
            invariant
                self.wf(),
                index <= self.entries@.len(),
                self.base + index - 1 <= frame,
                confirmed == self.confirmed(frame as int).is_some(),
                predict(self.table(), frame as int) == predict(
                    self.table(),
                    self.base + index - 1,
                ),
            decreases index,
        {
            proof {
                self.lemma_table();
            }
            index = index - 1;
            match self.entries[index] {
                Some(input) => {
                    return (input, confirmed);
                },
                None => {},
            }
        }
        (self.carry, confirmed)
    }

    /// The first frame that is not confirmed.
    pub fn first_unconfirmed(&self) -> (frame: usize)
        requires
            self.wf(),
        ensures
            self.base_frame() <= frame <= self.base_frame() + self.held(),
            self.confirmed_before(frame as int),
            self.confirmed(frame as int).is_none(),
    {
        proof {
            self.lemma_table();
        }
        let mut count: usize = 0;
        while count < self.entries.len() && self.entries[count].is_some()
            invariant
                self.wf(),
                count <= self.entries@.len(),
                forall|index: int| 0 <= index < count ==> self.entries@[index].is_some(),
            decreases self.entries@.len() - count,
        {
            count = count + 1;
        }
        assert forall|earlier: int| 0 <= earlier < self.base + count implies self.confirmed(
            earlier,
        ).is_some() by {
            if earlier >= self.base {
                assert(self.table()[self.base + (earlier - self.base)] == self.entries@[earlier
                    - self.base]);
            }
        }
        self.base + count
    }

    /// Lets the oldest frame go. It must be confirmed. What the queue says of
    /// any frame stays as it was.
    pub fn evict(&mut self)
        requires
            old(self).wf(),
            old(self).confirmed(old(self).base_frame()).is_some(),
            old(self).base_frame() < FRAME_LIMIT,
        ensures
            final(self).wf(),
            final(self).base_frame() == old(self).base_frame() + 1,
            final(self).held() == old(self).held() - 1,
            final(self).table() == old(self).table(),
    {
        proof {
            self.lemma_table();
        }
        let ghost before = self.table();
        let oldest = self.entries.remove(0);
        match oldest {
            Some(input) => {
                self.carry = input;
                self.evicted = Ghost(self.evicted@.push(input));
            },
            None => {},
        }
        self.base = self.base + 1;
        proof {
            assert(self.table() =~= before);
        }
    }
}

} // verus!
