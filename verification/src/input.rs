//! The per-player input record, its one-byte wire encoding, and the keys that
//! produce it.

use vstd::prelude::*;

verus! {

/// Bit of the encoded byte that carries `move_up`.
pub const INPUT_UP: u8 = 1;

/// Bit of the encoded byte that carries `move_down`.
pub const INPUT_DOWN: u8 = 2;

/// Bit of the encoded byte that carries `serve`.
pub const INPUT_SERVE: u8 = 4;

/// What one player asks of their paddle during one tick.
#[derive(Clone, Copy, Debug, PartialEq, Eq, Structural)]
pub struct PaddleInput {
    pub move_up: bool,
    pub move_down: bool,
    pub serve: bool,
}

impl PaddleInput {
    /// The input of a player who holds nothing.
    pub open spec fn blank_spec() -> PaddleInput {
        PaddleInput { move_up: false, move_down: false, serve: false }
    }

    /// The input of a player who holds nothing.
    pub fn blank() -> (input: PaddleInput)
        ensures
            input == PaddleInput::blank_spec(),
    {
        PaddleInput { move_up: false, move_down: false, serve: false }
    }
}

/// The inputs of both players for one tick: slot 0 steers the left paddle, slot
/// 1 the right one.
#[derive(Clone, Copy, Debug, PartialEq, Eq, Structural)]
pub struct PaddleInputs {
    pub left: PaddleInput,
    pub right: PaddleInput,
}

impl PaddleInputs {
    /// The input held in a slot.
    pub open spec fn slot_spec(self, handle: int) -> PaddleInput {
        if handle == 0 {
            self.left
        } else {
            self.right
        }
    }

    /// The input held in a slot.
    pub fn slot(&self, handle: usize) -> (input: PaddleInput)
        requires
            handle < 2,
        ensures
            input == self.slot_spec(handle as int),
    {
        if handle == 0 {
            self.left
        } else {
            self.right
        }
    }

}

/// A `PaddleInput` packed into the low three bits of one byte.
#[derive(Clone, Copy, Debug, PartialEq, Eq, Structural)]
pub struct BoxInput {
    pub inp: u8,
}

/// The byte that stands for an input: bit 0 is `move_up`, bit 1 is
/// `move_down`, bit 2 is `serve`, and the five high bits are clear.
pub open spec fn encode_spec(input: PaddleInput) -> u8 {
    ((if input.move_up {
        1int
    } else {
        0int
    }) + (if input.move_down {
        2int
    } else {
        0int
    }) + (if input.serve {
        4int
    } else {
        0int
    })) as u8
}

/// The input that a byte stands for. Only the low three bits are read.
pub open spec fn decode_spec(byte: u8) -> PaddleInput {
    PaddleInput {
        move_up: byte & INPUT_UP != 0,
        move_down: byte & INPUT_DOWN != 0,
        serve: byte & INPUT_SERVE != 0,
    }
}

impl BoxInput {
    /// Packs an input into its wire byte.
    pub fn encode(input: PaddleInput) -> (packed: BoxInput)
        ensures
            packed.inp == encode_spec(input),
            packed.inp < 8,
    {
        let mut inp: u8 = 0;
        if input.move_up {
            inp = inp + INPUT_UP;
        }
        if input.move_down {
            inp = inp + INPUT_DOWN;
        }
        if input.serve {
            inp = inp + INPUT_SERVE;
        }
        BoxInput { inp }
    }

    /// Unpacks the input that the low three bits of the byte stand for.
    pub fn decode(self) -> (input: PaddleInput)
        ensures
            input == decode_spec(self.inp),
    {
        PaddleInput {
            move_up: self.inp & INPUT_UP != 0,
            move_down: self.inp & INPUT_DOWN != 0,
            serve: self.inp & INPUT_SERVE != 0,
        }
    }
}

/// Decoding an encoded input gives the input back, for each of the eight
/// combinations of its flags.
pub proof fn lemma_decode_encode(input: PaddleInput)
    ensures
        decode_spec(encode_spec(input)) == input,
{
    assert(0u8 & 1 == 0 && 0u8 & 2 == 0 && 0u8 & 4 == 0) by (bit_vector);
    assert(1u8 & 1 != 0 && 1u8 & 2 == 0 && 1u8 & 4 == 0) by (bit_vector);
    assert(2u8 & 1 == 0 && 2u8 & 2 != 0 && 2u8 & 4 == 0) by (bit_vector);
    assert(3u8 & 1 != 0 && 3u8 & 2 != 0 && 3u8 & 4 == 0) by (bit_vector);
    assert(4u8 & 1 == 0 && 4u8 & 2 == 0 && 4u8 & 4 != 0) by (bit_vector);
    assert(5u8 & 1 != 0 && 5u8 & 2 == 0 && 5u8 & 4 != 0) by (bit_vector);
    assert(6u8 & 1 == 0 && 6u8 & 2 != 0 && 6u8 & 4 != 0) by (bit_vector);
    assert(7u8 & 1 != 0 && 7u8 & 2 != 0 && 7u8 & 4 != 0) by (bit_vector);
}

/// Encoding a decoded byte gives the byte back exactly when its five high bits
/// are clear.
pub proof fn lemma_encode_decode(byte: u8)
    ensures
        encode_spec(decode_spec(byte)) == byte <==> byte < 8,
        encode_spec(decode_spec(byte)) == byte & 7,
{
    let up: u8 = if byte & 1 != 0 {
        1
    } else {
        0
    };
    let down: u8 = if byte & 2 != 0 {
        2
    } else {
        0
    };
    let serve: u8 = if byte & 4 != 0 {
        4
    } else {
        0
    };
    assert(up + down + serve == byte & 7) by (bit_vector)
        requires
            up == (if byte & 1 != 0 {
                1u8
            } else {
                0u8
            }),
            down == (if byte & 2 != 0 {
                2u8
            } else {
                0u8
            }),
            serve == (if byte & 4 != 0 {
                4u8
            } else {
                0u8
            }),
    ;
    assert(byte & 7 == byte <==> byte < 8) by (bit_vector);
}

/// The keys that steer a paddle, each `true` while held down.
#[derive(Clone, Copy, Debug, PartialEq, Eq, Structural)]
pub struct Keys {
    pub w: bool,
    pub s: bool,
    pub up: bool,
    pub down: bool,
    pub space: bool,
}

/// The input of a player who has the whole keyboard: `W` or the up arrow
/// moves up, `S` or the down arrow moves down, the space bar serves.
pub open spec fn whole_keyboard(keys: Keys) -> PaddleInput {
    PaddleInput {
        move_up: keys.w || keys.up,
        move_down: keys.s || keys.down,
        serve: keys.space,
    }
}

/// Reads the local player's input for a networked match off the keyboard and
/// packs it for the wire.
pub fn input(keys: &Keys) -> (packed: BoxInput)
    ensures
        packed.inp == encode_spec(whole_keyboard(*keys)),
{
    BoxInput::encode(
        PaddleInput {
            move_up: keys.w || keys.up,
            move_down: keys.s || keys.down,
            serve: keys.space,
        },
    )
}

/// Unpacks the two players' wire bytes into the inputs of one tick.
pub fn box_input_to_paddle_input(left: BoxInput, right: BoxInput) -> (inputs: PaddleInputs)
    ensures
        inputs == (PaddleInputs { left: decode_spec(left.inp), right: decode_spec(right.inp) }),
{
    PaddleInputs { left: left.decode(), right: right.decode() }
}

} // verus!
