use rollback_pong::input::{
    box_input_to_paddle_input, input, BoxInput, Keys, PaddleInput, PaddleInputs, INPUT_DOWN,
    INPUT_SERVE, INPUT_UP,
};

fn all_inputs() -> Vec<PaddleInput> {
    let mut all = Vec::new();
    for bits in 0u8..8 {
        all.push(PaddleInput {
            move_up: bits & 1 != 0,
            move_down: bits & 2 != 0,
            serve: bits & 4 != 0,
        });
    }
    all
}

#[test]
fn encode_then_decode_gives_the_input_back() {
    for given in all_inputs() {
        let packed = BoxInput::encode(given);
        assert_eq!(packed.decode(), given);
    }
}

#[test]
fn encode_sets_one_bit_per_flag() {
    let none = PaddleInput { move_up: false, move_down: false, serve: false };
    assert_eq!(BoxInput::encode(none).inp, 0);
    assert_eq!(BoxInput::encode(PaddleInput { move_up: true, ..none }).inp, INPUT_UP);
    assert_eq!(BoxInput::encode(PaddleInput { move_down: true, ..none }).inp, INPUT_DOWN);
    assert_eq!(BoxInput::encode(PaddleInput { serve: true, ..none }).inp, INPUT_SERVE);
    assert_eq!(
        BoxInput::encode(PaddleInput { move_up: true, move_down: true, serve: true }).inp,
        7
    );
    assert_eq!(
        BoxInput::encode(PaddleInput { move_up: true, move_down: false, serve: true }).inp,
        5
    );
}

#[test]
fn the_eight_encodings_differ() {
    let mut seen = Vec::new();
    for given in all_inputs() {
        let byte = BoxInput::encode(given).inp;
        assert!(byte < 8);
        assert!(!seen.contains(&byte));
        seen.push(byte);
    }
    assert_eq!(seen.len(), 8);
}

#[test]
fn decode_reads_the_low_three_bits_only() {
    let high = BoxInput { inp: 0b1111_1000 };
    assert_eq!(high.decode(), PaddleInput::blank());
    let mixed = BoxInput { inp: 0b1010_0110 };
    assert_eq!(
        mixed.decode(),
        PaddleInput { move_up: false, move_down: true, serve: true }
    );
    for byte in 0u8..=255 {
        let input = BoxInput { inp: byte }.decode();
        assert_eq!(BoxInput::encode(input).inp, byte & 7);
    }
}

#[test]
fn blank_input_holds_nothing() {
    let blank = PaddleInput::blank();
    assert!(!blank.move_up && !blank.move_down && !blank.serve);
}

#[test]
fn slots_are_left_then_right() {
    let up = PaddleInput { move_up: true, move_down: false, serve: false };
    let serve = PaddleInput { move_up: false, move_down: false, serve: true };
    let inputs = PaddleInputs { left: up, right: serve };
    assert_eq!(inputs.slot(0), up);
    assert_eq!(inputs.slot(1), serve);
}

#[test]
fn networked_input_reads_letters_and_arrows() {
    let none = Keys { w: false, s: false, up: false, down: false, space: false };
    assert_eq!(input(&none).inp, 0);
    assert_eq!(input(&Keys { w: true, ..none }).inp, INPUT_UP);
    assert_eq!(input(&Keys { up: true, ..none }).inp, INPUT_UP);
    assert_eq!(input(&Keys { s: true, ..none }).inp, INPUT_DOWN);
    assert_eq!(input(&Keys { down: true, ..none }).inp, INPUT_DOWN);
    assert_eq!(input(&Keys { space: true, ..none }).inp, INPUT_SERVE);
    assert_eq!(input(&Keys { w: true, down: true, space: true, ..none }).inp, 7);
}

#[test]
fn wire_bytes_unpack_into_both_slots() {
    let inputs = box_input_to_paddle_input(BoxInput { inp: 5 }, BoxInput { inp: 2 });
    assert_eq!(inputs.left, PaddleInput { move_up: true, move_down: false, serve: true });
    assert_eq!(inputs.right, PaddleInput { move_up: false, move_down: true, serve: false });
}
