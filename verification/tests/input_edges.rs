use minibreak::input::{edge_bits, DPAD_LEFT, FACE_SELECT, FACE_START};

#[test]
fn fresh_press_shows_as_an_edge() {
    assert_eq!(edge_bits(0, FACE_START), FACE_START);
    assert_eq!(edge_bits(DPAD_LEFT, DPAD_LEFT | FACE_SELECT), FACE_SELECT);
}

#[test]
fn held_button_is_no_edge_on_the_second_frame() {
    assert_eq!(edge_bits(FACE_START, FACE_START), 0);
    assert_eq!(edge_bits(0xFFFF, 0xFFFF), 0);
}

#[test]
fn released_buttons_never_show() {
    assert_eq!(edge_bits(FACE_START, 0), 0);
    assert_eq!(edge_bits(0xFFFF, 0), 0);
}

#[test]
fn edges_follow_each_bit_independently() {
    // Left held from last frame, select newly down, start released.
    let previous = DPAD_LEFT | FACE_START;
    let current = DPAD_LEFT | FACE_SELECT;
    assert_eq!(edge_bits(previous, current), FACE_SELECT);
}
