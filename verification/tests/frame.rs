use moonlight_ipc::{frame, TERMINATOR};

#[test]
fn the_terminator_is_the_newline() {
    assert_eq!(TERMINATOR, b'\n');
}

#[test]
fn a_frame_is_the_line_and_one_newline() {
    assert_eq!(frame("{\"Stop\":null}"), b"{\"Stop\":null}\n".to_vec());
}

#[test]
fn the_frame_of_the_empty_line_is_the_newline() {
    assert_eq!(frame(""), vec![0x0A]);
}

#[test]
fn a_frame_holds_the_utf8_bytes_of_its_line() {
    assert_eq!(frame("\"é€\""), vec![0x22, 0xC3, 0xA9, 0xE2, 0x82, 0xAC, 0x22, 0x0A]);
}

#[test]
fn a_frame_differs_from_its_line() {
    let line = "\"Stop\"";
    assert_ne!(frame(line), line.as_bytes().to_vec());
    assert_eq!(frame(line).len(), line.len() + 1);
}
