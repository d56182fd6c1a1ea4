use desktop_host::greeting::make_greeting;

#[test]
fn greets_world() {
    let message = make_greeting(&b"World".to_vec());
    assert_eq!(message, b"Hello, World!".to_vec());
    // the boundary prints the message followed by one newline
    let mut printed = message;
    printed.push(b'\n');
    assert_eq!(printed, b"Hello, World!\n".to_vec());
}

#[test]
fn greets_the_empty_name() {
    assert_eq!(make_greeting(&Vec::new()), b"Hello, !".to_vec());
}

#[test]
fn greeting_keeps_the_name_bytes() {
    let name = "Wörld 🙂".as_bytes().to_vec();
    let message = make_greeting(&name);
    assert_eq!(&message[..7], b"Hello, ");
    assert_eq!(&message[7..message.len() - 1], &name[..]);
    assert_eq!(*message.last().unwrap(), b'!');
}
