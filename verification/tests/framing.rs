use i2c_hal::Command;

fn command(cmd: u8, data: &[u8]) -> Command {
    Command { cmd, data: data.to_vec() }
}

#[test]
fn frame_puts_register_byte_first() {
    assert_eq!(command(0x20, &[0x01]).into_buffer(), vec![0x20, 0x01]);
}

#[test]
fn frame_of_empty_payload_is_register_byte_alone() {
    assert_eq!(command(0x10, &[]).into_buffer(), vec![0x10]);
}

#[test]
fn frame_keeps_payload_order() {
    assert_eq!(command(0xFF, &[3, 1, 2, 1, 0]).into_buffer(), vec![0xFF, 3, 1, 2, 1, 0]);
}

#[test]
fn frame_does_not_confuse_register_and_payload() {
    assert_eq!(command(0x01, &[0x02]).into_buffer(), vec![0x01, 0x02]);
    assert_eq!(command(0x02, &[0x01]).into_buffer(), vec![0x02, 0x01]);
    assert_ne!(command(0x01, &[0x02]).into_buffer(), command(0x02, &[0x01]).into_buffer());
}

#[test]
fn frame_is_one_byte_longer_than_payload() {
    for len in 0..64usize {
        let data: Vec<u8> = (0..len).map(|i| (i * 7 % 251) as u8).collect();
        let buffer = command(0xA5, &data).into_buffer();
        assert_eq!(buffer.len(), len + 1);
        assert_eq!(buffer[0], 0xA5);
        assert_eq!(&buffer[1..], &data[..]);
    }
}

#[test]
fn frame_covers_every_register_byte() {
    for cmd in 0..=255u8 {
        assert_eq!(command(cmd, &[cmd, 0]).into_buffer(), vec![cmd, cmd, 0]);
    }
}

#[test]
fn frame_layout_on_a_chosen_command() {
    let data = [9u8, 8, 7];
    let buffer = command(0x42, &data).into_buffer();
    assert_eq!(buffer.len(), data.len() + 1);
    assert_eq!(buffer[0], 0x42);
    for i in 0..data.len() {
        assert_eq!(buffer[i + 1], data[i]);
    }
}

#[test]
fn frames_differ_when_commands_differ() {
    let pairs = [
        (command(1, &[2, 3]), command(1, &[2, 4])),
        (command(1, &[2, 3]), command(2, &[2, 3])),
        (command(1, &[]), command(1, &[0])),
        (command(1, &[2]), command(2, &[1])),
    ];
    for (left, right) in pairs {
        assert_ne!(left.into_buffer(), right.into_buffer());
    }
}

#[test]
fn equal_commands_have_equal_fields() {
    assert!(command(0x10, &[1, 2]) == command(0x10, &[1, 2]));
    assert!(command(0x10, &[]) == command(0x10, &[]));
    assert_eq!(command(0x7F, &[0; 40]), command(0x7F, &[0; 40]));
}

#[test]
fn commands_with_different_register_bytes_are_unequal() {
    assert!(command(0x10, &[1, 2]) != command(0x11, &[1, 2]));
}

#[test]
fn commands_with_different_payloads_are_unequal() {
    assert!(command(0x10, &[1, 2]) != command(0x10, &[1, 3]));
    assert!(command(0x10, &[1, 2]) != command(0x10, &[2, 1]));
    assert!(command(0x10, &[1, 2]) != command(0x10, &[1]));
    assert!(command(0x10, &[]) != command(0x10, &[0]));
}

#[test]
fn command_debug_shows_both_fields() {
    let text = format!("{:?}", command(0x10, &[1, 2]));
    assert_eq!(text, "Command { cmd: 16, data: [1, 2] }");
}
