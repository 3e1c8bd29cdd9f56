use kernel_core::framebuffer::{FramebufferWriter, FONT_BYTES};
use kernel_core::shell::{cmd_info, do_backspace, execute, handle_key, parse_command, print_prompt, Command, KeyAction, LineBuffer};

fn console() -> Option<FramebufferWriter> {
    Some(FramebufferWriter::new(vec![0; 48 * 256], 64, 48, 256, 32, 16, 8, 0, vec![0xFF; FONT_BYTES]))
}

#[test]
fn parse_commands() {
    assert!(parse_command(b"") == Command::Empty);
    assert!(parse_command(b"   ") == Command::Empty);
    assert!(parse_command(b"help") == Command::Help);
    assert!(parse_command(b"  clear") == Command::Clear);
    assert!(parse_command(b"info extra") == Command::Info);
    assert!(parse_command(b"reboot") == Command::Reboot);
    assert!(parse_command(b"echo   hi there") == Command::Echo(b"hi there".to_vec()));
    assert!(parse_command(b"echo") == Command::Echo(Vec::new()));
    assert!(parse_command(b"helpme now") == Command::Unknown(b"helpme".to_vec()));
}

#[test]
fn execute_echo_and_unknown() {
    let mut fb = console();
    let (cmd, out) = execute(&mut fb, b"echo hi");
    assert!(cmd == Command::Echo(b"hi".to_vec()));
    assert_eq!(out, b"hi\n".to_vec());
    assert_eq!(fb.as_ref().unwrap().cursor(), (0, 1));
    let (_, out) = execute(&mut None, b"xyz");
    assert_eq!(out, b"Unknown command: xyz\n".to_vec());
    let (_, out) = execute(&mut None, b"help");
    assert!(out.starts_with(b"Available commands:\n"));
    let (_, out) = execute(&mut fb, b"clear");
    assert!(out.is_empty());
    assert_eq!(fb.as_ref().unwrap().cursor(), (0, 0));
}

#[test]
fn prompt_and_backspace_output() {
    let mut fb = console();
    assert_eq!(print_prompt(&mut fb), b"shadow> ".to_vec());
    assert_eq!(fb.as_ref().unwrap().cursor(), (8, 0));
    assert_eq!(do_backspace(&mut fb), vec![8, b' ', 8]);
    assert_eq!(fb.as_ref().unwrap().cursor(), (7, 0));
}

#[test]
fn key_handling() {
    let mut line = LineBuffer::new();
    assert!(handle_key(&mut line, 8) == KeyAction::Ignore);
    assert!(handle_key(&mut line, b'a') == KeyAction::Echo(b'a'));
    assert!(handle_key(&mut line, b'\t') == KeyAction::Ignore);
    assert!(handle_key(&mut line, 8) == KeyAction::Erase);
    assert!(handle_key(&mut line, b'b') == KeyAction::Echo(b'b'));
    assert!(handle_key(&mut line, b'\n') == KeyAction::Submit);
    assert_eq!(line.as_bytes(), b"b");
    for _ in 0..300 {
        handle_key(&mut line, b'z');
    }
    assert_eq!(line.as_bytes().len(), 256);
    assert!(handle_key(&mut line, b'z') == KeyAction::Ignore);
    line.clear();
    assert!(line.as_bytes().is_empty());
}

#[test]
fn info_report() {
    let mut fb = console();
    let out = cmd_info(&mut fb, Some(2048));
    assert_eq!(
        String::from_utf8(out).unwrap(),
        "ShadowOS v0.1.0\nFramebuffer: 64x48\nText grid:   8x3\nRAM disk:    2048 blocks (1024 KB)\n"
    );
    let out = cmd_info(&mut None, None);
    assert_eq!(out, b"ShadowOS v0.1.0\n".to_vec());
    let out = cmd_info(&mut None, Some(0));
    assert_eq!(String::from_utf8(out).unwrap(), "ShadowOS v0.1.0\nRAM disk:    0 blocks (0 KB)\n");
}
