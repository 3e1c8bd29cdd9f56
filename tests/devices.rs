use kernel_core::block_device::{BlockDevice, BlockError, BLOCK_SIZE};
use kernel_core::interrupts::{classify, severity, stack_index, timer_handler, InterruptKind, Severity};
use kernel_core::pic::{init, send_eoi, unmask_irq, PicMasks, PortWrite, PIC1_CMD, PIC1_DATA, PIC2_CMD, PIC2_DATA};
use kernel_core::ramdisk::{test_ramdisk, RamDisk, SelfTestReport};
use kernel_core::serial::{frame_text, SerialPort, COM1};

#[test]
fn pic_init_masks_everything() {
    let (masks, writes) = init();
    assert_eq!(masks, PicMasks { master: 0xFF, slave: 0xFF });
    assert_eq!(writes.len(), 20);
    assert_eq!(writes[0], PortWrite { port: 0x20, value: 0x11 });
    assert_eq!(writes[1], PortWrite { port: 0x80, value: 0 });
    assert_eq!(writes[4], PortWrite { port: 0x21, value: 32 });
    assert_eq!(writes[6], PortWrite { port: 0xA1, value: 40 });
    assert_eq!(writes[16], PortWrite { port: 0x21, value: 0xFF });
    assert_eq!(writes[18], PortWrite { port: 0xA1, value: 0xFF });
}

#[test]
fn pic_unmask_keyboard() {
    let (mut masks, _) = init();
    let writes = unmask_irq(&mut masks, 1);
    assert_eq!(masks, PicMasks { master: 0xFD, slave: 0xFF });
    assert_eq!(writes, vec![PortWrite { port: PIC1_DATA, value: 0xFD }]);
}

#[test]
fn pic_unmask_slave_line_unmasks_cascade() {
    let (mut masks, _) = init();
    let writes = unmask_irq(&mut masks, 8);
    assert_eq!(masks, PicMasks { master: 0xFB, slave: 0xFE });
    assert_eq!(
        writes,
        vec![PortWrite { port: PIC2_DATA, value: 0xFE }, PortWrite { port: PIC1_DATA, value: 0xFB }]
    );
}

#[test]
fn pic_eoi_order() {
    assert_eq!(send_eoi(33), vec![PortWrite { port: PIC1_CMD, value: 0x20 }]);
    assert_eq!(
        send_eoi(44),
        vec![PortWrite { port: PIC2_CMD, value: 0x20 }, PortWrite { port: PIC1_CMD, value: 0x20 }]
    );
    assert_eq!(timer_handler(), vec![PortWrite { port: PIC1_CMD, value: 0x20 }]);
}

#[test]
fn dispatch_classification() {
    assert!(classify(0) == InterruptKind::DivideError);
    assert!(classify(3) == InterruptKind::Breakpoint);
    assert!(classify(8) == InterruptKind::DoubleFault);
    assert!(classify(14) == InterruptKind::PageFault);
    assert!(classify(33) == InterruptKind::Keyboard);
    assert!(classify(6) == InterruptKind::Unexpected);
    assert!(severity(InterruptKind::Breakpoint) == Severity::Recoverable);
    assert!(severity(InterruptKind::PageFault) == Severity::Fatal);
    assert!(severity(InterruptKind::Unexpected) == Severity::Fatal);
    assert_eq!(stack_index(InterruptKind::DoubleFault), Some(0));
    assert_eq!(stack_index(InterruptKind::GeneralProtection), None);
}

#[test]
fn ramdisk_round_trip_and_bounds() {
    let mut disk = RamDisk::new(vec![0; 4 * BLOCK_SIZE]);
    assert_eq!(disk.block_count(), 4);
    assert_eq!(disk.block_size(), 512);
    let mut data = [0u8; BLOCK_SIZE];
    data[..5].copy_from_slice(b"hello");
    assert_eq!(disk.write_block(2, &data), Ok(()));
    let mut out = [9u8; BLOCK_SIZE];
    assert_eq!(disk.read_block(2, &mut out), Ok(()));
    assert_eq!(out, data);
    assert_eq!(disk.read_block(1, &mut out), Ok(()));
    assert_eq!(out, [0u8; BLOCK_SIZE]);
    assert_eq!(disk.read_block(5, &mut out), Err(BlockError::OutOfBounds));
    assert_eq!(disk.write_block(4, &data), Err(BlockError::OutOfBounds));
    assert_eq!(BlockError::OutOfBounds.message(), "Block out of bounds");
}

#[test]
fn serial_framing() {
    assert_eq!(frame_text("a\nb"), vec![b'a', b'\r', b'\n', b'b']);
    let port = SerialPort::new(COM1);
    assert_eq!(port.line_status_port(), 0x3FD);
    assert!(port.is_transmit_empty(0x60));
    assert!(!port.is_transmit_empty(0x01));
    assert_eq!(port.write_byte(b'x'), PortWrite { port: 0x3F8, value: b'x' });
    let init = port.init_sequence();
    assert_eq!(init.len(), 7);
    assert_eq!(init[1], PortWrite { port: 0x3FB, value: 0x80 });
    assert_eq!(init[6], PortWrite { port: 0x3FC, value: 0x0B });
}

#[test]
fn ramdisk_self_test() {
    let mut disk = RamDisk::new(vec![0; 2 * BLOCK_SIZE]);
    let report = test_ramdisk(&mut disk);
    assert_eq!(
        report,
        SelfTestReport { block_count: 2, write_ok: true, read_ok: true, data_ok: true, bounds_ok: true }
    );
    let mut out = [0u8; BLOCK_SIZE];
    disk.read_block(0, &mut out).unwrap();
    assert_eq!(&out[..29], b"ShadowOS RAM disk test block!");
    assert!(out[29..].iter().all(|&b| b == 0));
    let mut empty = RamDisk::new(Vec::new());
    let report = test_ramdisk(&mut empty);
    assert_eq!(
        report,
        SelfTestReport { block_count: 0, write_ok: false, read_ok: false, data_ok: false, bounds_ok: true }
    );
}

#[test]
fn ramdisk_init_is_one_mebibyte() {
    let disk = kernel_core::ramdisk::init();
    assert_eq!(disk.block_count(), 2048);
    let mut out = [1u8; BLOCK_SIZE];
    assert_eq!(disk.read_block(2047, &mut out), Ok(()));
    assert_eq!(out, [0u8; BLOCK_SIZE]);
    assert_eq!(disk.read_block(2048, &mut out), Err(BlockError::OutOfBounds));
}
