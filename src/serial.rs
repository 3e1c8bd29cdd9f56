use vstd::prelude::*;
use vstd::string::StringSliceAdditionalSpecFns;
use crate::pic::{port_write, PortWrite};

verus! {

/// Base port of the first serial line.
pub const COM1: u16 = 0x3F8;

/// Line-status bit set when the transmitter can take another byte.
pub const TRANSMIT_EMPTY: u8 = 0x20;

/// A 16550-style serial line at a base I/O port.
pub struct SerialPort {
    port: u16,
}

impl View for SerialPort {
    type V = u16;

    /// The base port.
    closed spec fn view(&self) -> u16 {
        self.port
    }
}

/// The setup writes for a line at `port`: interrupts off, divisor 1
/// (115200 baud) through the divisor latch, 8 bits no parity one stop bit,
/// FIFO on and cleared with a 14-byte threshold, modem control lines set.
pub open spec fn serial_init_program(port: u16) -> Seq<PortWrite> {
    seq![
        port_write((port + 1) as u16, 0x00),
        port_write((port + 3) as u16, 0x80),
        port_write(port, 0x01),
        port_write((port + 1) as u16, 0x00),
        port_write((port + 3) as u16, 0x03),
        port_write((port + 2) as u16, 0xC7),
        port_write((port + 4) as u16, 0x0B),
    ]
}

/// `s` with a carriage return put before every line feed.
pub open spec fn crlf(s: Seq<u8>) -> Seq<u8>
    decreases s.len(),
{
    if s.len() == 0 {
        s
    } else {
        let rest = crlf(s.drop_last());
        if s.last() == 10 {
            rest.push(13).push(10)
        } else {
            rest.push(s.last())
        }
    }
}

impl SerialPort {
    /// A line at base port `port`; its registers span `port` to `port + 5`.
    pub fn new(port: u16) -> (r: SerialPort)
        requires
            port <= 0xFFFF - 5,
        ensures
            r@ == port,
    {
        SerialPort { port }
    }

    /// The writes that set the line up.
    pub fn init_sequence(&self) -> (r: Vec<PortWrite>)
        requires
            self@ <= 0xFFFF - 5,
        ensures
            r@ == serial_init_program(self@),
    {
        let port = self.port;
        let r = vec![
            PortWrite { port: port + 1, value: 0x00 },
            PortWrite { port: port + 3, value: 0x80 },
            PortWrite { port: port, value: 0x01 },
            PortWrite { port: port + 1, value: 0x00 },
            PortWrite { port: port + 3, value: 0x03 },
            PortWrite { port: port + 2, value: 0xC7 },
            PortWrite { port: port + 4, value: 0x0B },
        ];
        assert(r@ =~= serial_init_program(self@));
        r
    }

    /// The line-status register's port.
    pub fn line_status_port(&self) -> (r: u16)
        requires
            self@ <= 0xFFFF - 5,
        ensures
            r == self@ + 5,
    {
        self.port + 5
    }

    /// Whether the transmitter is free, given the line-status register.
    pub fn is_transmit_empty(&self, line_status: u8) -> (r: bool)
        ensures
            r == (line_status & TRANSMIT_EMPTY != 0),
    {
        line_status & TRANSMIT_EMPTY != 0
    }

    /// The write that sends `byte`, to be made once the transmitter is free.
    pub fn write_byte(&self, byte: u8) -> (r: PortWrite)
        ensures
            r == port_write(self@, byte),
    {
        PortWrite { port: self.port, value: byte }
    }
}

/// The bytes sent for text `s`: each line feed preceded by a carriage return.
pub fn frame_text(s: &str) -> (r: Vec<u8>)
    ensures
        r@ == crlf(s.spec_bytes()),
{
    let bytes = s.as_bytes();
    let mut out: Vec<u8> = Vec::new();
    let mut i: usize = 0;
    while i < bytes.len()
        invariant
            i <= bytes@.len(),
            out@ == crlf(bytes@.take(i as int)),
        decreases bytes@.len() - i,
    {
        assert(bytes@.take(i + 1).drop_last() =~= bytes@.take(i as int));
        if bytes[i] == 10 {
            out.push(13);
        }
        out.push(bytes[i]);
        i += 1;
    }
    assert(bytes@.take(bytes@.len() as int) =~= bytes@);
    out
}

} // verus!
