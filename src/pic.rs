use vstd::prelude::*;

verus! {

/// Command port of the master controller.
pub const PIC1_CMD: u16 = 0x20;

/// Data (mask) port of the master controller.
pub const PIC1_DATA: u16 = 0x21;

/// Command port of the slave controller.
pub const PIC2_CMD: u16 = 0xA0;

/// Data (mask) port of the slave controller.
pub const PIC2_DATA: u16 = 0xA1;

/// Unused port written to give the controllers time between writes.
pub const IO_WAIT_PORT: u16 = 0x80;

/// First vector of the master's lines.
pub const PIC1_OFFSET: u8 = 32;

/// First vector of the slave's lines.
pub const PIC2_OFFSET: u8 = 40;

/// Master line that the slave cascades on.
pub const CASCADE_LINE: u8 = 2;

/// End-of-interrupt command byte.
pub const EOI: u8 = 0x20;

/// One byte written to one I/O port.
#[derive(Debug, Clone, Copy, PartialEq, Eq, Structural)]
pub struct PortWrite {
    pub port: u16,
    pub value: u8,
}

/// The two controllers' mask registers as last programmed: bit `n` set means
/// line `n` of that controller is masked.
#[derive(Debug, Clone, Copy, PartialEq, Eq, Structural)]
pub struct PicMasks {
    pub master: u8,
    pub slave: u8,
}

pub open spec fn port_write(port: u16, value: u8) -> PortWrite {
    PortWrite { port, value }
}

/// A write followed by the I/O delay write.
pub open spec fn waited(port: u16, value: u8) -> Seq<PortWrite> {
    seq![port_write(port, value), port_write(IO_WAIT_PORT, 0)]
}

/// The initialization sequence: begin initialization expecting a fourth
/// word, vector offsets, cascade wiring, 8086 mode, then mask every line;
/// master before slave at each step, each write followed by a delay.
pub open spec fn init_program() -> Seq<PortWrite> {
    waited(PIC1_CMD, 0x11) + waited(PIC2_CMD, 0x11) + waited(PIC1_DATA, PIC1_OFFSET) + waited(
        PIC2_DATA,
        PIC2_OFFSET,
    ) + waited(PIC1_DATA, 4) + waited(PIC2_DATA, 2) + waited(PIC1_DATA, 1) + waited(PIC2_DATA, 1)
        + waited(PIC1_DATA, 0xFF) + waited(PIC2_DATA, 0xFF)
}

/// `mask` with bit `bit` cleared.
pub open spec fn clear_bit(mask: u8, bit: u8) -> u8 {
    mask & !(1u8 << bit)
}

/// Whether IRQ line `irq` (0 to 15) is masked.
pub open spec fn line_masked(m: PicMasks, irq: u8) -> bool {
    if irq < 8 {
        (m.master >> irq) & 1 == 1
    } else {
        (m.slave >> ((irq - 8) as u8)) & 1 == 1
    }
}

/// The masks after unmasking `irq`: its own bit is cleared, and for a slave
/// line the master's cascade line too.
pub open spec fn unmasked(m: PicMasks, irq: u8) -> PicMasks {
    if irq < 8 {
        PicMasks { master: clear_bit(m.master, irq), slave: m.slave }
    } else {
        PicMasks {
            master: clear_bit(m.master, CASCADE_LINE),
            slave: clear_bit(m.slave, (irq - 8) as u8),
        }
    }
}

/// Writes `value` to `port`, then to the delay port.
fn push_waited(out: &mut Vec<PortWrite>, port: u16, value: u8)
    ensures
        final(out)@ == old(out)@ + waited(port, value),
{
    out.push(PortWrite { port, value });
    out.push(PortWrite { port: IO_WAIT_PORT, value: 0 });
    assert(final(out)@ =~= old(out)@ + waited(port, value));
}

/// Reprograms both controllers: returns the masks they are left with (every
/// line masked) and the port writes that do it.
pub fn init() -> (r: (PicMasks, Vec<PortWrite>))
    ensures
        r.0 == (PicMasks { master: 0xFF, slave: 0xFF }),
        r.1@ == init_program(),
{
    let mut out: Vec<PortWrite> = Vec::new();
    push_waited(&mut out, PIC1_CMD, 0x11);
    push_waited(&mut out, PIC2_CMD, 0x11);
    push_waited(&mut out, PIC1_DATA, PIC1_OFFSET);
    push_waited(&mut out, PIC2_DATA, PIC2_OFFSET);
    push_waited(&mut out, PIC1_DATA, 4);
    push_waited(&mut out, PIC2_DATA, 2);
    push_waited(&mut out, PIC1_DATA, 0x01);
    push_waited(&mut out, PIC2_DATA, 0x01);
    push_waited(&mut out, PIC1_DATA, 0xFF);
    push_waited(&mut out, PIC2_DATA, 0xFF);
    assert(out@ =~= init_program());
    (PicMasks { master: 0xFF, slave: 0xFF }, out)
}

/// Unmasks IRQ line `irq`, updating `masks` and returning the mask-register
/// writes to perform: the owning controller's, then for a slave line the
/// master's with the cascade line unmasked.
pub fn unmask_irq(masks: &mut PicMasks, irq: u8) -> (r: Vec<PortWrite>)
    requires
        irq < 16,
    ensures
        *final(masks) == unmasked(*old(masks), irq),
        irq < 8 ==> r@ == seq![port_write(PIC1_DATA, final(masks).master)],
        irq >= 8 ==> r@ == seq![port_write(PIC2_DATA, final(masks).slave), port_write(PIC1_DATA, final(masks).master)],
{
    let mut out: Vec<PortWrite> = Vec::new();
    if irq < 8 {
        masks.master = masks.master & !(1u8 << irq);
        out.push(PortWrite { port: PIC1_DATA, value: masks.master });
    } else {
        let line = irq - 8;
        masks.slave = masks.slave & !(1u8 << line);
        out.push(PortWrite { port: PIC2_DATA, value: masks.slave });
        masks.master = masks.master & !(1u8 << CASCADE_LINE);
        out.push(PortWrite { port: PIC1_DATA, value: masks.master });
    }
    assert(irq < 8 ==> out@ =~= seq![port_write(PIC1_DATA, masks.master)]);
    assert(irq >= 8 ==> out@ =~= seq![port_write(PIC2_DATA, masks.slave), port_write(PIC1_DATA, masks.master)]);
    out
}

/// The end-of-interrupt writes for `vector`: the slave's first when the
/// vector is one of the slave's, then always the master's.
pub fn send_eoi(vector: u8) -> (r: Vec<PortWrite>)
    ensures
        vector >= PIC2_OFFSET ==> r@ == seq![port_write(PIC2_CMD, EOI), port_write(PIC1_CMD, EOI)],
        vector < PIC2_OFFSET ==> r@ == seq![port_write(PIC1_CMD, EOI)],
{
    let mut out: Vec<PortWrite> = Vec::new();
    if vector >= PIC2_OFFSET {
        out.push(PortWrite { port: PIC2_CMD, value: EOI });
    }
    out.push(PortWrite { port: PIC1_CMD, value: EOI });
    assert(vector >= PIC2_OFFSET ==> out@ =~= seq![port_write(PIC2_CMD, EOI), port_write(PIC1_CMD, EOI)]);
    assert(vector < PIC2_OFFSET ==> out@ =~= seq![port_write(PIC1_CMD, EOI)]);
    out
}

proof fn lemma_clear_bit(mask: u8, bit: u8, j: u8)
    by (bit_vector)
    requires
        bit < 8,
        j < 8,
    ensures
        (mask & !(1u8 << bit)) >> bit & 1 == 0,
        j != bit ==> ((mask & !(1u8 << bit)) >> j) & 1 == (mask >> j) & 1,
{
}

proof fn lemma_all_ones(j: u8)
    by (bit_vector)
    requires
        j < 8,
    ensures
        (0xFFu8 >> j) & 1 == 1,
{
}

/// After initialization every one of the sixteen lines is masked.
pub proof fn lemma_init_masks_all(irq: u8)
    requires
        irq < 16,
    ensures
        line_masked(PicMasks { master: 0xFF, slave: 0xFF }, irq),
{
    if irq < 8 {
        lemma_all_ones(irq);
    } else {
        lemma_all_ones((irq - 8) as u8);
    }
}

/// Unmasking `irq` unmasks that line and, for a slave line, the master's
/// cascade line; every other line `j` keeps its state.
pub proof fn lemma_unmask_effect(m: PicMasks, irq: u8, j: u8)
    requires
        irq < 16,
        j < 16,
    ensures
        !line_masked(unmasked(m, irq), irq),
        irq >= 8 ==> !line_masked(unmasked(m, irq), CASCADE_LINE),
        j != irq && !(irq >= 8 && j == CASCADE_LINE) ==> line_masked(unmasked(m, irq), j)
            == line_masked(m, j),
{
    if irq < 8 {
        lemma_clear_bit(m.master, irq, if j < 8 { j } else { 0 });
    } else {
        let line = (irq - 8) as u8;
        lemma_clear_bit(m.slave, line, if j >= 8 { (j - 8) as u8 } else { 0 });
        lemma_clear_bit(m.master, CASCADE_LINE, if j < 8 { j } else { 0 });
    }
}

} // verus!
