use vstd::prelude::*;

use std::collections::VecDeque;

use crate::trap::Trap;

verus! {

broadcast use vstd::std_specs::vecdeque::group_vec_dequeue_axioms;

pub const UART_BASE: u64 = 0x1000_0000;
pub const UART_SIZE: u64 = 0x100;

/// The registers of the 16550-style UART as plain values, with the receive
/// FIFO and the queue of transmitted bytes as sequences.
pub struct UartModel {
    pub dll: u8,
    pub dlm: u8,
    pub ier: u8,
    pub fcr: u8,
    pub lcr: u8,
    pub mcr: u8,
    pub lsr: u8,
    pub msr: u8,
    pub scr: u8,
    pub thr: u8,
    pub rbr: Seq<u8>,
    pub tx_queue: Seq<u8>,
    pub tx_int_pending: bool,
}

/// A 16550-style UART. Received bytes wait in a FIFO; transmitted bytes
/// are queued for the host to take with `pop_tx`.
#[derive(Debug)]
pub struct Uart {
    pub dll: u8,
    pub dlm: u8,
    pub ier: u8,
    pub fcr: u8,
    pub lcr: u8,
    pub mcr: u8,
    pub lsr: u8,
    pub msr: u8,
    pub scr: u8,
    pub thr: u8,
    pub rbr: VecDeque<u8>,
    pub tx_queue: VecDeque<u8>,
    pub tx_int_pending: bool,
}

/// What a byte read at `addr` does to the UART, and what it gives.
pub open spec fn spec_read8(m: UartModel, addr: u64) -> (UartModel, Result<u8, Trap>) {
    if !(UART_BASE <= addr < UART_BASE + UART_SIZE) {
        (m, Err(Trap::LoadAccessFault(addr)))
    } else {
        let off = addr - UART_BASE;
        if off == 0 {
            if m.lcr & 0x80 != 0 {
                (m, Ok(m.dll))
            } else if m.rbr.len() == 0 {
                (UartModel { lsr: m.lsr & !0x01u8, ..m }, Ok(0))
            } else {
                let rest = m.rbr.subrange(1, m.rbr.len() as int);
                (UartModel {
                    rbr: rest,
                    lsr: if rest.len() == 0 { m.lsr & !0x01u8 } else { m.lsr },
                    ..m
                }, Ok(m.rbr[0]))
            }
        } else if off == 1 {
            (m, Ok(if m.lcr & 0x80 != 0 { m.dlm } else { m.ier }))
        } else if off == 2 {
            if (m.ier & 0x01) != 0 && (m.lsr & 0x01) != 0 {
                (m, Ok(0x04))
            } else if m.tx_int_pending {
                (UartModel { tx_int_pending: false, ..m }, Ok(0x02))
            } else {
                (m, Ok(0x01))
            }
        } else if off == 3 {
            (m, Ok(m.lcr))
        } else if off == 4 {
            (m, Ok(m.mcr))
        } else if off == 5 {
            (m, Ok(m.lsr))
        } else if off == 6 {
            (m, Ok(m.msr))
        } else if off == 7 {
            (m, Ok(m.scr))
        } else {
            (m, Ok(0))
        }
    }
}

/// What a byte write of `v` at `addr` does to the UART.
pub open spec fn spec_write8(m: UartModel, addr: u64, v: u8) -> (UartModel, Result<(), Trap>) {
    if !(UART_BASE <= addr < UART_BASE + UART_SIZE) {
        (m, Err(Trap::LoadAccessFault(addr)))
    } else {
        let off = addr - UART_BASE;
        if off == 0 {
            if m.lcr & 0x80 != 0 {
                (UartModel { dll: v, ..m }, Ok(()))
            } else {
                (UartModel {
                    thr: v,
                    tx_queue: m.tx_queue.push(v),
                    tx_int_pending: if (m.ier & 0x02) != 0 { true } else { m.tx_int_pending },
                    ..m
                }, Ok(()))
            }
        } else if off == 1 {
            if m.lcr & 0x80 != 0 {
                (UartModel { dlm: v, ..m }, Ok(()))
            } else {
                let was_on = (m.ier & 0x02) != 0;
                let now_on = (v & 0x02) != 0;
                (UartModel {
                    ier: v,
                    tx_int_pending: if !was_on && now_on { true } else if !now_on { false } else {
                        m.tx_int_pending
                    },
                    ..m
                }, Ok(()))
            }
        } else if off == 2 {
            (UartModel { fcr: v, ..m }, Ok(()))
        } else if off == 3 {
            (UartModel { lcr: v, ..m }, Ok(()))
        } else if off == 4 {
            (UartModel { mcr: v, ..m }, Ok(()))
        } else if off == 7 {
            (UartModel { scr: v, ..m }, Ok(()))
        } else {
            (m, Ok(()))
        }
    }
}

/// `n` consecutive byte reads from `addr`, little-endian; the first failing
/// byte decides the error.
pub open spec fn spec_read_le(m: UartModel, addr: u64, n: nat) -> (UartModel, Result<u64, Trap>)
    decreases n,
{
    if n == 0 {
        (m, Ok(0))
    } else {
        let (m1, r) = spec_read8(m, addr);
        match r {
            Err(e) => (m1, Err(e)),
            Ok(b) => {
                let (m2, r2) = spec_read_le(m1, (addr + 1) as u64, (n - 1) as nat);
                match r2 {
                    Err(e) => (m2, Err(e)),
                    Ok(rest) => (m2, Ok((b as u64) | (rest << 8))),
                }
            },
        }
    }
}

/// `n` consecutive byte writes of the little-endian bytes of `v` from
/// `addr`; a failing byte stops the sequence.
pub open spec fn spec_write_le(m: UartModel, addr: u64, v: u64, n: nat) -> (UartModel, Result<(), Trap>)
    decreases n,
{
    if n == 0 {
        (m, Ok(()))
    } else {
        let (m1, r) = spec_write8(m, addr, (v & 0xff) as u8);
        match r {
            Err(e) => (m1, Err(e)),
            Ok(_) => spec_write_le(m1, (addr + 1) as u64, v >> 8, (n - 1) as nat),
        }
    }
}

/// The narrowing of a wide read's outcome.
pub open spec fn narrow<T>(r: Result<u64, Trap>, f: spec_fn(u64) -> T) -> Result<T, Trap> {
    match r {
        Ok(v) => Ok(f(v)),
        Err(e) => Err(e),
    }
}

impl Uart {
    /// The UART as plain values.
    pub open spec fn view(&self) -> UartModel {
        UartModel {
            dll: self.dll,
            dlm: self.dlm,
            ier: self.ier,
            fcr: self.fcr,
            lcr: self.lcr,
            mcr: self.mcr,
            lsr: self.lsr,
            msr: self.msr,
            scr: self.scr,
            thr: self.thr,
            rbr: self.rbr@,
            tx_queue: self.tx_queue@,
            tx_int_pending: self.tx_int_pending,
        }
    }

    /// A UART at reset: transmitter empty and idle (LSR 0x60), no data.
    pub open spec fn reset_model() -> UartModel {
        UartModel {
            dll: 0,
            dlm: 0,
            ier: 0,
            fcr: 0,
            lcr: 0,
            mcr: 0,
            lsr: 0x60,
            msr: 0,
            scr: 0,
            thr: 0,
            rbr: Seq::empty(),
            tx_queue: Seq::empty(),
            tx_int_pending: false,
        }
    }

    /// A fresh UART (see `reset_model`).
    pub fn new() -> (u: Uart)
        ensures
            u@ == Uart::reset_model(),
    {
        Uart {
            dll: 0,
            dlm: 0,
            ier: 0,
            fcr: 0,
            lcr: 0,
            mcr: 0,
            lsr: 0x60,
            msr: 0,
            scr: 0,
            thr: 0,
            rbr: VecDeque::new(),
            tx_queue: VecDeque::new(),
            tx_int_pending: false,
        }
    }

    /// Whether the UART requests an interrupt: received data with RX
    /// interrupts enabled, or a pending TX interrupt.
    /// Whether the UART has an interrupt to report: received data with the
    /// receive interrupt enabled, or a transmit interrupt pending.
    pub open spec fn spec_interrupting(&self) -> bool {
        ((self.ier & 0x01) != 0 && (self.lsr & 0x01) != 0) || self.tx_int_pending
    }

    pub fn is_interrupting(&self) -> (b: bool)
        ensures
            b == self.spec_interrupting(),
    {
        let rx_pending = (self.ier & 0x01) != 0 && (self.lsr & 0x01) != 0;
        let tx_pending = self.tx_int_pending;
        rx_pending || tx_pending
    }

    /// Queues a received byte and sets data-ready; tells whether RX
    /// interrupts are enabled.
    pub fn push_rx(&mut self, byte: u8) -> (irq: bool)
        ensures
            final(self)@ == (UartModel { rbr: old(self)@.rbr.push(byte), lsr: old(self).lsr | 0x01, ..old(self)@ }),
            irq == ((old(self).ier & 0x01) != 0),
    {
        self.rbr.push_back(byte);
        self.lsr = self.lsr | 0x01;
        (self.ier & 0x01) != 0
    }

    /// Takes the oldest transmitted byte, if any.
    pub fn pop_tx(&mut self) -> (b: Option<u8>)
        ensures
            old(self)@.tx_queue.len() == 0 ==> b is None && final(self)@ == old(self)@,
            old(self)@.tx_queue.len() > 0 ==> b == Some(old(self)@.tx_queue[0]) && final(self)@ == (UartModel {
                tx_queue: old(self)@.tx_queue.subrange(1, old(self)@.tx_queue.len() as int),
                ..old(self)@
            }),
    {
        self.tx_queue.pop_front()
    }

    /// Whether transmitted bytes are waiting for the host.
    pub fn has_tx_output(&self) -> (b: bool)
        ensures
            b == (self@.tx_queue.len() > 0),
    {
        self.tx_queue.len() != 0
    }

    fn offset(addr: u64) -> (r: Result<u64, Trap>)
        ensures
            r == if UART_BASE <= addr < UART_BASE + UART_SIZE {
                Ok::<u64, Trap>((addr - UART_BASE) as u64)
            } else {
                Err(Trap::LoadAccessFault(addr))
            },
    {
        if !(UART_BASE <= addr && addr < UART_BASE + UART_SIZE) {
            return Err(Trap::LoadAccessFault(addr));
        }
        Ok(addr - UART_BASE)
    }

    pub fn read8(&mut self, addr: u64) -> (r: Result<u8, Trap>)
        ensures
            (final(self)@, r) == spec_read8(old(self)@, addr),
    {
        let off = Self::offset(addr)?;
        let value = if off == 0 {
            if self.lcr & 0x80 != 0 {
                self.dll
            } else {
                let data = match self.rbr.pop_front() {
                    Some(b) => b,
                    None => 0,
                };
                if self.rbr.len() == 0 {
                    self.lsr = self.lsr & !0x01u8;
                }
                data
            }
        } else if off == 1 {
            if self.lcr & 0x80 != 0 {
                self.dlm
            } else {
                self.ier
            }
        } else if off == 2 {
            if (self.ier & 0x01) != 0 && (self.lsr & 0x01) != 0 {
                0x04
            } else if self.tx_int_pending {
                self.tx_int_pending = false;
                0x02
            } else {
                0x01
            }
        } else if off == 3 {
            self.lcr
        } else if off == 4 {
            self.mcr
        } else if off == 5 {
            self.lsr
        } else if off == 6 {
            self.msr
        } else if off == 7 {
            self.scr
        } else {
            0
        };
        proof {
            assert(final(self)@.rbr =~= spec_read8(old(self)@, addr).0.rbr);
        }
        Ok(value)
    }

    /// A byte write. A write to the transmit register queues the byte for
    /// the host.
    pub fn write8(&mut self, addr: u64, value: u8) -> (r: Result<(), Trap>)
        ensures
            (final(self)@, r) == spec_write8(old(self)@, addr, value),
    {
        let off = Self::offset(addr)?;
        if off == 0 {
            if self.lcr & 0x80 != 0 {
                self.dll = value;
            } else {
                self.thr = value;
                self.tx_queue.push_back(value);
                if (self.ier & 0x02) != 0 {
                    self.tx_int_pending = true;
                }
            }
        } else if off == 1 {
            if self.lcr & 0x80 != 0 {
                self.dlm = value;
            } else {
                let tx_enable_old = (self.ier & 0x02) != 0;
                self.ier = value;
                let tx_enable_new = (self.ier & 0x02) != 0;
                if !tx_enable_old && tx_enable_new {
                    self.tx_int_pending = true;
                } else if !tx_enable_new {
                    self.tx_int_pending = false;
                }
            }
        } else if off == 2 {
            self.fcr = value;
        } else if off == 3 {
            self.lcr = value;
        } else if off == 4 {
            self.mcr = value;
        } else if off == 7 {
            self.scr = value;
        }
        Ok(())
    }

    fn read_le(&mut self, addr: u64, n: u64) -> (r: Result<u64, Trap>)
        requires
            n <= 8,
            addr + n <= u64::MAX,
        ensures
            (final(self)@, r) == spec_read_le(old(self)@, addr, n as nat),
        decreases n,
    {
        if n == 0 {
            return Ok(0);
        }
        let b = self.read8(addr)?;
        let rest = self.read_le(addr + 1, n - 1)?;
        Ok((b as u64) | (rest << 8))
    }

    fn write_le(&mut self, addr: u64, v: u64, n: u64) -> (r: Result<(), Trap>)
        requires
            n <= 8,
            addr + n <= u64::MAX,
        ensures
            (final(self)@, r) == spec_write_le(old(self)@, addr, v, n as nat),
        decreases n,
    {
        if n == 0 {
            return Ok(());
        }
        self.write8(addr, (v & 0xff) as u8)?;
        self.write_le(addr + 1, v >> 8, n - 1)
    }

    pub fn read16(&mut self, addr: u64) -> (r: Result<u16, Trap>)
        requires
            addr + 2 <= u64::MAX,
        ensures
            final(self)@ == spec_read_le(old(self)@, addr, 2).0,
            r == narrow(spec_read_le(old(self)@, addr, 2).1, |v: u64| v as u16),
    {
        let v = self.read_le(addr, 2)?;
        Ok(v as u16)
    }

    pub fn read32(&mut self, addr: u64) -> (r: Result<u32, Trap>)
        requires
            addr + 4 <= u64::MAX,
        ensures
            final(self)@ == spec_read_le(old(self)@, addr, 4).0,
            r == narrow(spec_read_le(old(self)@, addr, 4).1, |v: u64| v as u32),
    {
        let v = self.read_le(addr, 4)?;
        Ok(v as u32)
    }

    pub fn read64(&mut self, addr: u64) -> (r: Result<u64, Trap>)
        requires
            addr + 8 <= u64::MAX,
        ensures
            (final(self)@, r) == spec_read_le(old(self)@, addr, 8),
    {
        self.read_le(addr, 8)
    }

    pub fn write16(&mut self, addr: u64, value: u16) -> (r: Result<(), Trap>)
        requires
            addr + 2 <= u64::MAX,
        ensures
            (final(self)@, r) == spec_write_le(old(self)@, addr, value as u64, 2),
    {
        self.write_le(addr, value as u64, 2)
    }

    pub fn write32(&mut self, addr: u64, value: u32) -> (r: Result<(), Trap>)
        requires
            addr + 4 <= u64::MAX,
        ensures
            (final(self)@, r) == spec_write_le(old(self)@, addr, value as u64, 4),
    {
        self.write_le(addr, value as u64, 4)
    }

    pub fn write64(&mut self, addr: u64, value: u64) -> (r: Result<(), Trap>)
        requires
            addr + 8 <= u64::MAX,
        ensures
            (final(self)@, r) == spec_write_le(old(self)@, addr, value, 8),
    {
        self.write_le(addr, value, 8)
    }
}

/// Received bytes come out of the data register in the order they arrived:
/// after `push_rx(b)` on an empty FIFO with DLAB clear, a read of the data
/// register gives `b` and leaves the FIFO empty and data-ready clear.
pub proof fn law_rx_fifo(m: UartModel, b: u8)
    requires
        m.rbr.len() == 0,
        m.lcr & 0x80 == 0,
    ensures
        ({
            let pushed = UartModel { rbr: m.rbr.push(b), lsr: m.lsr | 0x01, ..m };
            let (after, r) = spec_read8(pushed, UART_BASE);
            &&& r == Ok::<u8, Trap>(b)
            &&& after.rbr.len() == 0
            &&& after.lsr & 0x01 == 0
        }),
{
    let l = m.lsr;
    assert((l | 0x01u8) & !0x01u8 & 0x01u8 == 0) by (bit_vector);
}

/// Bytes written to the transmit register reach the host in order: each
/// write with DLAB clear appends its byte to the transmit queue.
pub proof fn law_tx_in_order(m: UartModel, v: u8)
    requires
        m.lcr & 0x80 == 0,
    ensures
        spec_write8(m, UART_BASE, v).0.tx_queue == m.tx_queue.push(v),
        spec_write8(m, UART_BASE, v).1 is Ok,
{
}

} // verus!
