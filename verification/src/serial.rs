//! The 8250/16550 UART behind the PC's COM ports.
//!
//! The port accesses themselves are left to the caller: the functions here
//! decide which byte goes to which I/O port, and read the values the caller
//! got from the ports.

use vstd::prelude::*;

verus! {

/// I/O base of COM1.
pub const PORT_1_ADDR: u16 = 0x3f8;

/// I/O base of COM2.
pub const PORT_2_ADDR: u16 = 0x2f8;

/// The fastest baud rate, reached with divisor 1.
pub const MAX_BAUD: u32 = 115200;

/// One byte written to one I/O port.
#[derive(Clone, Copy, Debug, PartialEq, Eq, Structural)]
pub struct PortWrite {
    pub port: u16,
    pub value: u8,
}

/// An 8-bit I/O port.
#[derive(Clone, Copy, Debug, PartialEq, Eq, Structural)]
pub struct Port {
    pub port: u16,
}

impl Port {
    /// The port at address `port`.
    pub fn new(port: u16) -> (p: Port)
        ensures
            p.port == port,
    {
        Port { port }
    }

    /// The access that writes `value` to this port.
    pub fn write(&self, value: u8) -> (w: PortWrite)
        ensures
            w == (PortWrite { port: self.port, value }),
    {
        PortWrite { port: self.port, value }
    }
}

/// Line status flag: a received byte is waiting.
pub const DATA_READY: u8 = 1;

/// Line status flag: a received byte was lost.
pub const OVERRUN_ERROR: u8 = 2;

/// Line status flag: a parity error.
pub const PARITY_ERROR: u8 = 4;

/// Line status flag: a framing error.
pub const FRAMING_ERROR: u8 = 8;

/// Line status flag: a break was received.
pub const BREAK_INDICATOR: u8 = 16;

/// Line status flag: the transmitter can take a byte.
pub const TRANSMITTER_HOLDING_REGISTER_EMPTY: u8 = 32;

/// Line status flag: the transmitter is idle.
pub const TRANSMITTER_EMPTY: u8 = 64;

/// Line status flag: an error in the received FIFO.
pub const IMPENDING_ERROR: u8 = 128;

/// The line status register of the UART.
#[derive(Clone, Copy, Debug, PartialEq, Eq, Structural)]
pub struct LineStatus {
    pub bits: u8,
}

impl LineStatus {
    /// The status with the flags of `bits`. All eight bits are flags, so
    /// none is dropped.
    pub fn from_bits_truncate(bits: u8) -> (s: LineStatus)
        ensures
            s.bits == bits,
    {
        assert(bits & 0xFF == bits) by (bit_vector);
        LineStatus { bits: bits & 0xFF }
    }

    pub fn bits(&self) -> (r: u8)
        ensures
            r == self.bits,
    {
        self.bits
    }

    /// Whether every flag of `other` is set in `self`.
    pub fn contains(&self, other: LineStatus) -> (r: bool)
        ensures
            r == (self.bits & other.bits == other.bits),
    {
        self.bits & other.bits == other.bits
    }
}

/// A baud rate that the divisor latch cannot produce.
#[derive(Clone, Copy, Debug, PartialEq, Eq, Structural)]
pub struct InvalidBaudrate(pub u32);

/// The divisor that gives `baud`, rounded down.
pub open spec fn divisor_of(baud: u32) -> u32 {
    (MAX_BAUD / baud) as u32
}

/// `baud` is produced exactly by its divisor.
pub open spec fn baud_accepted(baud: u32) -> bool {
    MAX_BAUD / divisor_of(baud) == baud
}

/// The bytes written to set up the UART at `base`: interrupts off, divisor
/// latch on, the divisor low byte then high byte, 8 data bits with no parity
/// and one stop bit, the FIFO enabled and cleared with a 14-byte trigger,
/// and the modem control with data terminal ready, plus aux output 2 where
/// interrupts are wanted.
pub open spec fn init_writes(base: u16, divisor: u32, enable_irqs: bool) -> Seq<PortWrite> {
    seq![
        PortWrite { port: (base + 1) as u16, value: 0 },
        PortWrite { port: (base + 3) as u16, value: 0x80 },
        PortWrite { port: base, value: (divisor % 256) as u8 },
        PortWrite { port: (base + 1) as u16, value: ((divisor / 256) % 256) as u8 },
        PortWrite { port: (base + 3) as u16, value: 0x07 },
        PortWrite { port: (base + 2) as u16, value: 0xE7 },
        PortWrite { port: (base + 4) as u16, value: if enable_irqs { 0x09u8 } else { 0x01u8 } },
    ]
}

/// A UART at eight consecutive I/O ports.
pub struct SerialPort {
    initialized: bool,
    data: Port,
    interrupt_enable: Port,
    fifo_control: Port,
    line_control: Port,
    modem_control: Port,
    line_status: Port,
    modem_status: Port,
    scratch: Port,
}

impl SerialPort {
    #[verifier::type_invariant]
    spec fn ports_consecutive(self) -> bool {
        &&& self.data.port <= u16::MAX - 7
        &&& self.interrupt_enable.port == self.data.port + 1
        &&& self.fifo_control.port == self.data.port + 2
        &&& self.line_control.port == self.data.port + 3
        &&& self.modem_control.port == self.data.port + 4
        &&& self.line_status.port == self.data.port + 5
        &&& self.modem_status.port == self.data.port + 6
        &&& self.scratch.port == self.data.port + 7
    }

    /// The first I/O port of the UART.
    pub closed spec fn base(self) -> u16 {
        self.data.port
    }

    /// The UART has been set up by [`SerialPort::init`].
    pub closed spec fn is_initialized(self) -> bool {
        self.initialized
    }

    /// The UART whose registers start at `port_base`; not yet set up.
    pub fn new(port_base: u16) -> (s: SerialPort)
        requires
            port_base <= u16::MAX - 7,
        ensures
            s.base() == port_base,
            !s.is_initialized(),
    {
        SerialPort {
            initialized: false,
            data: Port::new(port_base),
            interrupt_enable: Port::new(port_base + 1),
            fifo_control: Port::new(port_base + 2),
            line_control: Port::new(port_base + 3),
            modem_control: Port::new(port_base + 4),
            line_status: Port::new(port_base + 5),
            modem_status: Port::new(port_base + 6),
            scratch: Port::new(port_base + 7),
        }
    }

    /// Whether the UART has been set up by [`SerialPort::init`].
    pub fn initialized(&self) -> (r: bool)
        ensures
            r == self.is_initialized(),
    {
        self.initialized
    }

    /// The I/O port of the data register.
    pub fn data_port(&self) -> (p: u16)
        ensures
            p == self.base(),
    {
        self.data.port
    }

    /// The I/O port of the line status register.
    pub fn line_status_port(&self) -> (p: u16)
        ensures
            p == self.base() + 5,
    {
        proof {
            use_type_invariant(self);
        }
        self.line_status.port
    }

    /// Sets the UART up for `baud` and returns the port writes that do it,
    /// in order; `InvalidBaudrate` where no divisor gives `baud` exactly.
    pub fn init(&mut self, baud: u32, enable_irqs: bool) -> (r: Result<
        Vec<PortWrite>,
        InvalidBaudrate,
    >)
        requires
            0 < baud <= MAX_BAUD,
        ensures
            final(self).base() == old(self).base(),
            baud_accepted(baud) ==> {
                &&& r matches Ok(w) && w@ == init_writes(
                    old(self).base(),
                    divisor_of(baud),
                    enable_irqs,
                )
                &&& final(self).is_initialized()
            },
            !baud_accepted(baud) ==> {
                &&& r == Err::<Vec<PortWrite>, InvalidBaudrate>(InvalidBaudrate(baud))
                &&& final(self).is_initialized() == old(self).is_initialized()
            },
    {
        proof {
            use_type_invariant(&*self);
        }
        let divisor = MAX_BAUD / baud;
        assert(divisor >= 1) by (nonlinear_arith)
            requires
                divisor == 115200u32 / baud,
                0 < baud <= 115200,
        ;
        if MAX_BAUD / divisor != baud {
            return Err(InvalidBaudrate(baud));
        }
        let mut writes: Vec<PortWrite> = Vec::new();
        writes.push(self.interrupt_enable.write(0));
        let dlab: u8 = 1u8 << 7u8;
        assert(dlab == 0x80) by (bit_vector)
            requires
                dlab == 1u8 << 7u8,
        ;
        writes.push(self.line_control.write(dlab));
        let low = (divisor & 0xFF) as u8;
        let high = (divisor >> 8u32) as u8;
        assert(low == (divisor % 256) as u8 && high == ((divisor / 256) % 256) as u8)
            by (bit_vector)
            requires
                low == (divisor & 0xFF) as u8,
                high == (divisor >> 8u32) as u8,
        ;
        writes.push(self.data.write(low));
        writes.push(self.interrupt_enable.write(high));
        writes.push(self.line_control.write(0b111));
        let fifo_flags: u8 = (0b1u8 << 0u8) | (0b11u8 << 1u8) | (0b1u8 << 5u8) | (0b11u8 << 6u8);
        assert(fifo_flags == 0xE7) by (bit_vector)
            requires
                fifo_flags == (0b1u8 << 0u8) | (0b11u8 << 1u8) | (0b1u8 << 5u8) | (0b11u8 << 6u8),
        ;
        writes.push(self.fifo_control.write(fifo_flags));
        let mut modem_ctrl_flags: u8 = 0b1;
        if enable_irqs {
            modem_ctrl_flags = modem_ctrl_flags | (0b1u8 << 3u8);
            assert(modem_ctrl_flags == 9) by (bit_vector)
                requires
                    modem_ctrl_flags == 1u8 | (0b1u8 << 3u8),
            ;
        }
        writes.push(self.modem_control.write(modem_ctrl_flags));
        self.initialized = true;
        let ghost expected = init_writes(self.data.port, divisor, enable_irqs);
        assert(writes@ =~= expected);
        Ok(writes)
    }

    /// The line status, from the value read at the line status port.
    pub fn status(&self, line_status: u8) -> (s: LineStatus)
        requires
            self.is_initialized(),
        ensures
            s.bits == line_status,
    {
        LineStatus::from_bits_truncate(line_status)
    }

    /// Given the value read at the line status port: the port to read a
    /// received byte from, where one is waiting.
    pub fn try_read(&self, line_status: u8) -> (r: Option<u16>)
        requires
            self.is_initialized(),
        ensures
            line_status & 1 != 0 ==> r == Some(self.base()),
            line_status & 1 == 0 ==> r is None,
    {
        assert((line_status & 1 == 1) == (line_status & 1 != 0)) by (bit_vector);
        if self.status(line_status).contains(LineStatus::from_bits_truncate(DATA_READY)) {
            Some(self.data.port)
        } else {
            None
        }
    }

    /// Given the value read at the line status port: the write that sends
    /// `data`, where the transmitter can take a byte.
    pub fn try_write(&self, line_status: u8, data: u8) -> (r: Option<PortWrite>)
        requires
            self.is_initialized(),
        ensures
            line_status & 32 != 0 ==> r == Some(PortWrite { port: self.base(), value: data }),
            line_status & 32 == 0 ==> r is None,
    {
        assert((line_status & 32 == 32) == (line_status & 32 != 0)) by (bit_vector);
        if self.status(line_status).contains(
            LineStatus::from_bits_truncate(TRANSMITTER_HOLDING_REGISTER_EMPTY),
        ) {
            Some(self.data.write(data))
        } else {
            None
        }
    }
}

/// The serial console of the loader: COM1 at the fastest rate.
pub struct SerialIO {
    pub port: SerialPort,
}

impl SerialIO {
    /// The console on COM1 at 115200 baud without interrupts, and the port
    /// writes that set it up.
    pub fn new() -> (r: (SerialIO, Vec<PortWrite>))
        ensures
            r.0.port.base() == PORT_1_ADDR,
            r.0.port.is_initialized(),
            r.1@ == init_writes(PORT_1_ADDR, 1, false),
    {
        assert(divisor_of(MAX_BAUD) == 1 && baud_accepted(MAX_BAUD)) by (nonlinear_arith);
        let mut port = SerialPort::new(PORT_1_ADDR);
        let writes = match port.init(MAX_BAUD, false) {
            Ok(w) => w,
            Err(_) => {
                assert(false);
                Vec::new()
            },
        };
        (SerialIO { port }, writes)
    }
}

/// What setting the UART up does, whatever the divisor and interrupts:
/// seven writes; the first turns every UART interrupt off in the interrupt
/// enable register; the second sets only the divisor latch bit of the line
/// control register; the next two write the divisor, low byte to the data
/// port and high byte to the next port, so that together they give the
/// divisor modulo 65536; the fifth clears the latch bit again (8 data bits,
/// no parity, one stop bit); the sixth sets up the FIFO; the last writes the
/// modem control, whose bit 3 (aux output 2) is set exactly where
/// interrupts are wanted. Only that last write depends on `enable_irqs`.
pub proof fn lemma_init_writes(base: u16, divisor: u32, enable_irqs: bool)
    requires
        base <= u16::MAX - 7,
    ensures
        init_writes(base, divisor, enable_irqs).len() == 7,
        init_writes(base, divisor, enable_irqs)[0] == (PortWrite { port: (base + 1) as u16, value: 0 }),
        init_writes(base, divisor, enable_irqs)[1] == (PortWrite {
            port: (base + 3) as u16,
            value: 0x80,
        }),
        init_writes(base, divisor, enable_irqs)[2].port == base,
        init_writes(base, divisor, enable_irqs)[3].port == base + 1,
        init_writes(base, divisor, enable_irqs)[2].value + 256 * init_writes(
            base,
            divisor,
            enable_irqs,
        )[3].value == divisor % 65536,
        init_writes(base, divisor, enable_irqs)[4].port == base + 3,
        init_writes(base, divisor, enable_irqs)[4].value & 0x80 == 0,
        init_writes(base, divisor, enable_irqs)[4].value == 0x07,
        init_writes(base, divisor, enable_irqs)[5].port == base + 2,
        init_writes(base, divisor, enable_irqs)[6].port == base + 4,
        (init_writes(base, divisor, enable_irqs)[6].value & 8 != 0) == enable_irqs,
        init_writes(base, divisor, enable_irqs)[6].value & 1 != 0,
        forall|i: int|
            0 <= i < 6 ==> #[trigger] init_writes(base, divisor, true)[i] == init_writes(
                base,
                divisor,
                false,
            )[i],
{
    assert((divisor % 256) + 256 * ((divisor / 256) % 256) == divisor % 65536) by (nonlinear_arith);
    assert(0x07u8 & 0x80u8 == 0) by (bit_vector);
    assert(0x09u8 & 8u8 != 0 && 0x01u8 & 8u8 == 0) by (bit_vector);
    assert(0x09u8 & 1u8 != 0 && 0x01u8 & 1u8 != 0) by (bit_vector);
}

} // verus!
