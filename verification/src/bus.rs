//! The bus transport and the delay provider, as the drivers see them.
//!
//! Both are supplied by the caller. Nothing is assumed of how they behave:
//! a transaction may fail, and a successful read may return any bytes. What
//! the drivers did with them is recorded in the ghost trace of a
//! [`Platform`], one [`HardwareEvent`] per call, in order.

use vstd::prelude::*;

verus! {

/// A bus transaction did not complete. The cause is not kept.
#[derive(Debug, Clone, Copy, PartialEq, Eq, Structural)]
pub struct TransportError;

/// The three primitive operations of the two-wire bus, against a 7-bit
/// device address. Each one blocks until the transaction completed or failed.
pub trait Transport {
    /// Sends `bytes` to the device.
    fn write(&mut self, address: u8, bytes: &[u8]) -> Result<(), TransportError>;

    /// Fills `buffer` with bytes read from the device.
    fn read(&mut self, address: u8, buffer: &mut [u8]) -> Result<(), TransportError>;

    /// Sends `request`, then fills `buffer`, without releasing the bus in between.
    fn write_read(&mut self, address: u8, request: &[u8], buffer: &mut [u8]) -> Result<
        (),
        TransportError,
    >;
}

/// A blocking delay.
pub trait DelayProvider {
    /// Returns after `duration` milliseconds.
    fn delay_ms(&mut self, duration: u32);
}

/// One call made on the hardware, with what came back.
///
/// `reply` is `Some` of the bytes left in the caller's buffer when the
/// transaction succeeded, and `None` when it failed.
pub enum HardwareEvent {
    Write { address: u8, bytes: Seq<u8>, done: bool },
    Read { address: u8, length: nat, reply: Option<Seq<u8>> },
    WriteRead { address: u8, request: Seq<u8>, length: nat, reply: Option<Seq<u8>> },
    Delay { duration: u32 },
}

impl HardwareEvent {
    /// The bytes that a read brought back, if it succeeded.
    pub open spec fn reply(self) -> Option<Seq<u8>> {
        match self {
            HardwareEvent::Read { reply, .. } => reply,
            HardwareEvent::WriteRead { reply, .. } => reply,
            _ => None,
        }
    }

    /// Whether a write went through.
    pub open spec fn done(self) -> bool {
        match self {
            HardwareEvent::Write { done, .. } => done,
            _ => false,
        }
    }
}

/// Reading `length` bytes starting at `register`: the register's address is
/// written, and the bytes are read in the same transaction.
pub open spec fn register_read(
    address: u8,
    register: u8,
    length: nat,
    reply: Option<Seq<u8>>,
) -> HardwareEvent {
    HardwareEvent::WriteRead { address, request: seq![register], length, reply }
}

/// Writing `value` to `register`: one write of the register's address
/// followed by the value.
pub open spec fn register_write(address: u8, register: u8, value: u8, done: bool) -> HardwareEvent {
    HardwareEvent::Write { address, bytes: seq![register, value], done }
}

/// Waiting for `duration` milliseconds.
pub open spec fn pause(duration: u32) -> HardwareEvent {
    HardwareEvent::Delay { duration }
}

/// The first byte of a reply of one byte or more.
pub open spec fn reply_byte(reply: Option<Seq<u8>>) -> Option<u8> {
    match reply {
        Some(bytes) => if bytes.len() >= 1 {
            Some(bytes[0])
        } else {
            None
        },
        None => None,
    }
}

/// The bytes of a reply of `length` bytes or more.
pub open spec fn reply_bytes(reply: Option<Seq<u8>>, length: nat) -> Option<Seq<u8>> {
    match reply {
        Some(bytes) => if bytes.len() >= length {
            Some(bytes)
        } else {
            None
        },
        None => None,
    }
}

/// Traces only grow: what was recorded between `first` and `last` is what
/// was recorded up to `middle`, followed by what was recorded after it.
pub proof fn lemma_trace_grows(
    first: Seq<HardwareEvent>,
    middle: Seq<HardwareEvent>,
    last: Seq<HardwareEvent>,
)
    requires
        first.is_prefix_of(middle),
        middle.is_prefix_of(last),
    ensures
        first.is_prefix_of(last),
        last.skip(first.len() as int) =~= middle.skip(first.len() as int) + last.skip(
            middle.len() as int,
        ),
{
}

/// One more call extends a trace by exactly that call.
pub proof fn lemma_trace_push(before: Seq<HardwareEvent>, event: HardwareEvent)
    ensures
        before.is_prefix_of(before.push(event)),
        before.push(event).skip(before.len() as int) =~= seq![event],
{
}

/// A trace extends itself, by nothing.
pub proof fn lemma_trace_unchanged(trace: Seq<HardwareEvent>)
    ensures
        trace.is_prefix_of(trace),
        trace.skip(trace.len() as int) =~= Seq::<HardwareEvent>::empty(),
{
}

/// The bus and the delay provider that a caller lends to a driver for the
/// length of one call, together with the record of what was done on them.
pub struct Platform<T, D> {
    transport: T,
    delay: D,
    trace: Ghost<Seq<HardwareEvent>>,
}

impl<T: Transport, D: DelayProvider> Platform<T, D> {
    /// Every call made through this platform so far, oldest first.
    pub closed spec fn trace(&self) -> Seq<HardwareEvent> {
        self.trace@
    }

    /// The bus and the delay provider that the platform holds.
    pub closed spec fn parts(&self) -> (T, D) {
        (self.transport, self.delay)
    }

    /// Nothing recorded on `earlier` was lost or changed.
    pub open spec fn extends(&self, earlier: &Self) -> bool {
        earlier.trace().is_prefix_of(self.trace())
    }

    /// The calls made since `earlier`.
    pub open spec fn since(&self, earlier: &Self) -> Seq<HardwareEvent> {
        self.trace().skip(earlier.trace().len() as int)
    }

    /// A platform on which nothing was done yet.
    pub fn new(transport: T, delay: D) -> (hw: Self)
        ensures
            hw.trace() == Seq::<HardwareEvent>::empty(),
            hw.parts() == (transport, delay),
    {
        Platform { transport, delay, trace: Ghost(Seq::empty()) }
    }

    /// Hands the bus and the delay provider back.
    pub fn release(self) -> (parts: (T, D))
        ensures
            parts == self.parts(),
    {
        (self.transport, self.delay)
    }

    /// Sends `bytes` to the device at `address`.
    pub fn write(&mut self, address: u8, bytes: &[u8]) -> (r: Result<(), TransportError>)
        ensures
            final(self).trace() == old(self).trace().push(
                HardwareEvent::Write { address, bytes: bytes@, done: r is Ok },
            ),
    {
        let r = self.transport.write(address, bytes);
        proof {
            self.trace@ = self.trace@.push(
                HardwareEvent::Write { address, bytes: bytes@, done: r is Ok },
            );
        }
        r
    }

    /// Fills `buffer` with bytes read from the device at `address`.
    pub fn read(&mut self, address: u8, buffer: &mut [u8]) -> (r: Result<(), TransportError>)
        ensures
            final(self).trace() == old(self).trace().push(
                HardwareEvent::Read {
                    address,
                    length: old(buffer)@.len(),
                    reply: if r is Ok {
                        Some(final(buffer)@)
                    } else {
                        None
                    },
                },
            ),
    {
        let ghost length = buffer@.len();
        let r = self.transport.read(address, buffer);
        proof {
            self.trace@ = self.trace@.push(
                HardwareEvent::Read {
                    address,
                    length,
                    reply: if r is Ok {
                        Some(buffer@)
                    } else {
                        None
                    },
                },
            );
        }
        r
    }

    /// Sends `request` to the device at `address` and fills `buffer` with
    /// its answer, in one transaction.
    pub fn write_read(&mut self, address: u8, request: &[u8], buffer: &mut [u8]) -> (r: Result<
        (),
        TransportError,
    >)
        ensures
            final(self).trace() == old(self).trace().push(
                HardwareEvent::WriteRead {
                    address,
                    request: request@,
                    length: old(buffer)@.len(),
                    reply: if r is Ok {
                        Some(final(buffer)@)
                    } else {
                        None
                    },
                },
            ),
    {
        let ghost length = buffer@.len();
        let r = self.transport.write_read(address, request, buffer);
        proof {
            self.trace@ = self.trace@.push(
                HardwareEvent::WriteRead {
                    address,
                    request: request@,
                    length,
                    reply: if r is Ok {
                        Some(buffer@)
                    } else {
                        None
                    },
                },
            );
        }
        r
    }

    /// Waits for `duration` milliseconds.
    pub fn delay_ms(&mut self, duration: u32)
        ensures
            final(self).trace() == old(self).trace().push(pause(duration)),
    {
        self.delay.delay_ms(duration);
        proof {
            self.trace@ = self.trace@.push(pause(duration));
        }
    }

    /// Reads `buffer.len()` bytes starting at `register` of the device at `address`.
    pub fn read_registers(&mut self, address: u8, register: u8, buffer: &mut [u8]) -> (r: Result<
        (),
        TransportError,
    >)
        ensures
            final(self).trace() == old(self).trace().push(
                register_read(
                    address,
                    register,
                    old(buffer)@.len(),
                    if r is Ok {
                        Some(final(buffer)@)
                    } else {
                        None
                    },
                ),
            ),
    {
        let request: [u8; 1] = [register];
        assert(request@ =~= seq![register]);
        self.write_read(address, &request, buffer)
    }

    /// Writes `value` to `register` of the device at `address`.
    pub fn write_register(&mut self, address: u8, register: u8, value: u8) -> (r: Result<
        (),
        TransportError,
    >)
        ensures
            final(self).trace() == old(self).trace().push(
                register_write(address, register, value, r is Ok),
            ),
    {
        let payload: [u8; 2] = [register, value];
        assert(payload@ =~= seq![register, value]);
        self.write(address, &payload)
    }
}

} // verus!
