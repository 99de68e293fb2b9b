//! Trace sinks: synchronous signal encoders that publish trace events
//! either on a bank of parallel output pins or over a serial port.
//!
//! The parallel sink drives one pin per bit of a 16-bit event word; the
//! serial sink frames the event bytes behind a length byte and hands the
//! frame to the transport, getting its buffer back through a completion
//! callback.

use vstd::prelude::*;

use crate::exchange::ExchangeBuffer;
use crate::hil::GPIOTrace;
use crate::hil::Trace;

verus! {

/// Baud rate the serial trace sink configures its port with; eight data
/// bits, even parity, one stop bit, no flow control.
pub const UART_BAUD_RATE: u32 = 115200;

/// The 16-bit word driven onto the trace pins for one event: the first data
/// byte in the low bits and, for events of two or more bytes, the second
/// byte shifted above the identifier field.
pub open spec fn spec_trace_word(data: Seq<u8>, len: usize, id_len: u8) -> u16
    recommends
        len <= data.len(),
        1 <= len,
        id_len < 16,
{
    (data[0] as u16) | (((if len > 1 {
        data[1] as u16
    } else {
        0u16
    }) << (id_len as u16)) as u16)
}

/// Trace sink that publishes each event word on a bank of parallel output
/// pins, one pin per bit.
pub struct ParallelGPIOTrace {
    pin_nos: Vec<u8>,
    id_len: u8,
    levels: Vec<bool>,
}

impl ParallelGPIOTrace {
    /// Platform pin numbers of the trace pins, in bit order.
    pub closed spec fn pins(&self) -> Seq<u8> {
        self.pin_nos@
    }

    /// Number of low bits of the event word that carry the trace-point
    /// identifier; the second data byte is shifted above them.
    pub closed spec fn identifier_bits(&self) -> u8 {
        self.id_len
    }

    /// Current logic level of each trace pin, in bit order.
    pub closed spec fn pin_levels(&self) -> Seq<bool> {
        self.levels@
    }

    /// Invariant: one level per pin, at most 16 pins (the event word is 16
    /// bits wide), and the identifier field leaves room for the data byte.
    pub open spec fn wf(&self) -> bool {
        &&& self.pin_levels().len() == self.pins().len()
        &&& self.pins().len() <= 16
        &&& self.identifier_bits() < 16
    }

    /// A sink over the given pins, all driven low, as the hardware is
    /// configured at construction.
    pub fn new(pin_nos: Vec<u8>, id_len: u8) -> (r: ParallelGPIOTrace)
        requires
            pin_nos@.len() <= 16,
            id_len < 16,
        ensures
            r.wf(),
            r.pins() == pin_nos@,
            r.identifier_bits() == id_len,
            forall|i: int| 0 <= i < r.pin_levels().len() ==> !(#[trigger] r.pin_levels()[i]),
    {
        let count = pin_nos.len();
        let mut levels: Vec<bool> = Vec::new();
        let mut i: usize = 0;
        while i < count
            invariant
                i <= count,
                levels@.len() == i,
                forall|j: int| 0 <= j < i ==> !(#[trigger] levels@[j]),
            decreases count - i,
        {
            levels.push(false);
            i += 1;
        }
        ParallelGPIOTrace { pin_nos, id_len, levels }
    }

    /// Publish one event: pin `i` is driven to bit `i` of the event word.
    /// An empty event leaves the pins alone. After the update the hardware
    /// pulses the last pin twice to flag the change; the pulse ends at the
    /// level recorded here.
    pub fn signal(&mut self, data: &[u8], len: usize)
        requires
            old(self).wf(),
            len <= data@.len(),
        ensures
            final (self).wf(),
            final (self).pins() == old(self).pins(),
            final (self).identifier_bits() == old(self).identifier_bits(),
            len == 0 ==> *final (self) == *old(self),
            len > 0 ==> forall|i: int|
                0 <= i < final (self).pin_levels().len()
                    ==> final (self).pin_levels()[i] == (((spec_trace_word(
                    data@,
                    len,
                    old(self).identifier_bits(),
                ) >> (i as u16)) & 1) == 1),
    {
        if len == 0 {
            return ;
        }
        let extra: u16 = if len > 1 {
            data[1] as u16
        } else {
            0u16
        };
        let out: u16 = (data[0] as u16) | (extra << (self.id_len as u16));
        let count = self.pin_nos.len();
        let mut offset: usize = 0;
        while offset < count
            invariant
                self.pin_nos@ == old(self).pin_nos@,
                self.id_len == old(self).id_len,
                self.levels@.len() == old(self).levels@.len(),
                count == self.pin_nos@.len(),
                count == self.levels@.len(),
                count <= 16,
                offset <= count,
                out == spec_trace_word(data@, len, old(self).id_len),
                forall|j: int|
                    0 <= j < offset ==> self.levels@[j] == (((out >> (j as u16)) & 1) == 1),
                forall|j: int| offset <= j < count ==> self.levels@[j] == old(self).levels@[j],
            decreases count - offset,
        {
            let bit = ((out >> (offset as u16)) & 1) == 1;
            self.levels[offset] = bit;
            offset += 1;
        }
    }
}

impl ParallelGPIOTrace {
    /// Number of trace pins.
    pub fn pin_count(&self) -> (r: usize)
        ensures
            r == self.pins().len(),
    {
        self.pin_nos.len()
    }

    /// Current logic level of the trace pin at position `pin`.
    pub fn pin_level(&self, pin: usize) -> (r: bool)
        requires
            pin < self.pin_levels().len(),
        ensures
            r == self.pin_levels()[pin as int],
    {
        self.levels[pin]
    }
}

impl Trace for ParallelGPIOTrace {
    open spec fn trace_inv(&self) -> bool {
        self.wf()
    }

    fn signal(&mut self, data: &[u8], len: usize) {
        self.signal(data, len)
    }
}

impl GPIOTrace for ParallelGPIOTrace {
    open spec fn gpio_trace_inv(&self) -> bool {
        self.wf()
    }

    fn signal(&mut self, id: u8, other_data: Option<u8>) {
        match other_data {
            Some(extra) => {
                let data: [u8; 2] = [id, extra];
                self.signal(&data, 2);
            },
            None => {
                let data: [u8; 1] = [id];
                self.signal(&data, 1);
            },
        }
    }
}

/// A frame handed to the serial transport: the buffer and the number of
/// leading bytes to transmit.
#[derive(Debug)]
pub struct UartTransmit {
    /// The transmit buffer, checked out of the sink until the transport
    /// hands it back.
    pub buffer: Vec<u8>,
    /// Number of bytes of the buffer to transmit.
    pub len: usize,
}

/// Trace sink that frames each event behind a length byte and transmits it
/// over a serial port.
pub struct SerialUARTTrace {
    tx_buffer: ExchangeBuffer,
    pending: Option<UartTransmit>,
}

impl SerialUARTTrace {
    /// Contents of the transmit buffer slot; `None` while checked out.
    pub closed spec fn buffer_contents(&self) -> Option<Seq<u8>> {
        self.tx_buffer.contents()
    }

    /// The framed transmission awaiting hand-off to the transport, if any.
    pub closed spec fn pending_view(&self) -> Option<UartTransmit> {
        self.pending
    }

    /// Invariant: a held buffer has room for the length byte, a pending
    /// frame fits its buffer, and the buffer is in at most one place.
    pub open spec fn wf(&self) -> bool {
        &&& (self.buffer_contents() matches Some(b) ==> b.len() >= 1)
        &&& (self.pending_view() matches Some(t) ==> 1 <= t.len <= t.buffer@.len())
        &&& !(self.buffer_contents() is Some && self.pending_view() is Some)
    }

    /// A sink holding `tx_buffer`, with nothing pending. The port is
    /// configured at construction (`UART_BAUD_RATE`).
    pub fn new(tx_buffer: Vec<u8>) -> (r: SerialUARTTrace)
        requires
            tx_buffer@.len() >= 1,
        ensures
            r.wf(),
            r.buffer_contents() == Some(tx_buffer@),
            r.pending_view() is None,
    {
        SerialUARTTrace { tx_buffer: ExchangeBuffer::new(tx_buffer), pending: None }
    }

    /// Publish one event: as many of the first `len` bytes of `data` as fit
    /// behind the length byte are framed, and the frame is left pending for
    /// the caller to hand to the transport. An event arriving while the
    /// buffer is away — pending or transmitting — is dropped rather than
    /// awaited: the sink never blocks.
    pub fn signal(&mut self, data: &[u8], len: usize)
        requires
            old(self).wf(),
            len <= data@.len(),
        ensures
            final (self).wf(),
            old(self).buffer_contents() is None ==> *final (self) == *old(self),
            old(self).buffer_contents() matches Some(b) ==> {
                let fitted = if len <= b.len() - 1 {
                    len as int
                } else {
                    b.len() - 1
                };
                &&& final (self).buffer_contents() is None
                &&& final (self).pending_view() matches Some(t) && {
                    &&& t.len == fitted + 1
                    &&& t.buffer@.len() == b.len()
                    &&& t.buffer@[0] == fitted as u8
                    &&& (forall|i: int| 0 <= i < fitted ==> t.buffer@[i + 1] == data@[i])
                    &&& (forall|i: int| fitted + 1 <= i < b.len() ==> t.buffer@[i] == b[i])
                }
            },
    {
        let taken = self.tx_buffer.take();
        match taken {
            None => {},
            Some(mut buffer) => {
                let capacity = buffer.len();
                let data_len = if len <= capacity - 1 {
                    len
                } else {
                    capacity - 1
                };
                buffer[0] = data_len as u8;
                let mut i: usize = 0;
                while i < data_len
                    invariant
                        self.tx_buffer.contents() is None,
                        self.pending == old(self).pending,
                        i <= data_len,
                        data_len < capacity,
                        data_len <= data@.len(),
                        capacity == buffer@.len(),
                        buffer@[0] == data_len as u8,
                        forall|j: int| 0 <= j < i ==> buffer@[j + 1] == data@[j],
                        forall|j: int|
                            data_len + 1 <= j < capacity ==> buffer@[j] == old(
                                self,
                            ).buffer_contents()->0[j],
                        forall|j: int|
                            i + 1 <= j < data_len + 1 ==> buffer@[j] == old(
                                self,
                            ).buffer_contents()->0[j],
                    decreases data_len - i,
                {
                    buffer[i + 1] = data[i];
                    i += 1;
                }
                self.pending = Some(UartTransmit { buffer, len: data_len + 1 });
            },
        }
    }

    /// Hand the pending frame, if any, to the serial transport. The
    /// transport returns the buffer through `transmitted_buffer`.
    pub fn take_transmission(&mut self) -> (r: Option<UartTransmit>)
        ensures
            final (self).pending_view() is None,
            final (self).buffer_contents() == old(self).buffer_contents(),
            r == old(self).pending_view(),
    {
        self.pending.take()
    }

    /// Completion callback of the serial transport: the transmit buffer
    /// comes home and the next event can be framed.
    pub fn transmitted_buffer(&mut self, tx_buffer: Vec<u8>)
        requires
            old(self).wf(),
            old(self).buffer_contents() is None,
            old(self).pending_view() is None,
            tx_buffer@.len() >= 1,
        ensures
            final (self).wf(),
            final (self).buffer_contents() == Some(tx_buffer@),
            final (self).pending_view() is None,
    {
        self.tx_buffer.put(tx_buffer);
    }
}

impl Trace for SerialUARTTrace {
    open spec fn trace_inv(&self) -> bool {
        self.wf()
    }

    fn signal(&mut self, data: &[u8], len: usize) {
        self.signal(data, len)
    }
}

} // verus!
