//! Register-level radio controller: read / write / read-modify-write
//! transactions over a shared bus, one in-flight transaction at a time, with
//! logical client access serialized by an access lock.
//!
//! The driver is non-blocking: each operation either checks the transfer
//! buffers out of their exchange slots and hands the encoded transaction
//! back to the caller to start on the bus, or rejects the request with a
//! busy signal. The bus transport's completion comes back through
//! [`Rfm69::read_write_done`], which returns the buffers and decides the
//! follow-up work; the reset pulse ends in [`Rfm69::alarm`].

use vstd::prelude::*;

use crate::ClientId;
use crate::ReturnCode;
use crate::exchange::ExchangeBuffer;
use crate::lock::AccessLock;

verus! {

/// Bus address of the operating-mode register.
pub const REG_OP_MODE: u8 = 0x01;

/// Width of the reset pulse, in milliseconds.
pub const RESET_PULSE_MS: u32 = 250;

/// Bus clock rate configured before a reset, in hertz. The bus samples on
/// the leading edge of a clock that idles low.
pub const RESET_CLOCK_RATE_HZ: u32 = 1000;

/// Period of the recurrent energy measurement started when the radio enters
/// standby or transmit mode, in milliseconds.
pub const MODE_MEASURE_PERIOD_MS: u32 = 100;

/// Value reported for the last read register when no read has completed yet.
pub const NO_READ_SENTINEL: u64 = 0x1FF;

/// Tagged descriptor of the transaction currently outstanding on the bus.
/// At most one is live at a time; the completion callback reads and clears
/// it exactly once per issued transaction.
#[derive(Clone, Copy, PartialEq, Eq, Structural, Debug)]
pub enum InFlight {
    /// Nothing is outstanding.
    Idle,
    /// A register read is on the bus.
    Reading,
    /// A register write is on the bus.
    Writing,
    /// The read half of a read-modify-write is on the bus; the write half
    /// follows in the completion callback.
    ModifyWrite { address: u8, mask: u8, insert_value: u8 },
    /// The reset line is asserted until the alarm fires.
    ResetPulse,
}

/// Radio operating mode.
#[derive(Clone, Copy, PartialEq, Eq, Structural, Debug)]
pub enum OpMode {
    Sleep,
    Standby,
    FrequencySynthesizer,
    Transmit,
    Receive,
}

/// The mode selected by a numeric command argument; unknown numbers select
/// `Sleep`.
pub open spec fn spec_mode_from_code(x: usize) -> OpMode {
    if x == 0 {
        OpMode::Sleep
    } else if x == 1 {
        OpMode::Standby
    } else if x == 2 {
        OpMode::FrequencySynthesizer
    } else if x == 3 {
        OpMode::Transmit
    } else if x == 4 {
        OpMode::Receive
    } else {
        OpMode::Sleep
    }
}

/// The bits written to the operating-mode register for each mode.
pub open spec fn spec_mode_bits(mode: OpMode) -> u8 {
    match mode {
        OpMode::Sleep => 0x00,
        OpMode::Standby => 0x04,
        OpMode::FrequencySynthesizer => 0x08,
        OpMode::Transmit => 0x0c,
        OpMode::Receive => 0x10,
    }
}

impl OpMode {
    /// The mode selected by a numeric command argument; unknown numbers
    /// select `Sleep`.
    pub fn from_code(x: usize) -> (m: OpMode)
        ensures
            m == spec_mode_from_code(x),
    {
        match x {
            0 => OpMode::Sleep,
            1 => OpMode::Standby,
            2 => OpMode::FrequencySynthesizer,
            3 => OpMode::Transmit,
            4 => OpMode::Receive,
            _ => OpMode::Sleep,
        }
    }
}

/// A bus transaction ready to start: the transmit and receive buffers,
/// checked out of the driver, and the number of bytes to transfer. The
/// transport must hand both buffers back through `read_write_done`.
#[derive(Debug)]
pub struct BusTransfer {
    /// Bytes to shift out; the command is encoded in its first bytes.
    pub tx: Vec<u8>,
    /// Buffer the transport fills with the bytes shifted in.
    pub rx: Vec<u8>,
    /// Number of bytes to transfer.
    pub len: usize,
}

/// Hardware follow-up the radio driver asks its caller to perform. Every
/// driver call returns immediately; the caller drives the bus, the reset
/// line and the alarm, and reports completions back through the callback
/// methods.
#[derive(Debug)]
pub enum RadioAction {
    /// No hardware work.
    Nothing,
    /// Start this transfer on the bus.
    Transfer(BusTransfer),
    /// Configure the bus (`RESET_CLOCK_RATE_HZ`), drive the reset line to
    /// the asserted level, and arm the alarm for `RESET_PULSE_MS`.
    ArmResetPulse,
}

/// Request to the energy-accounting collaborator emitted by a mode change.
#[derive(Clone, Copy, PartialEq, Eq, Structural, Debug)]
pub enum AcctDirective {
    /// No accounting work.
    Nothing,
    /// Stop the caller's recurrent measurement.
    Stop,
    /// Stop the caller's recurrent measurement, then start a new recurrent
    /// one with the given period in milliseconds.
    Restart(u32),
}

/// The accounting request a mode change makes: entering sleep stops the
/// caller's measurement; entering standby or transmit restarts a recurrent
/// measurement with period `MODE_MEASURE_PERIOD_MS`.
pub open spec fn spec_mode_directive(mode: OpMode) -> AcctDirective {
    match mode {
        OpMode::Sleep => AcctDirective::Stop,
        OpMode::Standby => AcctDirective::Restart(MODE_MEASURE_PERIOD_MS),
        OpMode::Transmit => AcctDirective::Restart(MODE_MEASURE_PERIOD_MS),
        OpMode::FrequencySynthesizer => AcctDirective::Nothing,
        OpMode::Receive => AcctDirective::Nothing,
    }
}

/// The numeric status code reported for each in-flight state.
pub open spec fn spec_status_code(s: InFlight) -> u64 {
    match s {
        InFlight::Idle => 0,
        InFlight::Reading => 1,
        InFlight::Writing => 2,
        InFlight::ResetPulse => 3,
        InFlight::ModifyWrite { .. } => 4,
    }
}

/// The insert value aligned with its mask: shifted left once for each shift
/// it takes to bring the mask's least-significant set bit down to bit zero.
/// The mask is assumed to be one contiguous run of set bits.
pub open spec fn spec_normalized_value(mask: u8, value: u8) -> u8
    decreases mask,
{
    if mask == 0 || mask & 1 == 1 {
        value
    } else {
        proof {
            assert(mask != 0 && mask & 1 != 1 ==> mask >> 1 < mask) by (bit_vector);
        }
        spec_normalized_value(mask >> 1, value << 1)
    }
}

/// `t` encodes a register read of `address`: two bytes on the bus, with the
/// top bit of the address byte cleared. `tx0` and `rx0` are the buffer
/// contents before encoding.
pub open spec fn read_transfer(t: BusTransfer, tx0: Seq<u8>, rx0: Seq<u8>, address: u8) -> bool {
    &&& t.len == 2
    &&& t.tx@ == tx0.update(0, address & 0x7f)
    &&& t.rx@ == rx0
}

/// `t` encodes a register write of `value` to `address`: two bytes on the
/// bus, with the top bit of the address byte set and the value second.
pub open spec fn write_transfer(
    t: BusTransfer,
    tx0: Seq<u8>,
    rx0: Seq<u8>,
    address: u8,
    value: u8,
) -> bool {
    &&& t.len == 2
    &&& t.tx@ == tx0.update(0, address | 0x80).update(1, value)
    &&& t.rx@ == rx0
}

/// Driver for communicating with the radio over the shared bus.
pub struct Rfm69 {
    operator: AccessLock,
    tx_buffer: ExchangeBuffer,
    rx_buffer: ExchangeBuffer,
    status: InFlight,
    last_read: Option<u8>,
    reset_line: bool,
}

impl Rfm69 {
    /// The in-flight operation record.
    pub closed spec fn op_state(&self) -> InFlight {
        self.status
    }

    /// The most recent successfully read register value, if any.
    pub closed spec fn cached_read(&self) -> Option<u8> {
        self.last_read
    }

    /// The client currently holding the access lock, if any.
    pub closed spec fn lock_holder(&self) -> Option<ClientId> {
        self.operator.owner()
    }

    /// The access lock is free or already held by `client`.
    pub open spec fn lock_available_to(&self, client: ClientId) -> bool {
        self.lock_holder() is None || self.lock_holder() == Some(client)
    }

    /// The reset line is currently driven to its asserted level.
    pub closed spec fn reset_asserted(&self) -> bool {
        self.reset_line
    }

    /// Contents of the transmit buffer slot; `None` while checked out.
    pub closed spec fn tx_contents(&self) -> Option<Seq<u8>> {
        self.tx_buffer.contents()
    }

    /// Contents of the receive buffer slot; `None` while checked out.
    pub closed spec fn rx_contents(&self) -> Option<Seq<u8>> {
        self.rx_buffer.contents()
    }

    /// Both transfer buffers are held by the driver.
    pub open spec fn buffers_held(&self) -> bool {
        self.tx_contents() is Some && self.rx_contents() is Some
    }

    /// A bus transaction is outstanding (its completion callback is owed).
    pub open spec fn transfer_outstanding(&self) -> bool {
        ||| self.op_state() is Reading
        ||| self.op_state() is Writing
        ||| self.op_state() matches InFlight::ModifyWrite { .. }
    }

    /// Invariant: the buffers are two bytes or more, move together, and are
    /// held by the driver exactly while no transaction is on the bus.
    pub open spec fn wf(&self) -> bool {
        &&& (self.tx_contents() matches Some(b) ==> b.len() >= 2)
        &&& (self.rx_contents() matches Some(b) ==> b.len() >= 2)
        &&& (self.tx_contents() is Some <==> self.rx_contents() is Some)
        &&& (self.buffers_held() <==> !self.transfer_outstanding())
    }

    /// A driver holding both transfer buffers, idle, with no cached read,
    /// a free lock, and the reset line released.
    pub fn new(tx_buffer: Vec<u8>, rx_buffer: Vec<u8>) -> (r: Rfm69)
        requires
            tx_buffer@.len() >= 2,
            rx_buffer@.len() >= 2,
        ensures
            r.wf(),
            r.op_state() is Idle,
            r.cached_read() is None,
            r.lock_holder() is None,
            !r.reset_asserted(),
            r.tx_contents() == Some(tx_buffer@),
            r.rx_contents() == Some(rx_buffer@),
    {
        Rfm69 {
            operator: AccessLock::new(),
            tx_buffer: ExchangeBuffer::new(tx_buffer),
            rx_buffer: ExchangeBuffer::new(rx_buffer),
            status: InFlight::Idle,
            last_read: None,
            reset_line: false,
        }
    }

    /// Acquire the access lock for `calling_app`: succeeds when the lock is
    /// free or already held by the same client.
    pub fn lock_app_operator(&mut self, calling_app: ClientId) -> (r: bool)
        ensures
            r == old(self).lock_available_to(calling_app),
            r ==> final (self).lock_holder() == Some(calling_app),
            !r ==> *final (self) == *old(self),
            final (self).op_state() == old(self).op_state(),
            final (self).cached_read() == old(self).cached_read(),
            final (self).reset_asserted() == old(self).reset_asserted(),
            final (self).tx_contents() == old(self).tx_contents(),
            final (self).rx_contents() == old(self).rx_contents(),
    {
        self.operator.try_acquire(calling_app)
    }

    /// Release the access lock unconditionally.
    pub fn release_app_operator(&mut self)
        ensures
            final (self).lock_holder() is None,
            final (self).op_state() == old(self).op_state(),
            final (self).cached_read() == old(self).cached_read(),
            final (self).reset_asserted() == old(self).reset_asserted(),
            final (self).tx_contents() == old(self).tx_contents(),
            final (self).rx_contents() == old(self).rx_contents(),
    {
        self.operator.release();
    }

    /// Reset and configure the radio: `pre` and `post` relate the driver
    /// states, `rc` and `action` the results. When idle, the reset line is
    /// asserted, the reset pulse is recorded in flight, and the caller must
    /// configure the bus and arm the alarm; otherwise the request is
    /// rejected with a busy signal and no side effect.
    pub open spec fn reset_post(pre: Rfm69, post: Rfm69, rc: ReturnCode, action: RadioAction) -> bool {
        if pre.op_state() is Idle {
            &&& rc == ReturnCode::Success
            &&& action is ArmResetPulse
            &&& post.op_state() is ResetPulse
            &&& post.reset_asserted()
            &&& post.cached_read() == pre.cached_read()
            &&& post.lock_holder() == pre.lock_holder()
            &&& post.tx_contents() == pre.tx_contents()
            &&& post.rx_contents() == pre.rx_contents()
        } else {
            &&& post == pre
            &&& rc == ReturnCode::Busy
            &&& action is Nothing
        }
    }

    /// Reset and configure the radio. Returns immediately; the pulse ends
    /// when the alarm fires and `alarm` deasserts the reset line.
    pub fn reset(&mut self) -> (r: (ReturnCode, RadioAction))
        requires
            old(self).wf(),
        ensures
            final (self).wf(),
            Self::reset_post(*old(self), *final (self), r.0, r.1),
    {
        let idle = match self.status {
            InFlight::Idle => true,
            _ => false,
        };
        if !idle {
            return (ReturnCode::Busy, RadioAction::Nothing);
        }
        self.reset_line = true;
        self.status = InFlight::ResetPulse;
        (ReturnCode::Success, RadioAction::ArmResetPulse)
    }

    /// Report the numeric status code of the in-flight record, without
    /// blocking.
    pub fn status(&self) -> (r: ReturnCode)
        ensures
            r == ReturnCode::SuccessWithValue(spec_status_code(self.op_state())),
    {
        let code: u64 = match self.status {
            InFlight::Idle => 0,
            InFlight::Reading => 1,
            InFlight::Writing => 2,
            InFlight::ResetPulse => 3,
            InFlight::ModifyWrite { .. } => 4,
        };
        ReturnCode::SuccessWithValue(code)
    }

    /// Read a single register: when idle, both buffers are checked out, the
    /// read command is encoded, and `Reading` is recorded in flight;
    /// otherwise busy, with no side effect.
    pub open spec fn read_post(
        pre: Rfm69,
        post: Rfm69,
        rc: ReturnCode,
        action: RadioAction,
        address: u8,
    ) -> bool {
        if pre.op_state() is Idle {
            &&& rc == ReturnCode::Success
            &&& action matches RadioAction::Transfer(t) && read_transfer(
                t,
                pre.tx_contents()->0,
                pre.rx_contents()->0,
                address,
            )
            &&& post.op_state() is Reading
            &&& post.tx_contents() is None
            &&& post.rx_contents() is None
            &&& post.cached_read() == pre.cached_read()
            &&& post.lock_holder() == pre.lock_holder()
            &&& post.reset_asserted() == pre.reset_asserted()
        } else {
            &&& post == pre
            &&& rc == ReturnCode::Busy
            &&& action is Nothing
        }
    }

    /// Read from a single register.
    pub fn read(&mut self, address: u8) -> (r: (ReturnCode, RadioAction))
        requires
            old(self).wf(),
        ensures
            final (self).wf(),
            Self::read_post(*old(self), *final (self), r.0, r.1, address),
    {
        let idle = match self.status {
            InFlight::Idle => true,
            _ => false,
        };
        if !idle {
            return (ReturnCode::Busy, RadioAction::Nothing);
        }
        match self.tx_buffer.take() {
            Some(mut tx) => {
                match self.rx_buffer.take() {
                    Some(rx) => {
                        tx[0] = address & 0x7f;
                        self.status = InFlight::Reading;
                        (ReturnCode::Success, RadioAction::Transfer(BusTransfer { tx, rx, len: 2 }))
                    },
                    None => {
                        proof {
                            assert(false);
                        }
                        (ReturnCode::Busy, RadioAction::Nothing)
                    },
                }
            },
            None => {
                proof {
                    assert(false);
                }
                (ReturnCode::Busy, RadioAction::Nothing)
            },
        }
    }

    /// Write a single register: when idle, both buffers are checked out,
    /// the write command and value are encoded, and `Writing` is recorded
    /// in flight; otherwise busy, with no side effect.
    pub open spec fn write_post(
        pre: Rfm69,
        post: Rfm69,
        rc: ReturnCode,
        action: RadioAction,
        address: u8,
        value: u8,
    ) -> bool {
        if pre.op_state() is Idle {
            &&& rc == ReturnCode::Success
            &&& action matches RadioAction::Transfer(t) && write_transfer(
                t,
                pre.tx_contents()->0,
                pre.rx_contents()->0,
                address,
                value,
            )
            &&& post.op_state() is Writing
            &&& post.tx_contents() is None
            &&& post.rx_contents() is None
            &&& post.cached_read() == pre.cached_read()
            &&& post.lock_holder() == pre.lock_holder()
            &&& post.reset_asserted() == pre.reset_asserted()
        } else {
            &&& post == pre
            &&& rc == ReturnCode::Busy
            &&& action is Nothing
        }
    }

    /// Write to a single register.
    pub fn write(&mut self, address: u8, value: u8) -> (r: (ReturnCode, RadioAction))
        requires
            old(self).wf(),
        ensures
            final (self).wf(),
            Self::write_post(*old(self), *final (self), r.0, r.1, address, value),
    {
        let idle = match self.status {
            InFlight::Idle => true,
            _ => false,
        };
        if !idle {
            return (ReturnCode::Busy, RadioAction::Nothing);
        }
        match self.tx_buffer.take() {
            Some(mut tx) => {
                match self.rx_buffer.take() {
                    Some(rx) => {
                        tx[0] = address | 0x80;
                        tx[1] = value;
                        self.status = InFlight::Writing;
                        (ReturnCode::Success, RadioAction::Transfer(BusTransfer { tx, rx, len: 2 }))
                    },
                    None => {
                        proof {
                            assert(false);
                        }
                        (ReturnCode::Busy, RadioAction::Nothing)
                    },
                }
            },
            None => {
                proof {
                    assert(false);
                }
                (ReturnCode::Busy, RadioAction::Nothing)
            },
        }
    }

    /// Modify the masked bits of a register: when the mask is zero the
    /// request is invalid; when idle, the read half is issued and the
    /// normalized modification is recorded in flight for the completion
    /// callback to commit; otherwise busy. No side effect on rejection.
    pub open spec fn modify_post(
        pre: Rfm69,
        post: Rfm69,
        rc: ReturnCode,
        action: RadioAction,
        address: u8,
        mask: u8,
        value: u8,
    ) -> bool {
        if !(pre.op_state() is Idle) {
            &&& post == pre
            &&& rc == ReturnCode::Busy
            &&& action is Nothing
        } else if mask == 0 {
            &&& post == pre
            &&& rc == ReturnCode::InvalidArgument
            &&& action is Nothing
        } else {
            &&& rc == ReturnCode::Success
            &&& action matches RadioAction::Transfer(t) && read_transfer(
                t,
                pre.tx_contents()->0,
                pre.rx_contents()->0,
                address,
            )
            &&& post.op_state() == (InFlight::ModifyWrite {
                address,
                mask,
                insert_value: spec_normalized_value(mask, value),
            })
            &&& post.tx_contents() is None
            &&& post.rx_contents() is None
            &&& post.cached_read() == pre.cached_read()
            &&& post.lock_holder() == pre.lock_holder()
            &&& post.reset_asserted() == pre.reset_asserted()
        }
    }

    /// Read-modify-write a single register: issue the read of `address`
    /// now; the completion callback computes the new value from the byte
    /// read and issues the committing write.
    pub fn modify(&mut self, address: u8, mask: u8, value: u8) -> (r: (ReturnCode, RadioAction))
        requires
            old(self).wf(),
        ensures
            final (self).wf(),
            Self::modify_post(*old(self), *final (self), r.0, r.1, address, mask, value),
    {
        let idle = match self.status {
            InFlight::Idle => true,
            _ => false,
        };
        if !idle {
            return (ReturnCode::Busy, RadioAction::Nothing);
        }
        if mask == 0 {
            return (ReturnCode::InvalidArgument, RadioAction::Nothing);
        }
        // Align the value with the mask: shift both in lock-step until the
        // mask's least-significant set bit reaches bit zero.
        let mut m: u8 = mask;
        let mut v: u8 = value;
        while m & 1 == 0
            invariant
                m != 0,
                spec_normalized_value(m, v) == spec_normalized_value(mask, value),
            decreases m,
        {
            proof {
                assert(m != 0 && m & 1 == 0 ==> m >> 1 < m && m >> 1 != 0) by (bit_vector);
                assert(m & 1 != 1 ==> m & 1 == 0) by (bit_vector);
            }
            m = m >> 1;
            v = v << 1;
        }
        proof {
            assert(m & 1 != 0 ==> m & 1 == 1) by (bit_vector);
            assert(spec_normalized_value(m, v) == v);
        }
        match self.tx_buffer.take() {
            Some(mut tx) => {
                match self.rx_buffer.take() {
                    Some(rx) => {
                        tx[0] = address & 0x7f;
                        self.status = InFlight::ModifyWrite { address, mask, insert_value: v };
                        (ReturnCode::Success, RadioAction::Transfer(BusTransfer { tx, rx, len: 2 }))
                    },
                    None => {
                        proof {
                            assert(false);
                        }
                        (ReturnCode::Busy, RadioAction::Nothing)
                    },
                }
            },
            None => {
                proof {
                    assert(false);
                }
                (ReturnCode::Busy, RadioAction::Nothing)
            },
        }
    }

    /// Change the operating mode, gated by the access lock: rejected
    /// outright when another client holds the lock; otherwise the
    /// accounting directive for the mode is emitted and the mode register
    /// write is attempted. The lock is released as soon as the write is
    /// issued successfully — not when it completes — and stays with the
    /// caller when the write is rejected as busy.
    pub open spec fn set_mode_post(
        pre: Rfm69,
        post: Rfm69,
        rc: ReturnCode,
        action: RadioAction,
        directive: AcctDirective,
        client: ClientId,
        mode: OpMode,
    ) -> bool {
        if !pre.lock_available_to(client) {
            &&& post == pre
            &&& rc == ReturnCode::Busy
            &&& action is Nothing
            &&& directive is Nothing
        } else if pre.op_state() is Idle {
            &&& rc == ReturnCode::Success
            &&& action matches RadioAction::Transfer(t) && write_transfer(
                t,
                pre.tx_contents()->0,
                pre.rx_contents()->0,
                REG_OP_MODE,
                spec_mode_bits(mode),
            )
            &&& directive == spec_mode_directive(mode)
            &&& post.op_state() is Writing
            &&& post.lock_holder() is None
            &&& post.tx_contents() is None
            &&& post.rx_contents() is None
            &&& post.cached_read() == pre.cached_read()
            &&& post.reset_asserted() == pre.reset_asserted()
        } else {
            &&& rc == ReturnCode::Busy
            &&& action is Nothing
            &&& directive == spec_mode_directive(mode)
            &&& post.op_state() == pre.op_state()
            &&& post.lock_holder() == Some(client)
            &&& post.tx_contents() == pre.tx_contents()
            &&& post.rx_contents() == pre.rx_contents()
            &&& post.cached_read() == pre.cached_read()
            &&& post.reset_asserted() == pre.reset_asserted()
        }
    }

    /// Change the radio operating mode on behalf of `app_id`.
    pub fn set_mode(&mut self, app_id: ClientId, mode: OpMode) -> (r: (
        ReturnCode,
        RadioAction,
        AcctDirective,
    ))
        requires
            old(self).wf(),
        ensures
            final (self).wf(),
            Self::set_mode_post(*old(self), *final (self), r.0, r.1, r.2, app_id, mode),
    {
        if !self.lock_app_operator(app_id) {
            return (ReturnCode::Busy, RadioAction::Nothing, AcctDirective::Nothing);
        }
        let directive = match mode {
            OpMode::Sleep => AcctDirective::Stop,
            OpMode::Standby => AcctDirective::Restart(MODE_MEASURE_PERIOD_MS),
            OpMode::Transmit => AcctDirective::Restart(MODE_MEASURE_PERIOD_MS),
            OpMode::FrequencySynthesizer => AcctDirective::Nothing,
            OpMode::Receive => AcctDirective::Nothing,
        };
        let bits: u8 = match mode {
            OpMode::Sleep => 0x00,
            OpMode::Standby => 0x04,
            OpMode::FrequencySynthesizer => 0x08,
            OpMode::Transmit => 0x0c,
            OpMode::Receive => 0x10,
        };
        let (return_code, action) = self.write(REG_OP_MODE, bits);
        let unlock = match return_code {
            ReturnCode::Success => true,
            ReturnCode::SuccessWithValue(_) => true,
            _ => false,
        };
        if unlock {
            self.release_app_operator();
        }
        (return_code, action, directive)
    }

    /// Completion of a bus transfer: both buffers come home, the in-flight
    /// record is read and cleared, a completed read caches byte 1 of the
    /// read buffer, and a completed read half of a read-modify-write caches
    /// that byte and issues the committing write whose value flips the
    /// masked bits of the byte read and sets the insert bits.
    pub open spec fn done_post(
        pre: Rfm69,
        post: Rfm69,
        action: RadioAction,
        wbuf: Seq<u8>,
        rbuf: Seq<u8>,
    ) -> bool {
        &&& post.lock_holder() == pre.lock_holder()
        &&& post.reset_asserted() == pre.reset_asserted()
        &&& (pre.op_state() is Reading ==> {
            &&& action is Nothing
            &&& post.op_state() is Idle
            &&& post.cached_read() == Some(rbuf[1])
            &&& post.tx_contents() == Some(wbuf)
            &&& post.rx_contents() == Some(rbuf)
        })
        &&& (pre.op_state() is Writing ==> {
            &&& action is Nothing
            &&& post.op_state() is Idle
            &&& post.cached_read() == pre.cached_read()
            &&& post.tx_contents() == Some(wbuf)
            &&& post.rx_contents() == Some(rbuf)
        })
        &&& (pre.op_state() matches InFlight::ModifyWrite { address, mask, insert_value } ==> {
            &&& action matches RadioAction::Transfer(t) && write_transfer(
                t,
                wbuf,
                rbuf,
                address,
                (rbuf[1] ^ mask) | insert_value,
            )
            &&& post.op_state() is Writing
            &&& post.cached_read() == Some(rbuf[1])
            &&& post.tx_contents() is None
            &&& post.rx_contents() is None
        })
    }

    /// Completion callback of the bus transport, invoked exactly once per
    /// issued transfer, with the same buffers that went out.
    pub fn read_write_done(&mut self, write_buffer: Vec<u8>, read_buffer: Vec<u8>) -> (r:
        RadioAction)
        requires
            old(self).wf(),
            old(self).transfer_outstanding(),
            write_buffer@.len() >= 2,
            read_buffer@.len() >= 2,
        ensures
            final (self).wf(),
            Self::done_post(*old(self), *final (self), r, write_buffer@, read_buffer@),
    {
        let read_byte = read_buffer[1];
        self.tx_buffer.put(write_buffer);
        self.rx_buffer.put(read_buffer);
        let next = self.status;
        self.status = InFlight::Idle;
        match next {
            InFlight::Reading => {
                self.last_read = Some(read_byte);
                RadioAction::Nothing
            },
            InFlight::ModifyWrite { address, mask, insert_value } => {
                self.last_read = Some(read_byte);
                let new_value = (read_byte ^ mask) | insert_value;
                let (_return_code, action) = self.write(address, new_value);
                action
            },
            _ => RadioAction::Nothing,
        }
    }

    /// Alarm callback: the reset pulse ends, deasserting the reset line and
    /// returning to idle; an alarm in any other state is ignored.
    pub fn alarm(&mut self)
        requires
            old(self).wf(),
        ensures
            final (self).wf(),
            old(self).op_state() is ResetPulse ==> {
                &&& final (self).op_state() is Idle
                &&& !final (self).reset_asserted()
                &&& final (self).cached_read() == old(self).cached_read()
                &&& final (self).lock_holder() == old(self).lock_holder()
                &&& final (self).tx_contents() == old(self).tx_contents()
                &&& final (self).rx_contents() == old(self).rx_contents()
            },
            !(old(self).op_state() is ResetPulse) ==> *final (self) == *old(self),
    {
        match self.status {
            InFlight::ResetPulse => {
                self.reset_line = false;
                self.status = InFlight::Idle;
            },
            _ => {},
        }
    }

    /// The numbered command surface of the radio: 0 probes for existence,
    /// 1 resets, 2 reports status, 3 reads register `r2`, 4 writes `r3` to
    /// register `r2`, 5 sets the mode selected by `r2` on behalf of the
    /// caller, 6 reports the last read value (`NO_READ_SENTINEL` when none
    /// was recorded yet); other command numbers are not supported.
    pub fn command(&mut self, minor_num: usize, r2: usize, r3: usize, caller_id: ClientId) -> (r: (
        ReturnCode,
        RadioAction,
        AcctDirective,
    ))
        requires
            old(self).wf(),
        ensures
            final (self).wf(),
            minor_num == 0 ==> *final (self) == *old(self) && r.0 == ReturnCode::Success && r.1
                is Nothing && r.2 is Nothing,
            minor_num == 1 ==> Self::reset_post(*old(self), *final (self), r.0, r.1) && r.2
                is Nothing,
            minor_num == 2 ==> *final (self) == *old(self) && r.0 == ReturnCode::SuccessWithValue(
                spec_status_code(old(self).op_state()),
            ) && r.1 is Nothing && r.2 is Nothing,
            minor_num == 3 ==> Self::read_post(*old(self), *final (self), r.0, r.1, r2 as u8) && r.2
                is Nothing,
            minor_num == 4 ==> Self::write_post(
                *old(self),
                *final (self),
                r.0,
                r.1,
                r2 as u8,
                r3 as u8,
            ) && r.2 is Nothing,
            minor_num == 5 ==> Self::set_mode_post(
                *old(self),
                *final (self),
                r.0,
                r.1,
                r.2,
                caller_id,
                spec_mode_from_code(r2),
            ),
            minor_num == 6 ==> *final (self) == *old(self) && r.0 == (match old(
                self,
            ).cached_read() {
                Some(v) => ReturnCode::SuccessWithValue(v as u64),
                None => ReturnCode::SuccessWithValue(NO_READ_SENTINEL),
            }) && r.1 is Nothing && r.2 is Nothing,
            minor_num > 6 ==> *final (self) == *old(self) && r.0 == ReturnCode::NotSupported && r.1
                is Nothing && r.2 is Nothing,
    {
        match minor_num {
            0 => (ReturnCode::Success, RadioAction::Nothing, AcctDirective::Nothing),
            1 => {
                let (rc, action) = self.reset();
                (rc, action, AcctDirective::Nothing)
            },
            2 => (self.status(), RadioAction::Nothing, AcctDirective::Nothing),
            3 => {
                let (rc, action) = self.read(r2 as u8);
                (rc, action, AcctDirective::Nothing)
            },
            4 => {
                let (rc, action) = self.write(r2 as u8, r3 as u8);
                (rc, action, AcctDirective::Nothing)
            },
            5 => self.set_mode(caller_id, OpMode::from_code(r2)),
            6 => {
                let rc = match self.last_read {
                    Some(val) => ReturnCode::SuccessWithValue(val as u64),
                    None => ReturnCode::SuccessWithValue(NO_READ_SENTINEL),
                };
                (rc, RadioAction::Nothing, AcctDirective::Nothing)
            },
            _ => (ReturnCode::NotSupported, RadioAction::Nothing, AcctDirective::Nothing),
        }
    }
}

/// Any register operation issued while an operation is in flight is
/// rejected with a busy signal, leaves the driver exactly as it was, and
/// starts nothing on the bus.
pub proof fn lemma_busy_rejection(
    pre: Rfm69,
    post: Rfm69,
    rc: ReturnCode,
    action: RadioAction,
    address: u8,
    mask: u8,
    value: u8,
)
    requires
        !(pre.op_state() is Idle),
        Rfm69::read_post(pre, post, rc, action, address) || Rfm69::write_post(
            pre,
            post,
            rc,
            action,
            address,
            value,
        ) || Rfm69::modify_post(pre, post, rc, action, address, mask, value),
    ensures
        post == pre,
        rc == ReturnCode::Busy,
        action is Nothing,
{
}

/// A register read or write issued while idle, followed by its completion,
/// hands both exchange buffers back to the driver and returns it to idle,
/// with no follow-up transfer: nothing leaks and nothing is held twice.
pub proof fn lemma_single_transfer_cycle(
    pre: Rfm69,
    mid: Rfm69,
    post: Rfm69,
    rc: ReturnCode,
    issue_action: RadioAction,
    done_action: RadioAction,
    address: u8,
    value: u8,
    write_op: bool,
    wbuf: Seq<u8>,
    rbuf: Seq<u8>,
)
    requires
        pre.op_state() is Idle,
        if write_op {
            Rfm69::write_post(pre, mid, rc, issue_action, address, value)
        } else {
            Rfm69::read_post(pre, mid, rc, issue_action, address)
        },
        Rfm69::done_post(mid, post, done_action, wbuf, rbuf),
    ensures
        post.buffers_held(),
        post.op_state() is Idle,
        done_action is Nothing,
{
}

/// A read-modify-write issued while idle, followed by the completion of its
/// read half and then of the follow-up write: the read half's completion
/// issues exactly one write whose value flips the masked bits of the byte
/// read and sets the normalized insert bits, and once that write completes
/// both buffers are back and the driver is idle.
pub proof fn lemma_modify_cycle(
    pre: Rfm69,
    s1: Rfm69,
    s2: Rfm69,
    s3: Rfm69,
    rc: ReturnCode,
    issue_action: RadioAction,
    mid_action: RadioAction,
    done_action: RadioAction,
    address: u8,
    mask: u8,
    value: u8,
    wbuf1: Seq<u8>,
    rbuf1: Seq<u8>,
    wbuf2: Seq<u8>,
    rbuf2: Seq<u8>,
)
    requires
        pre.op_state() is Idle,
        mask != 0,
        Rfm69::modify_post(pre, s1, rc, issue_action, address, mask, value),
        Rfm69::done_post(s1, s2, mid_action, wbuf1, rbuf1),
        Rfm69::done_post(s2, s3, done_action, wbuf2, rbuf2),
    ensures
        mid_action matches RadioAction::Transfer(t) && write_transfer(
            t,
            wbuf1,
            rbuf1,
            address,
            (rbuf1[1] ^ mask) | spec_normalized_value(mask, value),
        ),
        s2.op_state() is Writing,
        s3.op_state() is Idle,
        s3.buffers_held(),
        done_action is Nothing,
{
}

} // verus!
