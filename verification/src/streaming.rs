//! Receive streams: the transfer queue, its counters and the reads.
//!
//! A stream decides what happens to each USB buffer. The driver owns the
//! endpoint: it submits the buffers that a stream hands out, and hands the
//! completed ones back.

use crate::constants::{DEFAULT_BUFFER_SIZE, PACKED_BUFFER_SIZE};
use crate::converter::{self, plan_conversion, ConversionPlan};
use crate::errors::{Error, Result, StatusCode};
use crate::rfone::RFONE_TRANSFER_COUNT;
use vstd::prelude::*;

verus! {

/// Counters collected during a direct streaming run.
///
/// These counters describe USB completions observed by the host. RFOne bulk data
/// has no sequence number, so the driver cannot detect samples lost in the device
/// before a USB transfer completes (for example, when the application stops
/// polling long enough to exhaust the host transfer queue).
#[derive(Clone, Copy, Debug, Eq, PartialEq, Structural)]
pub struct StreamingStats {
    /// Number of USB completions consumed by the driver.
    pub buffers_received: u64,
    /// Number of buffers successfully processed by the streaming layer.
    pub buffers_processed: u64,
    /// Number of observed completions not delivered because of an error or controlled restart.
    ///
    /// This does not include device-side loss that happened before USB completion.
    pub buffers_dropped: u64,
    /// Number of dropped buffers that belonged to the queue retained across a restart.
    ///
    /// This is a subset of [`StreamingStats::buffers_dropped`]. On backends without
    /// transfer cancellation, including WebUSB, consuming these old submissions may
    /// delay the first fresh block after restarting.
    pub buffers_discarded_on_restart: u64,
}

impl Default for StreamingStats {
    fn default() -> (stats: Self)
        ensures
            stats == no_stats(),
    {
        StreamingStats {
            buffers_received: 0,
            buffers_processed: 0,
            buffers_dropped: 0,
            buffers_discarded_on_restart: 0,
        }
    }
}

/// Counters of a stream that received nothing yet.
pub open spec fn no_stats() -> StreamingStats {
    StreamingStats {
        buffers_received: 0,
        buffers_processed: 0,
        buffers_dropped: 0,
        buffers_discarded_on_restart: 0,
    }
}

impl StreamingStats {
    /// Every completion was either processed or dropped, and what a restart
    /// discarded was dropped.
    pub open spec fn balanced(self) -> bool {
        &&& self.buffers_received == self.buffers_processed + self.buffers_dropped
        &&& self.buffers_discarded_on_restart <= self.buffers_dropped
    }

    /// Whether one more completion can be counted, and its drop estimate of
    /// `samples` for each dropped buffer fits 64 bits.
    pub open spec fn room_for(self, samples: int) -> bool {
        &&& self.buffers_received < u64::MAX
        &&& self.buffers_dropped * samples <= u64::MAX
    }

    /// Counters after a completion that is delivered.
    pub open spec fn with_processed(self) -> StreamingStats {
        StreamingStats {
            buffers_received: (self.buffers_received + 1) as u64,
            buffers_processed: (self.buffers_processed + 1) as u64,
            ..self
        }
    }

    /// Counters after a completion that failed.
    pub open spec fn with_dropped(self) -> StreamingStats {
        StreamingStats {
            buffers_received: (self.buffers_received + 1) as u64,
            buffers_dropped: (self.buffers_dropped + 1) as u64,
            ..self
        }
    }

    /// Counters after a completion from before a restart.
    pub open spec fn with_discarded(self) -> StreamingStats {
        StreamingStats {
            buffers_discarded_on_restart: (self.buffers_discarded_on_restart + 1) as u64,
            ..self.with_dropped()
        }
    }

    /// Count a completion that is delivered.
    fn count_processed(self) -> (stats: StreamingStats)
        requires
            self.balanced(),
            self.buffers_received < u64::MAX,
        ensures
            stats == self.with_processed(),
            stats.balanced(),
    {
        StreamingStats {
            buffers_received: self.buffers_received + 1,
            buffers_processed: self.buffers_processed + 1,
            ..self
        }
    }

    /// Count a completion that failed.
    fn count_dropped(self) -> (stats: StreamingStats)
        requires
            self.balanced(),
            self.buffers_received < u64::MAX,
        ensures
            stats == self.with_dropped(),
            stats.balanced(),
    {
        StreamingStats {
            buffers_received: self.buffers_received + 1,
            buffers_dropped: self.buffers_dropped + 1,
            ..self
        }
    }

    /// Count a completion from before a restart.
    fn count_discarded(self) -> (stats: StreamingStats)
        requires
            self.balanced(),
            self.buffers_received < u64::MAX,
        ensures
            stats == self.with_discarded(),
            stats.balanced(),
    {
        StreamingStats {
            buffers_received: self.buffers_received + 1,
            buffers_dropped: self.buffers_dropped + 1,
            buffers_discarded_on_restart: self.buffers_discarded_on_restart + 1,
            ..self
        }
    }
}

/// Whether `factor` is one of the host-side decimation factors.
pub open spec fn valid_decimation(factor: usize) -> bool {
    factor == 1 || factor == 2 || factor == 4 || factor == 8 || factor == 16 || factor == 32
        || factor == 64
}

/// Error of a decimation factor that does not exist.
pub open spec fn decimation_error() -> Error {
    Error::InvalidConfig {
        field: "decimation_factor",
        reason: "must be one of 1, 2, 4, 8, 16, 32, or 64",
    }
}

/// Accept the decimation factors that the host can apply.
pub fn validate_decimation_factor(factor: usize) -> (result: Result<()>)
    ensures
        result == if valid_decimation(factor) {
            Ok(())
        } else {
            Err(decimation_error())
        },
{
    if !matches!(factor, 1 | 2 | 4 | 8 | 16 | 32 | 64) {
        return Err(
            Error::InvalidConfig {
                field: "decimation_factor",
                reason: "must be one of 1, 2, 4, 8, 16, 32, or 64",
            },
        );
    }
    Ok(())
}

/// Streaming buffer configuration.
#[derive(Clone, Copy, Debug, Eq, PartialEq)]
pub struct StreamingConfig {
    packing_enabled: bool,
    decimation_factor: usize,
}

impl Default for StreamingConfig {
    fn default() -> (config: Self)
        ensures
            !config.spec_packing(),
            config.spec_decimation() == 1,
    {
        StreamingConfig { packing_enabled: false, decimation_factor: 1 }
    }
}

/// Bytes of one USB transfer.
pub open spec fn transfer_bytes(packing: bool) -> usize {
    if packing {
        147_456
    } else {
        262_144
    }
}

/// Number of transfers that the queue holds.
pub open spec fn transfer_count() -> int {
    16
}

impl StreamingConfig {
    /// Whether transfers are packed.
    pub closed spec fn spec_packing(self) -> bool {
        self.packing_enabled
    }

    /// Host-side decimation factor.
    pub closed spec fn spec_decimation(self) -> usize {
        self.decimation_factor
    }

    #[verifier::type_invariant]
    spec fn well_formed(self) -> bool {
        valid_decimation(self.decimation_factor)
    }

    /// Whether transfers are packed.
    pub fn packing_enabled(&self) -> (packing: bool)
        ensures
            packing == self.spec_packing(),
    {
        self.packing_enabled
    }

    /// Host-side decimation factor.
    pub fn decimation_factor(&self) -> (factor: usize)
        ensures
            factor == self.spec_decimation(),
            valid_decimation(factor),
    {
        proof {
            use_type_invariant(self);
        }
        self.decimation_factor
    }

    /// Bytes of one USB transfer.
    pub fn current_buffer_size(&self) -> (size: usize)
        ensures
            size == transfer_bytes(self.spec_packing()),
    {
        if self.packing_enabled {
            PACKED_BUFFER_SIZE
        } else {
            DEFAULT_BUFFER_SIZE
        }
    }

    /// Buffers to allocate for a full queue where `pending` are queued already.
    pub fn missing_buffers(&self, pending: usize) -> (missing: usize)
        ensures
            missing == if pending < transfer_count() { transfer_count() - pending } else { 0 },
    {
        let count: usize = RFONE_TRANSFER_COUNT as usize;
        if pending < count {
            count - pending
        } else {
            0
        }
    }

    /// This configuration with packed transfers on or off.
    pub fn with_packing(self, enabled: bool) -> (config: Self)
        ensures
            config.spec_packing() == enabled,
            config.spec_decimation() == self.spec_decimation(),
    {
        proof {
            use_type_invariant(&self);
        }
        StreamingConfig { packing_enabled: enabled, decimation_factor: self.decimation_factor }
    }

    /// This configuration with another decimation factor.
    pub fn with_decimation(self, factor: usize) -> (result: Result<Self>)
        ensures
            result is Ok <==> valid_decimation(factor),
            result matches Ok(config) ==> config.spec_decimation() == factor
                && config.spec_packing() == self.spec_packing(),
            result matches Err(error) ==> error == decimation_error(),
    {
        match validate_decimation_factor(factor) {
            Err(error) => Err(error),
            Ok(()) => Ok(
                StreamingConfig {
                    packing_enabled: self.packing_enabled,
                    decimation_factor: factor,
                },
            ),
        }
    }
}

/// Samples of a transfer of `buffer_len` bytes: two bytes each, or one and a half
/// where samples are packed.
pub open spec fn transfer_samples(buffer_len: int, packing: bool) -> int {
    if packing {
        (buffer_len / 2) * 4 / 3
    } else {
        buffer_len / 2
    }
}

/// Samples of a transfer of `buffer_len` bytes, in the low 32 bits.
pub fn sample_count_for_buffer(buffer_len: usize, packing_enabled: bool) -> (count: i32)
    requires
        packing_enabled ==> (buffer_len / 2) * 4 <= usize::MAX,
    ensures
        count == transfer_samples(buffer_len as int, packing_enabled) as i32,
        transfer_samples(buffer_len as int, packing_enabled) <= i32::MAX ==> count
            == transfer_samples(buffer_len as int, packing_enabled),
{
    if packing_enabled {
        (((buffer_len / 2) * 4) / 3) as i32
    } else {
        (buffer_len / 2) as i32
    }
}

/// Completed bulk-IN transfer.
#[derive(Debug)]
pub struct BulkInCompletion<T> {
    /// Buffer of the transfer.
    pub buffer: T,
    /// Bytes that the buffer holds.
    pub buffer_len: usize,
    /// Bytes that the transfer brought.
    pub actual_len: usize,
    /// Outcome of the transfer.
    pub status: Result<()>,
}

/// Error of a transfer that brought an unexpected number of bytes.
pub open spec fn length_error() -> Error {
    Error::Protocol {
        operation: "receive transfer",
        reason: "completed with an unexpected length",
        status: StatusCode::LibUsb,
    }
}

/// What is wrong with a completion where `expected_len` bytes are due, if
/// anything is.
pub open spec fn completion_error<T>(
    completion: BulkInCompletion<T>,
    expected_len: usize,
) -> Option<Error> {
    match completion.status {
        Err(error) => Some(error),
        Ok(()) => if completion.actual_len != expected_len || completion.actual_len
            > completion.buffer_len {
            Some(length_error())
        } else {
            None
        },
    }
}

/// Accept a completion that brought exactly the expected bytes.
pub fn checked_completion<T>(completion: BulkInCompletion<T>, expected_len: usize) -> (result:
    core::result::Result<(T, usize), (T, Error)>)
    ensures
        match completion_error(completion, expected_len) {
            None => result == Ok::<(T, usize), (T, Error)>((completion.buffer, expected_len)),
            Some(error) => result == Err::<(T, usize), (T, Error)>((completion.buffer, error)),
        },
{
    let BulkInCompletion { buffer, buffer_len, actual_len, status } = completion;
    if let Err(error) = status {
        return Err((buffer, error));
    }
    if actual_len != expected_len || actual_len > buffer_len {
        return Err(
            (
                buffer,
                Error::Protocol {
                    operation: "receive transfer",
                    reason: "completed with an unexpected length",
                    status: StatusCode::LibUsb,
                },
            ),
        );
    }
    Ok((buffer, actual_len))
}

/// Time that is left until a deadline, in nanoseconds.
///
/// Without a deadline the whole timeout is left.
pub fn remaining_timeout(deadline: Option<u128>, now: u128, fallback: u128) -> (left: u128)
    ensures
        left == match deadline {
            None => fallback as int,
            Some(deadline) => if now < deadline { deadline - now } else { 0 },
        },
{
    match deadline {
        None => fallback,
        Some(deadline) => {
            if now < deadline {
                deadline - now
            } else {
                0
            }
        },
    }
}

/// Numbers that describe one raw transfer block.
#[derive(Clone, Copy, Debug, Eq, PartialEq, Structural)]
pub struct Transfer {
    /// Bytes of the block.
    pub length: usize,
    /// Samples of the block.
    pub sample_count: i32,
    /// Estimated samples of the buffers dropped so far.
    pub dropped_samples: u64,
}

/// Block of a full transfer after which the counters are `stats`.
pub open spec fn spec_transfer(stats: StreamingStats, packing: bool) -> Transfer {
    let length = transfer_bytes(packing);
    let samples = transfer_samples(length as int, packing);
    Transfer {
        length,
        sample_count: samples as i32,
        dropped_samples: (stats.buffers_dropped * samples) as u64,
    }
}

/// Describe a full transfer.
fn describe_transfer(stats: StreamingStats, packing: bool, length: usize) -> (transfer: Transfer)
    requires
        length == transfer_bytes(packing),
        stats.buffers_dropped * transfer_samples(length as int, packing) <= u64::MAX,
    ensures
        transfer == spec_transfer(stats, packing),
{
    let sample_count: i32 = sample_count_for_buffer(length, packing);
    Transfer {
        length,
        sample_count,
        dropped_samples: stats.buffers_dropped * sample_count as u64,
    }
}

/// State of a raw stream.
pub struct RawView<T> {
    /// Whether transfers are packed.
    pub packing: bool,
    /// Counters.
    pub stats: StreamingStats,
    /// Buffer lent out as the current block.
    pub current: Option<T>,
    /// Completions that still belong to the time before a restart.
    pub discard: nat,
    /// Whether the stream is closed.
    pub closed: bool,
}

impl<T> RawView<T> {
    /// Buffers that the stream holds itself.
    pub open spec fn held(self) -> int {
        if self.current is Some {
            1
        } else {
            0
        }
    }

    /// State after the stream was closed.
    pub open spec fn spec_close(self) -> RawView<T> {
        RawView { current: None, closed: true, ..self }
    }

    /// Whether one more completion can be counted.
    pub open spec fn has_room(self) -> bool {
        self.stats.room_for(transfer_samples(transfer_bytes(self.packing) as int, self.packing))
    }

    /// State after a fresh completion was taken.
    pub open spec fn taken(self, completion: BulkInCompletion<T>) -> RawView<T> {
        match completion_error(completion, transfer_bytes(self.packing)) {
            None => RawView {
                stats: self.stats.with_processed(),
                current: Some(completion.buffer),
                ..self
            },
            Some(_) => RawView { stats: self.stats.with_dropped(), ..self }.spec_close(),
        }
    }
}

/// Persistent synchronous pull stream that yields raw USB transfer blocks.
#[derive(Debug)]
pub struct RawRxStream<T> {
    config: StreamingConfig,
    stats: StreamingStats,
    current: Option<T>,
    closed: bool,
}

impl<T> View for RawRxStream<T> {
    type V = RawView<T>;

    closed spec fn view(&self) -> RawView<T> {
        RawView {
            packing: self.config.spec_packing(),
            stats: self.stats,
            current: self.current,
            discard: 0,
            closed: self.closed,
        }
    }
}

/// Error of a read from a closed stream.
pub open spec fn closed_error(reason: &'static str) -> Error {
    Error::StreamClosed(reason)
}

impl<T> RawRxStream<T> {
    #[verifier::type_invariant]
    spec fn well_formed(self) -> bool {
        &&& self.stats.balanced()
        &&& self.closed ==> self.current is None
    }

    /// Stream over a queue that was just filled.
    pub fn new(config: StreamingConfig) -> (stream: Self)
        ensures
            stream@ == (RawView {
                packing: config.spec_packing(),
                stats: no_stats(),
                current: None::<T>,
                discard: 0,
                closed: false,
            }),
    {
        RawRxStream { config, stats: StreamingStats::default(), current: None, closed: false }
    }

    /// Counters collected so far.
    pub fn stats(&self) -> (stats: StreamingStats)
        ensures
            stats == self@.stats,
            stats.balanced(),
    {
        proof {
            use_type_invariant(self);
        }
        self.stats
    }

    /// Whether the stream is closed.
    pub fn is_closed(&self) -> (closed: bool)
        ensures
            closed == self@.closed,
    {
        self.closed
    }

    /// Buffer of the current block.
    pub fn current(&self) -> (buffer: Option<&T>)
        ensures
            buffer is Some <==> self@.current is Some,
            buffer matches Some(buffer) ==> self@.current == Some(*buffer),
    {
        self.current.as_ref()
    }

    /// Whether one more completion can be counted.
    pub fn has_room(&self) -> (room: bool)
        ensures
            room == self@.has_room(),
    {
        has_room(self.stats, self.config.packing_enabled())
    }

    /// Begin a read: the buffer of the block before goes back to the queue.
    pub fn begin_read(&mut self) -> (result: Result<Option<T>>)
        ensures
            old(self)@.closed ==> result == Err::<Option<T>, Error>(
                closed_error("raw RX stream is closed"),
            ) && final(self)@ == old(self)@,
            !old(self)@.closed ==> result == Ok::<Option<T>, Error>(old(self)@.current)
                && final(self)@ == (RawView { current: None, ..old(self)@ }),
    {
        proof {
            use_type_invariant(&*self);
        }
        if self.closed {
            return Err(Error::StreamClosed("raw RX stream is closed"));
        }
        let mut buffer: Option<T> = None;
        core::mem::swap(&mut self.current, &mut buffer);
        Ok(buffer)
    }

    /// Finish a read with the next completion, or without one after a timeout.
    ///
    /// A failed completion closes the stream.
    pub fn finish_read(&mut self, completion: Option<BulkInCompletion<T>>) -> (result: Result<
        Option<Transfer>,
    >)
        requires
            old(self)@.has_room(),
        ensures
            old(self)@.closed ==> result == Err::<Option<Transfer>, Error>(
                closed_error("raw RX stream is closed"),
            ) && final(self)@ == old(self)@,
            !old(self)@.closed && completion is None ==> result == Ok::<Option<Transfer>, Error>(
                None,
            ) && final(self)@ == old(self)@,
            !old(self)@.closed ==> (completion matches Some(completion) ==> final(self)@ == old(self)@.taken(completion) && result == match completion_error(
                completion,
                transfer_bytes(old(self)@.packing),
            ) {
                None => Ok::<Option<Transfer>, Error>(
                    Some(spec_transfer(old(self)@.stats, old(self)@.packing)),
                ),
                Some(error) => Err(error),
            }),
    {
        proof {
            use_type_invariant(&*self);
        }
        if self.closed {
            return Err(Error::StreamClosed("raw RX stream is closed"));
        }
        let completion: BulkInCompletion<T> = match completion {
            None => return Ok(None),
            Some(completion) => completion,
        };
        let expected: usize = self.config.current_buffer_size();
        match checked_completion(completion, expected) {
            Ok((buffer, length)) => {
                let transfer: Transfer = describe_transfer(
                    self.stats,
                    self.config.packing_enabled(),
                    length,
                );
                self.stats = self.stats.count_processed();
                self.current = Some(buffer);
                Ok(Some(transfer))
            },
            Err((_buffer, error)) => {
                self.stats = self.stats.count_dropped();
                self.close();
                Err(error)
            },
        }
    }

    /// Close the stream. The driver cancels the queue of an open one.
    pub fn close(&mut self) -> (stats: StreamingStats)
        ensures
            final(self)@ == old(self)@.spec_close(),
            stats == old(self)@.stats,
    {
        proof {
            use_type_invariant(&*self);
        }
        self.current = None;
        self.closed = true;
        self.stats
    }
}

/// Whether one more completion can be counted.
fn has_room(stats: StreamingStats, packing: bool) -> (room: bool)
    ensures
        room == stats.room_for(transfer_samples(transfer_bytes(packing) as int, packing)),
{
    let limit: u64 = if packing { u64::MAX / 98_304 } else { u64::MAX / 131_072 };
    proof {
        if packing {
            assert(transfer_samples(147_456, true) == 98_304);
        } else {
            assert(transfer_samples(262_144, false) == 131_072);
        }
    }
    stats.buffers_received < u64::MAX && stats.buffers_dropped <= limit
}

/// What an asynchronous raw stream does with a completion.
#[derive(Debug)]
pub enum RawStep<T> {
    /// The completion is from before a restart: its buffer is queued again and
    /// the next completion is awaited.
    Resubmit(T),
    /// The completion is the next block.
    Block(Transfer),
}

/// Whether a completion takes an asynchronous raw stream from `before` to
/// `after` and comes out as `result`.
///
/// A completion from before a restart is dropped, whatever its outcome. Any other
/// that failed closes the stream.
pub open spec fn raw_completed<T>(
    before: RawView<T>,
    completion: BulkInCompletion<T>,
    after: RawView<T>,
    result: Result<RawStep<T>>,
) -> bool {
    if before.closed {
        result == Err::<RawStep<T>, Error>(closed_error("async raw RX stream is closed")) && after
            == before
    } else if before.discard > 0 {
        result == Ok::<RawStep<T>, Error>(RawStep::Resubmit(completion.buffer)) && after == (
        RawView {
            stats: before.stats.with_discarded(),
            discard: (before.discard - 1) as nat,
            ..before
        })
    } else {
        after == before.taken(completion) && result == match completion_error(
            completion,
            transfer_bytes(before.packing),
        ) {
            None => Ok::<RawStep<T>, Error>(
                RawStep::Block(spec_transfer(before.stats, before.packing)),
            ),
            Some(error) => Err(error),
        }
    }
}

/// Persistent async pull stream that yields raw USB transfer blocks.
#[derive(Debug)]
pub struct AsyncRawRxStream<T> {
    config: StreamingConfig,
    stats: StreamingStats,
    current: Option<T>,
    discard_remaining: usize,
    closed: bool,
}

impl<T> View for AsyncRawRxStream<T> {
    type V = RawView<T>;

    closed spec fn view(&self) -> RawView<T> {
        RawView {
            packing: self.config.spec_packing(),
            stats: self.stats,
            current: self.current,
            discard: self.discard_remaining as nat,
            closed: self.closed,
        }
    }
}

impl<T> AsyncRawRxStream<T> {
    #[verifier::type_invariant]
    spec fn well_formed(self) -> bool {
        &&& self.stats.balanced()
        &&& self.closed ==> self.current is None
    }

    /// Stream over a queue that was just filled.
    pub fn new(config: StreamingConfig) -> (stream: Self)
        ensures
            stream@ == (RawView {
                packing: config.spec_packing(),
                stats: no_stats(),
                current: None::<T>,
                discard: 0,
                closed: false,
            }),
    {
        AsyncRawRxStream {
            config,
            stats: StreamingStats::default(),
            current: None,
            discard_remaining: 0,
            closed: false,
        }
    }

    /// Counters collected so far.
    pub fn stats(&self) -> (stats: StreamingStats)
        ensures
            stats == self@.stats,
            stats.balanced(),
    {
        proof {
            use_type_invariant(self);
        }
        self.stats
    }

    /// Whether the stream is closed.
    pub fn is_closed(&self) -> (closed: bool)
        ensures
            closed == self@.closed,
    {
        self.closed
    }

    /// Buffer of the current block.
    pub fn current(&self) -> (buffer: Option<&T>)
        ensures
            buffer is Some <==> self@.current is Some,
            buffer matches Some(buffer) ==> self@.current == Some(*buffer),
    {
        self.current.as_ref()
    }

    /// Whether one more completion can be counted.
    pub fn has_room(&self) -> (room: bool)
        ensures
            room == self@.has_room(),
    {
        has_room(self.stats, self.config.packing_enabled())
    }

    /// Begin a read: the buffer of the block before goes back to the queue.
    pub fn begin_read(&mut self) -> (result: Result<Option<T>>)
        ensures
            old(self)@.closed ==> result == Err::<Option<T>, Error>(
                closed_error("async raw RX stream is closed"),
            ) && final(self)@ == old(self)@,
            !old(self)@.closed ==> result == Ok::<Option<T>, Error>(old(self)@.current)
                && final(self)@ == (RawView { current: None, ..old(self)@ }),
    {
        proof {
            use_type_invariant(&*self);
        }
        if self.closed {
            return Err(Error::StreamClosed("async raw RX stream is closed"));
        }
        let mut buffer: Option<T> = None;
        core::mem::swap(&mut self.current, &mut buffer);
        Ok(buffer)
    }

    /// Take the next completion.
    ///
    /// A completion from before a restart is dropped, whatever its outcome. Any
    /// other that failed closes the stream.
    pub fn on_completion(&mut self, completion: BulkInCompletion<T>) -> (result: Result<
        RawStep<T>,
    >)
        requires
            old(self)@.has_room(),
        ensures
            raw_completed(old(self)@, completion, final(self)@, result),
    {
        proof {
            use_type_invariant(&*self);
        }
        if self.closed {
            return Err(Error::StreamClosed("async raw RX stream is closed"));
        }
        if self.discard_remaining != 0 {
            self.discard_remaining = self.discard_remaining - 1;
            self.stats = self.stats.count_discarded();
            return Ok(RawStep::Resubmit(completion.buffer));
        }
        let expected: usize = self.config.current_buffer_size();
        match checked_completion(completion, expected) {
            Ok((buffer, length)) => {
                let transfer: Transfer = describe_transfer(
                    self.stats,
                    self.config.packing_enabled(),
                    length,
                );
                self.stats = self.stats.count_processed();
                self.current = Some(buffer);
                Ok(RawStep::Block(transfer))
            },
            Err((_buffer, error)) => {
                self.stats = self.stats.count_dropped();
                self.close();
                Err(error)
            },
        }
    }

    /// Begin to pause: the buffer of the block before goes back to the queue,
    /// which an open stream keeps.
    pub fn begin_pause(&mut self) -> (buffer: Option<T>)
        ensures
            buffer == old(self)@.current,
            final(self)@ == (RawView { current: None, ..old(self)@ }),
    {
        proof {
            use_type_invariant(&*self);
        }
        let mut buffer: Option<T> = None;
        core::mem::swap(&mut self.current, &mut buffer);
        buffer
    }

    /// Finish the pause: the `pending` queued transfers hold data from before
    /// the next restart.
    pub fn finish_pause(&mut self, pending: usize)
        ensures
            final(self)@ == if old(self)@.closed {
                old(self)@
            } else {
                RawView { discard: pending as nat, ..old(self)@ }
            },
    {
        proof {
            use_type_invariant(&*self);
        }
        if !self.closed {
            self.discard_remaining = pending;
        }
    }

    /// Close the stream. The driver cancels the queue of an open one.
    pub fn close(&mut self) -> (stats: StreamingStats)
        ensures
            final(self)@ == old(self)@.spec_close(),
            stats == old(self)@.stats,
    {
        proof {
            use_type_invariant(&*self);
        }
        self.current = None;
        self.closed = true;
        self.stats
    }
}

/// Law: with `queued` buffers in the queue, beginning a read conserves the
/// buffer pool: what the stream lets go is queued again.
pub proof fn law_beginning_a_read_conserves_the_pool<T>(before: RawView<T>, queued: int)
    ensures
        ({
            let after = RawView { current: None, ..before };
            let resubmitted = if before.current is Some { 1int } else { 0 };
            queued + resubmitted + after.held() == queued + before.held()
        }),
{
}

/// Law: taking an accepted completion conserves the buffer pool: the buffer
/// leaves the queue and becomes the current block.
pub proof fn law_taking_a_block_conserves_the_pool<T>(
    before: RawView<T>,
    queued: int,
    completion: BulkInCompletion<T>,
)
    requires
        before.current is None,
        completion_error(completion, transfer_bytes(before.packing)) is None,
    ensures
        (queued - 1) + before.taken(completion).held() == queued + before.held(),
{
}

/// Law: whatever completions come, the counters stay balanced.
pub proof fn law_counters_stay_balanced(stats: StreamingStats)
    requires
        stats.balanced(),
        stats.buffers_received < u64::MAX,
    ensures
        stats.with_processed().balanced(),
        stats.with_dropped().balanced(),
        stats.with_discarded().balanced(),
{
}

/// State of a stream of converted samples.
pub struct DirectView<T, S> {
    /// Streaming configuration.
    pub config: StreamingConfig,
    /// Buffer that is being converted.
    pub current: Option<T>,
    /// Bytes of that buffer.
    pub current_len: usize,
    /// Bytes of that buffer that are converted.
    pub current_offset: usize,
    /// Sample that an earlier read had no room for.
    pub pending_iq: Option<S>,
    /// Counters.
    pub stats: StreamingStats,
    /// Completions that still belong to the time before a restart.
    pub discard: nat,
    /// Whether the stream is closed.
    pub closed: bool,
}

/// How far a read of converted samples has come.
#[derive(Clone, Copy, Debug, Eq, PartialEq, Structural)]
pub struct ReadProgress {
    /// Samples that the output has room for.
    pub out_len: usize,
    /// Samples written so far.
    pub written: usize,
}

/// Next step of a read of converted samples.
#[derive(Clone, Copy, Debug, Eq, PartialEq, Structural)]
pub enum ReadStep {
    /// The read is over.
    Finished,
    /// The next completion is needed.
    Wait,
    /// The current buffer is to be converted by this plan, from the offset on
    /// and behind the samples written so far.
    Convert(ConversionPlan),
}

/// Error of a buffer whose end is no whole conversion group.
pub open spec fn group_error() -> Error {
    Error::Protocol {
        operation: "convert F32 IQ samples",
        reason: "USB buffer ended with an incomplete conversion group",
        status: StatusCode::LibUsb,
    }
}

impl<T, S> DirectView<T, S> {
    /// State of a stream over a queue that was just filled.
    pub open spec fn fresh(config: StreamingConfig) -> DirectView<T, S> {
        DirectView {
            config,
            current: None,
            current_len: 0,
            current_offset: 0,
            pending_iq: None,
            stats: no_stats(),
            discard: 0,
            closed: false,
        }
    }

    /// What holds of every stream.
    pub open spec fn consistent(self) -> bool {
        &&& self.stats.balanced()
        &&& self.current_offset <= self.current_len
        &&& self.current is None ==> self.current_len == 0
        &&& self.current is Some ==> self.current_offset < self.current_len
        &&& self.closed ==> self.current is None && self.pending_iq is None
    }

    /// Buffers that the stream holds itself.
    pub open spec fn held(self) -> int {
        if self.current is Some {
            1
        } else {
            0
        }
    }

    /// Whether what is left of the current buffer is whole conversion groups.
    pub open spec fn aligned(self) -> bool {
        (self.current_len - self.current_offset) % converter::group_bytes(
            self.config.spec_decimation(),
        ) == 0
    }

    /// Whether one more completion can be counted.
    pub open spec fn has_room(self) -> bool {
        self.stats.buffers_received < u64::MAX
    }

    /// State after the stream was closed.
    pub open spec fn spec_close(self) -> DirectView<T, S> {
        if self.closed {
            self
        } else {
            DirectView {
                current: None,
                current_len: 0,
                current_offset: 0,
                pending_iq: None,
                closed: true,
                ..self
            }
        }
    }

    /// State and progress after a read of `out_len` samples began.
    pub open spec fn begun(self, out_len: usize) -> (DirectView<T, S>, ReadProgress) {
        if out_len == 0 {
            (self, ReadProgress { out_len, written: 0 })
        } else {
            (
                DirectView { pending_iq: None, ..self },
                ReadProgress { out_len, written: if self.pending_iq is Some { 1 } else { 0 } },
            )
        }
    }

    /// Plan of the next conversion.
    pub open spec fn plan(self, progress: ReadProgress) -> ConversionPlan {
        converter::conversion_plan(
            self.current_len - self.current_offset,
            self.config.spec_decimation(),
            progress.out_len - progress.written,
        )
    }

    /// State after a fresh completion was taken.
    pub open spec fn taken(self, completion: BulkInCompletion<T>) -> DirectView<T, S> {
        let length = transfer_bytes(self.config.spec_packing());
        match completion_error(completion, length) {
            None => DirectView {
                current: Some(completion.buffer),
                current_len: length,
                current_offset: 0,
                stats: self.stats.with_processed(),
                ..self
            },
            Some(_) => DirectView { stats: self.stats.with_dropped(), ..self }.spec_close(),
        }
    }

    /// State after the planned conversion, where `pending` is the sample that
    /// the output had no room for.
    pub open spec fn converted(self, progress: ReadProgress, pending: Option<S>) -> DirectView<
        T,
        S,
    > {
        let offset = self.current_offset + self.plan(progress).consumed_bytes;
        if offset == self.current_len {
            DirectView {
                current: None,
                current_len: 0,
                current_offset: 0,
                pending_iq: pending,
                ..self
            }
        } else {
            DirectView { current_offset: offset as usize, pending_iq: pending, ..self }
        }
    }

    /// Progress after the planned conversion.
    pub open spec fn progressed(self, progress: ReadProgress) -> ReadProgress {
        ReadProgress {
            written: (progress.written + self.plan(progress).written) as usize,
            ..progress
        }
    }

    /// Outcome of the planned conversion: the drained buffer, if it is drained.
    pub open spec fn conversion_result(self, progress: ReadProgress) -> Result<Option<T>> {
        let plan = self.plan(progress);
        if self.current_offset + plan.consumed_bytes == self.current_len {
            Ok(self.current)
        } else if plan.consumed_bytes == 0 {
            Err(group_error())
        } else {
            Ok(None)
        }
    }
}

/// Beginning of a read of converted samples.
#[derive(Debug)]
pub struct ReadStart<S> {
    /// Progress of the read.
    pub progress: ReadProgress,
    /// First sample of the output, retained from an earlier read.
    pub first: Option<S>,
}

/// Buffer under conversion and what belongs to it.
#[derive(Debug)]
struct DirectCore<T, S> {
    config: StreamingConfig,
    current: Option<T>,
    current_len: usize,
    current_offset: usize,
    pending_iq: Option<S>,
    stats: StreamingStats,
    discard_remaining: usize,
    closed: bool,
}

impl<T, S> View for DirectCore<T, S> {
    type V = DirectView<T, S>;

    closed spec fn view(&self) -> DirectView<T, S> {
        DirectView {
            config: self.config,
            current: self.current,
            current_len: self.current_len,
            current_offset: self.current_offset,
            pending_iq: self.pending_iq,
            stats: self.stats,
            discard: self.discard_remaining as nat,
            closed: self.closed,
        }
    }
}

impl<T, S> DirectCore<T, S> {
    fn new(config: StreamingConfig) -> (core: Self)
        ensures
            core@ == DirectView::<T, S>::fresh(config),
            core@.consistent(),
    {
        DirectCore {
            config,
            current: None,
            current_len: 0,
            current_offset: 0,
            pending_iq: None,
            stats: StreamingStats::default(),
            discard_remaining: 0,
            closed: false,
        }
    }

    /// Take the retained sample as the first of a read of `out_len` samples.
    fn begin_read(&mut self, out_len: usize) -> (start: ReadStart<S>)
        requires
            old(self)@.consistent(),
        ensures
            final(self)@ == old(self)@.begun(out_len).0,
            final(self)@.consistent(),
            start.progress == old(self)@.begun(out_len).1,
            start.first == if out_len == 0 { None } else { old(self)@.pending_iq },
    {
        if out_len == 0 {
            return ReadStart { progress: ReadProgress { out_len, written: 0 }, first: None };
        }
        let first: Option<S> = self.pending_iq.take();
        let written: usize = if first.is_some() { 1 } else { 0 };
        ReadStart { progress: ReadProgress { out_len, written }, first }
    }

    /// Plan the conversion of what is left of the current buffer.
    fn plan(&self, progress: ReadProgress) -> (plan: ConversionPlan)
        requires
            self@.consistent(),
            progress.written <= progress.out_len,
        ensures
            plan == self@.plan(progress),
            plan.consumed_bytes <= self@.current_len - self@.current_offset,
            plan.written <= progress.out_len - progress.written,
    {
        plan_conversion(
            self.current_len - self.current_offset,
            self.config.decimation_factor(),
            progress.out_len - progress.written,
        )
    }

    /// Take a fresh completion.
    fn take(&mut self, completion: BulkInCompletion<T>) -> (result: Result<()>)
        requires
            old(self)@.consistent(),
            old(self)@.has_room(),
            !old(self)@.closed,
        ensures
            final(self)@ == old(self)@.taken(completion),
            final(self)@.consistent(),
            result == match completion_error(
                completion,
                transfer_bytes(old(self)@.config.spec_packing()),
            ) {
                None => Ok::<(), Error>(()),
                Some(error) => Err(error),
            },
    {
        let expected: usize = self.config.current_buffer_size();
        match checked_completion(completion, expected) {
            Ok((buffer, length)) => {
                self.stats = self.stats.count_processed();
                self.current = Some(buffer);
                self.current_len = length;
                self.current_offset = 0;
                Ok(())
            },
            Err((_buffer, error)) => {
                self.stats = self.stats.count_dropped();
                self.close();
                Err(error)
            },
        }
    }

    /// Record the planned conversion.
    fn convert(&mut self, progress: &mut ReadProgress, pending: Option<S>) -> (result: Result<
        Option<T>,
    >)
        requires
            old(self)@.consistent(),
            old(self)@.current is Some,
            old(progress).written < old(progress).out_len,
        ensures
            final(self)@ == old(self)@.converted(*old(progress), pending),
            final(self)@.consistent(),
            *final(progress) == old(self)@.progressed(*old(progress)),
            final(progress).written <= final(progress).out_len,
            result == old(self)@.conversion_result(*old(progress)),
    {
        let plan: ConversionPlan = self.plan(*progress);
        self.current_offset = self.current_offset + plan.consumed_bytes;
        progress.written = progress.written + plan.written;
        self.pending_iq = pending;
        if self.current_offset == self.current_len {
            let buffer: Option<T> = self.current.take();
            self.current_len = 0;
            self.current_offset = 0;
            Ok(buffer)
        } else if plan.consumed_bytes == 0 {
            Err(
                Error::Protocol {
                    operation: "convert F32 IQ samples",
                    reason: "USB buffer ended with an incomplete conversion group",
                    status: StatusCode::LibUsb,
                },
            )
        } else {
            Ok(None)
        }
    }

    fn close(&mut self) -> (stats: StreamingStats)
        requires
            old(self)@.consistent() || old(self)@.stats.balanced(),
        ensures
            final(self)@ == old(self)@.spec_close(),
            old(self)@.consistent() ==> final(self)@.consistent(),
            !old(self)@.closed && old(self)@.stats.balanced() ==> final(self)@.consistent(),
            stats == old(self)@.stats,
    {
        if !self.closed {
            self.current = None;
            self.current_len = 0;
            self.current_offset = 0;
            self.pending_iq = None;
            self.closed = true;
        }
        self.stats
    }
}

/// Persistent synchronous pull stream for unpacked F32 IQ RX.
///
/// A read begins with [`DirectRxStream::begin_read`] and follows
/// [`DirectRxStream::next_step`] until it is finished.
#[derive(Debug)]
pub struct DirectRxStream<T, S> {
    core: DirectCore<T, S>,
}

impl<T, S> View for DirectRxStream<T, S> {
    type V = DirectView<T, S>;

    closed spec fn view(&self) -> DirectView<T, S> {
        self.core@
    }
}

/// Next step of a synchronous read: it ends when the output is full.
pub open spec fn sync_step<T, S>(stream: DirectView<T, S>, progress: ReadProgress) -> ReadStep {
    if progress.written == progress.out_len {
        ReadStep::Finished
    } else if stream.current is None {
        ReadStep::Wait
    } else {
        ReadStep::Convert(stream.plan(progress))
    }
}

/// Next step of an asynchronous read: it also ends rather than wait for more,
/// once something is written.
pub open spec fn async_step<T, S>(stream: DirectView<T, S>, progress: ReadProgress) -> ReadStep {
    if progress.written == progress.out_len || (stream.current is None && progress.written > 0) {
        ReadStep::Finished
    } else if stream.current is None {
        ReadStep::Wait
    } else {
        ReadStep::Convert(stream.plan(progress))
    }
}

impl<T, S> DirectRxStream<T, S> {
    /// Stream over a queue that was just filled.
    pub fn new(config: StreamingConfig) -> (stream: Self)
        ensures
            stream@ == DirectView::<T, S>::fresh(config),
            stream@.consistent(),
    {
        DirectRxStream { core: DirectCore::new(config) }
    }

    /// Counters collected so far.
    pub fn stats(&self) -> (stats: StreamingStats)
        ensures
            stats == self@.stats,
    {
        self.core.stats
    }

    /// Whether the stream is closed.
    pub fn is_closed(&self) -> (closed: bool)
        ensures
            closed == self@.closed,
    {
        self.core.closed
    }

    /// Whether one more completion can be counted.
    pub fn has_room(&self) -> (room: bool)
        ensures
            room == self@.has_room(),
    {
        self.core.stats.buffers_received < u64::MAX
    }

    /// Buffer under conversion and the bytes of it that are converted.
    pub fn current(&self) -> (current: Option<(&T, usize)>)
        ensures
            current is Some <==> self@.current is Some,
            current matches Some(current) ==> self@.current == Some(*current.0) && current.1
                == self@.current_offset,
    {
        match &self.core.current {
            None => None,
            Some(buffer) => Some((buffer, self.core.current_offset)),
        }
    }

    /// Begin a read of `out_len` samples.
    pub fn begin_read(&mut self, out_len: usize) -> (result: Result<ReadStart<S>>)
        requires
            old(self)@.consistent(),
        ensures
            final(self)@.consistent(),
            old(self)@.closed ==> result == Err::<ReadStart<S>, Error>(
                closed_error("direct RX stream is closed"),
            ) && final(self)@ == old(self)@,
            !old(self)@.closed ==> (result matches Ok(start) && {
                &&& final(self)@ == old(self)@.begun(out_len).0
                &&& start.progress == old(self)@.begun(out_len).1
                &&& start.first == if out_len == 0 { None } else { old(self)@.pending_iq }
            }),
    {
        if self.core.closed {
            return Err(Error::StreamClosed("direct RX stream is closed"));
        }
        Ok(self.core.begin_read(out_len))
    }

    /// Next step of a read.
    pub fn next_step(&self, progress: ReadProgress) -> (step: ReadStep)
        requires
            self@.consistent(),
            progress.written <= progress.out_len,
        ensures
            step == sync_step(self@, progress),
    {
        if progress.written == progress.out_len {
            ReadStep::Finished
        } else if self.core.current.is_none() {
            ReadStep::Wait
        } else {
            ReadStep::Convert(self.core.plan(progress))
        }
    }

    /// Take the next completion. A failed one closes the stream.
    ///
    /// Where the time is up before there is one, the read is over with what is
    /// written so far, and the stream is not told.
    pub fn on_completion(&mut self, completion: BulkInCompletion<T>) -> (result: Result<()>)
        requires
            old(self)@.consistent(),
            old(self)@.has_room(),
        ensures
            final(self)@.consistent(),
            old(self)@.closed ==> result == Err::<(), Error>(
                closed_error("direct RX stream is closed"),
            ) && final(self)@ == old(self)@,
            !old(self)@.closed ==> final(self)@ == old(self)@.taken(completion) && result
                == match completion_error(
                completion,
                transfer_bytes(old(self)@.config.spec_packing()),
            ) {
                None => Ok::<(), Error>(()),
                Some(error) => Err(error),
            },
    {
        if self.core.closed {
            return Err(Error::StreamClosed("direct RX stream is closed"));
        }
        self.core.take(completion)
    }

    /// Record that the planned conversion was done.
    ///
    /// `pending` is the sample that the output had no room for, where the plan
    /// says that there is one. A drained buffer is handed out for the queue.
    pub fn on_converted(&mut self, progress: &mut ReadProgress, pending: Option<S>) -> (result:
        Result<Option<T>>)
        requires
            old(self)@.consistent(),
            old(self)@.current is Some,
            old(progress).written < old(progress).out_len,
        ensures
            final(self)@ == old(self)@.converted(*old(progress), pending),
            final(self)@.consistent(),
            *final(progress) == old(self)@.progressed(*old(progress)),
            final(progress).written <= final(progress).out_len,
            result == old(self)@.conversion_result(*old(progress)),
    {
        self.core.convert(progress, pending)
    }

    /// Close the stream. The driver cancels the queue of an open one.
    pub fn close(&mut self) -> (stats: StreamingStats)
        requires
            old(self)@.consistent(),
        ensures
            final(self)@ == old(self)@.spec_close(),
            final(self)@.consistent(),
            stats == old(self)@.stats,
    {
        self.core.close()
    }
}

/// What an asynchronous stream of converted samples does with a completion.
#[derive(Debug)]
pub enum DirectStep<T> {
    /// The completion is from before a restart: its buffer is queued again and
    /// the next completion is awaited.
    Resubmit(T),
    /// The completion is ready for conversion.
    Ready,
}

/// Whether a completion takes an asynchronous stream of converted samples from
/// `before` to `after` and comes out as `result`.
///
/// A completion from before a restart is dropped, whatever its outcome. Any other
/// that failed closes the stream.
pub open spec fn direct_completed<T, S>(
    before: DirectView<T, S>,
    completion: BulkInCompletion<T>,
    after: DirectView<T, S>,
    result: Result<DirectStep<T>>,
) -> bool {
    if before.closed {
        result == Err::<DirectStep<T>, Error>(closed_error("async direct RX stream is closed"))
            && after == before
    } else if before.discard > 0 {
        result == Ok::<DirectStep<T>, Error>(DirectStep::Resubmit(completion.buffer)) && after == (
        DirectView {
            stats: before.stats.with_discarded(),
            discard: (before.discard - 1) as nat,
            ..before
        })
    } else {
        after == before.taken(completion) && result == match completion_error(
            completion,
            transfer_bytes(before.config.spec_packing()),
        ) {
            None => Ok::<DirectStep<T>, Error>(DirectStep::Ready),
            Some(error) => Err(error),
        }
    }
}

/// Persistent async pull stream for unpacked F32 IQ RX.
#[derive(Debug)]
pub struct AsyncDirectRxStream<T, S> {
    core: DirectCore<T, S>,
}

impl<T, S> View for AsyncDirectRxStream<T, S> {
    type V = DirectView<T, S>;

    closed spec fn view(&self) -> DirectView<T, S> {
        self.core@
    }
}

impl<T, S> AsyncDirectRxStream<T, S> {
    /// Stream over a queue that was just filled.
    pub fn new(config: StreamingConfig) -> (stream: Self)
        ensures
            stream@ == DirectView::<T, S>::fresh(config),
            stream@.consistent(),
    {
        AsyncDirectRxStream { core: DirectCore::new(config) }
    }

    /// Counters collected so far.
    pub fn stats(&self) -> (stats: StreamingStats)
        ensures
            stats == self@.stats,
    {
        self.core.stats
    }

    /// Whether the stream is closed.
    pub fn is_closed(&self) -> (closed: bool)
        ensures
            closed == self@.closed,
    {
        self.core.closed
    }

    /// Whether one more completion can be counted.
    pub fn has_room(&self) -> (room: bool)
        ensures
            room == self@.has_room(),
    {
        self.core.stats.buffers_received < u64::MAX
    }

    /// Streaming configuration.
    pub fn config(&self) -> (config: StreamingConfig)
        ensures
            config == self@.config,
    {
        self.core.config
    }

    /// Buffer under conversion and the bytes of it that are converted.
    pub fn current(&self) -> (current: Option<(&T, usize)>)
        ensures
            current is Some <==> self@.current is Some,
            current matches Some(current) ==> self@.current == Some(*current.0) && current.1
                == self@.current_offset,
    {
        match &self.core.current {
            None => None,
            Some(buffer) => Some((buffer, self.core.current_offset)),
        }
    }

    /// Whether a sample is retained for the next read.
    pub fn has_pending_sample(&self) -> (pending: bool)
        ensures
            pending == self@.pending_iq is Some,
    {
        self.core.pending_iq.is_some()
    }

    /// Begin a read of `out_len` samples.
    pub fn begin_read(&mut self, out_len: usize) -> (result: Result<ReadStart<S>>)
        requires
            old(self)@.consistent(),
        ensures
            final(self)@.consistent(),
            old(self)@.closed ==> result == Err::<ReadStart<S>, Error>(
                closed_error("async direct RX stream is closed"),
            ) && final(self)@ == old(self)@,
            !old(self)@.closed ==> (result matches Ok(start) && {
                &&& final(self)@ == old(self)@.begun(out_len).0
                &&& start.progress == old(self)@.begun(out_len).1
                &&& start.first == if out_len == 0 { None } else { old(self)@.pending_iq }
            }),
    {
        if self.core.closed {
            return Err(Error::StreamClosed("async direct RX stream is closed"));
        }
        Ok(self.core.begin_read(out_len))
    }

    /// Next step of a read.
    pub fn next_step(&self, progress: ReadProgress) -> (step: ReadStep)
        requires
            self@.consistent(),
            progress.written <= progress.out_len,
        ensures
            step == async_step(self@, progress),
    {
        if progress.written == progress.out_len {
            ReadStep::Finished
        } else if self.core.current.is_none() {
            if progress.written != 0 {
                ReadStep::Finished
            } else {
                ReadStep::Wait
            }
        } else {
            ReadStep::Convert(self.core.plan(progress))
        }
    }

    /// Take the next completion.
    ///
    /// A completion from before a restart is dropped, whatever its outcome. Any
    /// other that failed closes the stream.
    pub fn on_completion(&mut self, completion: BulkInCompletion<T>) -> (result: Result<
        DirectStep<T>,
    >)
        requires
            old(self)@.consistent(),
            old(self)@.has_room(),
        ensures
            final(self)@.consistent(),
            direct_completed(old(self)@, completion, final(self)@, result),
    {
        if self.core.closed {
            return Err(Error::StreamClosed("async direct RX stream is closed"));
        }
        if self.core.discard_remaining != 0 {
            self.core.discard_remaining = self.core.discard_remaining - 1;
            self.core.stats = self.core.stats.count_discarded();
            return Ok(DirectStep::Resubmit(completion.buffer));
        }
        match self.core.take(completion) {
            Err(error) => Err(error),
            Ok(()) => Ok(DirectStep::Ready),
        }
    }

    /// Record that the planned conversion was done.
    ///
    /// `pending` is the sample that the output had no room for, where the plan
    /// says that there is one. A drained buffer is handed out for the queue.
    pub fn on_converted(&mut self, progress: &mut ReadProgress, pending: Option<S>) -> (result:
        Result<Option<T>>)
        requires
            old(self)@.consistent(),
            old(self)@.current is Some,
            old(progress).written < old(progress).out_len,
        ensures
            final(self)@ == old(self)@.converted(*old(progress), pending),
            final(self)@.consistent(),
            *final(progress) == old(self)@.progressed(*old(progress)),
            final(progress).written <= final(progress).out_len,
            result == old(self)@.conversion_result(*old(progress)),
    {
        self.core.convert(progress, pending)
    }

    /// Begin to pause: what was buffered is forgotten, and the buffer under
    /// conversion goes back to the queue.
    ///
    /// The driver resets its filters too.
    pub fn begin_pause(&mut self) -> (result: Result<Option<T>>)
        requires
            old(self)@.consistent(),
        ensures
            final(self)@.consistent(),
            final(self)@ == (DirectView {
                current: None,
                current_len: 0,
                current_offset: 0,
                pending_iq: None,
                ..old(self)@
            }),
            result == if old(self)@.closed {
                Err::<Option<T>, Error>(closed_error("async direct RX stream is closed"))
            } else {
                Ok::<Option<T>, Error>(old(self)@.current)
            },
    {
        self.core.pending_iq = None;
        self.core.current_len = 0;
        self.core.current_offset = 0;
        let buffer: Option<T> = self.core.current.take();
        if self.core.closed {
            return Err(Error::StreamClosed("async direct RX stream is closed"));
        }
        Ok(buffer)
    }

    /// Finish the pause: the `pending` queued transfers hold data from before
    /// the next restart.
    pub fn finish_pause(&mut self, pending: usize)
        requires
            old(self)@.consistent(),
        ensures
            final(self)@.consistent(),
            final(self)@ == (DirectView { discard: pending as nat, ..old(self)@ }),
    {
        self.core.discard_remaining = pending;
    }

    /// Update host-side decimation while the transfer queue stays.
    pub fn set_decimation_factor(&mut self, factor: usize) -> (result: Result<()>)
        requires
            old(self)@.consistent(),
        ensures
            final(self)@.consistent(),
            valid_decimation(factor) ==> result == Ok::<(), Error>(())
                && final(self)@.config.spec_decimation() == factor
                && final(self)@.config.spec_packing() == old(self)@.config.spec_packing()
                && final(self)@ == (DirectView { config: final(self)@.config, ..old(self)@ }),
            !valid_decimation(factor) ==> result == Err::<(), Error>(decimation_error())
                && final(self)@ == old(self)@,
    {
        match self.core.config.with_decimation(factor) {
            Err(error) => Err(error),
            Ok(config) => {
                self.core.config = config;
                Ok(())
            },
        }
    }

    /// Close the stream. The driver cancels the queue of an open one.
    pub fn close(&mut self) -> (stats: StreamingStats)
        requires
            old(self)@.consistent(),
        ensures
            final(self)@ == old(self)@.spec_close(),
            final(self)@.consistent(),
            stats == old(self)@.stats,
    {
        self.core.close()
    }
}

/// Law: a full transfer, packed or not, is whole conversion groups for every
/// decimation factor.
pub proof fn law_a_full_transfer_is_whole_groups(packing: bool, factor: usize)
    requires
        valid_decimation(factor),
    ensures
        transfer_bytes(packing) as int % converter::group_bytes(factor) == 0,
{
    assert(262_144int % 8 == 0 && 262_144int % 16 == 0 && 262_144int % 32 == 0 && 262_144int % 64
        == 0 && 262_144int % 128 == 0 && 262_144int % 256 == 0 && 262_144int % 512 == 0);
    assert(147_456int % 8 == 0 && 147_456int % 16 == 0 && 147_456int % 32 == 0 && 147_456int % 64
        == 0 && 147_456int % 128 == 0 && 147_456int % 256 == 0 && 147_456int % 512 == 0);
}

/// Law: an accepted completion is ready to be converted to its last byte.
pub proof fn law_an_accepted_transfer_is_aligned<T, S>(
    before: DirectView<T, S>,
    completion: BulkInCompletion<T>,
)
    requires
        valid_decimation(before.config.spec_decimation()),
        completion_error(completion, transfer_bytes(before.config.spec_packing())) is None,
    ensures
        before.taken(completion).aligned(),
        before.taken(completion).current == Some(completion.buffer),
{
    law_a_full_transfer_is_whole_groups(
        before.config.spec_packing(),
        before.config.spec_decimation(),
    );
}

/// Law: the conversion of an aligned buffer always writes something, never ends
/// in an incomplete group, and leaves an aligned buffer or none.
pub proof fn law_an_aligned_conversion_succeeds<T, S>(
    before: DirectView<T, S>,
    progress: ReadProgress,
    pending: Option<S>,
)
    requires
        before.consistent(),
        before.current is Some,
        before.aligned(),
        progress.written < progress.out_len,
    ensures
        before.conversion_result(progress) is Ok,
        before.progressed(progress).written > progress.written,
        before.converted(progress, pending).aligned(),
        before.converted(progress, pending).current is Some ==> before.converted(
            progress,
            pending,
        ).current_offset > before.current_offset,
{
    let factor = before.config.spec_decimation();
    let left = (before.current_len - before.current_offset) as usize;
    let room = (progress.out_len - progress.written) as usize;
    converter::law_whole_groups_make_progress(left, factor, room);
    converter::law_conversion_accounts_for_every_byte(left, factor, room);
    vstd::arithmetic::div_mod::lemma_small_mod(0, converter::group_bytes(factor) as nat);
}

/// Law: a conversion never writes past the output, and leaves a sample pending
/// only where the output is full.
pub proof fn law_a_read_never_overruns_the_output<T, S>(
    before: DirectView<T, S>,
    progress: ReadProgress,
)
    requires
        before.consistent(),
        progress.written <= progress.out_len,
    ensures
        before.progressed(progress).written <= progress.out_len,
        before.plan(progress).pending ==> before.progressed(progress).written == progress.out_len,
{
    converter::law_conversion_accounts_for_every_byte(
        (before.current_len - before.current_offset) as usize,
        before.config.spec_decimation(),
        (progress.out_len - progress.written) as usize,
    );
}

/// Law: a synchronous read that is not timed out ends exactly when the output
/// is full.
pub proof fn law_a_synchronous_read_fills_the_output<T, S>(
    stream: DirectView<T, S>,
    progress: ReadProgress,
)
    ensures
        sync_step(stream, progress) == ReadStep::Finished <==> progress.written
            == progress.out_len,
{
}

/// Law: an asynchronous read waits only while nothing is written, so that
/// canceling a pending read loses no sample.
pub proof fn law_an_asynchronous_read_waits_empty_handed<T, S>(
    stream: DirectView<T, S>,
    progress: ReadProgress,
)
    ensures
        async_step(stream, progress) == ReadStep::Wait ==> progress.written == 0
            && stream.current is None,
{
}

/// Law: converted samples conserve the buffer pool: a drained buffer goes back
/// to the queue, and any other stays with the stream.
pub proof fn law_converting_conserves_the_pool<T, S>(
    before: DirectView<T, S>,
    progress: ReadProgress,
    pending: Option<S>,
    queued: int,
)
    requires
        before.current is Some,
        before.conversion_result(progress) is Ok,
    ensures
        ({
            let resubmitted = if before.conversion_result(progress)->Ok_0 is Some {
                1int
            } else {
                0
            };
            queued + resubmitted + before.converted(progress, pending).held() == queued
                + before.held()
        }),
{
}

/// Law: one unpacked transfer yields its samples in a single conversion where
/// the output has room, and never more than 65536 of them.
pub proof fn law_samples_of_one_transfer(factor: usize, out_len: usize)
    requires
        valid_decimation(factor),
        out_len >= 65_536,
    ensures
        ({
            let plan = converter::conversion_plan(262_144, factor, out_len as int);
            plan.consumed_bytes == 262_144 && plan.written * factor == 65_536 && !plan.pending
        }),
{
    law_a_full_transfer_is_whole_groups(false, factor);
    let group = converter::group_bytes(factor);
    assert(262_144int / 8 == 32_768 && 262_144int / 16 == 16_384 && 262_144int / 32 == 8_192
        && 262_144int / 64 == 4_096 && 262_144int / 128 == 2_048 && 262_144int / 256 == 1_024
        && 262_144int / 512 == 512);
    converter::law_a_large_output_drains_the_buffer(262_144, factor, out_len);
}

/// Law: the host decimates by the powers of two up to 64, and by nothing else.
pub proof fn law_host_factors_are_powers_of_two(factor: usize)
    ensures
        valid_decimation(factor) <==> exists|stages: nat|
            stages <= 6 && #[trigger] vstd::arithmetic::power2::pow2(stages) == factor,
{
    vstd::arithmetic::power2::lemma2_to64();
    if exists|stages: nat|
        stages <= 6 && #[trigger] vstd::arithmetic::power2::pow2(stages) == factor {
        let stages = choose|stages: nat|
            stages <= 6 && #[trigger] vstd::arithmetic::power2::pow2(stages) == factor;
        assert(stages == 0 || stages == 1 || stages == 2 || stages == 3 || stages == 4 || stages
            == 5 || stages == 6);
    }
}

/// Law: a sample takes two bytes, or three bytes for each two samples where they
/// are packed. A full queue is 16 transfers of 262144 bytes, or of 147456 packed.
pub proof fn law_samples_of_a_transfer(length: int, packing: bool)
    requires
        length >= 0,
    ensures
        transfer_count() == 16,
        transfer_bytes(false) == 262_144,
        transfer_bytes(true) == 147_456,
        transfer_samples(transfer_bytes(false) as int, false) == 131_072,
        transfer_samples(transfer_bytes(true) as int, true) == 98_304,
        length % 2 == 0 ==> 2 * transfer_samples(length, false) == length,
        length % 6 == 0 ==> 3 * transfer_samples(length, true) == 2 * length,
{
}

/// Law: each completion is counted once as received, and once more as processed,
/// as dropped, or as dropped and discarded.
pub proof fn law_each_completion_is_counted_once(stats: StreamingStats)
    requires
        stats.balanced(),
        stats.buffers_received < u64::MAX,
    ensures
        stats.buffers_received == stats.buffers_processed + stats.buffers_dropped,
        stats.buffers_discarded_on_restart <= stats.buffers_dropped,
        ({
            let after = stats.with_processed();
            &&& after.buffers_received == stats.buffers_received + 1
            &&& after.buffers_processed == stats.buffers_processed + 1
            &&& after.buffers_dropped == stats.buffers_dropped
            &&& after.buffers_discarded_on_restart == stats.buffers_discarded_on_restart
        }),
        ({
            let after = stats.with_dropped();
            &&& after.buffers_received == stats.buffers_received + 1
            &&& after.buffers_processed == stats.buffers_processed
            &&& after.buffers_dropped == stats.buffers_dropped + 1
            &&& after.buffers_discarded_on_restart == stats.buffers_discarded_on_restart
        }),
        ({
            let after = stats.with_discarded();
            &&& after.buffers_received == stats.buffers_received + 1
            &&& after.buffers_processed == stats.buffers_processed
            &&& after.buffers_dropped == stats.buffers_dropped + 1
            &&& after.buffers_discarded_on_restart == stats.buffers_discarded_on_restart + 1
        }),
        ({
            let none = no_stats();
            &&& none.buffers_received == 0 && none.buffers_processed == 0
            &&& none.buffers_dropped == 0 && none.buffers_discarded_on_restart == 0
        }),
{
}

/// Law: a completion is accepted exactly where its transfer succeeded and brought
/// as many bytes as are due, all of which its buffer holds. A failed transfer is
/// reported with its own error.
pub proof fn law_only_full_transfers_are_accepted<T>(
    completion: BulkInCompletion<T>,
    expected: usize,
)
    ensures
        completion_error(completion, expected) is None <==> completion.status is Ok
            && completion.actual_len == expected && expected <= completion.buffer_len,
        completion.status matches Err(error) ==> completion_error(completion, expected) == Some(
            error,
        ),
        completion.status is Ok && completion_error(completion, expected) is Some
            ==> completion_error(completion, expected) == Some(
            Error::Protocol {
                operation: "receive transfer",
                reason: "completed with an unexpected length",
                status: StatusCode::LibUsb,
            },
        ),
{
}

/// Law: a block is one full transfer; its drop estimate is the samples of one
/// transfer for each buffer dropped so far.
pub proof fn law_a_block_is_one_full_transfer(stats: StreamingStats, packing: bool)
    requires
        stats.room_for(if packing { 98_304int } else { 131_072int }),
    ensures
        ({
            let block = spec_transfer(stats, packing);
            &&& block.length == if packing { 147_456int } else { 262_144int }
            &&& block.sample_count == if packing { 98_304int } else { 131_072int }
            &&& block.dropped_samples == stats.buffers_dropped * block.sample_count
        }),
        stats.buffers_received < u64::MAX,
{
}

/// Law: an accepted completion becomes the current block of an open raw stream and
/// is counted as processed. Any other is counted as dropped, and closes the
/// stream, which then holds no buffer.
pub proof fn law_what_a_completion_does_to_a_raw_stream<T>(
    before: RawView<T>,
    completion: BulkInCompletion<T>,
)
    ensures
        ({
            let after = before.taken(completion);
            if completion_error(completion, transfer_bytes(before.packing)) is None {
                after == (RawView {
                    stats: before.stats.with_processed(),
                    current: Some(completion.buffer),
                    ..before
                })
            } else {
                after == (RawView {
                    stats: before.stats.with_dropped(),
                    current: None,
                    closed: true,
                    ..before
                })
            }
        }),
        before.spec_close() == (RawView { current: None, closed: true, ..before }),
        before.held() == if before.current is Some { 1int } else { 0int },
{
}

/// Law: an accepted completion becomes the buffer that is converted next, from its
/// first byte on, and is counted as processed. Any other is counted as dropped,
/// and closes the stream, which then holds neither a buffer nor a sample.
pub proof fn law_what_a_completion_does_to_a_converted_stream<T, S>(
    before: DirectView<T, S>,
    completion: BulkInCompletion<T>,
)
    requires
        !before.closed,
    ensures
        ({
            let after = before.taken(completion);
            let length = transfer_bytes(before.config.spec_packing());
            if completion_error(completion, length) is None {
                after == (DirectView {
                    current: Some(completion.buffer),
                    current_len: length,
                    current_offset: 0,
                    stats: before.stats.with_processed(),
                    ..before
                })
            } else {
                after == (DirectView {
                    current: None,
                    current_len: 0,
                    current_offset: 0,
                    pending_iq: None,
                    stats: before.stats.with_dropped(),
                    closed: true,
                    ..before
                })
            }
        }),
        before.spec_close() == (DirectView {
            current: None,
            current_len: 0,
            current_offset: 0,
            pending_iq: None,
            closed: true,
            ..before
        }),
        before.held() == if before.current is Some { 1int } else { 0int },
{
}

/// Law: a read delivers the sample that the read before had no room for first, and
/// once. A read of nothing leaves it where it is.
pub proof fn law_a_retained_sample_is_delivered_once<T, S>(
    before: DirectView<T, S>,
    out_len: usize,
)
    ensures
        ({
            let (after, progress) = before.begun(out_len);
            &&& progress.out_len == out_len
            &&& out_len == 0 ==> after == before && progress.written == 0
            &&& out_len > 0 ==> after == (DirectView { pending_iq: None, ..before })
            &&& out_len > 0 ==> progress.written == if before.pending_iq is Some {
                1int
            } else {
                0int
            }
        }),
{
}

/// Law: a conversion takes up the current buffer where the one before left off,
/// writes behind what is written and into the room that is left, and each sample
/// that comes out stands for `4 * factor` bytes. It stops where the output is full
/// or the buffer holds no further group.
pub proof fn law_a_conversion_goes_on_where_the_last_one_stopped<T, S>(
    before: DirectView<T, S>,
    progress: ReadProgress,
    pending: Option<S>,
)
    requires
        before.consistent(),
        before.current is Some,
        valid_decimation(before.config.spec_decimation()),
        progress.written <= progress.out_len,
    ensures
        ({
            let factor = before.config.spec_decimation();
            let plan = before.plan(progress);
            let after = before.converted(progress, pending);
            let left = before.current_len - before.current_offset - plan.consumed_bytes;
            let produced = plan.written + if plan.pending { 1int } else { 0 };
            &&& 0 <= left
            &&& plan.consumed_bytes == 4 * factor * produced
            &&& before.progressed(progress).out_len == progress.out_len
            &&& before.progressed(progress).written == progress.written + plan.written
            &&& progress.written + plan.written == progress.out_len || left < 8 * factor
            &&& plan.pending ==> progress.written + plan.written == progress.out_len
            &&& left == 0 ==> after == (DirectView {
                current: None,
                current_len: 0,
                current_offset: 0,
                pending_iq: pending,
                ..before
            })
            &&& left > 0 ==> after == (DirectView {
                current_offset: (before.current_offset + plan.consumed_bytes) as usize,
                pending_iq: pending,
                ..before
            })
            &&& left == 0 ==> before.conversion_result(progress) == Ok::<Option<T>, Error>(
                before.current,
            )
            &&& left > 0 && plan.consumed_bytes > 0 ==> before.conversion_result(progress) == Ok::<
                Option<T>,
                Error,
            >(None)
            &&& left > 0 && plan.consumed_bytes == 0 ==> before.conversion_result(progress) is Err
        }),
{
    let left = (before.current_len - before.current_offset) as usize;
    let room = (progress.out_len - progress.written) as usize;
    let factor = before.config.spec_decimation();
    converter::law_a_conversion_goes_as_far_as_it_can(left, factor, room);
    converter::law_conversion_accounts_for_every_byte(left, factor, room);
}

/// Law: a read with room left converts while there is a buffer, and waits for one
/// otherwise. An asynchronous read does not wait once it has written something.
pub proof fn law_what_a_read_does_next<T, S>(stream: DirectView<T, S>, progress: ReadProgress)
    requires
        progress.written < progress.out_len,
    ensures
        stream.current is Some ==> sync_step(stream, progress) == ReadStep::Convert(
            stream.plan(progress),
        ),
        stream.current is Some ==> async_step(stream, progress) == ReadStep::Convert(
            stream.plan(progress),
        ),
        stream.current is None ==> sync_step(stream, progress) == ReadStep::Wait,
        stream.current is None && progress.written == 0 ==> async_step(stream, progress)
            == ReadStep::Wait,
        stream.current is None && progress.written > 0 ==> async_step(stream, progress)
            == ReadStep::Finished,
{
}

/// Law: a read whose output is full is over, however it waits.
pub proof fn law_a_full_read_is_over<T, S>(stream: DirectView<T, S>, progress: ReadProgress)
    requires
        progress.written == progress.out_len,
    ensures
        sync_step(stream, progress) == ReadStep::Finished,
        async_step(stream, progress) == ReadStep::Finished,
{
}

/// Law: a new stream holds nothing and has counted nothing.
pub proof fn law_a_new_stream_holds_nothing<T, S>(config: StreamingConfig)
    ensures
        ({
            let stream = DirectView::<T, S>::fresh(config);
            &&& stream.config == config
            &&& stream.current is None && stream.pending_iq is None
            &&& stream.current_len == 0 && stream.current_offset == 0
            &&& stream.discard == 0 && !stream.closed
            &&& stream.stats.buffers_received == 0 && stream.stats.buffers_dropped == 0
        }),
{
}

/// Law: a factor that does not exist is refused as an invalid configuration, an
/// incomplete group as a broken protocol, and a closed stream as closed.
pub proof fn law_stream_errors_say_what_is_wrong(reason: &'static str)
    ensures
        decimation_error() == (Error::InvalidConfig {
            field: "decimation_factor",
            reason: "must be one of 1, 2, 4, 8, 16, 32, or 64",
        }),
        group_error() == (Error::Protocol {
            operation: "convert F32 IQ samples",
            reason: "USB buffer ended with an incomplete conversion group",
            status: StatusCode::LibUsb,
        }),
        closed_error(reason) == Error::StreamClosed(reason),
{
}

/// Law: an open stream drops what is from before a restart, whatever its outcome,
/// and takes everything else; a closed one takes nothing.
pub proof fn law_stale_completions_are_never_delivered<T, S>(
    raw: RawView<T>,
    raw_after: RawView<T>,
    raw_result: Result<RawStep<T>>,
    direct: DirectView<T, S>,
    direct_after: DirectView<T, S>,
    direct_result: Result<DirectStep<T>>,
    completion: BulkInCompletion<T>,
)
    requires
        raw_completed(raw, completion, raw_after, raw_result),
        direct_completed(direct, completion, direct_after, direct_result),
    ensures
        raw.closed ==> raw_after == raw && raw_result == Err::<RawStep<T>, Error>(
            Error::StreamClosed("async raw RX stream is closed"),
        ),
        direct.closed ==> direct_after == direct && direct_result == Err::<DirectStep<T>, Error>(
            Error::StreamClosed("async direct RX stream is closed"),
        ),
        !raw.closed && raw.discard > 0 ==> {
            &&& raw_result == Ok::<RawStep<T>, Error>(RawStep::Resubmit(completion.buffer))
            &&& raw_after.discard == raw.discard - 1
            &&& raw_after.current == raw.current && !raw_after.closed
            &&& raw_after.stats == raw.stats.with_discarded()
        },
        !direct.closed && direct.discard > 0 ==> {
            &&& direct_result == Ok::<DirectStep<T>, Error>(DirectStep::Resubmit(completion.buffer))
            &&& direct_after.discard == direct.discard - 1
            &&& direct_after.current == direct.current && !direct_after.closed
            &&& direct_after.stats == direct.stats.with_discarded()
        },
        !raw.closed && raw.discard == 0 ==> {
            &&& raw_after == raw.taken(completion)
            &&& raw_result is Ok <==> completion_error(completion, transfer_bytes(raw.packing))
                is None
            &&& raw_result is Ok ==> raw_result == Ok::<RawStep<T>, Error>(
                RawStep::Block(spec_transfer(raw.stats, raw.packing)),
            )
            &&& raw_result matches Err(error) ==> completion_error(
                completion,
                transfer_bytes(raw.packing),
            ) == Some(error)
        },
        !direct.closed && direct.discard == 0 ==> {
            let problem = completion_error(
                completion,
                transfer_bytes(direct.config.spec_packing()),
            );
            &&& direct_after == direct.taken(completion)
            &&& direct_result is Ok <==> problem is None
            &&& direct_result is Ok ==> direct_result == Ok::<DirectStep<T>, Error>(
                DirectStep::Ready,
            )
            &&& direct_result matches Err(error) ==> problem == Some(error)
        },
{
}

} // verus!
