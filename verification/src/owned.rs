//! Receive streams that own their device.
//!
//! Each operation of a stream is one decision before the USB work and one after
//! it. In between the driver sends the requests and moves the buffers.

use crate::active_state::ActiveState;
use crate::errors::{Error, Result};
use crate::high_level::{self, DeviceInner};
use crate::streaming::{
    self, AsyncDirectRxStream, AsyncRawRxStream, BulkInCompletion, DirectRxStream, DirectStep,
    DirectView, RawRxStream, RawStep, RawView, ReadProgress, ReadStart, StreamingStats, Transfer,
};
use crate::types::SampleType;
use vstd::prelude::*;

verus! {

/// What is known of the receiver.
#[derive(Clone, Copy, Debug, Eq, PartialEq, Structural)]
pub enum ReceiverState {
    /// The receiver is off.
    Stopped,
    /// The receiver may be on and has to be switched off.
    StopRequired,
    /// The receiver is on and its transfers are read.
    Running,
}

/// What a stop has to do.
#[derive(Clone, Copy, Debug, Eq, PartialEq, Structural)]
pub enum StopPlan {
    /// The stream is stopped already, with these counters.
    Finished(StreamingStats),
    /// The receiver has to be switched off, after the queue was cancelled where
    /// `cancel_queue` says so.
    SwitchOff {
        /// Whether an open queue was let go and has to be cancelled.
        cancel_queue: bool,
    },
}

/// What a start has to do.
#[derive(Clone, Copy, Debug, Eq, PartialEq, Structural)]
pub enum StartPlan {
    /// The stream is running already.
    Nothing,
    /// The queue is in place: the receiver has to be switched on.
    Resume,
    /// Receiver and queue have to be started.
    Full,
}

/// Error of an operation on a stream that is not running.
pub open spec fn stopped_error(reason: &'static str) -> Error {
    Error::StreamClosed(reason)
}

/// Owned synchronous raw ADC stream.
pub struct OwnedRawRxStreamInner<T> {
    /// Device of the stream.
    pub device: DeviceInner,
    /// Transfer queue, while there is one.
    pub stream: Option<RawRxStream<T>>,
    /// Counters of the last run.
    pub stats: StreamingStats,
    /// What is known of the receiver.
    pub state: ReceiverState,
}

impl<T> OwnedRawRxStreamInner<T> {
    /// Stream of a device, not started yet.
    pub fn new(device: DeviceInner) -> (stream: Self)
        ensures
            stream == (OwnedRawRxStreamInner {
                device,
                stream: None::<RawRxStream<T>>,
                stats: streaming::no_stats(),
                state: ReceiverState::Stopped,
            }),
    {
        OwnedRawRxStreamInner {
            device,
            stream: None,
            stats: StreamingStats::default(),
            state: ReceiverState::Stopped,
        }
    }

    /// Begin a start.
    pub fn begin_start(&mut self) -> (result: Result<StartPlan>)
        ensures
            final(self).device == old(self).device,
            final(self).stream == old(self).stream,
            final(self).stats == old(self).stats,
            old(self).state == ReceiverState::Running ==> result == Ok::<StartPlan, Error>(
                StartPlan::Nothing,
            ) && final(self).state == old(self).state,
            old(self).state != ReceiverState::Running ==> match high_level::raw_stream_format(
                old(self).device.active,
            ) {
                Err(error) => result == Err::<StartPlan, Error>(error) && final(self).state == old(self).state,
                Ok(()) => result == Ok::<StartPlan, Error>(StartPlan::Full) && final(self).state
                    == ReceiverState::StopRequired,
            },
    {
        if self.state == ReceiverState::Running {
            return Ok(StartPlan::Nothing);
        }
        match self.device.ensure_raw_adc_stream_format() {
            Err(error) => Err(error),
            Ok(()) => {
                self.state = ReceiverState::StopRequired;
                Ok(StartPlan::Full)
            },
        }
    }

    /// Take the outcome of a full start.
    pub fn finish_start(&mut self, result: Result<()>) -> (outcome: Result<()>)
        ensures
            outcome == result,
            final(self).device == old(self).device,
            final(self).stats == old(self).stats,
            result is Err ==> *final(self) == *old(self),
            result is Ok ==> final(self).state == ReceiverState::Running && (
            final(self).stream matches Some(stream) && stream@ == (RawView {
                packing: old(self).device.direct@.streaming.spec_packing(),
                stats: streaming::no_stats(),
                current: None::<T>,
                discard: 0,
                closed: false,
            })),
    {
        if result.is_ok() {
            self.stream = Some(RawRxStream::new(self.device.direct.streaming_config()));
            self.state = ReceiverState::Running;
        }
        result
    }

    /// Begin to read the next block: the buffer of the one before is handed out
    /// for the queue.
    pub fn begin_next_block(&mut self) -> (result: Result<Option<T>>)
        ensures
            final(self).device == old(self).device,
            final(self).stats == old(self).stats,
            final(self).state == old(self).state,
            old(self).state != ReceiverState::Running ==> result == Err::<Option<T>, Error>(
                stopped_error("raw RX stream is stopped"),
            ) && final(self).stream == old(self).stream,
            old(self).state == ReceiverState::Running && old(self).stream is None ==> result
                == Err::<Option<T>, Error>(stopped_error("raw RX stream is closed"))
                && final(self).stream is None,
            old(self).state == ReceiverState::Running ==> (old(self).stream matches Some(before)
                ==> (final(self).stream matches Some(after) && if before@.closed {
                result == Err::<Option<T>, Error>(stopped_error("raw RX stream is closed"))
                    && after@ == before@
            } else {
                result == Ok::<Option<T>, Error>(before@.current) && after@ == (RawView {
                    current: None,
                    ..before@
                })
            })),
    {
        if self.state != ReceiverState::Running {
            return Err(Error::StreamClosed("raw RX stream is stopped"));
        }
        match &mut self.stream {
            None => Err(Error::StreamClosed("raw RX stream is closed")),
            Some(stream) => stream.begin_read(),
        }
    }

    /// Take the next completion, or none after a timeout.
    pub fn finish_next_block(&mut self, completion: Option<BulkInCompletion<T>>) -> (result: Result<
        Option<Transfer>,
    >)
        requires
            old(self).stream matches Some(stream) ==> stream@.has_room(),
        ensures
            final(self).device == old(self).device,
            final(self).stats == old(self).stats,
            final(self).state == old(self).state,
            old(self).stream is None ==> result == Err::<Option<Transfer>, Error>(
                stopped_error("raw RX stream is closed"),
            ) && final(self).stream is None,
            old(self).stream matches Some(before) ==> (final(self).stream matches Some(after)
                && raw_read(before@, completion, after@, result)),
    {
        match &mut self.stream {
            None => Err(Error::StreamClosed("raw RX stream is closed")),
            Some(stream) => stream.finish_read(completion),
        }
    }

    /// Begin a stop. The stream lets its queue go.
    pub fn begin_stop(&mut self) -> (plan: StopPlan)
        ensures
            final(self).device == old(self).device,
            final(self).state == old(self).state,
            old(self).state == ReceiverState::Stopped ==> plan == StopPlan::Finished(
                old(self).stats,
            ) && *final(self) == *old(self),
            old(self).state != ReceiverState::Stopped ==> final(self).stream is None && match old(self).stream {
                None => plan == (StopPlan::SwitchOff { cancel_queue: false }) && final(self).stats
                    == old(self).stats,
                Some(stream) => plan == (StopPlan::SwitchOff { cancel_queue: !stream@.closed })
                    && final(self).stats == stream@.stats,
            },
    {
        if self.state == ReceiverState::Stopped {
            return StopPlan::Finished(self.stats);
        }
        match self.stream.take() {
            None => StopPlan::SwitchOff { cancel_queue: false },
            Some(stream) => {
                let mut stream: RawRxStream<T> = stream;
                let cancel_queue: bool = !stream.is_closed();
                self.stats = stream.close();
                StopPlan::SwitchOff { cancel_queue }
            },
        }
    }

    /// Take the outcome of the receiver-off request of a stop.
    pub fn finish_stop(&mut self, result: Result<()>) -> (outcome: Result<StreamingStats>)
        ensures
            outcome == match result {
                Ok(()) => Ok::<StreamingStats, Error>(old(self).stats),
                Err(error) => Err(error),
            },
            final(self).device == old(self).device,
            final(self).stream == old(self).stream,
            final(self).stats == old(self).stats,
            final(self).state == if result is Ok {
                ReceiverState::Stopped
            } else {
                ReceiverState::StopRequired
            },
    {
        match result {
            Ok(()) => {
                self.state = ReceiverState::Stopped;
                Ok(self.stats)
            },
            Err(error) => {
                self.state = ReceiverState::StopRequired;
                Err(error)
            },
        }
    }

    /// Give the device back.
    pub fn into_device(self) -> (device: DeviceInner)
        ensures
            device == self.device,
    {
        self.device
    }

    /// Shared handle to the active receiver state.
    pub fn active_state(&self) -> (handle: ActiveState)
        ensures
            handle == self.device.info.active_state,
    {
        self.device.info.active_state.clone()
    }
}

/// Whether a synchronous raw read takes a stream from `before` to `after` and
/// comes out as `result`.
pub open spec fn raw_read<T>(
    before: RawView<T>,
    completion: Option<BulkInCompletion<T>>,
    after: RawView<T>,
    result: Result<Option<Transfer>>,
) -> bool {
    if before.closed {
        result == Err::<Option<Transfer>, Error>(stopped_error("raw RX stream is closed")) && after
            == before
    } else {
        match completion {
            None => result == Ok::<Option<Transfer>, Error>(None) && after == before,
            Some(completion) => after == before.taken(completion) && result
                == match streaming::completion_error(
                completion,
                streaming::transfer_bytes(before.packing),
            ) {
                None => Ok::<Option<Transfer>, Error>(
                    Some(streaming::spec_transfer(before.stats, before.packing)),
                ),
                Some(error) => Err(error),
            },
        }
    }
}

/// Owned synchronous converted `F32Iq` stream.
pub struct F32RxStreamInner<T, S> {
    /// Device of the stream.
    pub device: DeviceInner,
    /// Transfer queue, while there is one.
    pub stream: Option<DirectRxStream<T, S>>,
    /// Counters of the last run.
    pub stats: StreamingStats,
    /// What is known of the receiver.
    pub state: ReceiverState,
}

/// Outcome of the checks before a converted stream starts: the format that is
/// active, and then what the direct layer can convert.
pub open spec fn f32_start_check(device: DeviceInner) -> Result<()> {
    match high_level::f32_stream_format(device.active) {
        Err(error) => Err(error),
        Ok(()) => if device.direct@.sample_type == SampleType::Float32Iq
            && !device.direct@.streaming.spec_packing() {
            Ok(())
        } else {
            Err(Error::Unsupported)
        },
    }
}

/// State of the receiver after the step of a read that came out as `result`.
pub open spec fn state_after<R>(state: ReceiverState, result: Result<R>) -> ReceiverState {
    if result is Ok {
        state
    } else {
        ReceiverState::StopRequired
    }
}

impl<T, S> F32RxStreamInner<T, S> {
    /// What holds of every stream.
    pub open spec fn consistent(self) -> bool {
        self.stream matches Some(stream) ==> stream@.consistent()
    }

    /// Stream of a device, not started yet.
    pub fn new(device: DeviceInner) -> (stream: Self)
        ensures
            stream == (F32RxStreamInner {
                device,
                stream: None::<DirectRxStream<T, S>>,
                stats: streaming::no_stats(),
                state: ReceiverState::Stopped,
            }),
            stream.consistent(),
    {
        F32RxStreamInner {
            device,
            stream: None,
            stats: StreamingStats::default(),
            state: ReceiverState::Stopped,
        }
    }

    /// Begin a start.
    pub fn begin_start(&mut self) -> (result: Result<StartPlan>)
        ensures
            final(self).device == old(self).device,
            final(self).stream == old(self).stream,
            final(self).stats == old(self).stats,
            old(self).state == ReceiverState::Running ==> result == Ok::<StartPlan, Error>(
                StartPlan::Nothing,
            ) && final(self).state == old(self).state,
            old(self).state != ReceiverState::Running ==> {
                &&& result == match f32_start_check(old(self).device) {
                    Err(error) => Err::<StartPlan, Error>(error),
                    Ok(()) => Ok(StartPlan::Full),
                }
                &&& final(self).state == if high_level::f32_stream_format(
                    old(self).device.active,
                ) is Ok {
                    ReceiverState::StopRequired
                } else {
                    old(self).state
                }
            },
    {
        if self.state == ReceiverState::Running {
            return Ok(StartPlan::Nothing);
        }
        match self.device.ensure_f32_iq_stream_format() {
            Err(error) => return Err(error),
            Ok(()) => {},
        }
        self.state = ReceiverState::StopRequired;
        match self.device.direct.check_rx_stream() {
            Err(error) => Err(error),
            Ok(()) => Ok(StartPlan::Full),
        }
    }

    /// Take the outcome of a full start.
    pub fn finish_start(&mut self, result: Result<()>) -> (outcome: Result<()>)
        requires
            old(self).consistent(),
        ensures
            outcome == result,
            final(self).consistent(),
            final(self).device == old(self).device,
            final(self).stats == old(self).stats,
            result is Err ==> *final(self) == *old(self),
            result is Ok ==> final(self).state == ReceiverState::Running && (
            final(self).stream matches Some(stream) && stream@ == DirectView::<T, S>::fresh(
                old(self).device.direct@.streaming,
            )),
    {
        if result.is_ok() {
            self.stream = Some(DirectRxStream::new(self.device.direct.streaming_config()));
            self.state = ReceiverState::Running;
        }
        result
    }

    /// Begin a read of `out_len` samples.
    pub fn begin_read(&mut self, out_len: usize) -> (result: Result<ReadStart<S>>)
        requires
            old(self).consistent(),
        ensures
            final(self).consistent(),
            final(self).device == old(self).device,
            final(self).stats == old(self).stats,
            old(self).state != ReceiverState::Running ==> result == Err::<ReadStart<S>, Error>(
                stopped_error("synchronous F32 RX stream is stopped"),
            ) && *final(self) == *old(self),
            old(self).state == ReceiverState::Running && old(self).stream is None ==> result
                == Err::<ReadStart<S>, Error>(stopped_error("F32 RX stream is closed"))
                && final(self).state == old(self).state && final(self).stream is None,
            old(self).state == ReceiverState::Running ==> (old(self).stream matches Some(before)
                ==> (final(self).stream matches Some(after) && final(self).state == state_after(
                old(self).state,
                result,
            ) && read_begun(
                before@,
                out_len,
                after@,
                result,
                "direct RX stream is closed",
            ))),
    {
        if self.state != ReceiverState::Running {
            return Err(Error::StreamClosed("synchronous F32 RX stream is stopped"));
        }
        let result: Result<ReadStart<S>> = match &mut self.stream {
            None => return Err(Error::StreamClosed("F32 RX stream is closed")),
            Some(stream) => stream.begin_read(out_len),
        };
        if result.is_err() {
            self.state = ReceiverState::StopRequired;
        }
        result
    }

    /// Take a completion that a read waited for.
    pub fn on_completion(&mut self, completion: BulkInCompletion<T>) -> (result: Result<()>)
        requires
            old(self).consistent(),
            old(self).stream matches Some(stream) && stream@.has_room(),
        ensures
            final(self).consistent(),
            final(self).device == old(self).device,
            final(self).stats == old(self).stats,
            final(self).state == state_after(old(self).state, result),
            old(self).stream matches Some(before) && (final(self).stream matches Some(after) && if before@.closed {
                result == Err::<(), Error>(stopped_error("direct RX stream is closed")) && after@
                    == before@
            } else {
                after@ == before@.taken(completion) && result == match streaming::completion_error(
                    completion,
                    streaming::transfer_bytes(before@.config.spec_packing()),
                ) {
                    None => Ok::<(), Error>(()),
                    Some(error) => Err(error),
                }
            }),
    {
        let result: Result<()> = match &mut self.stream {
            None => Ok(()),
            Some(stream) => stream.on_completion(completion),
        };
        if result.is_err() {
            self.state = ReceiverState::StopRequired;
        }
        result
    }

    /// Record that the planned conversion of a read was done.
    pub fn on_converted(&mut self, progress: &mut ReadProgress, pending: Option<S>) -> (result:
        Result<Option<T>>)
        requires
            old(self).consistent(),
            old(self).stream matches Some(stream) && stream@.current is Some,
            old(progress).written < old(progress).out_len,
        ensures
            final(self).consistent(),
            final(self).device == old(self).device,
            final(self).stats == old(self).stats,
            final(self).state == state_after(old(self).state, result),
            old(self).stream matches Some(before) && (final(self).stream matches Some(after) && {
                &&& after@ == before@.converted(*old(progress), pending)
                &&& *final(progress) == before@.progressed(*old(progress))
                &&& result == before@.conversion_result(*old(progress))
            }),
            final(progress).written <= final(progress).out_len,
    {
        let result: Result<Option<T>> = match &mut self.stream {
            None => Ok(None),
            Some(stream) => stream.on_converted(progress, pending),
        };
        if result.is_err() {
            self.state = ReceiverState::StopRequired;
        }
        result
    }

    /// Begin a stop. The stream lets its queue go.
    pub fn begin_stop(&mut self) -> (plan: StopPlan)
        requires
            old(self).consistent(),
        ensures
            final(self).consistent(),
            final(self).device == old(self).device,
            final(self).state == old(self).state,
            old(self).state == ReceiverState::Stopped ==> plan == StopPlan::Finished(
                old(self).stats,
            ) && *final(self) == *old(self),
            old(self).state != ReceiverState::Stopped ==> final(self).stream is None && match old(self).stream {
                None => plan == (StopPlan::SwitchOff { cancel_queue: false }) && final(self).stats
                    == old(self).stats,
                Some(stream) => plan == (StopPlan::SwitchOff { cancel_queue: !stream@.closed })
                    && final(self).stats == stream@.stats,
            },
    {
        if self.state == ReceiverState::Stopped {
            return StopPlan::Finished(self.stats);
        }
        match self.stream.take() {
            None => StopPlan::SwitchOff { cancel_queue: false },
            Some(stream) => {
                let mut stream: DirectRxStream<T, S> = stream;
                let cancel_queue: bool = !stream.is_closed();
                self.stats = stream.close();
                StopPlan::SwitchOff { cancel_queue }
            },
        }
    }

    /// Take the outcome of the receiver-off request of a stop.
    pub fn finish_stop(&mut self, result: Result<()>) -> (outcome: Result<StreamingStats>)
        ensures
            outcome == match result {
                Ok(()) => Ok::<StreamingStats, Error>(old(self).stats),
                Err(error) => Err(error),
            },
            final(self).device == old(self).device,
            final(self).stream == old(self).stream,
            final(self).stats == old(self).stats,
            final(self).state == if result is Ok {
                ReceiverState::Stopped
            } else {
                ReceiverState::StopRequired
            },
    {
        match result {
            Ok(()) => {
                self.state = ReceiverState::Stopped;
                Ok(self.stats)
            },
            Err(error) => {
                self.state = ReceiverState::StopRequired;
                Err(error)
            },
        }
    }

    /// Give the device back.
    pub fn into_device(self) -> (device: DeviceInner)
        ensures
            device == self.device,
    {
        self.device
    }

    /// Shared handle to the active receiver state.
    pub fn active_state(&self) -> (handle: ActiveState)
        ensures
            handle == self.device.info.active_state,
    {
        self.device.info.active_state.clone()
    }
}

/// Whether a read of `out_len` samples takes a stream from `before` to `after`
/// when it begins, and comes out as `result`.
pub open spec fn read_begun<T, S>(
    before: DirectView<T, S>,
    out_len: usize,
    after: DirectView<T, S>,
    result: Result<ReadStart<S>>,
    reason: &'static str,
) -> bool {
    if before.closed {
        result == Err::<ReadStart<S>, Error>(stopped_error(reason)) && after == before
    } else {
        &&& after == before.begun(out_len).0
        &&& result matches Ok(start) && start.progress == before.begun(out_len).1 && start.first
            == if out_len == 0 { None } else { before.pending_iq }
    }
}

/// Counters after `count` completions from before a restart.
pub open spec fn after_discards(stats: StreamingStats, count: nat) -> StreamingStats
    decreases count,
{
    if count == 0 {
        stats
    } else {
        after_discards(stats, (count - 1) as nat).with_discarded()
    }
}

/// Law: each completion from before a restart is counted once as received, once
/// as dropped and once as discarded on restart, and not as processed.
pub proof fn law_discarded_completions_are_counted_once(stats: StreamingStats, count: nat)
    requires
        stats.balanced(),
        stats.buffers_received + count <= u64::MAX,
    ensures
        ({
            let after = after_discards(stats, count);
            &&& after.buffers_received == stats.buffers_received + count
            &&& after.buffers_dropped == stats.buffers_dropped + count
            &&& after.buffers_discarded_on_restart == stats.buffers_discarded_on_restart + count
            &&& after.buffers_processed == stats.buffers_processed
            &&& after.balanced()
        }),
    decreases count,
{
    if count > 0 {
        law_discarded_completions_are_counted_once(stats, (count - 1) as nat);
    }
}

/// Whether an asynchronous raw stream goes through `states` as it takes
/// `completions` one after the other, with `results`.
pub open spec fn raw_course<T>(
    completions: Seq<BulkInCompletion<T>>,
    states: Seq<RawView<T>>,
    results: Seq<Result<RawStep<T>>>,
) -> bool {
    &&& states.len() == completions.len() + 1
    &&& results.len() == completions.len()
    &&& forall|i: int|
        #![trigger completions[i]]
        0 <= i < completions.len() ==> streaming::raw_completed(
            states[i],
            completions[i],
            states[i + 1],
            results[i],
        )
}

/// Law: a raw stream that was paused with `pending` transfers in its queue hands
/// each of these back for the queue when it goes on, whatever its outcome, and
/// counts it as discarded. The completion after them is the next block, or closes
/// the stream where it failed.
pub proof fn law_a_restarted_raw_stream_delivers_fresh_blocks<T>(
    paused: RawView<T>,
    pending: nat,
    completions: Seq<BulkInCompletion<T>>,
    states: Seq<RawView<T>>,
    results: Seq<Result<RawStep<T>>>,
)
    requires
        !paused.closed,
        raw_course(completions, states, results),
        completions.len() > pending,
        states[0] == (RawView { discard: pending, ..paused }),
    ensures
        forall|i: int|
            0 <= i < pending ==> #[trigger] results[i] == Ok::<RawStep<T>, Error>(
                RawStep::Resubmit(completions[i].buffer),
            ),
        states[pending as int] == (RawView {
            stats: after_discards(paused.stats, pending),
            discard: 0,
            ..paused
        }),
        states[pending as int + 1] == states[pending as int].taken(completions[pending as int]),
        results[pending as int] == match streaming::completion_error(
            completions[pending as int],
            streaming::transfer_bytes(paused.packing),
        ) {
            None => Ok::<RawStep<T>, Error>(
                RawStep::Block(
                    streaming::spec_transfer(after_discards(paused.stats, pending), paused.packing),
                ),
            ),
            Some(error) => Err(error),
        },
{
    assert forall|i: int| 0 <= i < pending implies #[trigger] results[i] == Ok::<RawStep<T>, Error>(
        RawStep::Resubmit(completions[i].buffer),
    ) by {
        lemma_raw_stream_discards(paused, pending, completions, states, results, i as nat);
        assert(streaming::raw_completed(states[i], completions[i], states[i + 1], results[i]));
    }
    lemma_raw_stream_discards(paused, pending, completions, states, results, pending);
    assert(streaming::raw_completed(
        states[pending as int],
        completions[pending as int],
        states[pending as int + 1],
        results[pending as int],
    ));
}

/// A raw stream that goes on after a pause has discarded the first `taken`
/// completions.
proof fn lemma_raw_stream_discards<T>(
    paused: RawView<T>,
    pending: nat,
    completions: Seq<BulkInCompletion<T>>,
    states: Seq<RawView<T>>,
    results: Seq<Result<RawStep<T>>>,
    taken: nat,
)
    requires
        !paused.closed,
        raw_course(completions, states, results),
        completions.len() > pending,
        states[0] == (RawView { discard: pending, ..paused }),
        taken <= pending,
    ensures
        states[taken as int] == (RawView {
            stats: after_discards(paused.stats, taken),
            discard: (pending - taken) as nat,
            ..paused
        }),
    decreases taken,
{
    if taken > 0 {
        lemma_raw_stream_discards(
            paused,
            pending,
            completions,
            states,
            results,
            (taken - 1) as nat,
        );
        assert(streaming::raw_completed(
            states[taken - 1],
            completions[taken - 1],
            states[taken as int],
            results[taken - 1],
        ));
    }
}

/// Owned async stream of raw ADC blocks.
pub struct AsyncRawRxStreamInner<T> {
    /// Device of the stream.
    pub device: DeviceInner,
    /// Transfer queue, while there is one.
    pub stream: Option<AsyncRawRxStream<T>>,
    /// Counters of the last run.
    pub stats: StreamingStats,
    /// What is known of the receiver.
    pub state: ReceiverState,
}

impl<T> AsyncRawRxStreamInner<T> {
    /// Whether the queue of an earlier run can go on.
    pub open spec fn reusable(self) -> bool {
        self.stream matches Some(stream) && !stream@.closed
    }

    /// Stream of a device, not started yet.
    pub fn new(device: DeviceInner) -> (stream: Self)
        ensures
            stream == (AsyncRawRxStreamInner {
                device,
                stream: None::<AsyncRawRxStream<T>>,
                stats: streaming::no_stats(),
                state: ReceiverState::Stopped,
            }),
    {
        AsyncRawRxStreamInner {
            device,
            stream: None,
            stats: StreamingStats::default(),
            state: ReceiverState::Stopped,
        }
    }

    /// Begin a start. A closed queue is let go, an open one goes on.
    pub fn begin_start(&mut self) -> (result: Result<StartPlan>)
        ensures
            final(self).device == old(self).device,
            final(self).stats == old(self).stats,
            old(self).state == ReceiverState::Running && old(self).reusable() ==> result == Ok::<
                StartPlan,
                Error,
            >(StartPlan::Nothing) && *final(self) == *old(self),
            !(old(self).state == ReceiverState::Running && old(self).reusable())
                ==> match high_level::raw_stream_format(old(self).device.active) {
                Err(error) => result == Err::<StartPlan, Error>(error) && *final(self) == *old(self),
                Ok(()) => final(self).state == ReceiverState::StopRequired && if old(self).reusable() {
                    result == Ok::<StartPlan, Error>(StartPlan::Resume) && final(self).stream
                        == old(self).stream
                } else {
                    result == Ok::<StartPlan, Error>(StartPlan::Full) && final(self).stream is None
                },
            },
    {
        let reusable: bool = match &self.stream {
            None => false,
            Some(stream) => !stream.is_closed(),
        };
        if self.state == ReceiverState::Running && reusable {
            return Ok(StartPlan::Nothing);
        }
        match self.device.ensure_raw_adc_stream_format() {
            Err(error) => return Err(error),
            Ok(()) => {},
        }
        self.state = ReceiverState::StopRequired;
        if reusable {
            return Ok(StartPlan::Resume);
        }
        self.stream = None;
        Ok(StartPlan::Full)
    }

    /// Take the outcome of a start by `plan`.
    pub fn finish_start(&mut self, plan: StartPlan, result: Result<()>) -> (outcome: Result<()>)
        ensures
            outcome == result,
            final(self).device == old(self).device,
            final(self).stats == old(self).stats,
            result is Err ==> *final(self) == *old(self),
            result is Ok ==> final(self).state == ReceiverState::Running,
            result is Ok && plan != StartPlan::Full ==> final(self).stream == old(self).stream,
            result is Ok && plan == StartPlan::Full ==> (final(self).stream matches Some(stream)
                && stream@ == (RawView {
                packing: old(self).device.direct@.streaming.spec_packing(),
                stats: streaming::no_stats(),
                current: None::<T>,
                discard: 0,
                closed: false,
            })),
    {
        if result.is_ok() {
            if plan == StartPlan::Full {
                self.stream = Some(AsyncRawRxStream::new(self.device.direct.streaming_config()));
            }
            self.state = ReceiverState::Running;
        }
        result
    }

    /// Begin to read the next block: the buffer of the one before is handed out
    /// for the queue.
    pub fn begin_next_block(&mut self) -> (result: Result<Option<T>>)
        ensures
            final(self).device == old(self).device,
            final(self).stats == old(self).stats,
            final(self).state == old(self).state,
            old(self).state != ReceiverState::Running ==> result == Err::<Option<T>, Error>(
                stopped_error("async raw RX stream is stopped"),
            ) && final(self).stream == old(self).stream,
            old(self).state == ReceiverState::Running && old(self).stream is None ==> result
                == Err::<Option<T>, Error>(stopped_error("async RX stream is closed"))
                && final(self).stream is None,
            old(self).state == ReceiverState::Running ==> (old(self).stream matches Some(before)
                ==> (final(self).stream matches Some(after) && if before@.closed {
                result == Err::<Option<T>, Error>(stopped_error("async raw RX stream is closed"))
                    && after@ == before@
            } else {
                result == Ok::<Option<T>, Error>(before@.current) && after@ == (RawView {
                    current: None,
                    ..before@
                })
            })),
    {
        if self.state != ReceiverState::Running {
            return Err(Error::StreamClosed("async raw RX stream is stopped"));
        }
        match &mut self.stream {
            None => Err(Error::StreamClosed("async RX stream is closed")),
            Some(stream) => stream.begin_read(),
        }
    }

    /// Take a completion that a read waited for.
    pub fn on_completion(&mut self, completion: BulkInCompletion<T>) -> (result: Result<RawStep<T>>)
        requires
            old(self).stream matches Some(stream) && stream@.has_room(),
        ensures
            final(self).device == old(self).device,
            final(self).stats == old(self).stats,
            final(self).state == old(self).state,
            old(self).stream matches Some(before) && (final(self).stream matches Some(after)
                && streaming::raw_completed(before@, completion, after@, result)),
    {
        match &mut self.stream {
            None => Ok(RawStep::Resubmit(completion.buffer)),
            Some(stream) => stream.on_completion(completion),
        }
    }

    /// Begin a stop: nothing is to be done where the stream is stopped already.
    pub fn begin_stop(&self) -> (plan: StopPlan)
        ensures
            plan == if self.state == ReceiverState::Stopped {
                StopPlan::Finished(self.stats)
            } else {
                StopPlan::SwitchOff { cancel_queue: false }
            },
    {
        if self.state == ReceiverState::Stopped {
            StopPlan::Finished(self.stats)
        } else {
            StopPlan::SwitchOff { cancel_queue: false }
        }
    }

    /// Take the outcome of the receiver-off request of a stop.
    ///
    /// After it succeeded, an open queue is paused: the buffer of the current
    /// block, if there is one, is queued again.
    pub fn on_switched_off(&mut self, result: Result<()>) -> (outcome: Result<Option<T>>)
        ensures
            final(self).device == old(self).device,
            final(self).stats == old(self).stats,
            match result {
                Err(error) => outcome == Err::<Option<T>, Error>(error) && *final(self) == *old(self),
                Ok(()) => final(self).state == ReceiverState::Stopped && match old(self).stream {
                    None => outcome == Ok::<Option<T>, Error>(None) && final(self).stream is None,
                    Some(before) => outcome == Ok::<Option<T>, Error>(before@.current) && (
                    final(self).stream matches Some(after) && after@ == (RawView {
                        current: None,
                        ..before@
                    })),
                },
            },
    {
        match result {
            Err(error) => Err(error),
            Ok(()) => {
                self.state = ReceiverState::Stopped;
                match &mut self.stream {
                    None => Ok(None),
                    Some(stream) => Ok(stream.begin_pause()),
                }
            },
        }
    }

    /// Finish a stop with `pending` transfers left in the queue, which the
    /// driver cancels.
    pub fn finish_stop(&mut self, pending: usize) -> (stats: StreamingStats)
        ensures
            final(self).device == old(self).device,
            final(self).state == old(self).state,
            stats == final(self).stats,
            match old(self).stream {
                None => *final(self) == *old(self),
                Some(before) => (final(self).stream matches Some(after) && after@
                    == if before@.closed {
                    before@
                } else {
                    RawView { discard: pending as nat, ..before@ }
                }) && stats == before@.stats,
            },
    {
        match &mut self.stream {
            None => {},
            Some(stream) => {
                stream.finish_pause(pending);
                self.stats = stream.stats();
            },
        }
        self.stats
    }

    /// Give the device back.
    pub fn into_device(self) -> (device: DeviceInner)
        ensures
            device == self.device,
    {
        self.device
    }

    /// Shared handle to the active receiver state.
    pub fn active_state(&self) -> (handle: ActiveState)
        ensures
            handle == self.device.info.active_state,
    {
        self.device.info.active_state.clone()
    }
}

/// Owned async stream of converted `F32Iq` samples.
pub struct AsyncF32RxStreamInner<T, S> {
    /// Device of the stream.
    pub device: DeviceInner,
    /// Transfer queue, while there is one.
    pub stream: Option<AsyncDirectRxStream<T, S>>,
    /// Counters of the last run.
    pub stats: StreamingStats,
    /// What is known of the receiver.
    pub state: ReceiverState,
}

impl<T, S> AsyncF32RxStreamInner<T, S> {
    /// What holds of every stream.
    pub open spec fn consistent(self) -> bool {
        self.stream matches Some(stream) ==> stream@.consistent()
    }

    /// Stream of a device, not started yet.
    pub fn new(device: DeviceInner) -> (stream: Self)
        ensures
            stream == (AsyncF32RxStreamInner {
                device,
                stream: None::<AsyncDirectRxStream<T, S>>,
                stats: streaming::no_stats(),
                state: ReceiverState::Stopped,
            }),
            stream.consistent(),
    {
        AsyncF32RxStreamInner {
            device,
            stream: None,
            stats: StreamingStats::default(),
            state: ReceiverState::Stopped,
        }
    }

    /// Begin a start. A queue that is there goes on, with the decimation that is
    /// configured now.
    pub fn begin_start(&mut self) -> (result: Result<StartPlan>)
        requires
            old(self).consistent(),
        ensures
            final(self).consistent(),
            final(self).device == old(self).device,
            final(self).stats == old(self).stats,
            old(self).state == ReceiverState::Running ==> result == Ok::<StartPlan, Error>(
                StartPlan::Nothing,
            ) && *final(self) == *old(self),
            old(self).state != ReceiverState::Running ==> match high_level::f32_stream_format(
                old(self).device.active,
            ) {
                Err(error) => result == Err::<StartPlan, Error>(error) && *final(self) == *old(self),
                Ok(()) => final(self).state == ReceiverState::StopRequired && match old(self).stream {
                    Some(before) => result == Ok::<StartPlan, Error>(StartPlan::Resume) && (
                    final(self).stream matches Some(after) && {
                        &&& after@ == (DirectView { config: after@.config, ..before@ })
                        &&& after@.config.spec_decimation() == old(self).device.direct@.streaming.spec_decimation()
                        &&& after@.config.spec_packing() == before@.config.spec_packing()
                    }),
                    None => final(self).stream is None && result == match f32_start_check(
                        old(self).device,
                    ) {
                        Err(error) => Err::<StartPlan, Error>(error),
                        Ok(()) => Ok(StartPlan::Full),
                    },
                },
            },
    {
        if self.state == ReceiverState::Running {
            return Ok(StartPlan::Nothing);
        }
        match self.device.ensure_f32_iq_stream_format() {
            Err(error) => return Err(error),
            Ok(()) => {},
        }
        let factor: usize = self.device.direct.streaming_decimation_factor();
        match &mut self.stream {
            Some(stream) => {
                match stream.set_decimation_factor(factor) {
                    Err(error) => return Err(error),
                    Ok(()) => {},
                }
                self.state = ReceiverState::StopRequired;
                Ok(StartPlan::Resume)
            },
            None => {
                self.state = ReceiverState::StopRequired;
                match self.device.direct.check_rx_stream() {
                    Err(error) => Err(error),
                    Ok(()) => Ok(StartPlan::Full),
                }
            },
        }
    }

    /// Take the outcome of a start by `plan`.
    pub fn finish_start(&mut self, plan: StartPlan, result: Result<()>) -> (outcome: Result<()>)
        requires
            old(self).consistent(),
        ensures
            outcome == result,
            final(self).consistent(),
            final(self).device == old(self).device,
            final(self).stats == old(self).stats,
            result is Err ==> *final(self) == *old(self),
            result is Ok ==> final(self).state == ReceiverState::Running,
            result is Ok && plan != StartPlan::Full ==> final(self).stream == old(self).stream,
            result is Ok && plan == StartPlan::Full ==> (final(self).stream matches Some(stream)
                && stream@ == DirectView::<T, S>::fresh(old(self).device.direct@.streaming)),
    {
        if result.is_ok() {
            if plan == StartPlan::Full {
                self.stream = Some(
                    AsyncDirectRxStream::new(self.device.direct.streaming_config()),
                );
            }
            self.state = ReceiverState::Running;
        }
        result
    }

    /// Begin a read of `out_len` samples.
    pub fn begin_read(&mut self, out_len: usize) -> (result: Result<ReadStart<S>>)
        requires
            old(self).consistent(),
        ensures
            final(self).consistent(),
            final(self).device == old(self).device,
            old(self).state != ReceiverState::Running ==> result == Err::<ReadStart<S>, Error>(
                stopped_error("async F32 RX stream is stopped"),
            ) && *final(self) == *old(self),
            old(self).state == ReceiverState::Running && old(self).stream is None ==> result
                == Err::<ReadStart<S>, Error>(stopped_error("async F32 RX stream is closed"))
                && *final(self) == *old(self),
            old(self).state == ReceiverState::Running ==> (old(self).stream matches Some(before)
                ==> if before@.closed {
                result == Err::<ReadStart<S>, Error>(
                    stopped_error("async direct RX stream is closed"),
                ) && final(self).failed(before@.stats)
            } else {
                &&& final(self).state == ReceiverState::Running
                &&& final(self).stats == old(self).stats
                &&& final(self).stream matches Some(after) && read_begun(
                    before@,
                    out_len,
                    after@,
                    result,
                    "async direct RX stream is closed",
                )
            }),
    {
        if self.state != ReceiverState::Running {
            return Err(Error::StreamClosed("async F32 RX stream is stopped"));
        }
        let result: Result<ReadStart<S>> = match &mut self.stream {
            None => return Err(Error::StreamClosed("async F32 RX stream is closed")),
            Some(stream) => stream.begin_read(out_len),
        };
        if result.is_err() {
            self.fail();
        }
        result
    }

    /// State of a stream whose read failed with these counters: the queue is
    /// gone and the receiver has to be switched off.
    pub open spec fn failed(self, stats: StreamingStats) -> bool {
        &&& self.stream is None
        &&& self.stats == stats
        &&& self.state == ReceiverState::StopRequired
    }

    fn fail(&mut self)
        requires
            old(self).consistent(),
            old(self).stream is Some,
        ensures
            final(self).consistent(),
            final(self).device == old(self).device,
            old(self).stream matches Some(stream) && final(self).failed(stream@.stats),
    {
        match self.stream.take() {
            None => {},
            Some(stream) => {
                let mut stream: AsyncDirectRxStream<T, S> = stream;
                self.stats = stream.close();
            },
        }
        self.state = ReceiverState::StopRequired;
    }

    /// Take a completion that a read waited for.
    ///
    /// A failure lets the queue go; the driver cancels it where it was open.
    pub fn on_completion(&mut self, completion: BulkInCompletion<T>) -> (result: Result<
        DirectStep<T>,
    >)
        requires
            old(self).consistent(),
            old(self).stream matches Some(stream) && stream@.has_room(),
        ensures
            final(self).consistent(),
            final(self).device == old(self).device,
            old(self).stream matches Some(before) && if before@.closed {
                result == Err::<DirectStep<T>, Error>(
                    stopped_error("async direct RX stream is closed"),
                ) && final(self).failed(before@.stats)
            } else if before@.discard > 0 {
                &&& result == Ok::<DirectStep<T>, Error>(DirectStep::Resubmit(completion.buffer))
                &&& final(self).state == old(self).state
                &&& final(self).stats == old(self).stats
                &&& final(self).stream matches Some(after) && after@ == (DirectView {
                    stats: before@.stats.with_discarded(),
                    discard: (before@.discard - 1) as nat,
                    ..before@
                })
            } else {
                match streaming::completion_error(
                    completion,
                    streaming::transfer_bytes(before@.config.spec_packing()),
                ) {
                    None => {
                        &&& result == Ok::<DirectStep<T>, Error>(DirectStep::Ready)
                        &&& final(self).state == old(self).state
                        &&& final(self).stats == old(self).stats
                        &&& final(self).stream matches Some(after) && after@ == before@.taken(
                            completion,
                        )
                    },
                    Some(error) => {
                        &&& result == Err::<DirectStep<T>, Error>(error)
                        &&& final(self).failed(before@.stats.with_dropped())
                    },
                }
            },
    {
        let result: Result<DirectStep<T>> = match &mut self.stream {
            None => return Ok(DirectStep::Ready),
            Some(stream) => stream.on_completion(completion),
        };
        if result.is_err() {
            self.fail();
        }
        result
    }

    /// Record that the planned conversion of a read was done.
    pub fn on_converted(&mut self, progress: &mut ReadProgress, pending: Option<S>) -> (result:
        Result<Option<T>>)
        requires
            old(self).consistent(),
            old(self).stream matches Some(stream) && stream@.current is Some,
            old(progress).written < old(progress).out_len,
        ensures
            final(self).consistent(),
            final(self).device == old(self).device,
            final(progress).written <= final(progress).out_len,
            old(self).stream matches Some(before) && {
                &&& *final(progress) == before@.progressed(*old(progress))
                &&& result == before@.conversion_result(*old(progress))
                &&& result is Err ==> final(self).failed(before@.stats)
                &&& result is Ok ==> final(self).state == old(self).state && final(self).stats
                    == old(self).stats && (final(self).stream matches Some(after) && after@
                    == before@.converted(*old(progress), pending))
            },
    {
        let result: Result<Option<T>> = match &mut self.stream {
            None => return Ok(None),
            Some(stream) => stream.on_converted(progress, pending),
        };
        if result.is_err() {
            self.fail();
        }
        result
    }

    /// Begin a stop: nothing is to be done where the stream is stopped already.
    pub fn begin_stop(&self) -> (plan: StopPlan)
        ensures
            plan == if self.state == ReceiverState::Stopped {
                StopPlan::Finished(self.stats)
            } else {
                StopPlan::SwitchOff { cancel_queue: false }
            },
    {
        if self.state == ReceiverState::Stopped {
            StopPlan::Finished(self.stats)
        } else {
            StopPlan::SwitchOff { cancel_queue: false }
        }
    }

    /// Take the outcome of the receiver-off request of a stop.
    ///
    /// After it succeeded, the queue is paused: what was buffered is forgotten,
    /// and the buffer under conversion, if there is one, is queued again.
    pub fn on_switched_off(&mut self, result: Result<()>) -> (outcome: Result<Option<T>>)
        requires
            old(self).consistent(),
        ensures
            final(self).consistent(),
            final(self).device == old(self).device,
            final(self).stats == old(self).stats,
            match result {
                Err(error) => outcome == Err::<Option<T>, Error>(error) && *final(self) == *old(self),
                Ok(()) => final(self).state == ReceiverState::Stopped && match old(self).stream {
                    None => outcome == Ok::<Option<T>, Error>(None) && final(self).stream is None,
                    Some(before) => outcome == if before@.closed {
                        Err::<Option<T>, Error>(stopped_error("async direct RX stream is closed"))
                    } else {
                        Ok::<Option<T>, Error>(before@.current)
                    } && (final(self).stream matches Some(after) && after@ == (DirectView {
                        current: None,
                        current_len: 0,
                        current_offset: 0,
                        pending_iq: None,
                        ..before@
                    })),
                },
            },
    {
        match result {
            Err(error) => Err(error),
            Ok(()) => {
                self.state = ReceiverState::Stopped;
                match &mut self.stream {
                    None => Ok(None),
                    Some(stream) => stream.begin_pause(),
                }
            },
        }
    }

    /// Finish a stop with `pending` transfers left in the queue, which the
    /// driver cancels.
    pub fn finish_stop(&mut self, pending: usize) -> (stats: StreamingStats)
        requires
            old(self).consistent(),
        ensures
            final(self).consistent(),
            final(self).device == old(self).device,
            final(self).state == old(self).state,
            stats == final(self).stats,
            match old(self).stream {
                None => *final(self) == *old(self),
                Some(before) => (final(self).stream matches Some(after) && after@ == (DirectView {
                    discard: pending as nat,
                    ..before@
                })) && stats == before@.stats,
            },
    {
        match &mut self.stream {
            None => {},
            Some(stream) => {
                stream.finish_pause(pending);
                self.stats = stream.stats();
            },
        }
        self.stats
    }

    /// Give the device back.
    pub fn into_device(self) -> (device: DeviceInner)
        ensures
            device == self.device,
    {
        self.device
    }

    /// Shared handle to the active receiver state.
    pub fn active_state(&self) -> (handle: ActiveState)
        ensures
            handle == self.device.info.active_state,
    {
        self.device.info.active_state.clone()
    }
}

/// Whether an asynchronous stream of converted samples goes through `states` as
/// it takes `completions` one after the other, with `results`.
pub open spec fn direct_course<T, S>(
    completions: Seq<BulkInCompletion<T>>,
    states: Seq<DirectView<T, S>>,
    results: Seq<Result<DirectStep<T>>>,
) -> bool {
    &&& states.len() == completions.len() + 1
    &&& results.len() == completions.len()
    &&& forall|i: int|
        #![trigger completions[i]]
        0 <= i < completions.len() ==> streaming::direct_completed(
            states[i],
            completions[i],
            states[i + 1],
            results[i],
        )
}

/// Law: a stream of converted samples that was paused with `pending` transfers in
/// its queue hands each of these back for the queue when it goes on, whatever its
/// outcome, and counts it as discarded. The completion after them is the next to
/// be converted, or closes the stream where it failed.
pub proof fn law_a_restarted_iq_stream_converts_fresh_transfers<T, S>(
    paused: DirectView<T, S>,
    pending: nat,
    completions: Seq<BulkInCompletion<T>>,
    states: Seq<DirectView<T, S>>,
    results: Seq<Result<DirectStep<T>>>,
)
    requires
        !paused.closed,
        direct_course(completions, states, results),
        completions.len() > pending,
        states[0] == (DirectView { discard: pending, ..paused }),
    ensures
        forall|i: int|
            0 <= i < pending ==> #[trigger] results[i] == Ok::<DirectStep<T>, Error>(
                DirectStep::Resubmit(completions[i].buffer),
            ),
        states[pending as int] == (DirectView {
            stats: after_discards(paused.stats, pending),
            discard: 0,
            ..paused
        }),
        states[pending as int + 1] == states[pending as int].taken(completions[pending as int]),
        results[pending as int] == match streaming::completion_error(
            completions[pending as int],
            streaming::transfer_bytes(paused.config.spec_packing()),
        ) {
            None => Ok::<DirectStep<T>, Error>(DirectStep::Ready),
            Some(error) => Err(error),
        },
{
    assert forall|i: int| 0 <= i < pending implies #[trigger] results[i] == Ok::<DirectStep<T>, Error>(
        DirectStep::Resubmit(completions[i].buffer),
    ) by {
        lemma_iq_stream_discards(paused, pending, completions, states, results, i as nat);
        assert(streaming::direct_completed(states[i], completions[i], states[i + 1], results[i]));
    }
    lemma_iq_stream_discards(paused, pending, completions, states, results, pending);
    assert(streaming::direct_completed(
        states[pending as int],
        completions[pending as int],
        states[pending as int + 1],
        results[pending as int],
    ));
}

/// A stream of converted samples that goes on after a pause has discarded the
/// first `taken` completions.
proof fn lemma_iq_stream_discards<T, S>(
    paused: DirectView<T, S>,
    pending: nat,
    completions: Seq<BulkInCompletion<T>>,
    states: Seq<DirectView<T, S>>,
    results: Seq<Result<DirectStep<T>>>,
    taken: nat,
)
    requires
        !paused.closed,
        direct_course(completions, states, results),
        completions.len() > pending,
        states[0] == (DirectView { discard: pending, ..paused }),
        taken <= pending,
    ensures
        states[taken as int] == (DirectView {
            stats: after_discards(paused.stats, taken),
            discard: (pending - taken) as nat,
            ..paused
        }),
    decreases taken,
{
    if taken > 0 {
        lemma_iq_stream_discards(
            paused,
            pending,
            completions,
            states,
            results,
            (taken - 1) as nat,
        );
        assert(streaming::direct_completed(
            states[taken - 1],
            completions[taken - 1],
            states[taken as int],
            results[taken - 1],
        ));
    }
}

/// Law: a synchronous raw read delivers the block of a full transfer, nothing where
/// no transfer completed in time, and otherwise the error of the transfer. A
/// closed stream takes nothing.
pub proof fn law_what_a_raw_read_delivers<T>(
    before: RawView<T>,
    completion: Option<BulkInCompletion<T>>,
    after: RawView<T>,
    result: Result<Option<Transfer>>,
)
    requires
        raw_read(before, completion, after, result),
    ensures
        before.closed ==> after == before && result == Err::<Option<Transfer>, Error>(
            Error::StreamClosed("raw RX stream is closed"),
        ),
        !before.closed && completion is None ==> after == before && result == Ok::<
            Option<Transfer>,
            Error,
        >(None),
        !before.closed ==> (completion matches Some(taken) ==> {
            let problem = streaming::completion_error(
                taken,
                streaming::transfer_bytes(before.packing),
            );
            &&& after == before.taken(taken)
            &&& problem is None ==> result == Ok::<Option<Transfer>, Error>(
                Some(streaming::spec_transfer(before.stats, before.packing)),
            )
            &&& problem matches Some(error) ==> result == Err::<Option<Transfer>, Error>(error)
        }),
{
}

/// Law: a converted stream starts only where unpacked converted samples are both
/// reported and configured, and a raw stream only where raw samples are reported.
pub proof fn law_a_stream_starts_in_its_own_format(device: DeviceInner)
    ensures
        f32_start_check(device) is Ok ==> {
            &&& device.active.sample_format == crate::active_state::ActiveValue::Known(
                crate::config::SampleFormat::F32Iq,
            )
            &&& device.direct@.sample_type == SampleType::Float32Iq
            &&& !device.direct@.streaming.spec_packing()
        },
        f32_start_check(device) is Ok <==> high_level::f32_stream_format(device.active) is Ok
            && device.direct@.sample_type == SampleType::Float32Iq
            && !device.direct@.streaming.spec_packing(),
        high_level::f32_stream_format(device.active) matches Err(error) ==> f32_start_check(device)
            == Err::<(), Error>(error),
        high_level::f32_stream_format(device.active) is Ok && f32_start_check(device) is Err
            ==> f32_start_check(device) == Err::<(), Error>(Error::Unsupported),
{
}

/// Law: a failed step of a read leaves a receiver that has to be switched off, and
/// any other leaves it as it was.
pub proof fn law_a_failed_read_requires_a_stop<R>(state: ReceiverState, result: Result<R>)
    ensures
        result is Ok ==> state_after(state, result) == state,
        result is Err ==> state_after(state, result) == ReceiverState::StopRequired,
{
}

/// Law: a read begins with the sample that was retained, where there is room for
/// it, and not at all on a closed stream.
pub proof fn law_how_a_read_begins<T, S>(
    before: DirectView<T, S>,
    out_len: usize,
    after: DirectView<T, S>,
    result: Result<ReadStart<S>>,
    reason: &'static str,
)
    requires
        read_begun(before, out_len, after, result, reason),
    ensures
        before.closed ==> after == before && result == Err::<ReadStart<S>, Error>(
            Error::StreamClosed(reason),
        ),
        !before.closed ==> (result matches Ok(start) && {
            &&& start.progress.out_len == out_len
            &&& out_len == 0 ==> after == before && start.first is None && start.progress.written
                == 0
            &&& out_len > 0 ==> after.pending_iq is None && start.first == before.pending_iq
            &&& out_len > 0 ==> start.progress.written == if before.pending_iq is Some {
                1int
            } else {
                0int
            }
            &&& after.current == before.current && after.current_offset == before.current_offset
            &&& after.stats == before.stats && after.discard == before.discard && !after.closed
        }),
{
}

/// Law: an asynchronous raw stream goes on with a queue that it has and that is
/// open, and with no other.
pub proof fn law_only_an_open_queue_goes_on<T>(stream: AsyncRawRxStreamInner<T>)
    ensures
        stream.reusable() ==> (stream.stream matches Some(queue) && !queue@.closed),
        (stream.stream matches Some(queue) && !queue@.closed) ==> stream.reusable(),
        stream.stream is None ==> !stream.reusable(),
{
}

/// Law: a converted stream whose read failed has let its queue go, keeps the
/// counters that it had collected, and has a receiver that has to be switched off.
pub proof fn law_a_failed_read_lets_the_queue_go<T, S>(
    stream: AsyncF32RxStreamInner<T, S>,
    stats: StreamingStats,
)
    ensures
        stream.failed(stats) <==> stream.stream is None && stream.stats == stats && stream.state
            == ReceiverState::StopRequired,
{
}

} // verus!
