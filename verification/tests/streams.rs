use std::cell::RefCell;
use std::collections::VecDeque;
use std::rc::Rc;

use hydrasdr_rs::active_state::ActiveStateInner;
use hydrasdr_rs::commands::{ReceiverMode, VendorRequest};
use hydrasdr_rs::constants::{DEFAULT_BUFFER_SIZE, PACKED_BUFFER_SIZE};
use hydrasdr_rs::direct::{HydraSdr, StartStage};
use hydrasdr_rs::errors::StatusCode;
use hydrasdr_rs::high_level::DeviceInner;
use hydrasdr_rs::owned::{
    AsyncF32RxStreamInner, AsyncRawRxStreamInner, F32RxStreamInner, OwnedRawRxStreamInner,
    ReceiverState, StartPlan, StopPlan,
};
use hydrasdr_rs::rfone::{RFONE_RX_ENDPOINT, RFONE_TRANSFER_COUNT};
use hydrasdr_rs::streaming::{
    checked_completion, remaining_timeout, sample_count_for_buffer, validate_decimation_factor,
    AsyncDirectRxStream, AsyncRawRxStream, BulkInCompletion, DirectRxStream, DirectStep, RawRxStream,
    RawStep, ReadStep, StreamingConfig, Transfer,
};
use hydrasdr_rs::types::SampleType;
use hydrasdr_rs::usb::control::VendorControlRequest;
use hydrasdr_rs::usb::sequence::ControlSequence;
use hydrasdr_rs::{
    ActiveState, Config, ConfigData, DeviceInfo, Error, ErrorKind, Result, RxStream, SampleBlock,
    SampleFormat, StreamingStats,
};
use num_complex::Complex32;
use nusb::transfer::TransferError;

/// What a fake device was asked and how it answers.
#[derive(Debug, Default)]
struct FakeState {
    control_requests: Vec<VendorControlRequest>,
    control_out_count: usize,
    fail_control_out: bool,
    fail_control_out_at: usize,
    opened_endpoints: Vec<u8>,
    cleared_halts: Vec<u8>,
    allocated_sizes: Vec<usize>,
    submitted_count: usize,
    wait_count: usize,
    last_timeout: Option<u64>,
    cancel_count: usize,
    fail_next: bool,
    short_next: bool,
    /// Completions to hand out; without them each submitted buffer completes.
    script: Option<VecDeque<Vec<u8>>>,
}

#[derive(Clone, Debug, Default)]
struct Fake {
    state: Rc<RefCell<FakeState>>,
}

/// Transfer queue of a fake device.
#[derive(Debug)]
struct FakeBulkIn {
    state: Rc<RefCell<FakeState>>,
    submitted: VecDeque<Vec<u8>>,
}

impl FakeBulkIn {
    fn submit(&mut self, buffer: Vec<u8>) {
        self.state.borrow_mut().submitted_count += 1;
        self.submitted.push_back(buffer);
    }

    fn pending(&self) -> usize {
        self.submitted.len()
    }

    fn complete(&mut self, timeout: u64) -> Option<BulkInCompletion<Vec<u8>>> {
        let mut state = self.state.borrow_mut();
        state.wait_count += 1;
        state.last_timeout = Some(timeout);
        let buffer = match &mut state.script {
            Some(script) => script.pop_front()?,
            None => self.submitted.front()?.clone(),
        };
        self.submitted.pop_front();
        let status = if state.fail_next {
            Err(Error::from(TransferError::Fault))
        } else {
            Ok(())
        };
        let missing = if state.short_next { 2 } else { 0 };
        state.fail_next = false;
        state.short_next = false;
        Some(BulkInCompletion {
            buffer_len: buffer.len(),
            actual_len: buffer.len() - missing,
            buffer,
            status,
        })
    }

    fn cancel_all(&mut self) {
        self.state.borrow_mut().cancel_count += 1;
    }
}

impl Fake {
    fn scripted(completions: Vec<Vec<u8>>) -> Self {
        let fake = Self::default();
        fake.state.borrow_mut().script = Some(completions.into_iter().collect());
        fake
    }

    fn send(&self, request: &VendorControlRequest) -> Result<Vec<u8>> {
        let mut state = self.state.borrow_mut();
        state.control_requests.push(request.clone());
        if request.length > 0 {
            return Ok(vec![1; request.length]);
        }
        state.control_out_count += 1;
        if state.fail_control_out || state.fail_control_out_at == state.control_out_count {
            return Err(TransferError::Fault.into());
        }
        Ok(Vec::new())
    }

    fn run(&self, mut sequence: ControlSequence) -> Result<()> {
        while let Some(request) = sequence.next_request() {
            let reply = self.send(request);
            sequence.accept(reply)?;
        }
        sequence.finish()
    }

    fn receiver_modes(&self) -> Vec<u16> {
        self.state
            .borrow()
            .control_requests
            .iter()
            .filter(|request| request.request == VendorRequest::ReceiverMode)
            .map(|request| request.value)
            .collect()
    }

    /// Start the receiver and fill a queue.
    fn start(&self, direct: &HydraSdr) -> Result<FakeBulkIn> {
        let config = direct.streaming_config();
        let mut queue = FakeBulkIn {
            state: Rc::clone(&self.state),
            submitted: VecDeque::new(),
        };
        let mut prepared = Vec::new();
        let mut stage = StartStage::begin();
        loop {
            let result = match &stage {
                StartStage::ReceiverOff | StartStage::Cleanup(_) => {
                    self.run(direct.receiver_mode(ReceiverMode::Off))
                }
                StartStage::OpenEndpoint => {
                    let mut state = self.state.borrow_mut();
                    state.opened_endpoints.push(RFONE_RX_ENDPOINT);
                    for _ in 0..config.missing_buffers(0) {
                        let size = config.current_buffer_size();
                        state.allocated_sizes.push(size);
                        prepared.push(vec![0; size]);
                    }
                    Ok(())
                }
                StartStage::ReceiverOn => self.run(direct.receiver_mode(ReceiverMode::Rx)),
                StartStage::ClearHalt => {
                    self.state.borrow_mut().cleared_halts.push(RFONE_RX_ENDPOINT);
                    Ok(())
                }
                StartStage::Done(_) => Ok(()),
            };
            stage = stage.advance(result);
            if let StartStage::Done(outcome) = stage {
                outcome?;
                for buffer in prepared {
                    queue.submit(buffer);
                }
                return Ok(queue);
            }
        }
    }
}

/// A queue as it is right after a start, without a device.
fn filled_queue(fake: &Fake, config: StreamingConfig) -> FakeBulkIn {
    let mut queue = FakeBulkIn {
        state: Rc::clone(&fake.state),
        submitted: VecDeque::new(),
    };
    for _ in 0..config.missing_buffers(0) {
        queue.submit(vec![0; config.current_buffer_size()]);
    }
    queue
}

fn raw_read(
    stream: &mut RawRxStream<Vec<u8>>,
    queue: &mut FakeBulkIn,
    timeout: u64,
) -> Result<Option<Transfer>> {
    if let Some(buffer) = stream.begin_read()? {
        queue.submit(buffer);
    }
    assert!(stream.has_room());
    let completion = queue.complete(timeout);
    stream.finish_read(completion)
}

fn async_raw_read(
    stream: &mut AsyncRawRxStream<Vec<u8>>,
    queue: &mut FakeBulkIn,
) -> Result<Transfer> {
    if let Some(buffer) = stream.begin_read()? {
        queue.submit(buffer);
    }
    loop {
        assert!(stream.has_room());
        let completion = queue.complete(0).expect("submitted buffer");
        match stream.on_completion(completion)? {
            RawStep::Resubmit(buffer) => queue.submit(buffer),
            RawStep::Block(transfer) => return Ok(transfer),
        }
    }
}

fn async_read(
    stream: &mut AsyncDirectRxStream<Vec<u8>, Complex32>,
    queue: &mut FakeBulkIn,
    out: &mut [Complex32],
) -> Result<usize> {
    let start = stream.begin_read(out.len())?;
    let mut progress = start.progress;
    if let Some(first) = start.first {
        out[0] = first;
    }
    loop {
        match stream.next_step(progress) {
            ReadStep::Finished => return Ok(progress.written),
            ReadStep::Wait => {
                assert!(stream.has_room());
                let completion = queue.complete(0).expect("submitted buffer");
                if let DirectStep::Resubmit(buffer) = stream.on_completion(completion)? {
                    queue.submit(buffer);
                }
            }
            ReadStep::Convert(plan) => {
                let pending = if plan.pending {
                    Some(Complex32::default())
                } else {
                    None
                };
                if let Some(buffer) = stream.on_converted(&mut progress, pending)? {
                    queue.submit(buffer);
                }
            }
        }
    }
}

fn sync_read(
    stream: &mut DirectRxStream<Vec<u8>, Complex32>,
    queue: &mut FakeBulkIn,
    out: &mut [Complex32],
    timeout: u64,
) -> Result<usize> {
    let start = stream.begin_read(out.len())?;
    let mut progress = start.progress;
    if let Some(first) = start.first {
        out[0] = first;
    }
    loop {
        match stream.next_step(progress) {
            ReadStep::Finished => return Ok(progress.written),
            ReadStep::Wait => {
                assert!(stream.has_room());
                match queue.complete(timeout) {
                    None => return Ok(progress.written),
                    Some(completion) => stream.on_completion(completion)?,
                }
            }
            ReadStep::Convert(plan) => {
                let pending = if plan.pending {
                    Some(Complex32::default())
                } else {
                    None
                };
                if let Some(buffer) = stream.on_converted(&mut progress, pending)? {
                    queue.submit(buffer);
                }
            }
        }
    }
}

/// Device that is shut down when it is dropped.
struct TestDevice {
    fake: Fake,
    inner: DeviceInner,
}

impl TestDevice {
    fn shut_down(&mut self) -> Result<()> {
        let (receiver, bias) = self.inner.begin_shutdown();
        let receiver = self.fake.run(receiver);
        let bias = self.fake.run(bias);
        self.inner.finish_shutdown(receiver, bias)
    }
}

impl Drop for TestDevice {
    fn drop(&mut self) {
        if self.inner.take_shutdown_on_drop() {
            let _ = self.shut_down();
        }
    }
}

fn fake_inner(sample_format: SampleFormat) -> DeviceInner {
    let config = ConfigData::standard(sample_format);
    let mut active = ActiveStateInner::default();
    active.apply_config(&config);
    let active_state = ActiveState::default();
    active_state.apply_config(&config);
    DeviceInner {
        direct: HydraSdr::new(),
        info: DeviceInfo {
            board_name: "fake HydraSDR",
            firmware_version: "fake firmware".to_owned(),
            serial: None,
            min_frequency: 24_000_000,
            max_frequency: 1_800_000_000,
            rf_ports: Vec::new(),
            active_state,
        },
        active,
        shutdown_on_drop: true,
    }
}

fn unconfigured_inner() -> DeviceInner {
    DeviceInner {
        active: ActiveStateInner::default(),
        ..fake_inner(SampleFormat::F32Iq)
    }
}

fn configure(fake: &Fake, inner: &mut DeviceInner, config: &ConfigData) -> Result<()> {
    let plan = inner.begin_configure(config);
    let result = fake.run(plan.sequence);
    inner.finish_configure(config, result)
}

fn raw_config() -> ConfigData {
    Config::builder().raw_adc().build().unwrap().data()
}

/// Owned raw stream over a fake device.
struct RawStream {
    fake: Fake,
    inner: OwnedRawRxStreamInner<Vec<u8>>,
    queue: Option<FakeBulkIn>,
}

impl RawStream {
    fn new(fake: &Fake, inner: DeviceInner) -> Self {
        RawStream {
            fake: fake.clone(),
            inner: OwnedRawRxStreamInner::new(inner),
            queue: None,
        }
    }

    fn start(&mut self) -> Result<()> {
        if self.inner.begin_start()? == StartPlan::Nothing {
            return Ok(());
        }
        let result = self.fake.start(&self.inner.device.direct).map(|queue| {
            self.queue = Some(queue);
        });
        self.inner.finish_start(result)
    }

    fn next_block(&mut self) -> Result<Option<SampleBlock<'_>>> {
        let buffer = self.inner.begin_next_block()?;
        let queue = self.queue.as_mut().expect("queue of a running stream");
        if let Some(buffer) = buffer {
            queue.submit(buffer);
        }
        let completion = queue.complete(0);
        match self.inner.finish_next_block(completion)? {
            None => Ok(None),
            Some(transfer) => {
                let stream = self.inner.stream.as_ref().expect("running stream");
                let buffer = stream.current().expect("current block");
                Ok(Some(SampleBlock::from_transfer(buffer, &transfer)))
            }
        }
    }

    fn stop(&mut self) -> Result<StreamingStats> {
        match self.inner.begin_stop() {
            StopPlan::Finished(stats) => Ok(stats),
            StopPlan::SwitchOff { cancel_queue } => {
                if let (true, Some(queue)) = (cancel_queue, self.queue.as_mut()) {
                    queue.cancel_all();
                }
                self.queue = None;
                let off = self.inner.device.direct.receiver_mode(ReceiverMode::Off);
                let result = self.fake.run(off);
                self.inner.finish_stop(result)
            }
        }
    }
}

/// Owned converted stream over a fake device.
struct F32Stream {
    fake: Fake,
    inner: F32RxStreamInner<Vec<u8>, Complex32>,
    queue: Option<FakeBulkIn>,
}

impl F32Stream {
    fn new(fake: &Fake, inner: DeviceInner) -> Self {
        F32Stream {
            fake: fake.clone(),
            inner: F32RxStreamInner::new(inner),
            queue: None,
        }
    }

    fn start(&mut self) -> Result<()> {
        if self.inner.begin_start()? == StartPlan::Nothing {
            return Ok(());
        }
        let result = self.fake.start(&self.inner.device.direct).map(|queue| {
            self.queue = Some(queue);
        });
        self.inner.finish_start(result)
    }

    fn read(&mut self, out: &mut [Complex32]) -> Result<usize> {
        let start = self.inner.begin_read(out.len())?;
        let mut progress = start.progress;
        if let Some(first) = start.first {
            out[0] = first;
        }
        loop {
            let step = match &self.inner.stream {
                None => ReadStep::Finished,
                Some(stream) => stream.next_step(progress),
            };
            let queue = self.queue.as_mut().expect("queue of a running stream");
            match step {
                ReadStep::Finished => return Ok(progress.written),
                ReadStep::Wait => match queue.complete(0) {
                    None => return Ok(progress.written),
                    Some(completion) => self.inner.on_completion(completion)?,
                },
                ReadStep::Convert(plan) => {
                    let pending = if plan.pending {
                        Some(Complex32::default())
                    } else {
                        None
                    };
                    if let Some(buffer) = self.inner.on_converted(&mut progress, pending)? {
                        queue.submit(buffer);
                    }
                }
            }
        }
    }

    fn stop(&mut self) -> Result<StreamingStats> {
        match self.inner.begin_stop() {
            StopPlan::Finished(stats) => Ok(stats),
            StopPlan::SwitchOff { cancel_queue } => {
                if let (true, Some(queue)) = (cancel_queue, self.queue.as_mut()) {
                    queue.cancel_all();
                }
                self.queue = None;
                let off = self.inner.device.direct.receiver_mode(ReceiverMode::Off);
                let result = self.fake.run(off);
                self.inner.finish_stop(result)
            }
        }
    }
}

/// Owned asynchronous converted stream over a fake device.
struct AsyncF32Stream {
    fake: Fake,
    inner: AsyncF32RxStreamInner<Vec<u8>, Complex32>,
    queue: Option<FakeBulkIn>,
}

impl AsyncF32Stream {
    fn new(fake: &Fake, inner: DeviceInner) -> Self {
        AsyncF32Stream {
            fake: fake.clone(),
            inner: AsyncF32RxStreamInner::new(inner),
            queue: None,
        }
    }

    fn start(&mut self) -> Result<()> {
        let plan = self.inner.begin_start()?;
        let direct = self.inner.device.direct;
        let result = match plan {
            StartPlan::Nothing => return Ok(()),
            StartPlan::Resume => self.fake.run(direct.receiver_mode(ReceiverMode::Rx)),
            StartPlan::Full => self.fake.start(&direct).map(|queue| {
                self.queue = Some(queue);
            }),
        };
        self.inner.finish_start(plan, result)
    }

    fn read(&mut self, out: &mut [Complex32]) -> Result<usize> {
        let start = self.inner.begin_read(out.len())?;
        let mut progress = start.progress;
        if let Some(first) = start.first {
            out[0] = first;
        }
        loop {
            let step = match &self.inner.stream {
                None => ReadStep::Finished,
                Some(stream) => stream.next_step(progress),
            };
            let queue = self.queue.as_mut().expect("queue of a running stream");
            match step {
                ReadStep::Finished => return Ok(progress.written),
                ReadStep::Wait => {
                    let completion = queue.complete(0).expect("submitted buffer");
                    if let DirectStep::Resubmit(buffer) = self.inner.on_completion(completion)? {
                        queue.submit(buffer);
                    }
                }
                ReadStep::Convert(plan) => {
                    let pending = if plan.pending {
                        Some(Complex32::default())
                    } else {
                        None
                    };
                    if let Some(buffer) = self.inner.on_converted(&mut progress, pending)? {
                        queue.submit(buffer);
                    }
                }
            }
        }
    }

    fn stop(&mut self) -> Result<StreamingStats> {
        if let StopPlan::Finished(stats) = self.inner.begin_stop() {
            return Ok(stats);
        }
        let off = self.inner.device.direct.receiver_mode(ReceiverMode::Off);
        let result = self.fake.run(off);
        let buffer = self.inner.on_switched_off(result)?;
        let mut pending = 0;
        if let Some(queue) = self.queue.as_mut() {
            if let Some(buffer) = buffer {
                queue.submit(buffer);
            }
            pending = queue.pending();
            queue.cancel_all();
        }
        Ok(self.inner.finish_stop(pending))
    }

    fn into_device(mut self) -> TestDevice {
        self.let_queue_go();
        TestDevice {
            fake: self.fake,
            inner: self.inner.into_device(),
        }
    }

    fn let_queue_go(&mut self) {
        if let (Some(mut stream), Some(mut queue)) = (self.inner.stream.take(), self.queue.take()) {
            if !stream.is_closed() {
                queue.cancel_all();
            }
            stream.close();
        }
    }
}

#[test]
fn raw_read_forwards_timeout_without_closing_queue() {
    let timeout = 25;
    let fake = Fake::scripted(Vec::new());
    let mut queue = filled_queue(&fake, StreamingConfig::default());
    let mut stream = RawRxStream::new(StreamingConfig::default());

    assert!(raw_read(&mut stream, &mut queue, timeout)
        .expect("timed raw read")
        .is_none());

    assert_eq!(fake.state.borrow().last_timeout, Some(timeout));
    assert_eq!(queue.pending(), RFONE_TRANSFER_COUNT as usize);
    assert_eq!(fake.state.borrow().cancel_count, 0);
    assert!(!stream.is_closed());
}

#[test]
fn async_f32_read_retains_partially_consumed_usb_buffer() {
    let fake = Fake::default();
    let mut queue = filled_queue(&fake, StreamingConfig::default());
    let mut stream = AsyncDirectRxStream::new(StreamingConfig::default());
    let initial_submit_count = fake.state.borrow().submitted_count;
    assert_eq!(initial_submit_count, RFONE_TRANSFER_COUNT as usize);

    let mut out = [Complex32::default(); 1];
    let read = async_read(&mut stream, &mut queue, &mut out).expect("read converted samples");

    assert_eq!(read, out.len());
    assert_eq!(fake.state.borrow().submitted_count, initial_submit_count);
    assert_eq!(queue.pending(), RFONE_TRANSFER_COUNT as usize - 1);
    assert!(stream.current().is_some());
}

#[test]
fn async_f32_read_resubmits_a_fully_consumed_usb_buffer() {
    let fake = Fake::default();
    let mut queue = filled_queue(&fake, StreamingConfig::default());
    let mut stream = AsyncDirectRxStream::new(StreamingConfig::default());
    let initial_submit_count = fake.state.borrow().submitted_count;
    let mut out = vec![Complex32::default(); DEFAULT_BUFFER_SIZE / 4];

    assert_eq!(
        async_read(&mut stream, &mut queue, &mut out).expect("read one full converted transfer"),
        out.len()
    );

    assert_eq!(fake.state.borrow().submitted_count, initial_submit_count + 1);
    assert_eq!(queue.pending(), RFONE_TRANSFER_COUNT as usize);
    assert!(stream.current().is_none());
    assert!(!stream.has_pending_sample());
}

#[test]
fn async_f32_read_waits_for_at_most_one_new_usb_completion() {
    let fake = Fake::default();
    let mut queue = filled_queue(&fake, StreamingConfig::default());
    let mut stream = AsyncDirectRxStream::new(StreamingConfig::default());
    let samples_per_transfer = DEFAULT_BUFFER_SIZE / 4;
    let mut out = vec![Complex32::default(); samples_per_transfer + 1];

    assert_eq!(
        async_read(&mut stream, &mut queue, &mut out).expect("read one converted transfer"),
        samples_per_transfer
    );
    assert_eq!(stream.stats().buffers_received, 1);
}

#[test]
fn async_raw_blocks_reuse_the_fixed_transfer_pool() {
    let fake = Fake::default();
    let mut queue = filled_queue(&fake, StreamingConfig::default());
    let mut stream = AsyncRawRxStream::new(StreamingConfig::default());
    let initial_submit_count = fake.state.borrow().submitted_count;

    let transfer = async_raw_read(&mut stream, &mut queue).expect("read first raw transfer");
    assert_eq!(transfer.length, DEFAULT_BUFFER_SIZE);
    assert_eq!(fake.state.borrow().submitted_count, initial_submit_count);

    let _second = async_raw_read(&mut stream, &mut queue).expect("read second raw transfer");
    assert_eq!(fake.state.borrow().submitted_count, initial_submit_count + 1);
    assert_eq!(queue.pending(), RFONE_TRANSFER_COUNT as usize - 1);
}

#[test]
fn async_f32_read_returns_buffered_samples_without_waiting_for_another_completion() {
    let fake = Fake::default();
    let mut queue = filled_queue(&fake, StreamingConfig::default());
    let mut stream = AsyncDirectRxStream::new(StreamingConfig::default());

    let mut first = [Complex32::default(); 1];
    assert_eq!(
        async_read(&mut stream, &mut queue, &mut first).expect("first read"),
        1
    );
    assert!(stream.current().is_some());
    assert!(stream.has_pending_sample());
    assert_eq!(stream.stats().buffers_received, 1);

    let mut out = [Complex32::default(); 1];
    assert_eq!(
        async_read(&mut stream, &mut queue, &mut out).expect("buffered read"),
        1
    );
    assert_eq!(stream.stats().buffers_received, 1);
}

#[test]
fn async_f32_read_closes_stream_after_failed_completion() {
    let fake = Fake::default();
    let mut queue = filled_queue(&fake, StreamingConfig::default());
    let mut stream = AsyncDirectRxStream::new(StreamingConfig::default());
    fake.state.borrow_mut().fail_next = true;

    let error = async_read(&mut stream, &mut queue, &mut [Complex32::default(); 1])
        .expect_err("failed completion must be reported");

    assert!(matches!(error, Error::Transfer(_)));
    assert_eq!(stream.stats().buffers_received, 1);
    assert_eq!(stream.stats().buffers_dropped, 1);
    assert!(stream.is_closed());
    assert!(stream.current().is_none());
}

#[test]
fn async_f32_read_closes_stream_after_short_completion() {
    let fake = Fake::default();
    let mut queue = filled_queue(&fake, StreamingConfig::default());
    let mut stream = AsyncDirectRxStream::new(StreamingConfig::default());
    fake.state.borrow_mut().short_next = true;

    let error = async_read(&mut stream, &mut queue, &mut [Complex32::default(); 1])
        .expect_err("short completion must be reported");

    assert!(matches!(error, Error::Protocol { .. }));
    assert_eq!(stream.stats().buffers_received, 1);
    assert_eq!(stream.stats().buffers_dropped, 1);
    assert!(stream.is_closed());
    assert!(stream.current().is_none());
}

#[test]
fn persistent_async_f32_stream_accepts_processing_config_updates() {
    let fake = Fake::default();
    let queue = filled_queue(&fake, StreamingConfig::default());
    let mut stream: AsyncDirectRxStream<Vec<u8>, Complex32> =
        AsyncDirectRxStream::new(StreamingConfig::default());
    let buffer = stream.begin_pause().expect("pause fake async stream");
    assert!(buffer.is_none());
    stream.finish_pause(queue.pending());

    stream
        .set_decimation_factor(4)
        .expect("update persistent stream decimation");

    assert_eq!(stream.config().decimation_factor(), 4);
    assert_eq!(queue.pending(), RFONE_TRANSFER_COUNT as usize);
    assert!(stream.set_decimation_factor(3).is_err());
    assert_eq!(stream.config().decimation_factor(), 4);
}

#[test]
fn packed_streaming_uses_c_buffer_size_and_sample_count() {
    let fake = Fake::scripted(vec![vec![0x5a; PACKED_BUFFER_SIZE]]);
    let mut inner = fake_inner(SampleFormat::RawAdc);
    fake.run(inner.direct.set_packing(true)).unwrap();
    inner.direct.apply_packing(true);
    let mut stream = RawStream::new(&fake, inner);
    stream.start().unwrap();

    let block = stream.next_block().unwrap().unwrap();
    assert_eq!(
        block.sample_count(),
        (((PACKED_BUFFER_SIZE / 2) * 4) / 3) as i32
    );
    assert_eq!(block.raw_bytes().len(), PACKED_BUFFER_SIZE);
    let stats = stream.stop().unwrap();
    assert_eq!(stats.buffers_processed, 1);
    assert!(fake
        .state
        .borrow()
        .allocated_sizes
        .iter()
        .all(|size| *size == PACKED_BUFFER_SIZE));
}

#[test]
fn direct_rx_stream_reuses_receiver_and_transfers_across_reads() {
    let fake = Fake::scripted(vec![
        vec![0; DEFAULT_BUFFER_SIZE],
        vec![1; DEFAULT_BUFFER_SIZE],
    ]);
    let mut stream = F32Stream::new(&fake, fake_inner(SampleFormat::F32Iq));
    stream.start().unwrap();
    let running = [ReceiverMode::Off.code(), ReceiverMode::Rx.code()];
    assert_eq!(fake.receiver_modes(), running);
    assert_eq!(fake.state.borrow().opened_endpoints, [RFONE_RX_ENDPOINT]);
    assert_eq!(fake.state.borrow().cleared_halts, [RFONE_RX_ENDPOINT]);
    assert_eq!(
        fake.state.borrow().allocated_sizes.len(),
        RFONE_TRANSFER_COUNT as usize
    );
    assert_eq!(fake.state.borrow().cancel_count, 0);

    let samples_per_completion = DEFAULT_BUFFER_SIZE / 4;
    let mut first = vec![Complex32::default(); samples_per_completion];
    let mut second = vec![Complex32::default(); samples_per_completion];
    assert_eq!(stream.read(&mut first).unwrap(), samples_per_completion);
    assert_eq!(stream.read(&mut second).unwrap(), samples_per_completion);

    assert_eq!(fake.receiver_modes(), running);
    assert_eq!(fake.state.borrow().opened_endpoints, [RFONE_RX_ENDPOINT]);
    assert_eq!(fake.state.borrow().cleared_halts, [RFONE_RX_ENDPOINT]);
    assert_eq!(fake.state.borrow().cancel_count, 0);

    let stats = stream.stop().unwrap();

    assert_eq!(
        fake.receiver_modes(),
        [
            ReceiverMode::Off.code(),
            ReceiverMode::Rx.code(),
            ReceiverMode::Off.code(),
        ]
    );
    assert_eq!(fake.state.borrow().cancel_count, 1);
    assert_eq!(stats.buffers_received, 2);
    assert_eq!(stats.buffers_processed, 2);
    assert_eq!(stats.buffers_dropped, 0);
}

#[test]
fn direct_rx_stream_serves_leftovers_before_waiting_for_usb() {
    let fake = Fake::scripted(vec![vec![0; DEFAULT_BUFFER_SIZE]]);
    let mut queue = filled_queue(&fake, StreamingConfig::default());
    let mut stream = DirectRxStream::new(StreamingConfig::default());

    let mut first = [Complex32::default(); 1];
    let mut second = [Complex32::default(); 1];
    assert_eq!(sync_read(&mut stream, &mut queue, &mut first, 1).unwrap(), 1);
    let waits_after_first = fake.state.borrow().wait_count;
    assert_eq!(
        sync_read(&mut stream, &mut queue, &mut second, 1).unwrap(),
        1
    );

    assert_eq!(fake.state.borrow().wait_count, waits_after_first);
}

#[test]
fn direct_rx_stream_timeout_without_completion_returns_zero() {
    let fake = Fake::scripted(Vec::new());
    let mut queue = filled_queue(&fake, StreamingConfig::default());
    let mut stream = DirectRxStream::new(StreamingConfig::default());

    let mut out = [Complex32::default(); 4];
    assert_eq!(sync_read(&mut stream, &mut queue, &mut out, 1).unwrap(), 0);
    assert_eq!(fake.state.borrow().wait_count, 1);
    assert_eq!(stream.close(), StreamingStats::default());
}

#[test]
fn packed_float32_iq_direct_rx_stream_start_is_explicitly_unsupported() {
    let fake = Fake::default();
    let mut inner = fake_inner(SampleFormat::F32Iq);
    fake.run(inner.direct.set_packing(true)).unwrap();
    inner.direct.apply_packing(true);
    let mut stream = F32Stream::new(&fake, inner);

    let err = stream.start().unwrap_err();

    assert_eq!(err.status_code(), StatusCode::Unsupported);
    assert!(fake.receiver_modes().is_empty());
}

#[test]
fn high_level_device_caches_info_and_applies_configuration() {
    let fake = Fake::default();
    let mut inner = DeviceInner {
        info: DeviceInfo {
            board_name: "HydraSDR RFOne",
            ..fake_inner(SampleFormat::F32Iq).info
        },
        ..unconfigured_inner()
    };

    assert_eq!(inner.info.board_name, "HydraSDR RFOne");
    assert_eq!(inner.direct.sample_type(), SampleType::Float32Iq);

    let config = Config::builder()
        .frequency_hz(100_000_000)
        .sample_rate_hz(10_000_000)
        .raw_adc()
        .build()
        .unwrap();
    configure(&fake, &mut inner, &config.data()).unwrap();
    assert_eq!(inner.direct.sample_type(), SampleType::Raw);
    assert_eq!(inner.active.sample_format().unwrap(), SampleFormat::RawAdc);
    assert!(fake.state.borrow().control_requests.len() > 7);
}

#[test]
fn raw_rx_stream_reads_sample_blocks() {
    let fake = Fake::scripted(vec![
        vec![0x11; DEFAULT_BUFFER_SIZE],
        vec![0x22; DEFAULT_BUFFER_SIZE],
    ]);
    let mut inner = unconfigured_inner();
    configure(&fake, &mut inner, &raw_config()).unwrap();

    let mut stream = RawStream::new(&fake, inner);
    stream.start().unwrap();
    let mut seen = Vec::new();
    for _ in 0..2 {
        let block = stream.next_block().unwrap().unwrap();
        seen.push((
            block.raw_bytes()[0],
            block.sample_count(),
            block.sample_format(),
        ));
    }
    let stats = stream.stop().unwrap();

    assert_eq!(
        seen,
        vec![
            (0x11, (DEFAULT_BUFFER_SIZE / 2) as i32, SampleFormat::RawAdc),
            (0x22, (DEFAULT_BUFFER_SIZE / 2) as i32, SampleFormat::RawAdc),
        ]
    );
    assert_eq!(stats.buffers_received, 2);
    assert_eq!(stats.buffers_processed, 2);
    assert_eq!(stream.inner.state, ReceiverState::Stopped);

    let state = fake.state.borrow();
    assert_eq!(state.opened_endpoints, [RFONE_RX_ENDPOINT]);
    assert_eq!(state.cleared_halts, [RFONE_RX_ENDPOINT]);
    assert_eq!(state.allocated_sizes.len(), RFONE_TRANSFER_COUNT as usize);
    assert_eq!(state.cancel_count, 1);
    assert_eq!(
        fake.receiver_modes(),
        [
            ReceiverMode::Off.code(),
            ReceiverMode::Rx.code(),
            ReceiverMode::Off.code(),
        ]
    );
}

#[test]
fn raw_rx_stream_rejects_converted_configs() {
    let fake = Fake::default();
    let mut stream = RawStream::new(&fake, fake_inner(SampleFormat::F32Iq));

    let err = stream.start().unwrap_err();

    assert_eq!(err.status_code(), StatusCode::InvalidParam);
    assert!(fake.state.borrow().control_requests.is_empty());
}

#[test]
fn raw_rx_stream_stop_and_finish_are_idempotent_when_idle() {
    let fake = Fake::default();
    let mut inner = unconfigured_inner();
    configure(&fake, &mut inner, &raw_config()).unwrap();

    let mut stream = RawStream::new(&fake, inner);
    stream.start().unwrap();
    stream.stop().unwrap();
    stream.stop().unwrap();
    let stats: StreamingStats = stream.stop().unwrap();

    assert_eq!(stats, StreamingStats::default());
    assert_eq!(
        fake.receiver_modes(),
        [
            ReceiverMode::Off.code(),
            ReceiverMode::Rx.code(),
            ReceiverMode::Off.code(),
        ]
    );
}

#[test]
fn owned_raw_rx_stream_finish_preserves_device_stats_and_error_on_stop_failure() {
    let fake = Fake::scripted(vec![vec![0x11; DEFAULT_BUFFER_SIZE]]);
    let mut inner = unconfigured_inner();
    configure(&fake, &mut inner, &raw_config()).unwrap();
    fake.state.borrow_mut().control_requests.clear();

    let mut stream = RawStream::new(&fake, inner);
    stream.start().unwrap();
    let block = stream.next_block().unwrap().unwrap();
    assert_eq!(block.raw_bytes()[0], 0x11);
    fake.state.borrow_mut().fail_control_out = true;

    let error = stream.stop().unwrap_err();
    assert_eq!(error.status_code(), StatusCode::LibUsb);
    assert_eq!(stream.inner.stats.buffers_processed, 1);
    assert_eq!(stream.inner.state, ReceiverState::StopRequired);
    let device = stream.inner.into_device();
    assert_eq!(device.direct.sample_type(), SampleType::Raw);

    assert_eq!(fake.state.borrow().cancel_count, 1);
    assert_eq!(
        fake.receiver_modes(),
        [
            ReceiverMode::Off.code(),
            ReceiverMode::Rx.code(),
            ReceiverMode::Off.code(),
        ]
    );
}

#[test]
fn owned_raw_rx_stream_finish_success_still_returns_device_and_stats() {
    let fake = Fake::scripted(vec![vec![0x11; DEFAULT_BUFFER_SIZE]]);
    let mut inner = unconfigured_inner();
    configure(&fake, &mut inner, &raw_config()).unwrap();
    fake.state.borrow_mut().control_requests.clear();

    let mut stream = RawStream::new(&fake, inner);
    stream.start().unwrap();
    let stats = stream.stop().unwrap();
    let device = stream.inner.into_device();

    assert_eq!(device.direct.sample_type(), SampleType::Raw);
    assert_eq!(stats, StreamingStats::default());
    assert_eq!(fake.state.borrow().cancel_count, 1);
    assert_eq!(
        fake.receiver_modes(),
        [
            ReceiverMode::Off.code(),
            ReceiverMode::Rx.code(),
            ReceiverMode::Off.code(),
        ]
    );
}

#[test]
fn owned_f32_rx_stream_finish_preserves_device_stats_and_error_on_stop_failure() {
    let fake = Fake::scripted(vec![vec![0x80; DEFAULT_BUFFER_SIZE]]);
    let mut stream = F32Stream::new(&fake, fake_inner(SampleFormat::F32Iq));
    stream.start().unwrap();

    let mut out = [Complex32::default(); 4];
    assert_eq!(stream.read(&mut out).unwrap(), 4);
    fake.state.borrow_mut().fail_control_out = true;

    let error = stream.stop().unwrap_err();
    assert_eq!(error.status_code(), StatusCode::LibUsb);
    assert_eq!(stream.inner.stats.buffers_processed, 1);
    let device = stream.inner.into_device();
    assert_eq!(device.direct.sample_type(), SampleType::Float32Iq);

    assert_eq!(fake.state.borrow().cancel_count, 1);
    assert_eq!(
        fake.receiver_modes(),
        [
            ReceiverMode::Off.code(),
            ReceiverMode::Rx.code(),
            ReceiverMode::Off.code(),
        ]
    );
}

#[test]
fn owned_f32_rx_stream_finish_success_still_returns_device_and_stats() {
    let fake = Fake::scripted(vec![vec![0x80; DEFAULT_BUFFER_SIZE]]);
    let mut stream = F32Stream::new(&fake, fake_inner(SampleFormat::F32Iq));
    stream.start().unwrap();

    let stats = stream.stop().unwrap();
    let device = stream.inner.into_device();

    assert_eq!(device.direct.sample_type(), SampleType::Float32Iq);
    assert_eq!(stats, StreamingStats::default());
    assert_eq!(fake.state.borrow().cancel_count, 1);
    assert_eq!(
        fake.receiver_modes(),
        [
            ReceiverMode::Off.code(),
            ReceiverMode::Rx.code(),
            ReceiverMode::Off.code(),
        ]
    );
}

#[test]
fn sample_block_reports_raw_view_format_and_drop_count() {
    let raw = [1, 2, 3, 4];
    let block = SampleBlock::new(&raw, SampleFormat::RawAdc, 2, 9);

    assert_eq!(block.raw_bytes(), &raw);
    assert_eq!(block.sample_format(), SampleFormat::RawAdc);
    assert_eq!(block.sample_count(), 2);
    assert_eq!(block.dropped_samples(), 9);
}

#[test]
fn explicit_shutdown_turns_off_receiver_and_bias_power() {
    let fake = Fake::default();
    let mut device = TestDevice {
        fake: fake.clone(),
        inner: fake_inner(SampleFormat::RawAdc),
    };
    let active_state = device.inner.info.active_state.clone();

    device.shut_down().expect("explicit shutdown");
    drop(device);

    assert_eq!(
        fake.state.borrow().control_requests,
        [
            VendorControlRequest::receiver_mode(ReceiverMode::Off),
            VendorControlRequest::set_rf_bias(0),
        ]
    );
    assert!(!active_state.bias_tee().expect("bias state after shutdown"));
}

#[test]
fn shutdown_attempts_bias_off_after_receiver_off_fails() {
    let fake = Fake::default();
    fake.state.borrow_mut().fail_control_out_at = 1;
    let mut device = TestDevice {
        fake: fake.clone(),
        inner: fake_inner(SampleFormat::RawAdc),
    };
    let active_state = device.inner.info.active_state.clone();

    let error = device.shut_down().expect_err("receiver shutdown should fail");
    drop(device);

    assert!(matches!(
        error,
        Error::Operation {
            operation: "turning off the receiver during shutdown",
            ..
        }
    ));
    assert_eq!(fake.state.borrow().control_out_count, 4);
    assert_eq!(
        fake.state.borrow().control_requests,
        [
            VendorControlRequest::receiver_mode(ReceiverMode::Off),
            VendorControlRequest::set_rf_bias(0),
            VendorControlRequest::receiver_mode(ReceiverMode::Off),
            VendorControlRequest::set_rf_bias(0),
        ]
    );
    assert!(!active_state.bias_tee().expect("successful bias-off state"));
}

#[test]
fn dropping_unpolled_shutdown_runs_native_fallback() {
    let fake = Fake::default();
    let device = TestDevice {
        fake: fake.clone(),
        inner: fake_inner(SampleFormat::RawAdc),
    };

    let shutdown = async move {
        let mut device = device;
        device.shut_down()
    };
    assert_eq!(fake.state.borrow().control_out_count, 0);
    drop(shutdown);

    assert_eq!(
        fake.state.borrow().control_requests,
        [
            VendorControlRequest::receiver_mode(ReceiverMode::Off),
            VendorControlRequest::set_rf_bias(0),
        ]
    );
}

#[test]
fn canceling_polled_shutdown_runs_native_fallback() {
    let fake = Fake::default();
    let mut device = TestDevice {
        fake: fake.clone(),
        inner: fake_inner(SampleFormat::RawAdc),
    };

    // The first request is sent, and its reply is never taken.
    let (receiver, _bias) = device.inner.begin_shutdown();
    let _ = fake.send(receiver.next_request().expect("first request"));
    drop(device);

    assert_eq!(fake.state.borrow().control_out_count, 3);
    assert_eq!(
        fake.state.borrow().control_requests,
        [
            VendorControlRequest::receiver_mode(ReceiverMode::Off),
            VendorControlRequest::receiver_mode(ReceiverMode::Off),
            VendorControlRequest::set_rf_bias(0),
        ]
    );
}

#[test]
fn native_device_drop_performs_best_effort_shutdown() {
    let fake = Fake::default();
    let device = TestDevice {
        fake: fake.clone(),
        inner: fake_inner(SampleFormat::RawAdc),
    };

    drop(device);

    assert_eq!(
        fake.state.borrow().control_requests,
        [
            VendorControlRequest::receiver_mode(ReceiverMode::Off),
            VendorControlRequest::set_rf_bias(0),
        ]
    );
}

#[test]
fn owned_raw_stream_drop_retries_failed_receiver_off() {
    let fake = Fake::default();
    let mut stream = RawStream::new(&fake, fake_inner(SampleFormat::RawAdc));
    stream.start().expect("start owned raw stream");
    fake.state.borrow_mut().fail_control_out_at = 3;
    stream
        .stop()
        .expect_err("first receiver-off request should fail");

    // The stream is dropped: it is stopped again, and its device is shut down.
    let _ = stream.stop();
    drop(TestDevice {
        fake: fake.clone(),
        inner: stream.inner.into_device(),
    });

    assert_eq!(fake.state.borrow().cancel_count, 1);
    assert_eq!(
        fake.state.borrow().control_requests,
        [
            VendorControlRequest::receiver_mode(ReceiverMode::Off),
            VendorControlRequest::receiver_mode(ReceiverMode::Rx),
            VendorControlRequest::receiver_mode(ReceiverMode::Off),
            VendorControlRequest::receiver_mode(ReceiverMode::Off),
            VendorControlRequest::receiver_mode(ReceiverMode::Off),
            VendorControlRequest::set_rf_bias(0),
        ]
    );
}

#[test]
fn owned_synchronous_f32_stream_keeps_queue_between_reads() {
    let fake = Fake::default();
    let mut stream = F32Stream::new(&fake, fake_inner(SampleFormat::F32Iq));
    stream.start().expect("start owned synchronous F32 stream");

    let mut first = [Complex32::default(); 1];
    let mut second = [Complex32::default(); 1];
    assert_eq!(stream.read(&mut first).expect("first read"), 1);
    assert_eq!(stream.read(&mut second).expect("second read"), 1);
    assert_eq!(fake.state.borrow().opened_endpoints.len(), 1);
    assert_eq!(fake.state.borrow().control_out_count, 2);

    let stats = stream.stop().expect("stop owned synchronous F32 stream");
    assert_eq!(stats.buffers_received, 1);
    assert_eq!(fake.state.borrow().cancel_count, 1);
    assert_eq!(fake.state.borrow().control_out_count, 3);
}

#[test]
fn owned_async_f32_stream_reuses_queue_and_returns_device() {
    let fake = Fake::default();
    let mut stream = AsyncF32Stream::new(&fake, fake_inner(SampleFormat::F32Iq));
    stream.start().expect("start owned async F32 stream");

    let mut first = [Complex32::default(); 1];
    let mut second = [Complex32::default(); 1];
    assert_eq!(stream.read(&mut first).expect("first read"), 1);
    assert_eq!(stream.read(&mut second).expect("second read"), 1);
    assert_eq!(fake.state.borrow().control_out_count, 2);

    let stats = stream.stop().expect("stop owned async F32 stream");
    let _device = stream.into_device();
    assert_eq!(stats.buffers_received, 1);
    assert_eq!(fake.state.borrow().control_out_count, 3);
    assert_eq!(fake.state.borrow().cancel_count, 2);
}

#[test]
fn owned_async_f32_stream_reuses_queue_across_restart() {
    let fake = Fake::default();
    let mut stream = AsyncF32Stream::new(&fake, fake_inner(SampleFormat::F32Iq));

    stream.start().expect("start owned async F32 stream");
    let mut first = [Complex32::default(); 1];
    assert_eq!(stream.read(&mut first).expect("first read"), 1);
    stream.stop().expect("stop owned async F32 stream");
    assert_eq!(fake.state.borrow().opened_endpoints.len(), 1);
    assert_eq!(fake.state.borrow().cancel_count, 1);
    assert!(stream
        .read(&mut first)
        .is_err_and(|error| error.kind() == ErrorKind::StreamClosed));
    stream.stop().expect("repeated stop is a no-op");
    assert_eq!(fake.state.borrow().control_out_count, 3);

    stream.start().expect("restart owned async F32 stream");
    let mut second = [Complex32::default(); 1];
    assert_eq!(stream.read(&mut second).expect("second read"), 1);
    let stats = stream.stop().expect("stop owned async F32 stream");
    assert_eq!(fake.state.borrow().opened_endpoints.len(), 1);
    assert_eq!(fake.state.borrow().cancel_count, 2);
    assert_eq!(
        stats.buffers_discarded_on_restart,
        RFONE_TRANSFER_COUNT as u64
    );

    let _device = stream.into_device();
    assert_eq!(fake.state.borrow().cancel_count, 3);
}

#[test]
fn owned_async_stream_start_error_returns_device() {
    let fake = Fake::default();
    let mut stream = AsyncF32Stream::new(&fake, fake_inner(SampleFormat::RawAdc));
    let error = stream
        .start()
        .expect_err("F32 stream must reject raw ADC configuration");
    let device = stream.into_device();
    assert_eq!(error.kind(), ErrorKind::InvalidConfig);
    assert_eq!(
        device.inner.info.active_state.sample_format().unwrap(),
        SampleFormat::RawAdc
    );
    assert_eq!(fake.state.borrow().control_out_count, 0);
}

/// Send what a start sends up to the request that switches the receiver on.
fn cancelled_start(fake: &Fake, direct: &HydraSdr) {
    let result = fake.run(direct.receiver_mode(ReceiverMode::Off));
    let stage = StartStage::begin().advance(result).advance(Ok(()));
    assert!(matches!(stage, StartStage::ReceiverOn));
    let on = direct.receiver_mode(ReceiverMode::Rx);
    let _ = fake.send(on.next_request().expect("receiver request"));
}

#[test]
fn cancelled_owned_async_raw_start_can_be_stopped() {
    let fake = Fake::default();
    let mut stream: AsyncRawRxStreamInner<Vec<u8>> =
        AsyncRawRxStreamInner::new(fake_inner(SampleFormat::RawAdc));

    assert_eq!(stream.begin_start().unwrap(), StartPlan::Full);
    cancelled_start(&fake, &stream.device.direct);
    assert_eq!(fake.state.borrow().control_out_count, 2);

    assert_eq!(
        stream.begin_stop(),
        StopPlan::SwitchOff {
            cancel_queue: false
        }
    );
    let result = fake.run(stream.device.direct.receiver_mode(ReceiverMode::Off));
    let buffer = stream
        .on_switched_off(result)
        .expect("stop cancelled owned async raw stream start");
    assert!(buffer.is_none());
    assert_eq!(stream.finish_stop(0), StreamingStats::default());
    let _device = stream.into_device();
    assert_eq!(fake.state.borrow().control_out_count, 3);
}

#[test]
fn cancelled_owned_async_f32_start_can_be_stopped() {
    let fake = Fake::default();
    let mut stream = AsyncF32Stream::new(&fake, fake_inner(SampleFormat::F32Iq));

    assert_eq!(stream.inner.begin_start().unwrap(), StartPlan::Full);
    cancelled_start(&fake, &stream.inner.device.direct);
    assert_eq!(fake.state.borrow().control_out_count, 2);

    stream
        .stop()
        .expect("stop cancelled owned async F32 stream start");
    let _device = stream.into_device();
    assert_eq!(fake.state.borrow().control_out_count, 3);
}

#[test]
fn owned_async_stream_stop_error_still_returns_device() {
    let fake = Fake::default();
    let mut stream = AsyncF32Stream::new(&fake, fake_inner(SampleFormat::F32Iq));
    stream.start().expect("start owned async F32 stream");
    fake.state.borrow_mut().fail_control_out = true;

    assert!(stream
        .stop()
        .is_err_and(|error| error.kind() == ErrorKind::Usb));
    let device = stream.into_device();
    assert_eq!(
        device.inner.info.active_state.sample_format().unwrap(),
        SampleFormat::F32Iq
    );
    assert_eq!(fake.state.borrow().cancel_count, 1);
}

#[test]
fn native_drop_closes_async_queue_and_shuts_down_hardware() {
    let fake = Fake::default();
    let mut stream = AsyncF32Stream::new(&fake, fake_inner(SampleFormat::F32Iq));
    stream.start().expect("start owned async F32 stream");
    assert_eq!(fake.state.borrow().control_out_count, 2);

    drop(stream.into_device());
    assert_eq!(fake.state.borrow().cancel_count, 1);
    assert_eq!(fake.state.borrow().control_out_count, 4);
}

#[test]
fn a_failed_start_switches_the_receiver_off_again() {
    let fake = Fake::default();
    fake.state.borrow_mut().fail_control_out_at = 2;
    let mut stream = RawStream::new(&fake, fake_inner(SampleFormat::RawAdc));
    assert!(stream.start().is_err());
    assert_eq!(stream.inner.state, ReceiverState::StopRequired);
    assert_eq!(
        fake.receiver_modes(),
        [
            ReceiverMode::Off.code(),
            ReceiverMode::Rx.code(),
            ReceiverMode::Off.code(),
        ]
    );
    assert!(matches!(
        stream.next_block(),
        Err(Error::StreamClosed("raw RX stream is stopped"))
    ));
}

#[test]
fn a_failed_raw_read_closes_the_queue_and_its_error_comes_once() {
    let fake = Fake::default();
    let mut queue = filled_queue(&fake, StreamingConfig::default());
    let mut stream = RawRxStream::new(StreamingConfig::default());
    raw_read(&mut stream, &mut queue, 0).unwrap().unwrap();
    fake.state.borrow_mut().fail_next = true;
    assert!(matches!(
        raw_read(&mut stream, &mut queue, 0),
        Err(Error::Transfer(_))
    ));
    assert!(matches!(
        raw_read(&mut stream, &mut queue, 0),
        Err(Error::StreamClosed("raw RX stream is closed"))
    ));
    let stats = stream.close();
    assert_eq!(stats.buffers_received, 2);
    assert_eq!(stats.buffers_processed, 1);
    assert_eq!(stats.buffers_dropped, 1);
}

#[test]
fn a_restart_discards_what_was_queued_before_it() {
    let fake = Fake::default();
    let mut queue = filled_queue(&fake, StreamingConfig::default());
    let mut stream = AsyncRawRxStream::new(StreamingConfig::default());
    async_raw_read(&mut stream, &mut queue).unwrap();
    if let Some(buffer) = stream.begin_pause() {
        queue.submit(buffer);
    }
    stream.finish_pause(queue.pending());

    fake.state.borrow_mut().fail_next = true;
    async_raw_read(&mut stream, &mut queue).expect("stale failures are dropped");
    let stats = stream.close();
    assert_eq!(
        stats.buffers_discarded_on_restart,
        RFONE_TRANSFER_COUNT as u64
    );
    assert_eq!(stats.buffers_received, RFONE_TRANSFER_COUNT as u64 + 2);
    assert_eq!(stats.buffers_processed, 2);
}

#[test]
fn an_empty_read_changes_nothing() {
    let fake = Fake::default();
    let mut queue = filled_queue(&fake, StreamingConfig::default());
    let mut stream = AsyncDirectRxStream::new(StreamingConfig::default());
    assert_eq!(async_read(&mut stream, &mut queue, &mut []).unwrap(), 0);
    assert_eq!(fake.state.borrow().wait_count, 0);
}

#[test]
fn every_sample_of_a_transfer_is_read_once() {
    let fake = Fake::scripted(vec![vec![0; DEFAULT_BUFFER_SIZE]]);
    let mut queue = filled_queue(&fake, StreamingConfig::default());
    let config = StreamingConfig::default().with_decimation(8).unwrap();
    let mut stream = DirectRxStream::new(config);
    let mut out = vec![Complex32::default(); 1_001];
    let mut total = 0;
    loop {
        let read = sync_read(&mut stream, &mut queue, &mut out, 1).unwrap();
        total += read;
        if read < out.len() {
            break;
        }
    }
    assert_eq!(total, DEFAULT_BUFFER_SIZE / 4 / 8);
    assert_eq!(queue.pending(), RFONE_TRANSFER_COUNT as usize);
}

#[test]
fn transfers_are_checked_and_counted() {
    assert_eq!(sample_count_for_buffer(DEFAULT_BUFFER_SIZE, false), 131_072);
    assert_eq!(sample_count_for_buffer(PACKED_BUFFER_SIZE, true), 98_304);
    assert_eq!(remaining_timeout(None, 7, 5), 5);
    assert_eq!(remaining_timeout(Some(9), 7, 5), 2);
    assert_eq!(remaining_timeout(Some(7), 9, 5), 0);
    for factor in [1, 2, 4, 8, 16, 32, 64] {
        assert!(validate_decimation_factor(factor).is_ok());
    }
    for factor in [0, 3, 65, 128] {
        assert!(matches!(
            validate_decimation_factor(factor),
            Err(Error::InvalidConfig {
                field: "decimation_factor",
                ..
            })
        ));
    }
    let config = StreamingConfig::default();
    assert_eq!(config.missing_buffers(3), 13);
    assert_eq!(config.missing_buffers(20), 0);
    assert_eq!(config.with_packing(true).current_buffer_size(), 147_456);

    let long = BulkInCompletion {
        buffer: 5u8,
        buffer_len: 3,
        actual_len: 4,
        status: Ok(()),
    };
    assert!(matches!(
        checked_completion(long, 4),
        Err((5, Error::Protocol { .. }))
    ));
}

#[test]
fn a_stream_keeps_the_execution_mode_it_was_started_in() {
    let opening = hydrasdr_rs::Device::builder().begin_open().unwrap();
    let device = opening.finish(fake_inner(SampleFormat::F32Iq).info);
    assert_eq!(
        device.active_state().sample_format().unwrap(),
        SampleFormat::F32Iq
    );
    let mut stream: RxStream<Vec<u8>, Complex32> = RxStream::new(device);
    assert!(stream.stop_async_dormant().is_some());
    stream.initialize_blocking().unwrap();
    stream.initialize_blocking().unwrap();
    assert!(stream.blocking_f32().is_ok());
    assert!(stream.initialize_async().is_err());
    assert!(stream.async_f32().is_err());
    assert!(stream.stop_blocking_dormant().is_none());
    let device = stream.into_device();
    assert_eq!(device.info().board_name, "fake HydraSDR");
}

#[test]
fn settings_of_an_open_device_are_published_when_they_are_applied() {
    let fake = Fake::default();
    let mut inner = fake_inner(SampleFormat::F32Iq);
    let handle = inner.info.active_state.clone();

    let sequence = inner.begin_set_frequency_hz(433_920_000).unwrap();
    assert!(handle.frequency_hz().is_err());
    let result = fake.run(sequence);
    inner.finish_set_frequency_hz(433_920_000, result).unwrap();
    assert_eq!(handle.frequency_hz().unwrap(), 433_920_000);
    assert!(inner.begin_set_frequency_hz(1).is_err());
    assert!(matches!(
        handle.frequency_hz(),
        Err(Error::StateUnavailable {
            reason: "the last update failed",
            ..
        })
    ));

    let (sequence, selected) = inner.begin_set_sample_rate_hz(78_125).unwrap();
    let result = fake.run(sequence);
    inner
        .finish_set_sample_rate_hz(78_125, selected, result)
        .unwrap();
    assert_eq!(handle.sample_rate_hz().unwrap(), 78_125);
    assert_eq!(inner.direct.streaming_decimation_factor(), 32);

    assert!(matches!(
        inner.set_bandwidth_hz(5_000_000),
        Err(Error::Unsupported)
    ));
    assert!(handle.bandwidth().is_err());
    assert!(matches!(inner.bandwidths(), Err(Error::Unsupported)));
    assert_eq!(inner.sample_rates().len(), 8);
}
