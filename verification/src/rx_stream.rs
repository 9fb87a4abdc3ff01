//! Typed receive stream: which kind of stream a device turns into.

use crate::active_state::ActiveState;
use crate::config::{F32Iq, RawAdc, SampleFormat, SampleMode};
use crate::errors::{Error, Result};
use crate::high_level::{Device, DeviceInner};
use crate::owned::{
    AsyncF32RxStreamInner, AsyncRawRxStreamInner, F32RxStreamInner, OwnedRawRxStreamInner,
};
use crate::streaming::{self, StreamingStats};
use core::marker::PhantomData;
use vstd::prelude::*;

verus! {

/// State of a receive stream over buffers `T` and samples `S`.
pub enum RxStreamState<T, S> {
    /// Not started: waiting or awaiting the first start decides.
    Dormant(DeviceInner),
    /// A transition was interrupted and the device is lost.
    Poisoned,
    /// Blocking raw stream.
    BlockingRaw(OwnedRawRxStreamInner<T>),
    /// Blocking converted stream.
    BlockingF32(F32RxStreamInner<T, S>),
    /// Asynchronous raw stream.
    AsyncRaw(AsyncRawRxStreamInner<T>),
    /// Asynchronous converted stream.
    AsyncF32(AsyncF32RxStreamInner<T, S>),
}

impl<T, S> RxStreamState<T, S> {
    /// Device of the stream.
    pub open spec fn spec_device(self) -> DeviceInner
        recommends
            !(self is Poisoned),
    {
        match self {
            RxStreamState::Dormant(device) => device,
            RxStreamState::Poisoned => arbitrary(),
            RxStreamState::BlockingRaw(stream) => stream.device,
            RxStreamState::BlockingF32(stream) => stream.device,
            RxStreamState::AsyncRaw(stream) => stream.device,
            RxStreamState::AsyncF32(stream) => stream.device,
        }
    }

    /// Whether the stream is in blocking use.
    pub open spec fn is_blocking(self) -> bool {
        self is BlockingRaw || self is BlockingF32
    }

    /// Whether the stream is in asynchronous use.
    pub open spec fn is_async(self) -> bool {
        self is AsyncRaw || self is AsyncF32
    }

    /// What holds of every stream: its queue is consistent.
    pub open spec fn consistent(self) -> bool {
        match self {
            RxStreamState::BlockingF32(stream) => stream.consistent(),
            RxStreamState::AsyncF32(stream) => stream.consistent(),
            _ => true,
        }
    }
}

/// Owned receive stream for sample mode `M`, defaulting to [`F32Iq`].
///
/// Waiting the first start selects blocking USB; awaiting it selects
/// asynchronous USB. The two are not mixed on one stream.
#[must_use]
pub struct RxStream<T, S, M: SampleMode = F32Iq> {
    /// State of the stream.
    pub state: RxStreamState<T, S>,
    /// Sample mode.
    pub mode: PhantomData<M>,
}

/// Error of a stream whose device is lost.
pub open spec fn no_device_error() -> Error {
    Error::StreamClosed("RX stream has no device")
}

impl<T, S, M: SampleMode> RxStream<T, S, M> {
    /// Stream of a device, not started yet.
    pub fn new(device: Device<M>) -> (stream: Self)
        ensures
            stream.state == RxStreamState::<T, S>::Dormant(device.inner),
    {
        RxStream { state: RxStreamState::Dormant(device.inner), mode: PhantomData }
    }

    /// Return a shared handle to the authoritative active receiver state.
    pub fn active_state(&self) -> (handle: ActiveState)
        requires
            !(self.state is Poisoned),
        ensures
            handle == self.state.spec_device().info.active_state,
    {
        match &self.state {
            RxStreamState::Dormant(device) => device.info.active_state.clone(),
            RxStreamState::Poisoned => vstd::pervasive::unreached(),
            RxStreamState::BlockingRaw(stream) => stream.active_state(),
            RxStreamState::BlockingF32(stream) => stream.active_state(),
            RxStreamState::AsyncRaw(stream) => stream.active_state(),
            RxStreamState::AsyncF32(stream) => stream.active_state(),
        }
    }

    /// Decide for asynchronous use.
    pub fn initialize_async(&mut self) -> (result: Result<()>)
        ensures
            old(self).state.is_async() ==> result == Ok::<(), Error>(()) && final(self).state
                == old(self).state,
            old(self).state.is_blocking() ==> result == Err::<(), Error>(Error::Busy)
                && final(self).state == old(self).state,
            old(self).state is Poisoned ==> result == Err::<(), Error>(no_device_error())
                && final(self).state == old(self).state,
            old(self).state matches RxStreamState::Dormant(device) ==> result == Ok::<(), Error>(())
                && match M::FORMAT {
                SampleFormat::RawAdc => final(self).state matches RxStreamState::AsyncRaw(stream)
                    && stream == (AsyncRawRxStreamInner::<T> {
                    device,
                    stream: None,
                    stats: streaming::no_stats(),
                    state: crate::owned::ReceiverState::Stopped,
                }),
                SampleFormat::F32Iq => final(self).state matches RxStreamState::AsyncF32(stream)
                    && stream == (AsyncF32RxStreamInner::<T, S> {
                    device,
                    stream: None,
                    stats: streaming::no_stats(),
                    state: crate::owned::ReceiverState::Stopped,
                }),
            },
    {
        match &self.state {
            RxStreamState::AsyncRaw(_) | RxStreamState::AsyncF32(_) => return Ok(()),
            RxStreamState::BlockingRaw(_) | RxStreamState::BlockingF32(_) => {
                return Err(Error::Busy);
            },
            _ => {},
        }
        let mut state: RxStreamState<T, S> = RxStreamState::Poisoned;
        core::mem::swap(&mut self.state, &mut state);
        match state {
            RxStreamState::Dormant(device) => {
                self.state = match M::FORMAT {
                    SampleFormat::RawAdc => RxStreamState::AsyncRaw(
                        AsyncRawRxStreamInner::new(device),
                    ),
                    SampleFormat::F32Iq => RxStreamState::AsyncF32(
                        AsyncF32RxStreamInner::new(device),
                    ),
                };
                Ok(())
            },
            other => {
                self.state = other;
                Err(Error::StreamClosed("RX stream has no device"))
            },
        }
    }

    /// Decide for blocking use.
    pub fn initialize_blocking(&mut self) -> (result: Result<()>)
        ensures
            old(self).state.is_blocking() ==> result == Ok::<(), Error>(()) && final(self).state
                == old(self).state,
            old(self).state.is_async() ==> result == Err::<(), Error>(Error::Busy)
                && final(self).state == old(self).state,
            old(self).state is Poisoned ==> result == Err::<(), Error>(no_device_error())
                && final(self).state == old(self).state,
            old(self).state matches RxStreamState::Dormant(device) ==> result == Ok::<(), Error>(())
                && match M::FORMAT {
                SampleFormat::RawAdc => final(self).state matches RxStreamState::BlockingRaw(stream)
                    && stream == (OwnedRawRxStreamInner::<T> {
                    device,
                    stream: None,
                    stats: streaming::no_stats(),
                    state: crate::owned::ReceiverState::Stopped,
                }),
                SampleFormat::F32Iq => final(self).state matches RxStreamState::BlockingF32(stream)
                    && stream == (F32RxStreamInner::<T, S> {
                    device,
                    stream: None,
                    stats: streaming::no_stats(),
                    state: crate::owned::ReceiverState::Stopped,
                }),
            },
    {
        match &self.state {
            RxStreamState::BlockingRaw(_) | RxStreamState::BlockingF32(_) => return Ok(()),
            RxStreamState::AsyncRaw(_) | RxStreamState::AsyncF32(_) => {
                return Err(Error::Busy);
            },
            _ => {},
        }
        let mut state: RxStreamState<T, S> = RxStreamState::Poisoned;
        core::mem::swap(&mut self.state, &mut state);
        match state {
            RxStreamState::Dormant(device) => {
                self.state = match M::FORMAT {
                    SampleFormat::RawAdc => RxStreamState::BlockingRaw(
                        OwnedRawRxStreamInner::new(device),
                    ),
                    SampleFormat::F32Iq => RxStreamState::BlockingF32(
                        F32RxStreamInner::new(device),
                    ),
                };
                Ok(())
            },
            other => {
                self.state = other;
                Err(Error::StreamClosed("RX stream has no device"))
            },
        }
    }

    /// Decide what an asynchronous stop does where no asynchronous stream runs:
    /// the counters of a stream that was never started, or an error.
    pub fn stop_async_dormant(&self) -> (result: Option<Result<StreamingStats>>)
        ensures
            result == match self.state {
                RxStreamState::Dormant(_) => Some(
                    Ok::<StreamingStats, Error>(streaming::no_stats()),
                ),
                RxStreamState::AsyncRaw(_) => None,
                RxStreamState::AsyncF32(_) => None,
                RxStreamState::BlockingRaw(_) => Some(Err(Error::Busy)),
                RxStreamState::BlockingF32(_) => Some(Err(Error::Busy)),
                RxStreamState::Poisoned => Some(Err(no_device_error())),
            },
    {
        match &self.state {
            RxStreamState::Dormant(_) => Some(Ok(StreamingStats::default())),
            RxStreamState::AsyncRaw(_) | RxStreamState::AsyncF32(_) => None,
            RxStreamState::BlockingRaw(_) | RxStreamState::BlockingF32(_) => Some(Err(Error::Busy)),
            RxStreamState::Poisoned => Some(Err(Error::StreamClosed("RX stream has no device"))),
        }
    }

    /// Decide what a blocking stop does where no blocking stream runs: the
    /// counters of a stream that was never started, or an error.
    pub fn stop_blocking_dormant(&self) -> (result: Option<Result<StreamingStats>>)
        ensures
            result == match self.state {
                RxStreamState::Dormant(_) => Some(
                    Ok::<StreamingStats, Error>(streaming::no_stats()),
                ),
                RxStreamState::BlockingRaw(_) => None,
                RxStreamState::BlockingF32(_) => None,
                RxStreamState::AsyncRaw(_) => Some(Err(Error::Busy)),
                RxStreamState::AsyncF32(_) => Some(Err(Error::Busy)),
                RxStreamState::Poisoned => Some(Err(no_device_error())),
            },
    {
        match &self.state {
            RxStreamState::Dormant(_) => Some(Ok(StreamingStats::default())),
            RxStreamState::BlockingRaw(_) | RxStreamState::BlockingF32(_) => None,
            RxStreamState::AsyncRaw(_) | RxStreamState::AsyncF32(_) => Some(Err(Error::Busy)),
            RxStreamState::Poisoned => Some(Err(Error::StreamClosed("RX stream has no device"))),
        }
    }

    /// Give the device back.
    ///
    /// The driver stops a blocking stream first and lets an asynchronous queue
    /// go.
    pub fn into_device(self) -> (device: Device<M>)
        requires
            !(self.state is Poisoned),
        ensures
            device.inner == self.state.spec_device(),
    {
        let inner: DeviceInner = match self.state {
            RxStreamState::Dormant(device) => device,
            RxStreamState::Poisoned => vstd::pervasive::unreached(),
            RxStreamState::BlockingRaw(stream) => stream.into_device(),
            RxStreamState::BlockingF32(stream) => stream.into_device(),
            RxStreamState::AsyncRaw(stream) => stream.into_device(),
            RxStreamState::AsyncF32(stream) => stream.into_device(),
        };
        Device { inner, mode: PhantomData }
    }
}

impl<T, S> RxStream<T, S, RawAdc> {
    /// Blocking raw stream to read the next block from.
    pub fn blocking_raw(&mut self) -> (result: Result<&mut OwnedRawRxStreamInner<T>>)
        ensures
            match old(self).state {
                RxStreamState::BlockingRaw(before) => result matches Ok(stream) && *stream == before
                    && final(self).state == RxStreamState::<T, S>::BlockingRaw(*final(stream)),
                _ => result matches Err(error) && error == Error::StreamClosed(
                    "raw RX stream is not running in blocking mode",
                ) && *final(self) == *old(self),
            },
    {
        match &mut self.state {
            RxStreamState::BlockingRaw(stream) => Ok(stream),
            _ => Err(Error::StreamClosed("raw RX stream is not running in blocking mode")),
        }
    }

    /// Asynchronous raw stream to read the next block from.
    pub fn async_raw(&mut self) -> (result: Result<&mut AsyncRawRxStreamInner<T>>)
        ensures
            match old(self).state {
                RxStreamState::AsyncRaw(before) => result matches Ok(stream) && *stream == before
                    && final(self).state == RxStreamState::<T, S>::AsyncRaw(*final(stream)),
                _ => result matches Err(error) && error == Error::StreamClosed(
                    "raw RX stream is not running asynchronously",
                ) && *final(self) == *old(self),
            },
    {
        match &mut self.state {
            RxStreamState::AsyncRaw(stream) => Ok(stream),
            _ => Err(Error::StreamClosed("raw RX stream is not running asynchronously")),
        }
    }
}

impl<T, S> RxStream<T, S, F32Iq> {
    /// Blocking converted stream to read from.
    pub fn blocking_f32(&mut self) -> (result: Result<&mut F32RxStreamInner<T, S>>)
        ensures
            match old(self).state {
                RxStreamState::BlockingF32(before) => result matches Ok(stream) && *stream == before
                    && final(self).state == RxStreamState::<T, S>::BlockingF32(*final(stream)),
                _ => result matches Err(error) && error == Error::StreamClosed(
                    "F32 IQ stream is not running in blocking mode",
                ) && *final(self) == *old(self),
            },
    {
        match &mut self.state {
            RxStreamState::BlockingF32(stream) => Ok(stream),
            _ => Err(Error::StreamClosed("F32 IQ stream is not running in blocking mode")),
        }
    }

    /// Asynchronous converted stream to read from.
    pub fn async_f32(&mut self) -> (result: Result<&mut AsyncF32RxStreamInner<T, S>>)
        ensures
            match old(self).state {
                RxStreamState::AsyncF32(before) => result matches Ok(stream) && *stream == before
                    && final(self).state == RxStreamState::<T, S>::AsyncF32(*final(stream)),
                _ => result matches Err(error) && error == Error::StreamClosed(
                    "F32 IQ stream is not running asynchronously",
                ) && *final(self) == *old(self),
            },
    {
        match &mut self.state {
            RxStreamState::AsyncF32(stream) => Ok(stream),
            _ => Err(Error::StreamClosed("F32 IQ stream is not running asynchronously")),
        }
    }
}

/// Law: a stream is in blocking use, in asynchronous use, or has not been started,
/// and no two of these at once. Wherever it has a device, that is its device.
pub proof fn law_a_stream_is_used_in_one_way<T, S>(state: RxStreamState<T, S>)
    ensures
        !(state.is_blocking() && state.is_async()),
        state.is_blocking() || state.is_async() <==> !(state is Dormant || state is Poisoned),
        state.is_blocking() <==> state is BlockingRaw || state is BlockingF32,
        state matches RxStreamState::Dormant(device) ==> state.spec_device() == device,
        state matches RxStreamState::BlockingRaw(stream) ==> state.spec_device() == stream.device,
        state matches RxStreamState::BlockingF32(stream) ==> state.spec_device() == stream.device,
        state matches RxStreamState::AsyncRaw(stream) ==> state.spec_device() == stream.device,
        state matches RxStreamState::AsyncF32(stream) ==> state.spec_device() == stream.device,
        no_device_error() == Error::StreamClosed("RX stream has no device"),
{
}

} // verus!
