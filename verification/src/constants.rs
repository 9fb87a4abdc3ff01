//! Streaming and control constants.

use vstd::prelude::*;

verus! {

/// Default control-transfer timeout in milliseconds.
pub const CTRL_TIMEOUT_MS: u64 = 500;

/// Raw USB buffer size of unpacked transfers.
pub const DEFAULT_BUFFER_SIZE: usize = 262_144;

/// Bytes of one unpacked complex input sample: two 16-bit ADC values.
pub const BYTES_PER_COMPLEX_INPUT: usize = 4;

/// Maximum number of unpacked complex `F32Iq` samples produced by one USB transfer.
///
/// Host-side decimation can make an individual transfer produce fewer samples.
pub const MAX_F32_IQ_SAMPLES_PER_TRANSFER: usize = DEFAULT_BUFFER_SIZE / BYTES_PER_COMPLEX_INPUT;

/// USB buffer size of packed transfers.
pub const PACKED_BUFFER_SIZE: usize = 6_144 * 24;

} // verus!
