//! Vendor control requests and the decoding of their replies.

use crate::commands::{ReceiverMode, VendorRequest};
use crate::config::RfPort;
use crate::constants::CTRL_TIMEOUT_MS;
use crate::errors::{Error, Result, StatusCode};
use crate::types::PartIdSerialNo;
use crate::usb::bytes::{self, u32_from_le_bytes_at, u64_to_le_bytes};
use nusb::transfer::{ControlIn, ControlOut, ControlType, Recipient};
use vstd::prelude::*;

verus! {

/// `nusb::transfer::ControlType`, the type bits of a control request.
#[verifier::external_type_specification]
pub struct ExControlType(ControlType);

/// `nusb::transfer::Recipient`, the recipient bits of a control request.
#[verifier::external_type_specification]
pub struct ExRecipient(Recipient);

/// `nusb::transfer::ControlIn`, the SETUP fields of an IN control transfer.
#[verifier::external_type_specification]
pub struct ExControlIn(ControlIn);

/// `nusb::transfer::ControlOut`, the SETUP fields and data of an OUT control
/// transfer.
#[verifier::external_type_specification]
pub struct ExControlOut<'a>(ControlOut<'a>);

/// Direction of a vendor control transfer.
#[derive(Clone, Copy, Debug, Eq, PartialEq, Structural)]
pub enum ControlDirection {
    /// Device to host.
    In,
    /// Host to device.
    Out,
}

/// Encoded vendor control request.
#[derive(Clone, Debug, Eq, PartialEq)]
pub struct VendorControlRequest {
    /// Direction of the data stage.
    pub direction: ControlDirection,
    /// Request number.
    pub request: VendorRequest,
    /// `wValue` field.
    pub value: u16,
    /// `wIndex` field.
    pub index: u16,
    /// Bytes of the data stage.
    pub length: usize,
    /// Data sent to the device.
    pub data: Vec<u8>,
    /// Timeout in milliseconds.
    pub timeout_ms: u64,
}

/// Contents of a [`VendorControlRequest`].
pub struct RequestView {
    /// Direction of the data stage.
    pub direction: ControlDirection,
    /// Request number.
    pub request: VendorRequest,
    /// `wValue` field.
    pub value: u16,
    /// `wIndex` field.
    pub index: u16,
    /// Bytes of the data stage.
    pub length: nat,
    /// Data sent to the device.
    pub data: Seq<u8>,
    /// Timeout in milliseconds.
    pub timeout_ms: u64,
}

impl View for VendorControlRequest {
    type V = RequestView;

    open spec fn view(&self) -> RequestView {
        RequestView {
            direction: self.direction,
            request: self.request,
            value: self.value,
            index: self.index,
            length: self.length as nat,
            data: self.data@,
            timeout_ms: self.timeout_ms,
        }
    }
}

/// IN request with the default timeout.
pub open spec fn spec_in_request(
    request: VendorRequest,
    value: u16,
    index: u16,
    length: nat,
) -> RequestView {
    RequestView {
        direction: ControlDirection::In,
        request,
        value,
        index,
        length,
        data: Seq::empty(),
        timeout_ms: CTRL_TIMEOUT_MS,
    }
}

/// OUT request with the default timeout.
pub open spec fn spec_out_request(
    request: VendorRequest,
    value: u16,
    index: u16,
    data: Seq<u8>,
) -> RequestView {
    RequestView {
        direction: ControlDirection::Out,
        request,
        value,
        index,
        length: data.len(),
        data,
        timeout_ms: CTRL_TIMEOUT_MS,
    }
}

/// Request that selects a receiver mode.
pub open spec fn spec_receiver_mode(mode: ReceiverMode) -> RequestView {
    spec_out_request(VendorRequest::ReceiverMode, mode.spec_code(), 0, Seq::empty())
}

/// Request that tunes the receiver.
pub open spec fn spec_set_frequency(freq_hz: u64) -> RequestView {
    spec_out_request(VendorRequest::SetFreq, 0, 0, bytes::le_bytes(freq_hz as nat, 8))
}

/// Request that selects a sample rate by its table index.
pub open spec fn spec_set_samplerate(index_or_khz: u16) -> RequestView {
    spec_in_request(VendorRequest::SetSamplerate, 0, index_or_khz, 1)
}

/// Request that sets one gain or AGC.
pub open spec fn spec_legacy_gain(request: VendorRequest, value: u8) -> RequestView {
    spec_in_request(request, 0, value as u16, 1)
}

/// Request that switches the RF bias power.
pub open spec fn spec_set_rf_bias(value: u8) -> RequestView {
    spec_out_request(VendorRequest::SetRfBiasCmd, 0, value as u16, Seq::empty())
}

/// Request that switches packed transfers.
pub open spec fn spec_set_packing(value: u8) -> RequestView {
    spec_in_request(VendorRequest::SetPacking, 0, value as u16, 1)
}

/// Request that selects the RF input port.
pub open spec fn spec_set_rf_port(port: RfPort) -> RequestView {
    spec_in_request(VendorRequest::SetRfPort, 0, port.spec_code(), 1)
}

/// Request that reads the board ID.
pub open spec fn spec_board_id_read() -> RequestView {
    spec_in_request(VendorRequest::BoardIdRead, 0, 0, 1)
}

/// Request that reads the firmware version string.
pub open spec fn spec_version_string_read(length: nat) -> RequestView {
    spec_in_request(VendorRequest::VersionStringRead, 0, 0, length)
}

/// Request that reads the part ID and serial-number words.
pub open spec fn spec_board_partid_serialno_read() -> RequestView {
    spec_in_request(VendorRequest::BoardPartIdSerialNoRead, 0, 0, 24)
}

impl VendorControlRequest {
    /// Build a vendor/device IN request with the default control timeout.
    pub fn in_request(request: VendorRequest, value: u16, index: u16, length: usize) -> (r: Self)
        ensures
            r@ == spec_in_request(request, value, index, length as nat),
    {
        Self::in_request_with_timeout(request, value, index, length, CTRL_TIMEOUT_MS)
    }

    /// Build a vendor/device IN request with an explicit timeout.
    pub fn in_request_with_timeout(
        request: VendorRequest,
        value: u16,
        index: u16,
        length: usize,
        timeout_ms: u64,
    ) -> (r: Self)
        ensures
            r@ == (RequestView {
                timeout_ms,
                ..spec_in_request(request, value, index, length as nat)
            }),
    {
        let data: Vec<u8> = Vec::new();
        VendorControlRequest {
            direction: ControlDirection::In,
            request,
            value,
            index,
            length,
            data,
            timeout_ms,
        }
    }

    /// Build a vendor/device OUT request with the default control timeout.
    pub fn out_request(request: VendorRequest, value: u16, index: u16, data: Vec<u8>) -> (r: Self)
        ensures
            r@ == spec_out_request(request, value, index, data@),
    {
        Self::out_request_with_timeout(request, value, index, data, CTRL_TIMEOUT_MS)
    }

    /// Build a vendor/device OUT request with an explicit timeout.
    pub fn out_request_with_timeout(
        request: VendorRequest,
        value: u16,
        index: u16,
        data: Vec<u8>,
        timeout_ms: u64,
    ) -> (r: Self)
        ensures
            r@ == (RequestView { timeout_ms, ..spec_out_request(request, value, index, data@) }),
    {
        let length: usize = data.len();
        VendorControlRequest {
            direction: ControlDirection::Out,
            request,
            value,
            index,
            length,
            data,
            timeout_ms,
        }
    }

    /// Convert this request into a `nusb` IN control transfer.
    pub fn nusb_control_in(&self) -> (result: Result<ControlIn>)
        ensures
            result is Ok <==> self.direction == ControlDirection::In && self.length <= u16::MAX,
            result matches Err(error) ==> error == Error::Status(StatusCode::InvalidParam),
            result matches Ok(setup) ==> setup == (ControlIn {
                control_type: ControlType::Vendor,
                recipient: Recipient::Device,
                request: self.request.spec_code(),
                value: self.value,
                index: self.index,
                length: self.length as u16,
            }),
    {
        if self.direction != ControlDirection::In || self.length > 0xffff {
            return Err(Error::Status(StatusCode::InvalidParam));
        }
        Ok(
            ControlIn {
                control_type: ControlType::Vendor,
                recipient: Recipient::Device,
                request: self.request.code(),
                value: self.value,
                index: self.index,
                length: self.length as u16,
            },
        )
    }

    /// Convert this request into a `nusb` OUT control transfer.
    pub fn nusb_control_out(&self) -> (result: Result<ControlOut<'_>>)
        ensures
            result is Ok <==> self.direction == ControlDirection::Out,
            result matches Err(error) ==> error == Error::Status(StatusCode::InvalidParam),
            result matches Ok(setup) ==> {
                &&& setup.control_type == ControlType::Vendor
                &&& setup.recipient == Recipient::Device
                &&& setup.request == self.request.spec_code()
                &&& setup.value == self.value
                &&& setup.index == self.index
                &&& setup.data@ == self.data@
            },
    {
        if self.direction != ControlDirection::Out {
            return Err(Error::Status(StatusCode::InvalidParam));
        }
        Ok(
            ControlOut {
                control_type: ControlType::Vendor,
                recipient: Recipient::Device,
                request: self.request.code(),
                value: self.value,
                index: self.index,
                data: self.data.as_slice(),
            },
        )
    }

    /// Encode receiver mode selection.
    pub fn receiver_mode(mode: ReceiverMode) -> (r: Self)
        ensures
            r@ == spec_receiver_mode(mode),
    {
        Self::out_request(VendorRequest::ReceiverMode, mode.code(), 0, Vec::new())
    }

    /// Encode frequency setting as an 8-byte little-endian OUT payload.
    pub fn set_frequency(freq_hz: u64) -> (r: Self)
        ensures
            r@ == spec_set_frequency(freq_hz),
    {
        Self::out_request(VendorRequest::SetFreq, 0, 0, u64_to_le_bytes(freq_hz))
    }

    /// Encode the sample-rate count query.
    pub fn get_samplerates_count(extended: bool) -> (r: Self)
        ensures
            r@ == spec_in_request(
                VendorRequest::GetSamplerates,
                if extended { 1 } else { 0 },
                0,
                4,
            ),
    {
        Self::in_request(VendorRequest::GetSamplerates, if extended { 1 } else { 0 }, 0, 4)
    }

    /// Encode the sample-rate list query.
    ///
    /// The count travels in its low 16 bits.
    pub fn get_samplerates(count: u32, extended: bool) -> (r: Self)
        requires
            count * 4 <= usize::MAX,
        ensures
            r@ == spec_in_request(
                VendorRequest::GetSamplerates,
                if extended { 1 } else { 0 },
                (count % 65_536) as u16,
                (count * 4) as nat,
            ),
    {
        let length: usize = count as usize * 4;
        Self::in_request(
            VendorRequest::GetSamplerates,
            if extended { 1 } else { 0 },
            (count % 65_536) as u16,
            length,
        )
    }

    /// Encode sample-rate selection by table index.
    pub fn set_samplerate(index_or_khz: u16) -> (r: Self)
        ensures
            r@ == spec_set_samplerate(index_or_khz),
    {
        Self::in_request(VendorRequest::SetSamplerate, 0, index_or_khz, 1)
    }

    /// Encode one of the gain requests.
    pub fn legacy_gain(request: VendorRequest, value: u8) -> (r: Self)
        ensures
            r@ == spec_legacy_gain(request, value),
    {
        Self::in_request(request, 0, value as u16, 1)
    }

    /// Encode the gain request of extended firmware, by the number of the gain
    /// type.
    pub fn unified_gain(gain_type: u16, value: u8) -> (r: Self)
        ensures
            r@ == spec_in_request(VendorRequest::SetGain, gain_type, value as u16, 1),
    {
        Self::in_request(VendorRequest::SetGain, gain_type, value as u16, 1)
    }

    /// Encode RF bias tee control.
    pub fn set_rf_bias(value: u8) -> (r: Self)
        ensures
            r@ == spec_set_rf_bias(value),
    {
        Self::out_request(VendorRequest::SetRfBiasCmd, 0, value as u16, Vec::new())
    }

    /// Encode packed-sample mode control.
    pub fn set_packing(value: u8) -> (r: Self)
        ensures
            r@ == spec_set_packing(value),
    {
        Self::in_request(VendorRequest::SetPacking, 0, value as u16, 1)
    }

    /// Encode RF input port selection.
    pub fn set_rf_port(port: RfPort) -> (r: Self)
        ensures
            r@ == spec_set_rf_port(port),
    {
        Self::in_request(VendorRequest::SetRfPort, 0, port.code(), 1)
    }

    /// Encode board ID read.
    pub fn board_id_read() -> (r: Self)
        ensures
            r@ == spec_board_id_read(),
    {
        Self::in_request(VendorRequest::BoardIdRead, 0, 0, 1)
    }

    /// Encode firmware version string read.
    pub fn version_string_read(length: usize) -> (r: Self)
        ensures
            r@ == spec_version_string_read(length as nat),
    {
        Self::in_request(VendorRequest::VersionStringRead, 0, 0, length)
    }

    /// Encode board part/serial read.
    pub fn board_partid_serialno_read() -> (r: Self)
        ensures
            r@ == spec_board_partid_serialno_read(),
    {
        Self::in_request(VendorRequest::BoardPartIdSerialNoRead, 0, 0, 24)
    }

    /// Encode capability-word read.
    pub fn get_capabilities(word: u16) -> (r: Self)
        ensures
            r@ == spec_in_request(VendorRequest::GetCapabilities, 0, word, 4),
    {
        Self::in_request(VendorRequest::GetCapabilities, 0, word, 4)
    }
}

/// Number of a GPIO pin: three bits of port above five bits of pin.
pub fn gpio_port_pin(port: u8, pin: u8) -> (result: Result<u8>)
    ensures
        result == if port < 8 && pin < 32 {
            Ok((port * 32 + pin) as u8)
        } else {
            Err(Error::Status(StatusCode::InvalidParam))
        },
{
    if port >= 8 || pin >= 32 {
        return Err(Error::Status(StatusCode::InvalidParam));
    }
    Ok(port * 32 + pin)
}

/// Word number `i` of `bytes`.
pub open spec fn word_at(bytes: Seq<u8>, i: int) -> nat {
    bytes::le_value(bytes.subrange(4 * i, 4 * i + 4))
}

/// Decode a reply made of 32-bit little-endian words.
pub fn decode_u32_le_words(bytes: &[u8]) -> (result: Result<Vec<u32>>)
    ensures
        result is Ok <==> bytes@.len() % 4 == 0,
        result matches Err(error) ==> error == Error::Status(StatusCode::LibUsb),
        result matches Ok(words) ==> {
            &&& words@.len() == bytes@.len() / 4
            &&& forall|i: int|
                0 <= i < words@.len() ==> #[trigger] words@[i] == word_at(bytes@, i)
        },
{
    let total: usize = bytes.len();
    if total % 4 != 0 {
        return Err(Error::Status(StatusCode::LibUsb));
    }
    let count: usize = total / 4;
    let mut words: Vec<u32> = Vec::new();
    let mut next: usize = 0;
    while next < count
        invariant
            total == bytes@.len(),
            count == total / 4,
            next <= count,
            words@.len() == next,
            forall|i: int| 0 <= i < words@.len() ==> #[trigger] words@[i] == word_at(bytes@, i),
        decreases count - next,
    {
        words.push(u32_from_le_bytes_at(bytes, next * 4));
        next = next + 1;
    }
    Ok(words)
}

/// Decode the part ID and serial-number reply.
pub fn decode_part_id_serial(bytes: &[u8]) -> (result: Result<PartIdSerialNo>)
    ensures
        result is Ok <==> bytes@.len() % 4 == 0 && bytes@.len() >= 24,
        result matches Err(error) ==> error == Error::Status(StatusCode::LibUsb),
        result matches Ok(ids) ==> {
            &&& forall|i: int|
                0 <= i < 2 ==> #[trigger] ids.part_id@[i] == word_at(bytes@, i)
            &&& forall|i: int|
                0 <= i < 4 ==> #[trigger] ids.serial_no@[i] == word_at(bytes@, i + 2)
        },
{
    let words: Vec<u32> = match decode_u32_le_words(bytes) {
        Err(error) => return Err(error),
        Ok(words) => words,
    };
    if words.len() < 6 {
        return Err(Error::Status(StatusCode::LibUsb));
    }
    Ok(
        PartIdSerialNo {
            part_id: [words[0], words[1]],
            serial_no: [words[2], words[3], words[4], words[5]],
        },
    )
}

/// Law: a setting that is one number travels in the `wIndex` field of an IN
/// request that asks for one byte, under the request of its own.
pub proof fn law_numbers_travel_in_the_index_field(
    request: VendorRequest,
    number: u16,
    byte: u8,
    port: RfPort,
)
    ensures
        ({
            let acknowledged = RequestView {
                direction: ControlDirection::In,
                request,
                value: 0,
                index: number,
                length: 1,
                data: Seq::empty(),
                timeout_ms: 500,
            };
            &&& spec_set_samplerate(number) == (RequestView {
                request: VendorRequest::SetSamplerate,
                ..acknowledged
            })
            &&& spec_legacy_gain(request, byte) == (RequestView {
                index: byte as u16,
                ..acknowledged
            })
            &&& spec_set_packing(byte) == (RequestView {
                request: VendorRequest::SetPacking,
                index: byte as u16,
                ..acknowledged
            })
            &&& spec_set_rf_port(port) == (RequestView {
                request: VendorRequest::SetRfPort,
                index: match port {
                    RfPort::Rx0 => 0,
                    RfPort::Rx1 => 1,
                    RfPort::Rx2 => 2,
                },
                ..acknowledged
            })
        }),
{
}

/// Law: the requests that nothing answers carry their setting to the device: the
/// frequency as eight bytes, least significant first, the receiver mode in the
/// `wValue` field and the bias power in the `wIndex` field.
pub proof fn law_unanswered_requests_carry_their_setting(
    freq_hz: u64,
    mode: ReceiverMode,
    byte: u8,
)
    ensures
        ({
            let tuning = spec_set_frequency(freq_hz);
            &&& tuning.direction == ControlDirection::Out
            &&& tuning.request == VendorRequest::SetFreq
            &&& tuning.value == 0 && tuning.index == 0
            &&& tuning.data.len() == 8 && tuning.length == 8
            &&& bytes::le_value(tuning.data) == freq_hz
            &&& tuning.timeout_ms == 500
        }),
        spec_receiver_mode(mode) == (RequestView {
            direction: ControlDirection::Out,
            request: VendorRequest::ReceiverMode,
            value: if mode == ReceiverMode::Rx { 1 } else { 0 },
            index: 0,
            length: 0,
            data: Seq::empty(),
            timeout_ms: 500,
        }),
        spec_set_rf_bias(byte) == (RequestView {
            direction: ControlDirection::Out,
            request: VendorRequest::SetRfBiasCmd,
            value: 0,
            index: byte as u16,
            length: 0,
            data: Seq::empty(),
            timeout_ms: 500,
        }),
{
    reveal_with_fuel(bytes::byte_range, 9);
    bytes::law_le_bytes_read_back(freq_hz as nat, 8);
}

/// Law: what is read from the device is asked for with an IN request of that many
/// bytes.
pub proof fn law_reads_ask_for_what_they_need(
    request: VendorRequest,
    value: u16,
    index: u16,
    length: nat,
)
    ensures
        ({
            let read = RequestView {
                direction: ControlDirection::In,
                request,
                value,
                index,
                length,
                data: Seq::empty(),
                timeout_ms: 500,
            };
            let plain = RequestView { value: 0, index: 0, ..read };
            &&& spec_in_request(request, value, index, length) == read
            &&& spec_board_id_read() == (RequestView {
                request: VendorRequest::BoardIdRead,
                length: 1,
                ..plain
            })
            &&& spec_version_string_read(length) == (RequestView {
                request: VendorRequest::VersionStringRead,
                ..plain
            })
            &&& spec_board_partid_serialno_read() == (RequestView {
                request: VendorRequest::BoardPartIdSerialNoRead,
                length: 24,
                ..plain
            })
        }),
{
}

/// Law: a word is four bytes in a row, least significant first.
pub proof fn law_a_word_is_four_bytes(data: Seq<u8>, i: int)
    requires
        0 <= i,
        4 * i + 4 <= data.len(),
    ensures
        word_at(data, i) == data[4 * i] + 256 * data[4 * i + 1] + 65_536 * data[4 * i + 2]
            + 16_777_216 * data[4 * i + 3],
{
    let word = data.subrange(4 * i, 4 * i + 4);
    reveal_with_fuel(bytes::le_value, 5);
    assert(word.drop_first().drop_first().drop_first().drop_first().len() == 0);
    assert(word[0] == data[4 * i]);
    assert(word.drop_first()[0] == data[4 * i + 1]);
    assert(word.drop_first().drop_first()[0] == data[4 * i + 2]);
    assert(word.drop_first().drop_first().drop_first()[0] == data[4 * i + 3]);
}

} // verus!
