//! Opening of a device: the order of its steps, the firmware check and the
//! device metadata.

use crate::active_state::ActiveState;
use crate::errors::{self, Error, Result, StatusCode};
use crate::rfone::{self, rf_port_infos, RFONE_MAX_FREQ_HZ, RFONE_MIN_FREQ_HZ};
use crate::text::{self, decode_c_string, starts_with};
use crate::types::{self, BoardId, DeviceInfo, PartIdSerialNo};
use crate::usb::control::{self, decode_part_id_serial, RequestView, VendorControlRequest};
use crate::usb::sequence::{self, check_reply, Expect};
use nusb::Error as BackendError;
use nusb::ErrorKind as BackendErrorKind;
use vstd::prelude::*;

verus! {

/// Bytes asked for when the firmware version is read.
pub const VERSION_STRING_SIZE: usize = 255;

/// Step of the opening of a device.
#[derive(Clone, Copy, Debug, Eq, PartialEq, Structural)]
pub enum OpenStage {
    /// Select a visible device.
    SelectDevice,
    /// Open it.
    OpenDevice,
    /// Select its first configuration.
    SelectConfiguration,
    /// Claim its interface.
    ClaimInterface,
    /// Read and check the firmware version.
    CheckFirmware,
    /// Read the metadata.
    ReadMetadata,
    /// Apply the initial configuration.
    Configure,
    /// The device is open.
    Ready,
}

impl OpenStage {
    /// Operation that an error of this stage names, if it names one.
    pub open spec fn spec_operation(self) -> Option<&'static str> {
        match self {
            OpenStage::SelectDevice => None,
            OpenStage::OpenDevice => Some("opening USB device"),
            OpenStage::SelectConfiguration => Some("selecting USB configuration 1"),
            OpenStage::ClaimInterface => Some("claiming HydraSDR USB interface 0"),
            OpenStage::CheckFirmware => Some("validating HydraSDR firmware version"),
            OpenStage::ReadMetadata => Some("reading HydraSDR device metadata"),
            OpenStage::Configure => Some("applying initial HydraSDR configuration"),
            OpenStage::Ready => None,
        }
    }

    /// Error that an opening ends in when this stage fails with `error`.
    pub open spec fn spec_failed(self, error: Error) -> Error {
        match self.spec_operation() {
            None => error,
            Some(operation) => Error::Operation { operation, source: Box::new(error) },
        }
    }

    /// Stage that follows this one.
    pub open spec fn spec_next(self) -> OpenStage {
        match self {
            OpenStage::SelectDevice => OpenStage::OpenDevice,
            OpenStage::OpenDevice => OpenStage::SelectConfiguration,
            OpenStage::SelectConfiguration => OpenStage::ClaimInterface,
            OpenStage::ClaimInterface => OpenStage::CheckFirmware,
            OpenStage::CheckFirmware => OpenStage::ReadMetadata,
            OpenStage::ReadMetadata => OpenStage::Configure,
            OpenStage::Configure => OpenStage::Ready,
            OpenStage::Ready => OpenStage::Ready,
        }
    }

    /// First stage of an opening.
    pub fn begin() -> (stage: OpenStage)
        ensures
            stage == OpenStage::SelectDevice,
    {
        OpenStage::SelectDevice
    }

    /// Error that an opening ends in when this stage fails with `error`.
    pub fn failed(self, error: Error) -> (named: Error)
        ensures
            named == self.spec_failed(error),
    {
        match self {
            OpenStage::SelectDevice => error,
            OpenStage::OpenDevice => error.at("opening USB device"),
            OpenStage::SelectConfiguration => error.at("selecting USB configuration 1"),
            OpenStage::ClaimInterface => error.at("claiming HydraSDR USB interface 0"),
            OpenStage::CheckFirmware => error.at("validating HydraSDR firmware version"),
            OpenStage::ReadMetadata => error.at("reading HydraSDR device metadata"),
            OpenStage::Configure => error.at("applying initial HydraSDR configuration"),
            OpenStage::Ready => error,
        }
    }

    /// Stage that follows when this one comes out as `result`.
    pub fn advance(self, result: Result<()>) -> (outcome: Result<OpenStage>)
        ensures
            outcome == match result {
                Ok(()) => Ok(self.spec_next()),
                Err(error) => Err(self.spec_failed(error)),
            },
    {
        match result {
            Err(error) => Err(self.failed(error)),
            Ok(()) => Ok(
                match self {
                    OpenStage::SelectDevice => OpenStage::OpenDevice,
                    OpenStage::OpenDevice => OpenStage::SelectConfiguration,
                    OpenStage::SelectConfiguration => OpenStage::ClaimInterface,
                    OpenStage::ClaimInterface => OpenStage::CheckFirmware,
                    OpenStage::CheckFirmware => OpenStage::ReadMetadata,
                    OpenStage::ReadMetadata => OpenStage::Configure,
                    OpenStage::Configure => OpenStage::Ready,
                    OpenStage::Ready => OpenStage::Ready,
                },
            ),
        }
    }
}

/// Law: naming the stage of a failed opening keeps the category of its error.
pub proof fn law_open_errors_keep_their_kind(stage: OpenStage, error: Error)
    ensures
        stage.spec_failed(error).spec_kind() == error.spec_kind(),
        stage.spec_failed(error).spec_status_code() == error.spec_status_code(),
{
}

/// Whether an error of this category leaves the configuration selected: some
/// systems select it themselves and refuse to do so on request.
pub open spec fn configuration_stands(kind: BackendErrorKind) -> bool {
    kind is Unsupported
}

/// Whether an error of this category leaves the configuration selected.
pub fn tolerates_configuration_error(kind: BackendErrorKind) -> (tolerated: bool)
    ensures
        tolerated == configuration_stands(kind),
{
    match kind {
        BackendErrorKind::Unsupported => true,
        _ => false,
    }
}

/// Outcome of selecting the USB configuration.
pub fn configuration_result(result: core::result::Result<(), BackendError>) -> (outcome: Result<()>)
    ensures
        match result {
            Ok(()) => outcome == Ok::<(), Error>(()),
            Err(error) => if configuration_stands(errors::usb_error_kind(error)) {
                outcome == Ok::<(), Error>(())
            } else {
                outcome matches Err(Error::Usb(fault)) && fault.status == errors::usb_status(
                    errors::usb_error_kind(error),
                )
            },
        },
{
    match result {
        Ok(()) => Ok(()),
        Err(error) => {
            if tolerates_configuration_error(error.kind()) {
                Ok(())
            } else {
                Err(Error::from(error))
            }
        },
    }
}

/// Accept the firmware versions that this driver knows.
pub fn check_firmware(firmware: &str) -> (result: Result<()>)
    ensures
        result == if text::begins_with(firmware@, "HydraSDR RF"@) {
            Ok(())
        } else {
            Err(Error::DeviceNotFound)
        },
{
    if starts_with(firmware, "HydraSDR RF") {
        Ok(())
    } else {
        Err(Error::DeviceNotFound)
    }
}

/// Outcome of the firmware check of an opening.
///
/// A failed request is named as that stage's error; firmware that is not known
/// leaves no HydraSDR to open.
pub fn firmware_result(reply: Result<Vec<u8>>) -> (outcome: Result<()>)
    ensures
        outcome == match reply {
            Err(error) => Err(OpenStage::CheckFirmware.spec_failed(error)),
            Ok(data) => if text::begins_with(
                text::lossy_text(text::c_string_bytes(data@)),
                "HydraSDR RF"@,
            ) {
                Ok(())
            } else {
                Err(Error::DeviceNotFound)
            },
        },
{
    match decode_version_string(reply) {
        Err(error) => Err(OpenStage::CheckFirmware.failed(error)),
        Ok(firmware) => check_firmware(firmware.as_str()),
    }
}

/// Error of a board that is not known.
pub open spec fn unknown_board_error() -> Error {
    Error::Protocol {
        operation: "read board ID",
        reason: "firmware returned an unknown board ID",
        status: StatusCode::LibUsb,
    }
}

/// Board ID in a reply.
pub open spec fn board_id_in(reply: Result<Seq<u8>>) -> Result<BoardId> {
    match reply {
        Err(error) => Err(error),
        Ok(data) => if data.len() < 1 {
            Err(sequence::short_reply())
        } else {
            match types::board_with_id(data[0]) {
                Ok(board) => Ok(board),
                Err(_) => Err(unknown_board_error()),
            }
        },
    }
}

/// Decode the reply to the board ID request.
pub fn decode_board_id(reply: Result<Vec<u8>>) -> (result: Result<BoardId>)
    ensures
        result == board_id_in(sequence::reply_view(reply)),
{
    match reply {
        Err(error) => Err(error),
        Ok(data) => {
            match check_reply(Expect::AtLeast(1), data.as_slice()) {
                Err(error) => return Err(error),
                Ok(()) => {},
            }
            match BoardId::try_from(data[0]) {
                Ok(board) => Ok(board),
                Err(_) => Err(
                    Error::Protocol {
                        operation: "read board ID",
                        reason: "firmware returned an unknown board ID",
                        status: StatusCode::LibUsb,
                    },
                ),
            }
        },
    }
}

/// Decode the reply to the firmware version request.
pub fn decode_version_string(reply: Result<Vec<u8>>) -> (result: Result<String>)
    ensures
        match reply {
            Err(error) => result == Err::<String, Error>(error),
            Ok(data) => result matches Ok(version) && version@ == text::lossy_text(
                text::c_string_bytes(data@),
            ),
        },
{
    match reply {
        Err(error) => Err(error),
        Ok(data) => Ok(decode_c_string(data.as_slice())),
    }
}

/// Decode the reply to the part ID and serial-number request.
pub fn decode_part_serial(reply: Result<Vec<u8>>) -> (result: Result<PartIdSerialNo>)
    ensures
        match reply {
            Err(error) => result == Err::<PartIdSerialNo, Error>(error),
            Ok(data) => {
                &&& data@.len() < 24 ==> result == Err::<PartIdSerialNo, Error>(
                    sequence::short_reply(),
                )
                &&& data@.len() >= 24 && data@.len() % 4 != 0 ==> result == Err::<
                    PartIdSerialNo,
                    Error,
                >(Error::Status(StatusCode::LibUsb))
                &&& data@.len() >= 24 && data@.len() % 4 == 0 ==> (result matches Ok(ids) && (
                forall|i: int|
                    0 <= i < 2 ==> #[trigger] ids.part_id@[i] == control::word_at(data@, i)) && (
                forall|i: int|
                    0 <= i < 4 ==> #[trigger] ids.serial_no@[i] == control::word_at(data@, i + 2)))
            },
        },
{
    match reply {
        Err(error) => Err(error),
        Ok(data) => {
            match check_reply(Expect::AtLeast(24), data.as_slice()) {
                Err(error) => return Err(error),
                Ok(()) => {},
            }
            decode_part_id_serial(data.as_slice())
        },
    }
}

/// Serial number in the last two serial words, unless it is zero.
pub open spec fn spec_serial(ids: PartIdSerialNo) -> Option<u64> {
    let serial = ids.serial_no@[2] * 0x1_0000_0000 + ids.serial_no@[3];
    if serial == 0 {
        None
    } else {
        Some(serial as u64)
    }
}

/// Serial number in the last two serial words, unless it is zero.
pub fn serial_from_part_id(ids: &PartIdSerialNo) -> (serial: Option<u64>)
    ensures
        serial == spec_serial(*ids),
{
    let serial: u64 = ids.serial_no[2] as u64 * 0x1_0000_0000 + ids.serial_no[3] as u64;
    if serial == 0 {
        None
    } else {
        Some(serial)
    }
}

/// Whether `info` is the metadata of a device with this firmware and these IDs.
pub open spec fn is_metadata(info: DeviceInfo, firmware: Seq<char>, ids: PartIdSerialNo) -> bool {
    &&& info.board_name == "HydraSDR RFOne"
    &&& info.firmware_version@ == firmware
    &&& info.serial == spec_serial(ids)
    &&& info.min_frequency == RFONE_MIN_FREQ_HZ
    &&& info.max_frequency == RFONE_MAX_FREQ_HZ
    &&& info.rf_ports@ == rfone::spec_rf_port_infos()
}

/// Collect the metadata of a device.
pub fn build_device_info(firmware_version: String, ids: &PartIdSerialNo) -> (info: DeviceInfo)
    ensures
        is_metadata(info, firmware_version@, *ids),
{
    DeviceInfo {
        board_name: "HydraSDR RFOne",
        firmware_version,
        serial: serial_from_part_id(ids),
        min_frequency: RFONE_MIN_FREQ_HZ,
        max_frequency: RFONE_MAX_FREQ_HZ,
        rf_ports: rf_port_infos(),
        active_state: ActiveState::default(),
    }
}

/// Step of the reading of the metadata.
pub enum InfoStage {
    /// Read the board ID.
    BoardId,
    /// Read the firmware version.
    Firmware,
    /// Read the part ID and serial number, with this firmware version read.
    PartSerial(String),
    /// The metadata is complete.
    Complete(DeviceInfo),
}

/// Request of a stage, if it has one.
pub open spec fn info_request(stage: InfoStage) -> Option<RequestView> {
    match stage {
        InfoStage::BoardId => Some(control::spec_board_id_read()),
        InfoStage::Firmware => Some(control::spec_version_string_read(255)),
        InfoStage::PartSerial(_) => Some(control::spec_board_partid_serialno_read()),
        InfoStage::Complete(_) => None,
    }
}

/// Error of the reading of the metadata while it does `operation`.
pub open spec fn info_error(operation: &'static str, error: Error) -> Error {
    Error::Operation { operation, source: Box::new(error) }
}

impl InfoStage {
    /// First stage of the reading of the metadata.
    pub fn begin() -> (stage: InfoStage)
        ensures
            stage == InfoStage::BoardId,
    {
        InfoStage::BoardId
    }

    /// Request to send in this stage, or nothing once the metadata is complete.
    pub fn request(&self) -> (request: Option<VendorControlRequest>)
        ensures
            request is Some <==> info_request(*self) is Some,
            request matches Some(request) ==> info_request(*self) == Some(request@),
    {
        match self {
            InfoStage::BoardId => Some(VendorControlRequest::board_id_read()),
            InfoStage::Firmware => Some(
                VendorControlRequest::version_string_read(VERSION_STRING_SIZE),
            ),
            InfoStage::PartSerial(_) => Some(VendorControlRequest::board_partid_serialno_read()),
            InfoStage::Complete(_) => None,
        }
    }

    /// Take the reply to the request of this stage.
    pub fn accept(self, reply: Result<Vec<u8>>) -> (outcome: Result<InfoStage>)
        ensures
            match self {
                InfoStage::BoardId => outcome == match board_id_in(sequence::reply_view(reply)) {
                    Ok(_) => Ok::<InfoStage, Error>(InfoStage::Firmware),
                    Err(error) => Err(info_error("reading HydraSDR board ID", error)),
                },
                InfoStage::Firmware => match reply {
                    Err(error) => outcome == Err::<InfoStage, Error>(
                        info_error("reading HydraSDR firmware version", error),
                    ),
                    Ok(data) => outcome matches Ok(InfoStage::PartSerial(version)) && version@
                        == text::lossy_text(text::c_string_bytes(data@)),
                },
                InfoStage::PartSerial(version) => match sequence::reply_view(reply) {
                    Err(error) => outcome == Err::<InfoStage, Error>(
                        info_error("reading HydraSDR part ID and serial number", error),
                    ),
                    Ok(data) => if data.len() < 24 {
                        outcome == Err::<InfoStage, Error>(
                            info_error(
                                "reading HydraSDR part ID and serial number",
                                sequence::short_reply(),
                            ),
                        )
                    } else if data.len() % 4 != 0 {
                        outcome == Err::<InfoStage, Error>(
                            info_error(
                                "reading HydraSDR part ID and serial number",
                                Error::Status(StatusCode::LibUsb),
                            ),
                        )
                    } else {
                        outcome matches Ok(InfoStage::Complete(info)) && (exists|
                            ids: PartIdSerialNo,
                        | #[trigger]
                            is_metadata(info, version@, ids) && ids.serial_no@[2]
                                == control::word_at(data, 4) && ids.serial_no@[3]
                                == control::word_at(data, 5))
                    },
                },
                InfoStage::Complete(info) => outcome == Ok::<InfoStage, Error>(
                    InfoStage::Complete(info),
                ),
            },
    {
        match self {
            InfoStage::BoardId => match decode_board_id(reply) {
                Ok(_board) => Ok(InfoStage::Firmware),
                Err(error) => Err(error.at("reading HydraSDR board ID")),
            },
            InfoStage::Firmware => match decode_version_string(reply) {
                Ok(version) => Ok(InfoStage::PartSerial(version)),
                Err(error) => Err(error.at("reading HydraSDR firmware version")),
            },
            InfoStage::PartSerial(version) => match decode_part_serial(reply) {
                Ok(ids) => {
                    let info: DeviceInfo = build_device_info(version, &ids);
                    assert(is_metadata(info, version@, ids));
                    assert(ids.serial_no@[2] == control::word_at(
                        sequence::reply_view(reply)->Ok_0,
                        4,
                    ));
                    assert(ids.serial_no@[3] == control::word_at(
                        sequence::reply_view(reply)->Ok_0,
                        5,
                    ));
                    Ok(InfoStage::Complete(info))
                },
                Err(error) => Err(error.at("reading HydraSDR part ID and serial number")),
            },
            InfoStage::Complete(info) => Ok(InfoStage::Complete(info)),
        }
    }
}

/// Law: a device is opened step by step: it is selected and opened, its
/// configuration selected and its interface claimed, its firmware checked before
/// anything else is read from it, and its configuration applied last.
pub proof fn law_a_device_is_opened_in_order(stage: OpenStage)
    ensures
        OpenStage::SelectDevice.spec_next() == OpenStage::OpenDevice,
        OpenStage::OpenDevice.spec_next() == OpenStage::SelectConfiguration,
        OpenStage::SelectConfiguration.spec_next() == OpenStage::ClaimInterface,
        OpenStage::ClaimInterface.spec_next() == OpenStage::CheckFirmware,
        OpenStage::CheckFirmware.spec_next() == OpenStage::ReadMetadata,
        OpenStage::ReadMetadata.spec_next() == OpenStage::Configure,
        OpenStage::Configure.spec_next() == OpenStage::Ready,
        OpenStage::Ready.spec_next() == OpenStage::Ready,
        stage.spec_next() == stage ==> stage == OpenStage::Ready,
{
}

/// Law: every failed step but the selection is reported with what it was doing.
pub proof fn law_a_failed_opening_names_its_step(stage: OpenStage, error: Error)
    ensures
        stage == OpenStage::SelectDevice || stage == OpenStage::Ready ==> stage.spec_failed(error)
            == error,
        !(stage == OpenStage::SelectDevice || stage == OpenStage::Ready) ==> stage.spec_failed(error)
            == (Error::Operation {
            operation: match stage {
                OpenStage::OpenDevice => "opening USB device",
                OpenStage::SelectConfiguration => "selecting USB configuration 1",
                OpenStage::ClaimInterface => "claiming HydraSDR USB interface 0",
                OpenStage::CheckFirmware => "validating HydraSDR firmware version",
                OpenStage::ReadMetadata => "reading HydraSDR device metadata",
                _ => "applying initial HydraSDR configuration",
            },
            source: Box::new(error),
        }),
{
}

/// Law: a configuration that could not be selected stands only where selecting one
/// is not supported.
pub proof fn law_only_an_unsupported_selection_is_tolerated(kind: BackendErrorKind)
    ensures
        configuration_stands(kind) <==> kind is Unsupported,
{
}

/// Law: the serial number is the last two serial words, the first of them in its
/// upper half, and there is none exactly where both are zero.
pub proof fn law_the_serial_is_in_the_last_two_words(ids: PartIdSerialNo)
    ensures
        spec_serial(ids) is None <==> ids.serial_no@[2] == 0 && ids.serial_no@[3] == 0,
        spec_serial(ids) matches Some(serial) ==> serial as int / 0x1_0000_0000
            == ids.serial_no@[2] && serial as int % 0x1_0000_0000 == ids.serial_no@[3],
{
}

/// Law: the metadata is read with three requests, board first, then the firmware
/// version, then the part ID and serial number.
pub proof fn law_the_metadata_is_read_in_order(version: String, info: DeviceInfo)
    ensures
        info_request(InfoStage::BoardId) matches Some(request) && request.request
            == crate::commands::VendorRequest::BoardIdRead && request.length == 1,
        info_request(InfoStage::Firmware) matches Some(request) && request.request
            == crate::commands::VendorRequest::VersionStringRead && request.length == 255,
        info_request(InfoStage::PartSerial(version)) matches Some(request) && request.request
            == crate::commands::VendorRequest::BoardPartIdSerialNoRead && request.length == 24,
        info_request(InfoStage::Complete(info)) is None,
{
}

/// Law: what the metadata of a device says: its board, its firmware and its serial
/// number, the range of the board, and its three ports, of which the first has a
/// bias tee.
pub proof fn law_what_the_metadata_says(
    info: DeviceInfo,
    firmware: Seq<char>,
    ids: PartIdSerialNo,
)
    requires
        is_metadata(info, firmware, ids),
    ensures
        info.board_name == "HydraSDR RFOne",
        info.firmware_version@ == firmware,
        info.serial == spec_serial(ids),
        info.min_frequency == 24_000_000 && info.max_frequency == 1_800_000_000,
        info.rf_ports@.len() == 3,
        forall|i: int|
            0 <= i < 3 ==> {
                let port = #[trigger] info.rf_ports@[i];
                &&& port.port.spec_code() == i
                &&& port.min_frequency == 24_000_000 && port.max_frequency == 1_800_000_000
                &&& port.has_bias_tee <==> i == 0
            },
        info.rf_ports@[0].name == "ANT",
        info.rf_ports@[1].name == "CABLE1",
        info.rf_ports@[2].name == "CABLE2",
{
}

/// Law: a board is known by the first byte of its reply: 0, 1 and 255 are boards,
/// and nothing else is.
pub proof fn law_boards_are_known_by_their_number(data: Seq<u8>, error: Error)
    ensures
        board_id_in(Err(error)) == Err::<BoardId, Error>(error),
        data.len() == 0 ==> board_id_in(Ok(data)) is Err,
        data.len() > 0 ==> (board_id_in(Ok(data)) is Ok <==> data[0] == 0 || data[0] == 1 || data[0]
            == 255),
        data.len() > 0 && data[0] == 0 ==> board_id_in(Ok(data)) == Ok::<BoardId, Error>(
            BoardId::ProtoHydraSdr,
        ),
        data.len() > 0 && data[0] == 1 ==> board_id_in(Ok(data)) == Ok::<BoardId, Error>(
            BoardId::HydraSdrRfOneOfficial,
        ),
        data.len() > 0 && data[0] == 255 ==> board_id_in(Ok(data)) == Ok::<BoardId, Error>(
            BoardId::Invalid,
        ),
        data.len() > 0 && board_id_in(Ok(data)) is Err ==> board_id_in(Ok(data)) == Err::<
            BoardId,
            Error,
        >(
            Error::Protocol {
                operation: "read board ID",
                reason: "firmware returned an unknown board ID",
                status: StatusCode::LibUsb,
            },
        ),
{
}

} // verus!
