//! USB command numbers of the HydraSDR RFOne vendor requests.

use vstd::prelude::*;

verus! {

/// Receiver state sent with the receiver-mode request.
#[derive(Clone, Copy, Debug, Eq, PartialEq, Structural)]
pub enum ReceiverMode {
    /// Reception is off.
    Off,
    /// Reception is on.
    Rx,
}

impl ReceiverMode {
    /// Number of this mode on the wire.
    pub open spec fn spec_code(self) -> u16 {
        match self {
            ReceiverMode::Off => 0,
            ReceiverMode::Rx => 1,
        }
    }

    /// Number of this mode on the wire.
    pub fn code(self) -> (code: u16)
        ensures
            code == self.spec_code(),
    {
        match self {
            ReceiverMode::Off => 0,
            ReceiverMode::Rx => 1,
        }
    }
}

/// USB vendor request.
#[derive(Clone, Copy, Debug, Eq, PartialEq, Structural)]
pub enum VendorRequest {
    /// Select the receiver mode.
    ReceiverMode,
    /// Read the board ID.
    BoardIdRead,
    /// Read the firmware version string.
    VersionStringRead,
    /// Read the part ID and serial-number words.
    BoardPartIdSerialNoRead,
    /// Select a sample rate.
    SetSamplerate,
    /// Tune the receiver.
    SetFreq,
    /// Set the LNA gain.
    SetLnaGain,
    /// Set the mixer gain.
    SetMixerGain,
    /// Set the VGA gain.
    SetVgaGain,
    /// Switch the LNA AGC.
    SetLnaAgc,
    /// Switch the mixer AGC.
    SetMixerAgc,
    /// Switch the RF bias power.
    SetRfBiasCmd,
    /// Query the sample-rate table.
    GetSamplerates,
    /// Switch packed transfers.
    SetPacking,
    /// Select the RF input port.
    SetRfPort,
    /// Read a capability word.
    GetCapabilities,
    /// Set a gain by its type.
    SetGain,
}

impl VendorRequest {
    /// Request number on the wire.
    pub open spec fn spec_code(self) -> u8 {
        match self {
            VendorRequest::ReceiverMode => 1,
            VendorRequest::BoardIdRead => 9,
            VendorRequest::VersionStringRead => 10,
            VendorRequest::BoardPartIdSerialNoRead => 11,
            VendorRequest::SetSamplerate => 12,
            VendorRequest::SetFreq => 13,
            VendorRequest::SetLnaGain => 14,
            VendorRequest::SetMixerGain => 15,
            VendorRequest::SetVgaGain => 16,
            VendorRequest::SetLnaAgc => 17,
            VendorRequest::SetMixerAgc => 18,
            VendorRequest::SetRfBiasCmd => 20,
            VendorRequest::GetSamplerates => 25,
            VendorRequest::SetPacking => 26,
            VendorRequest::SetRfPort => 28,
            VendorRequest::GetCapabilities => 29,
            VendorRequest::SetGain => 33,
        }
    }

    /// Request number on the wire.
    pub fn code(self) -> (code: u8)
        ensures
            code == self.spec_code(),
    {
        match self {
            VendorRequest::ReceiverMode => 1,
            VendorRequest::BoardIdRead => 9,
            VendorRequest::VersionStringRead => 10,
            VendorRequest::BoardPartIdSerialNoRead => 11,
            VendorRequest::SetSamplerate => 12,
            VendorRequest::SetFreq => 13,
            VendorRequest::SetLnaGain => 14,
            VendorRequest::SetMixerGain => 15,
            VendorRequest::SetVgaGain => 16,
            VendorRequest::SetLnaAgc => 17,
            VendorRequest::SetMixerAgc => 18,
            VendorRequest::SetRfBiasCmd => 20,
            VendorRequest::GetSamplerates => 25,
            VendorRequest::SetPacking => 26,
            VendorRequest::SetRfPort => 28,
            VendorRequest::GetCapabilities => 29,
            VendorRequest::SetGain => 33,
        }
    }
}

/// Law: no two vendor requests share a number.
pub proof fn law_request_numbers_are_distinct(a: VendorRequest, b: VendorRequest)
    ensures
        a.spec_code() == b.spec_code() ==> a == b,
{
}

} // verus!
