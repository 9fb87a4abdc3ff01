//! Recognition of HydraSDR RFOne devices among the visible USB devices.

use crate::errors::{Error, Result};
use crate::text::{self, append_hex, hex_digit_value, starts_with, trimmed_range};
use vstd::prelude::*;

verus! {

/// Known HydraSDR USB VID/PID pair and its board identity.
#[derive(Clone, Copy, Debug, Eq, PartialEq)]
pub struct UsbDeviceId {
    /// USB vendor ID.
    pub vid: u16,
    /// USB product ID.
    pub pid: u16,
    /// Board that uses the pair.
    pub description: &'static str,
}

/// Known HydraSDR RFOne USB IDs.
pub open spec fn spec_usb_device_ids() -> Seq<UsbDeviceId> {
    seq![
        UsbDeviceId { vid: 0x1d50, pid: 0x60a1, description: "HydraSDR RFOne Legacy VID/PID" },
        UsbDeviceId { vid: 0x38af, pid: 0x0001, description: "HydraSDR RFOne Official VID/PID" },
    ]
}

/// Known HydraSDR RFOne USB IDs.
pub fn usb_device_ids() -> (ids: [UsbDeviceId; 2])
    ensures
        ids@ == spec_usb_device_ids(),
{
    let ids: [UsbDeviceId; 2] = [
        UsbDeviceId { vid: 0x1d50, pid: 0x60a1, description: "HydraSDR RFOne Legacy VID/PID" },
        UsbDeviceId { vid: 0x38af, pid: 0x0001, description: "HydraSDR RFOne Official VID/PID" },
    ];
    assert(ids@ =~= spec_usb_device_ids());
    ids
}

/// What the USB layer reports of a device without opening it.
#[derive(Debug)]
pub struct UsbIdentity {
    /// USB vendor ID.
    pub vid: u16,
    /// USB product ID.
    pub pid: u16,
    /// Serial number string, if there is one.
    pub serial_number: Option<String>,
    /// Product string, if there is one.
    pub product_string: Option<String>,
}

/// Device information collected without opening the interface.
#[derive(Clone, Debug, Eq, PartialEq)]
pub struct DeviceDescriptor {
    /// USB vendor ID.
    pub vid: u16,
    /// USB product ID.
    pub pid: u16,
    /// Static board description matched from the known VID/PID table.
    pub description: &'static str,
    /// Parsed 64-bit RFOne serial number.
    ///
    /// This is `0` when the USB serial string is absent or does not use the
    /// expected HydraSDR format.
    pub serial: u64,
    /// USB product string, if the backend reports one.
    pub product_string: Option<String>,
}

/// Known device with these IDs.
pub open spec fn known_device(vid: u16, pid: u16) -> Option<UsbDeviceId> {
    if vid == 0x1d50 && pid == 0x60a1 {
        Some(UsbDeviceId { vid, pid, description: "HydraSDR RFOne Legacy VID/PID" })
    } else if vid == 0x38af && pid == 0x0001 {
        Some(UsbDeviceId { vid, pid, description: "HydraSDR RFOne Official VID/PID" })
    } else {
        None
    }
}

/// Find a known HydraSDR USB ID by VID/PID.
pub fn find_usb_device_id(vid: u16, pid: u16) -> (found: Option<UsbDeviceId>)
    ensures
        found == known_device(vid, pid),
{
    let ids: [UsbDeviceId; 2] = usb_device_ids();
    let mut i: usize = 0;
    while i < 2
        invariant
            i <= 2,
            ids@ == spec_usb_device_ids(),
            forall|k: int|
                0 <= k < i ==> !((#[trigger] ids@[k]).vid == vid && ids@[k].pid == pid),
        decreases 2 - i,
    {
        let candidate: UsbDeviceId = ids[i];
        if candidate.vid == vid && candidate.pid == pid {
            return Some(candidate);
        }
        i = i + 1;
    }
    assert(ids@[0].vid == 0x1d50 && ids@[1].vid == 0x38af);
    None
}

/// Serial number in the text `HYDRASDR SN:<16 hex digits>`, where white space
/// may stand around the digits.
pub open spec fn parsed_serial(serial: Seq<char>) -> Option<u64> {
    let digits = text::trim_end(text::trim_start(serial.skip(12)));
    if text::begins_with(serial, "HYDRASDR SN:"@) && digits.len() == 16 && text::all_hex(digits) {
        Some(text::hex_value(digits) as u64)
    } else {
        None
    }
}

/// Parse the firmware serial string format `HYDRASDR SN:<16 hex digits>`.
pub fn parse_hydrasdr_serial(serial: &str) -> (result: Option<u64>)
    ensures
        result == parsed_serial(serial@),
{
    proof {
        reveal_strlit("HYDRASDR SN:");
    }
    if !starts_with(serial, "HYDRASDR SN:") {
        return None;
    }
    let (first, end) = trimmed_range(serial, 12);
    let ghost digits = serial@.subrange(first as int, end as int);
    if end - first != 16 {
        return None;
    }
    let mut value: u64 = 0;
    let mut i: usize = 0;
    assert(digits.take(0) =~= Seq::<char>::empty());
    proof {
        reveal_with_fuel(text::hex_range, 17);
    }
    while i < 16
        invariant
            end - first == 16,
            end <= serial@.len(),
            digits == serial@.subrange(first as int, end as int),
            digits == text::trim_end(text::trim_start(serial@.skip(12))),
            i <= 16,
            forall|k: int| 0 <= k < i ==> text::hex_digit(#[trigger] digits[k]) is Some,
            value == text::hex_value(digits.take(i as int)),
            value < text::hex_range(i as nat),
            text::hex_range(16) == 0x1_0000_0000_0000_0000,
            i < 16 ==> text::hex_range((i + 1) as nat) <= 0x1_0000_0000_0000_0000,
        decreases 16 - i,
    {
        assert(digits[i as int] == serial@[first + i]);
        match hex_digit_value(serial.get_char(first + i)) {
            None => {
                assert(!text::all_hex(digits));
                return None;
            },
            Some(digit) => {
                proof {
                    assert(digits.take(i + 1).drop_last() =~= digits.take(i as int));
                    assert(text::hex_range((i + 1) as nat) == 16 * text::hex_range(i as nat));
                    if i + 1 < 16 {
                        lemma_hex_range_grows((i + 2) as nat, 16);
                    }
                }
                value = value * 16 + digit;
            },
        }
        i = i + 1;
    }
    assert(digits.take(16) =~= digits);
    assert(text::all_hex(digits));
    Some(value)
}

/// More digits write more numbers.
proof fn lemma_hex_range_grows(few: nat, many: nat)
    requires
        few <= many,
    ensures
        text::hex_range(few) <= text::hex_range(many),
        text::hex_range(many) > 0,
    decreases many,
{
    if few < many {
        lemma_hex_range_grows(few, (many - 1) as nat);
    } else if few > 0 {
        lemma_hex_range_grows((few - 1) as nat, (few - 1) as nat);
    }
}

/// Serial number that a serial string stands for: zero where there is none.
pub open spec fn spec_normalized_serial(serial: Option<Seq<char>>) -> u64 {
    match serial {
        None => 0,
        Some(serial) => match parsed_serial(serial) {
            None => 0,
            Some(value) => value,
        },
    }
}

/// Serial number that a serial string stands for: zero where there is none.
pub fn normalized_serial(serial: Option<&str>) -> (value: u64)
    ensures
        value == spec_normalized_serial(
            match serial {
                None => None,
                Some(serial) => Some(serial@),
            },
        ),
{
    match serial {
        None => 0,
        Some(serial) => match parse_hydrasdr_serial(serial) {
            None => 0,
            Some(value) => value,
        },
    }
}

/// Serial string of the device with the number `serial`.
pub open spec fn serial_text(serial: u64) -> Seq<char> {
    "HYDRASDR SN:"@ + text::hex_text(serial as nat, 16)
}

/// Write the serial string of the device with the number `serial`.
pub fn format_serial(serial: u64) -> (result: String)
    ensures
        result@ == serial_text(serial),
{
    let mut result: String = String::new();
    result.append("HYDRASDR SN:");
    append_hex(&mut result, serial, 16);
    assert(result@ =~= serial_text(serial));
    result
}

/// Law: the serial string of a device is parsed to its serial number.
pub proof fn law_serial_text_reads_back(serial: u64)
    ensures
        parsed_serial(serial_text(serial)) == Some(serial),
{
    reveal_strlit("HYDRASDR SN:");
    let digits = text::hex_text(serial as nat, 16);
    reveal_with_fuel(text::hex_range, 17);
    assert(text::hex_range(16) == 0x1_0000_0000_0000_0000);
    text::law_hex_text_reads_back(serial as nat, 16);
    let all = serial_text(serial);
    assert(all.take(12) =~= "HYDRASDR SN:"@);
    assert(all.skip(12) =~= digits);
    assert(text::hex_digit(digits[0]) is Some);
    assert(text::hex_digit(digits[15]) is Some);
    assert(digits.last() == digits[15]);
    assert(text::trim_start(digits) == digits);
    assert(text::trim_end(digits) == digits);
}

/// Serial string of a USB device, if it has one.
pub open spec fn serial_string(device: UsbIdentity) -> Option<Seq<char>> {
    match device.serial_number {
        None => None,
        Some(serial) => Some(serial@),
    }
}

/// Whether `device` is a HydraSDR RFOne with the wanted serial number, if one
/// is wanted.
pub open spec fn device_matches(device: UsbIdentity, wanted: Option<u64>) -> bool {
    &&& known_device(device.vid, device.pid) is Some
    &&& wanted matches Some(serial) ==> spec_normalized_serial(serial_string(device)) == serial
}

/// Serial number of a USB device.
fn device_serial(device: &UsbIdentity) -> (serial: u64)
    ensures
        serial == spec_normalized_serial(serial_string(*device)),
{
    match &device.serial_number {
        None => 0,
        Some(serial) => normalized_serial(Some(serial.as_str())),
    }
}

/// Whether `device` is a HydraSDR RFOne with the wanted serial number, if one
/// is wanted.
pub fn matches_device(device: &UsbIdentity, wanted: Option<u64>) -> (result: bool)
    ensures
        result == device_matches(*device, wanted),
{
    if find_usb_device_id(device.vid, device.pid).is_none() {
        return false;
    }
    match wanted {
        None => true,
        Some(serial) => device_serial(device) == serial,
    }
}

/// Select the first matching device.
pub fn select_device(devices: &Vec<UsbIdentity>, wanted: Option<u64>) -> (result: Result<usize>)
    ensures
        match result {
            Ok(index) => {
                &&& index < devices@.len()
                &&& device_matches(devices@[index as int], wanted)
                &&& forall|k: int|
                    0 <= k < index ==> !device_matches(#[trigger] devices@[k], wanted)
            },
            Err(error) => {
                &&& error == Error::DeviceNotFound
                &&& forall|k: int|
                    0 <= k < devices@.len() ==> !device_matches(#[trigger] devices@[k], wanted)
            },
        },
{
    let mut i: usize = 0;
    while i < devices.len()
        invariant
            i <= devices@.len(),
            forall|k: int| 0 <= k < i ==> !device_matches(#[trigger] devices@[k], wanted),
        decreases devices@.len() - i,
    {
        if matches_device(&devices[i], wanted) {
            return Ok(i);
        }
        i = i + 1;
    }
    Err(Error::DeviceNotFound)
}

/// Whether `descriptor` describes `device`.
pub open spec fn describes(descriptor: DeviceDescriptor, device: UsbIdentity) -> bool {
    &&& known_device(device.vid, device.pid) matches Some(id) && descriptor.vid == id.vid
        && descriptor.pid == id.pid && descriptor.description == id.description
    &&& descriptor.serial == spec_normalized_serial(serial_string(device))
    &&& match (descriptor.product_string, device.product_string) {
        (None, None) => true,
        (Some(copy), Some(product)) => copy@ == product@,
        (_, _) => false,
    }
}

impl DeviceDescriptor {
    /// Describe a USB device if it is a HydraSDR RFOne.
    pub fn from_identity(device: &UsbIdentity) -> (result: Option<DeviceDescriptor>)
        ensures
            result is Some <==> known_device(device.vid, device.pid) is Some,
            result matches Some(descriptor) ==> describes(descriptor, *device),
    {
        match find_usb_device_id(device.vid, device.pid) {
            None => None,
            Some(id) => {
                let product_string: Option<String> = match &device.product_string {
                    None => None,
                    Some(product) => Some(product.clone()),
                };
                Some(
                    DeviceDescriptor {
                        vid: id.vid,
                        pid: id.pid,
                        description: id.description,
                        serial: device_serial(device),
                        product_string,
                    },
                )
            },
        }
    }
}

/// The HydraSDR devices among `devices`, in order.
pub open spec fn known_devices(devices: Seq<UsbIdentity>) -> Seq<UsbIdentity> {
    devices.filter(|device: UsbIdentity| known_device(device.vid, device.pid) is Some)
}

/// Describe the HydraSDR devices among the visible USB devices.
pub fn describe_devices(devices: &Vec<UsbIdentity>) -> (list: Vec<DeviceDescriptor>)
    ensures
        list@.len() == known_devices(devices@).len(),
        forall|i: int|
            0 <= i < list@.len() ==> describes(#[trigger] list@[i], known_devices(devices@)[i]),
{
    let mut list: Vec<DeviceDescriptor> = Vec::new();
    let mut i: usize = 0;
    reveal(Seq::filter);
    while i < devices.len()
        invariant
            i <= devices@.len(),
            list@.len() == known_devices(devices@.take(i as int)).len(),
            forall|k: int|
                0 <= k < list@.len() ==> describes(
                    #[trigger] list@[k],
                    known_devices(devices@.take(i as int))[k],
                ),
        decreases devices@.len() - i,
    {
        proof {
            reveal(Seq::filter);
            assert(devices@.take(i + 1).drop_last() =~= devices@.take(i as int));
        }
        match DeviceDescriptor::from_identity(&devices[i]) {
            None => {},
            Some(descriptor) => {
                list.push(descriptor);
            },
        }
        i = i + 1;
    }
    assert(devices@.take(i as int) =~= devices@);
    list
}

/// Filter under which a device is asked for: its IDs, and its serial string
/// where a serial number is wanted.
#[derive(Debug)]
pub struct DeviceFilter {
    /// USB vendor ID.
    pub vid: u16,
    /// USB product ID.
    pub pid: u16,
    /// Serial string.
    pub serial_number: Option<String>,
}

/// Filters for the known devices. The serial number zero stands for none.
pub fn permission_filters(wanted: Option<u64>) -> (filters: Vec<DeviceFilter>)
    ensures
        filters@.len() == 2,
        forall|i: int|
            0 <= i < 2 ==> {
                let filter = #[trigger] filters@[i];
                &&& filter.vid == spec_usb_device_ids()[i].vid
                &&& filter.pid == spec_usb_device_ids()[i].pid
                &&& match wanted {
                    Some(serial) if serial != 0 => filter.serial_number matches Some(text)
                        && text@ == serial_text(serial),
                    _ => filter.serial_number is None,
                }
            },
{
    let mut filters: Vec<DeviceFilter> = Vec::new();
    let ids: [UsbDeviceId; 2] = usb_device_ids();
    let mut i: usize = 0;
    while i < 2
        invariant
            i <= 2,
            ids@ == spec_usb_device_ids(),
            filters@.len() == i,
            forall|k: int|
                0 <= k < i ==> {
                    let filter = #[trigger] filters@[k];
                    &&& filter.vid == spec_usb_device_ids()[k].vid
                    &&& filter.pid == spec_usb_device_ids()[k].pid
                    &&& match wanted {
                        Some(serial) if serial != 0 => filter.serial_number matches Some(text)
                            && text@ == serial_text(serial),
                        _ => filter.serial_number is None,
                    }
                },
        decreases 2 - i,
    {
        let id: UsbDeviceId = ids[i];
        let serial_number: Option<String> = match wanted {
            Some(serial) if serial != 0 => Some(format_serial(serial)),
            _ => None,
        };
        filters.push(DeviceFilter { vid: id.vid, pid: id.pid, serial_number });
        i = i + 1;
    }
    filters
}

/// Law: a device is known exactly where its IDs are in the table, and is then the
/// device of that entry.
pub proof fn law_known_devices_are_in_the_table(vid: u16, pid: u16)
    ensures
        known_device(vid, pid) is Some <==> exists|i: int|
            0 <= i < spec_usb_device_ids().len() && (#[trigger] spec_usb_device_ids()[i]).vid == vid
                && spec_usb_device_ids()[i].pid == pid,
        known_device(vid, pid) matches Some(id) ==> id.vid == vid && id.pid == pid && exists|i: int|
            0 <= i < spec_usb_device_ids().len() && #[trigger] spec_usb_device_ids()[i] == id,
        spec_usb_device_ids().len() == 2,
        spec_usb_device_ids()[0].vid == 0x1d50 && spec_usb_device_ids()[0].pid == 0x60a1,
        spec_usb_device_ids()[1].vid == 0x38af && spec_usb_device_ids()[1].pid == 0x0001,
        spec_usb_device_ids()[0].description == "HydraSDR RFOne Legacy VID/PID",
        spec_usb_device_ids()[1].description == "HydraSDR RFOne Official VID/PID",
{
    let ids = spec_usb_device_ids();
    assert(ids[0].vid == 0x1d50 && ids[1].vid == 0x38af);
}

/// Law: a serial string is its prefix, then the 16 hexadecimal digits of the number
/// and nothing else but white space around the digits.
pub proof fn law_serial_strings_have_one_form(serial: Seq<char>)
    ensures
        parsed_serial(serial) is Some <==> {
            let digits = text::trim_end(text::trim_start(serial.skip(12)));
            &&& serial.len() >= 12 && serial.take(12) == "HYDRASDR SN:"@
            &&& digits.len() == 16
            &&& forall|i: int| 0 <= i < 16 ==> text::hex_digit(#[trigger] digits[i]) is Some
        },
        parsed_serial(serial) matches Some(value) ==> value == text::hex_value(
            text::trim_end(text::trim_start(serial.skip(12))),
        ),
{
    reveal_strlit("HYDRASDR SN:");
    let digits = text::trim_end(text::trim_start(serial.skip(12)));
    if digits.len() == 16 && text::all_hex(digits) {
        reveal_with_fuel(text::hex_range, 17);
        lemma_hex_value_fits(digits);
    }
}

/// As many digits write no number beyond their range.
proof fn lemma_hex_value_fits(digits: Seq<char>)
    requires
        text::all_hex(digits),
    ensures
        0 <= text::hex_value(digits) < text::hex_range(digits.len()),
    decreases digits.len(),
{
    if digits.len() > 0 {
        let rest = digits.drop_last();
        assert forall|i: int| 0 <= i < rest.len() implies text::hex_digit(
            #[trigger] rest[i],
        ) is Some by {
            assert(rest[i] == digits[i]);
        }
        lemma_hex_value_fits(rest);
        assert(text::hex_digit(digits[digits.len() - 1]) is Some);
    }
}

/// Law: without a serial number any known device matches; with one, only a known
/// device whose serial string stands for it. A device without a serial string, or
/// with one of another form, stands for zero.
pub proof fn law_which_devices_match(device: UsbIdentity, wanted: u64)
    ensures
        device_matches(device, None) <==> known_device(device.vid, device.pid) is Some,
        device_matches(device, Some(wanted)) <==> known_device(device.vid, device.pid) is Some
            && spec_normalized_serial(serial_string(device)) == wanted,
        device.serial_number is None ==> serial_string(device) is None,
        device.serial_number matches Some(serial) ==> serial_string(device) == Some(serial@),
        spec_normalized_serial(None) == 0,
{
}

/// Law: a serial string stands for the number that it writes, and for zero where it
/// has another form.
pub proof fn law_what_a_serial_string_stands_for(serial: Seq<char>)
    ensures
        parsed_serial(serial) matches Some(value) ==> spec_normalized_serial(Some(serial)) == value,
        parsed_serial(serial) is None ==> spec_normalized_serial(Some(serial)) == 0,
{
}

/// Law: a device that is selected by its number is found by its own serial string.
pub proof fn law_a_device_is_found_by_its_serial(device: UsbIdentity, serial: u64)
    requires
        known_device(device.vid, device.pid) is Some,
        device.serial_number matches Some(string) && string@ == serial_text(serial),
    ensures
        device_matches(device, Some(serial)),
        forall|other: u64| other != serial ==> !#[trigger] device_matches(device, Some(other)),
{
    law_serial_text_reads_back(serial);
}

/// Law: a descriptor repeats the IDs and the product string of its device, and
/// gives the serial number that its serial string stands for.
pub proof fn law_what_a_descriptor_says(descriptor: DeviceDescriptor, device: UsbIdentity)
    requires
        describes(descriptor, device),
    ensures
        descriptor.vid == device.vid && descriptor.pid == device.pid,
        known_device(device.vid, device.pid) matches Some(id) && descriptor.description
            == id.description,
        descriptor.serial == spec_normalized_serial(serial_string(device)),
        descriptor.product_string is None <==> device.product_string is None,
        descriptor.product_string matches Some(copy) ==> device.product_string matches Some(product)
            && copy@ == product@,
{
}

/// Law: the devices that are listed are the known ones among those visible, every
/// one of them, in order.
pub proof fn law_every_known_device_is_listed(devices: Seq<UsbIdentity>, next: UsbIdentity)
    ensures
        known_devices(Seq::empty()) == Seq::<UsbIdentity>::empty(),
        known_devices(devices.push(next)) == if known_device(next.vid, next.pid) is Some {
            known_devices(devices).push(next)
        } else {
            known_devices(devices)
        },
{
    reveal(Seq::filter);
    assert(devices.push(next).drop_last() =~= devices);
}

/// Law: the serial string of a device is its prefix and 16 upper-case digits, with
/// nothing in between, and no two numbers share one.
pub proof fn law_serial_text_has_sixteen_digits(serial: u64, other: u64, i: int)
    ensures
        serial_text(serial).len() == 28,
        serial_text(serial).take(12) == "HYDRASDR SN:"@,
        12 <= i < 28 ==> ({
            let c = serial_text(serial)[i];
            '0' <= c <= '9' || 'A' <= c <= 'F'
        }),
        serial_text(serial) == serial_text(other) ==> serial == other,
{
    reveal_strlit("HYDRASDR SN:");
    reveal_with_fuel(text::hex_range, 17);
    text::law_hex_text_reads_back(serial as nat, 16);
    law_serial_text_reads_back(serial);
    law_serial_text_reads_back(other);
    assert(serial_text(serial).take(12) =~= "HYDRASDR SN:"@);
    if 12 <= i < 28 {
        text::law_numbers_are_written_in_upper_case(serial as nat, 16, i - 12);
        assert(serial_text(serial)[i] == text::hex_text(serial as nat, 16)[i - 12]);
    }
}

} // verus!
