//! The lines the utility prints.

use vstd::prelude::*;
use vstd::string::*;
use crate::failure::Failure;
use crate::options::MediaMode;
use crate::text::{decimal, push_decimal, push_seconds, seconds};

verus! {

/// What a listing shows of one device.
#[derive(Clone, Debug, PartialEq, Eq)]
pub struct DeviceSummary {
    pub model: String,
    pub serial: String,
}

/// What the device reports about itself.
#[derive(Clone, Debug, PartialEq, Eq)]
pub struct DeviceInfo {
    pub model: String,
    pub serial: String,
    pub version: String,
    /// The media mode, by its device code.
    pub media_mode: i32,
    /// The HDR state, by its device code.
    pub hdr: i32,
}

/// The name of the media mode with the given code; "Unknown" for a code that
/// names no mode.
pub open spec fn media_mode_label(code: int) -> Seq<char> {
    match MediaMode::spec_from_code(code) {
        Some(mode) => mode.spec_name(),
        None => "Unknown"@,
    }
}

/// "On" for the HDR code 1, "Off" for every other.
pub open spec fn hdr_label(code: int) -> Seq<char> {
    if code == 1 {
        "On"@
    } else {
        "Off"@
    }
}

/// The five lines that describe a device.
pub open spec fn info_lines(info: DeviceInfo) -> Seq<Seq<char>> {
    seq![
        "Model: "@ + info.model@,
        "Serial: "@ + info.serial@,
        "Version: "@ + info.version@,
        "Media Mode: "@ + media_mode_label(info.media_mode as int),
        "HDR: "@ + hdr_label(info.hdr as int),
    ]
}

/// The first line of a listing.
pub open spec fn list_header(count: int) -> Seq<char> {
    "Found "@ + decimal(count) + " devices"@
}

/// The line of a listing for the device at `index`.
pub open spec fn list_entry(index: int, device: DeviceSummary) -> Seq<char> {
    "Device "@ + decimal(index) + ": "@ + device.model@ + " (SN: "@ + device.serial@ + ")"@
}

/// The lines for the first `upto` devices of a listing: one for each that
/// the registry handed out, none for an index it had nothing at.
pub open spec fn entry_lines(entries: Seq<Option<DeviceSummary>>, upto: int) -> Seq<Seq<char>>
    decreases upto,
{
    if upto <= 0 {
        seq![]
    } else {
        entry_lines(entries, upto - 1) + match entries[upto - 1] {
            Some(device) => seq![list_entry(upto - 1, device)],
            None => seq![],
        }
    }
}

/// How many of `entries` a listing of `count` devices shows.
pub open spec fn listed(count: int, entries: Seq<Option<DeviceSummary>>) -> int {
    if count <= 0 {
        0
    } else if count <= entries.len() {
        count
    } else {
        entries.len() as int
    }
}

/// A listing: the header with the device count, then a line per device.
pub open spec fn list_lines(count: int, entries: Seq<Option<DeviceSummary>>) -> Seq<Seq<char>> {
    seq![list_header(count)] + entry_lines(entries, listed(count, entries))
}

/// The progress notice after `elapsed_ms` milliseconds of polling.
pub open spec fn waiting_line(elapsed_ms: nat) -> Seq<char> {
    "Waiting for device... ("@ + seconds(elapsed_ms) + "s)"@
}

/// The line that reports a failure.
pub open spec fn failure_line(failure: Failure) -> Seq<char> {
    match failure {
        Failure::DeviceNotFound => "No device found."@,
        Failure::InvalidArgument => "Invalid argument."@,
    }
}

/// The line that reports a failure; it belongs on standard error.
pub fn render_failure(failure: Failure) -> (line: &'static str)
    ensures
        line@ == failure_line(failure),
{
    match failure {
        Failure::DeviceNotFound => "No device found.",
        Failure::InvalidArgument => "Invalid argument.",
    }
}

/// The progress notice after `elapsed_ms` milliseconds of polling, with the
/// time in seconds: "Waiting for device... (1s)".
pub fn render_waiting(elapsed_ms: u64) -> (line: String)
    ensures
        line@ == waiting_line(elapsed_ms as nat),
{
    let mut line = String::from_str("Waiting for device... (");
    push_seconds(&mut line, elapsed_ms);
    line.append("s)");
    line
}

/// The name of the media mode with the given code.
fn media_mode_name(code: i32) -> (name: &'static str)
    ensures
        name@ == media_mode_label(code as int),
{
    match MediaMode::from_code(code) {
        Some(mode) => mode.name(),
        None => "Unknown",
    }
}

/// `label` followed by `value`.
fn labelled(label: &str, value: &str) -> (line: String)
    ensures
        line@ == label@ + value@,
{
    let mut line = String::from_str(label);
    line.append(value);
    line
}

/// The lines that describe a device: model, serial number, firmware version,
/// media mode by name, and whether HDR is on.
pub fn render_info(info: &DeviceInfo) -> (lines: Vec<String>)
    ensures
        lines.deep_view() == info_lines(*info),
{
    let mut lines: Vec<String> = Vec::new();
    lines.push(labelled("Model: ", info.model.as_str()));
    lines.push(labelled("Serial: ", info.serial.as_str()));
    lines.push(labelled("Version: ", info.version.as_str()));
    lines.push(labelled("Media Mode: ", media_mode_name(info.media_mode)));
    lines.push(
        labelled(
            "HDR: ",
            if info.hdr == 1 {
                "On"
            } else {
                "Off"
            },
        ),
    );
    assert(lines.deep_view() =~= info_lines(*info));
    lines
}

/// The line of a listing for the device at `index`.
fn render_entry(index: i32, device: &DeviceSummary) -> (line: String)
    ensures
        line@ == list_entry(index as int, *device),
{
    let mut line = String::from_str("Device ");
    push_decimal(&mut line, index as i64);
    line.append(": ");
    line.append(device.model.as_str());
    line.append(" (SN: ");
    line.append(device.serial.as_str());
    line.append(")");
    line
}

/// A listing of the registry: "Found `count` devices", then one line for each
/// of the first `count` entries that holds a device. `entries[i]` is what the
/// registry has at index `i`, `None` where it handed out nothing.
pub fn render_list(count: i32, entries: &Vec<Option<DeviceSummary>>) -> (lines: Vec<String>)
    ensures
        lines.deep_view() == list_lines(count as int, entries@),
        count <= 0 ==> lines.deep_view() == seq![list_header(count as int)],
{
    let mut header = String::from_str("Found ");
    push_decimal(&mut header, count as i64);
    header.append(" devices");
    let mut lines: Vec<String> = Vec::new();
    lines.push(header);
    assert(lines.deep_view() =~= seq![list_header(count as int)] + entry_lines(entries@, 0));
    let mut index: i32 = 0;
    while index < count && (index as usize) < entries.len()
        invariant
            0 <= index <= listed(count as int, entries@),
            lines.deep_view() == seq![list_header(count as int)] + entry_lines(
                entries@,
                index as int,
            ),
        decreases listed(count as int, entries@) - index,
    {
        let ghost before = lines.deep_view();
        if let Some(device) = &entries[index as usize] {
            lines.push(render_entry(index, device));
            assert(lines.deep_view() =~= before + seq![list_entry(index as int, *device)]);
        }
        index += 1;
        assert(lines.deep_view() =~= seq![list_header(count as int)] + entry_lines(
            entries@,
            index as int,
        ));
    }
    assert(listed(count as int, entries@) <= 0 ==> entry_lines(entries@, 0) =~= Seq::<
        Seq<char>,
    >::empty());
    lines
}

} // verus!
