//! What the operator is told beside the data: progress, warnings and the
//! reason of a failure, each with its wording.

use vstd::prelude::*;
use vstd::string::*;
use crate::cradle::{CRADLE_PRODUCT, CRADLE_VENDOR};
use crate::text::{
    decimal,
    digit_char,
    digit_str,
    fixed_numeral,
    hex_bytes,
    push_fixed,
    push_hex_bytes,
    push_numeral,
    Radix,
};

verus! {

/// What was being done when the transport reported an error.
#[derive(Clone, Copy, Debug, PartialEq, Eq, Structural)]
pub enum Operation {
    /// Starting the USB library.
    Init,
    /// Configuring the device, resetting it, or sending a command after the
    /// channel probe.
    Usb,
    /// Sending the command of the channel probe.
    ProbeWrite,
    /// Reading the reply of the channel probe.
    ProbeRead,
    /// Reading the reply to a command after the channel probe.
    BulkTransfer,
}

/// Which reply a hexadecimal trace shows.
#[derive(Clone, Copy, Debug, PartialEq, Eq, Structural)]
pub enum Packet {
    Identification,
    Data,
}

/// Which reserved bytes of the data reply were found not to be zero.
#[derive(Clone, Copy, Debug, PartialEq, Eq, Structural)]
pub enum ReservedRange {
    /// Bytes 12 and 13.
    Middle,
    /// Bytes 20 to 26.
    Tail,
}

/// One message to the operator.
#[derive(Clone, Debug, PartialEq, Eq)]
pub enum Notice {
    /// The command line holds an argument that is no option.
    Usage { program: String },
    /// No cradle could be opened.
    DeviceNotFound,
    /// The cradle was opened and set up.
    CradleFound { bus: u8, address: u8 },
    /// The transport reported an error.
    Failure { operation: Operation, description: String },
    /// The channel probe was answered with other than one byte.
    ProbeLength { got: usize },
    /// A reply after the channel probe has not the length that its command
    /// calls for.
    LengthMismatch { expected: usize, got: usize },
    /// The channel probe timed out and the channel is being reset.
    ResettingChannel,
    /// A unit stands in the cradle.
    UnitFound,
    /// No unit stands in the cradle yet.
    CradleEmpty,
    /// The bytes of a reply.
    Dump { packet: Packet, bytes: Vec<u8> },
    /// The reserved bytes of the identification reply are not all zero.
    IdentifyReserved,
    /// The unit is of the supported type.
    UnitIdentified { unit_type: u8, version: u8 },
    /// The identification reply names no unit.
    UnknownUnit,
    /// The unit is of another type than the supported one.
    UnsupportedUnit { code: u8 },
    /// The serial number of the unit.
    SerialNumber { digits: [u8; 4] },
    /// The unit holds more records than the one that is read.
    PendingRecords { count: u16 },
    /// Reserved bytes of the data reply are not all zero.
    TelemetryReserved { range: ReservedRange },
    /// The unit answered the reset of its counters with an error code.
    ClearFailed { code: u8 },
    /// The unit's counters were reset.
    CountersCleared,
    /// The run stays until the unit is taken out.
    WaitingForRemoval,
    /// The unit was taken out of the cradle.
    UnitRemoved,
    /// The transport reported an event that the protocol was not waiting for.
    OutOfSequence,
}

/// A notice as a mathematical value.
pub enum NoticeView {
    Usage { program: Seq<char> },
    DeviceNotFound,
    CradleFound { bus: u8, address: u8 },
    Failure { operation: Operation, description: Seq<char> },
    ProbeLength { got: usize },
    LengthMismatch { expected: usize, got: usize },
    ResettingChannel,
    UnitFound,
    CradleEmpty,
    Dump { packet: Packet, bytes: Seq<u8> },
    IdentifyReserved,
    UnitIdentified { unit_type: u8, version: u8 },
    UnknownUnit,
    UnsupportedUnit { code: u8 },
    SerialNumber { digits: Seq<u8> },
    PendingRecords { count: u16 },
    TelemetryReserved { range: ReservedRange },
    ClearFailed { code: u8 },
    CountersCleared,
    WaitingForRemoval,
    UnitRemoved,
    OutOfSequence,
}

impl View for Notice {
    type V = NoticeView;

    open spec fn view(&self) -> NoticeView {
        match *self {
            Notice::Usage { program } => NoticeView::Usage { program: program@ },
            Notice::DeviceNotFound => NoticeView::DeviceNotFound,
            Notice::CradleFound { bus, address } => NoticeView::CradleFound { bus, address },
            Notice::Failure { operation, description } => NoticeView::Failure {
                operation,
                description: description@,
            },
            Notice::ProbeLength { got } => NoticeView::ProbeLength { got },
            Notice::LengthMismatch { expected, got } => NoticeView::LengthMismatch {
                expected,
                got,
            },
            Notice::ResettingChannel => NoticeView::ResettingChannel,
            Notice::UnitFound => NoticeView::UnitFound,
            Notice::CradleEmpty => NoticeView::CradleEmpty,
            Notice::Dump { packet, bytes } => NoticeView::Dump { packet, bytes: bytes@ },
            Notice::IdentifyReserved => NoticeView::IdentifyReserved,
            Notice::UnitIdentified { unit_type, version } => NoticeView::UnitIdentified {
                unit_type,
                version,
            },
            Notice::UnknownUnit => NoticeView::UnknownUnit,
            Notice::UnsupportedUnit { code } => NoticeView::UnsupportedUnit { code },
            Notice::SerialNumber { digits } => NoticeView::SerialNumber { digits: digits@ },
            Notice::PendingRecords { count } => NoticeView::PendingRecords { count },
            Notice::TelemetryReserved { range } => NoticeView::TelemetryReserved { range },
            Notice::ClearFailed { code } => NoticeView::ClearFailed { code },
            Notice::CountersCleared => NoticeView::CountersCleared,
            Notice::WaitingForRemoval => NoticeView::WaitingForRemoval,
            Notice::UnitRemoved => NoticeView::UnitRemoved,
            Notice::OutOfSequence => NoticeView::OutOfSequence,
        }
    }
}

/// The notices of a list, each as a mathematical value.
pub open spec fn notice_views(notices: Seq<Notice>) -> Seq<NoticeView> {
    Seq::new(notices.len(), |i: int| notices[i]@)
}

/// What a failure's message begins with.
pub open spec fn operation_text(operation: Operation) -> Seq<char> {
    match operation {
        Operation::Init => "could not initialize libusb: "@,
        Operation::Usb => "libusb error: "@,
        Operation::ProbeWrite => "libusb bulk write error: "@,
        Operation::ProbeRead => "libusb bulk read error: "@,
        Operation::BulkTransfer => "bulk transfer error: "@,
    }
}

/// What a trace begins with.
pub open spec fn packet_text(packet: Packet) -> Seq<char> {
    match packet {
        Packet::Identification => "identification packet:"@,
        Packet::Data => "data packet:"@,
    }
}

/// One byte of the serial number: its digit where the byte is the character
/// of a digit, else the byte's value in decimal.
pub open spec fn serial_digit(byte: u8) -> Seq<char> {
    if 0x30 <= byte <= 0x39 {
        seq![digit_char((byte - 0x30) as nat)]
    } else {
        decimal(byte as nat)
    }
}

/// The serial number that four bytes stand for.
pub open spec fn serial_text(digits: Seq<u8>) -> Seq<char>
    recommends
        digits.len() == 4,
{
    serial_digit(digits[0]) + serial_digit(digits[1]) + serial_digit(digits[2]) + serial_digit(
        digits[3],
    )
}

impl NoticeView {
    /// The wording of the notice.
    pub open spec fn text(self) -> Seq<char> {
        match self {
            NoticeView::Usage { program } => program
                + ": error: optional command-line arguments are: --clear --dump --miles --no-ts --no-zeros --raw --wait-remove"@,
            NoticeView::DeviceNotFound => "could not get device "@ + fixed_numeral(
                CRADLE_VENDOR as nat,
                16,
                4,
            ) + ":"@ + fixed_numeral(CRADLE_PRODUCT as nat, 16, 4)
                + " - is it connected? do you need higher privileges?"@,
            NoticeView::CradleFound { bus, address } => "cradle found on bus "@ + fixed_numeral(
                bus as nat,
                10,
                3,
            ) + " device "@ + fixed_numeral(address as nat, 10, 3),
            NoticeView::Failure { operation, description } => operation_text(operation)
                + description,
            NoticeView::ProbeLength { got } => "bulk transfer error: expected 1 byte, got "@
                + decimal(got as nat),
            NoticeView::LengthMismatch { expected, got } => "bulk transfer error: expected "@
                + decimal(expected as nat) + " bytes, got "@ + decimal(got as nat),
            NoticeView::ResettingChannel => "resetting usb channel"@,
            NoticeView::UnitFound => "unit found in the cradle"@,
            NoticeView::CradleEmpty => "cradle is empty; waiting..."@,
            NoticeView::Dump { packet, bytes } => packet_text(packet) + hex_bytes(bytes),
            NoticeView::IdentifyReserved => "debug: unexpected values in bytes 7 to 10"@,
            NoticeView::UnitIdentified { unit_type, version } =>
                "unit identified as a BC 16.12 type "@ + decimal(unit_type as nat) + " version "@
                    + decimal(version as nat),
            NoticeView::UnknownUnit => "unknown unit in the cradle (0), exiting..."@,
            NoticeView::UnsupportedUnit { code } => "warning: unknown unit in the cradle (0x"@
                + fixed_numeral(code as nat, 16, 2) + ")"@,
            NoticeView::SerialNumber { digits } => "unit serial number: "@ + serial_text(digits),
            NoticeView::PendingRecords { count } => decimal(count as nat)
                + " records in the unit; reading the oldest one"@,
            NoticeView::TelemetryReserved { range } => match range {
                ReservedRange::Middle => "debug: unexpected values in bytes 12 and 13"@,
                ReservedRange::Tail => "debug: unexpected values in bytes 20 to 26"@,
            },
            NoticeView::ClearFailed { code } => "counters clearing probably failed (return code "@
                + decimal(code as nat) + ")"@,
            NoticeView::CountersCleared => "non-ts counters cleared"@,
            NoticeView::WaitingForRemoval => "waiting for unit removal from the cradle"@,
            NoticeView::UnitRemoved => "unit removed, exiting..."@,
            NoticeView::OutOfSequence => "transport event out of sequence"@,
        }
    }

    /// The notice as the line that is shown: marked as a comment, and ended.
    pub open spec fn line(self) -> Seq<char> {
        "# "@ + self.text() + "\n"@
    }
}

/// Appends one byte of the serial number to `out`.
fn push_serial_digit(out: &mut String, byte: u8)
    ensures
        final(out)@ == old(out)@ + serial_digit(byte),
{
    if 0x30 <= byte && byte <= 0x39 {
        out.append(digit_str((byte - 0x30) as u64));
    } else {
        push_numeral(out, byte as u64, Radix::Decimal);
    }
}

/// Writes the serial number that four bytes stand for.
pub fn format_serial(digits: &[u8; 4]) -> (text: String)
    ensures
        text@ == serial_text(digits@),
{
    let mut out = String::new();
    push_serial_digit(&mut out, digits[0]);
    push_serial_digit(&mut out, digits[1]);
    push_serial_digit(&mut out, digits[2]);
    push_serial_digit(&mut out, digits[3]);
    assert(out@ =~= serial_text(digits@));
    out
}

impl Notice {
    /// The line that shows the notice.
    pub fn line(&self) -> (line: String)
        ensures
            line@ == self@.line(),
    {
        let mut out = String::from_str("# ");
        match self {
            Notice::Usage { program } => {
                out.append(program.as_str());
                out.append(
                    ": error: optional command-line arguments are: --clear --dump --miles --no-ts --no-zeros --raw --wait-remove",
                );
            },
            Notice::DeviceNotFound => {
                out.append("could not get device ");
                push_fixed(&mut out, CRADLE_VENDOR as u64, Radix::Hexadecimal, 4);
                out.append(":");
                push_fixed(&mut out, CRADLE_PRODUCT as u64, Radix::Hexadecimal, 4);
                out.append(" - is it connected? do you need higher privileges?");
            },
            Notice::CradleFound { bus, address } => {
                out.append("cradle found on bus ");
                push_fixed(&mut out, *bus as u64, Radix::Decimal, 3);
                out.append(" device ");
                push_fixed(&mut out, *address as u64, Radix::Decimal, 3);
            },
            Notice::Failure { operation, description } => {
                match operation {
                    Operation::Init => out.append("could not initialize libusb: "),
                    Operation::Usb => out.append("libusb error: "),
                    Operation::ProbeWrite => out.append("libusb bulk write error: "),
                    Operation::ProbeRead => out.append("libusb bulk read error: "),
                    Operation::BulkTransfer => out.append("bulk transfer error: "),
                }
                out.append(description.as_str());
            },
            Notice::ProbeLength { got } => {
                out.append("bulk transfer error: expected 1 byte, got ");
                push_numeral(&mut out, *got as u64, Radix::Decimal);
            },
            Notice::LengthMismatch { expected, got } => {
                out.append("bulk transfer error: expected ");
                push_numeral(&mut out, *expected as u64, Radix::Decimal);
                out.append(" bytes, got ");
                push_numeral(&mut out, *got as u64, Radix::Decimal);
            },
            Notice::ResettingChannel => out.append("resetting usb channel"),
            Notice::UnitFound => out.append("unit found in the cradle"),
            Notice::CradleEmpty => out.append("cradle is empty; waiting..."),
            Notice::Dump { packet, bytes } => {
                match packet {
                    Packet::Identification => out.append("identification packet:"),
                    Packet::Data => out.append("data packet:"),
                }
                push_hex_bytes(&mut out, bytes.as_slice());
            },
            Notice::IdentifyReserved => out.append("debug: unexpected values in bytes 7 to 10"),
            Notice::UnitIdentified { unit_type, version } => {
                out.append("unit identified as a BC 16.12 type ");
                push_numeral(&mut out, *unit_type as u64, Radix::Decimal);
                out.append(" version ");
                push_numeral(&mut out, *version as u64, Radix::Decimal);
            },
            Notice::UnknownUnit => out.append("unknown unit in the cradle (0), exiting..."),
            Notice::UnsupportedUnit { code } => {
                out.append("warning: unknown unit in the cradle (0x");
                push_fixed(&mut out, *code as u64, Radix::Hexadecimal, 2);
                out.append(")");
            },
            Notice::SerialNumber { digits } => {
                out.append("unit serial number: ");
                out.append(format_serial(digits).as_str());
            },
            Notice::PendingRecords { count } => {
                push_numeral(&mut out, *count as u64, Radix::Decimal);
                out.append(" records in the unit; reading the oldest one");
            },
            Notice::TelemetryReserved { range } => {
                match range {
                    ReservedRange::Middle => out.append(
                        "debug: unexpected values in bytes 12 and 13",
                    ),
                    ReservedRange::Tail => out.append("debug: unexpected values in bytes 20 to 26"),
                }
            },
            Notice::ClearFailed { code } => {
                out.append("counters clearing probably failed (return code ");
                push_numeral(&mut out, *code as u64, Radix::Decimal);
                out.append(")");
            },
            Notice::CountersCleared => out.append("non-ts counters cleared"),
            Notice::WaitingForRemoval => out.append("waiting for unit removal from the cradle"),
            Notice::UnitRemoved => out.append("unit removed, exiting..."),
            Notice::OutOfSequence => out.append("transport event out of sequence"),
        }
        out.append("\n");
        assert(out@ =~= self@.line());
        out
    }
}

} // verus!
