use sigma_dock::notice::{format_serial, Notice, Operation, Packet, ReservedRange};

#[test]
fn every_line_is_marked_and_ended() {
    assert_eq!(Notice::UnitFound.line(), "# unit found in the cradle\n");
}

#[test]
fn usage_names_the_program_and_the_options() {
    let notice = Notice::Usage { program: String::from("sdc") };
    assert_eq!(
        notice.line(),
        "# sdc: error: optional command-line arguments are: \
         --clear --dump --miles --no-ts --no-zeros --raw --wait-remove\n"
    );
}

#[test]
fn device_not_found_names_the_cradle() {
    assert_eq!(
        Notice::DeviceNotFound.line(),
        "# could not get device 1d9d:1011 - is it connected? do you need higher privileges?\n"
    );
}

#[test]
fn cradle_found_shows_bus_and_address_in_three_digits() {
    assert_eq!(
        Notice::CradleFound { bus: 1, address: 23 }.line(),
        "# cradle found on bus 001 device 023\n"
    );
    assert_eq!(
        Notice::CradleFound { bus: 0, address: 255 }.line(),
        "# cradle found on bus 000 device 255\n"
    );
}

#[test]
fn a_failure_says_what_was_being_done() {
    let failure = |operation| {
        Notice::Failure { operation, description: String::from("Pipe error") }.line()
    };
    assert_eq!(failure(Operation::Init), "# could not initialize libusb: Pipe error\n");
    assert_eq!(failure(Operation::Usb), "# libusb error: Pipe error\n");
    assert_eq!(failure(Operation::ProbeWrite), "# libusb bulk write error: Pipe error\n");
    assert_eq!(failure(Operation::ProbeRead), "# libusb bulk read error: Pipe error\n");
    assert_eq!(failure(Operation::BulkTransfer), "# bulk transfer error: Pipe error\n");
}

#[test]
fn length_notices_show_both_lengths() {
    assert_eq!(
        Notice::ProbeLength { got: 2 }.line(),
        "# bulk transfer error: expected 1 byte, got 2\n"
    );
    assert_eq!(
        Notice::LengthMismatch { expected: 27, got: 11 }.line(),
        "# bulk transfer error: expected 27 bytes, got 11\n"
    );
    assert_eq!(
        Notice::LengthMismatch { expected: 1, got: 0 }.line(),
        "# bulk transfer error: expected 1 bytes, got 0\n"
    );
}

#[test]
fn progress_notices() {
    assert_eq!(Notice::ResettingChannel.line(), "# resetting usb channel\n");
    assert_eq!(Notice::CradleEmpty.line(), "# cradle is empty; waiting...\n");
    assert_eq!(Notice::CountersCleared.line(), "# non-ts counters cleared\n");
    assert_eq!(
        Notice::WaitingForRemoval.line(),
        "# waiting for unit removal from the cradle\n"
    );
    assert_eq!(Notice::UnitRemoved.line(), "# unit removed, exiting...\n");
    assert_eq!(Notice::OutOfSequence.line(), "# transport event out of sequence\n");
}

#[test]
fn a_dump_shows_each_byte_in_two_hexadecimal_digits() {
    let notice = Notice::Dump {
        packet: Packet::Identification,
        bytes: vec![0x15, 0x15, 0x31, 0x32, 0x33, 0x34, 0x03, 0, 0, 0, 0],
    };
    assert_eq!(notice.line(), "# identification packet: 15 15 31 32 33 34 03 00 00 00 00\n");
    let notice = Notice::Dump { packet: Packet::Data, bytes: vec![0x00, 0x0a, 0xff] };
    assert_eq!(notice.line(), "# data packet: 00 0a ff\n");
    let notice = Notice::Dump { packet: Packet::Data, bytes: vec![] };
    assert_eq!(notice.line(), "# data packet:\n");
}

#[test]
fn unit_notices() {
    assert_eq!(
        Notice::UnitIdentified { unit_type: 0x15, version: 3 }.line(),
        "# unit identified as a BC 16.12 type 21 version 3\n"
    );
    assert_eq!(Notice::UnknownUnit.line(), "# unknown unit in the cradle (0), exiting...\n");
    assert_eq!(
        Notice::UnsupportedUnit { code: 0x0a }.line(),
        "# warning: unknown unit in the cradle (0x0a)\n"
    );
    assert_eq!(
        Notice::UnsupportedUnit { code: 0xfe }.line(),
        "# warning: unknown unit in the cradle (0xfe)\n"
    );
    assert_eq!(
        Notice::SerialNumber { digits: [1, 2, 3, 4] }.line(),
        "# unit serial number: 1234\n"
    );
    assert_eq!(
        Notice::SerialNumber { digits: [b'1', b'2', b'3', b'4'] }.line(),
        "# unit serial number: 1234\n"
    );
}

#[test]
fn serial_number_of_four_bytes() {
    assert_eq!(format_serial(&[0, 0, 0, 0]), "0000");
    assert_eq!(format_serial(&[b'9', b'8', b'7', b'6']), "9876");
    assert_eq!(format_serial(&[9, 10, 11, 12]), "9101112");
}

#[test]
fn debug_notices_name_the_bytes() {
    assert_eq!(
        Notice::IdentifyReserved.line(),
        "# debug: unexpected values in bytes 7 to 10\n"
    );
    assert_eq!(
        Notice::TelemetryReserved { range: ReservedRange::Middle }.line(),
        "# debug: unexpected values in bytes 12 and 13\n"
    );
    assert_eq!(
        Notice::TelemetryReserved { range: ReservedRange::Tail }.line(),
        "# debug: unexpected values in bytes 20 to 26\n"
    );
}

#[test]
fn pending_records_and_clear_failure_show_their_number() {
    assert_eq!(
        Notice::PendingRecords { count: 3 }.line(),
        "# 3 records in the unit; reading the oldest one\n"
    );
    assert_eq!(
        Notice::PendingRecords { count: 256 }.line(),
        "# 256 records in the unit; reading the oldest one\n"
    );
    assert_eq!(
        Notice::ClearFailed { code: 1 }.line(),
        "# counters clearing probably failed (return code 1)\n"
    );
    assert_eq!(
        Notice::ClearFailed { code: 255 }.line(),
        "# counters clearing probably failed (return code 255)\n"
    );
}
