//! The data reply of a unit: its fields, their conversion, and the text that
//! shows them.

use vstd::prelude::*;
use vstd::string::*;
use crate::config::Config;
use crate::notice::{notice_views, Notice, NoticeView, ReservedRange};
use crate::text::{
    decimal,
    lemma_numeral_not_empty,
    push_fixed,
    push_numeral,
    two_digits,
    Radix,
};
use crate::units::{lemma_apply_bound, lemma_unit_factor, Conversion};

verus! {

/// The length of the data reply.
pub const TELEMETRY_LEN: usize = 27;

/// The number that two bytes hold, the high byte first.
pub open spec fn be16(b0: u8, b1: u8) -> nat {
    (b0 * 256 + b1) as nat
}

/// The number that three bytes hold, the highest byte first.
pub open spec fn be24(b0: u8, b1: u8, b2: u8) -> nat {
    (b0 * 65536 + b1 * 256 + b2) as nat
}

/// Whether some byte of `bytes` is not zero.
pub open spec fn any_nonzero(bytes: Seq<u8>) -> bool {
    exists|i: int| 0 <= i < bytes.len() && bytes[i] != 0
}

/// The data reply, field by field, as the unit sent it.
#[derive(Clone, Copy, Debug, PartialEq, Eq)]
pub struct TelemetryReply {
    /// The records that wait in the unit beside the one in this reply.
    pub pending: u8,
    /// The total distance, in metres.
    pub distance: u32,
    /// The time ridden, in seconds.
    pub seconds: u32,
    /// The mean speed, in hundredths of a kilometre per hour.
    pub mean_speed: u16,
    /// The highest speed, in hundredths of a kilometre per hour.
    pub max_speed: u16,
    /// The cadence, in turns per minute.
    pub cadence: u8,
    /// Bytes 12 and 13, which a unit leaves at zero.
    pub reserved_middle: [u8; 2],
    /// The distance of the trip section, in metres.
    pub trip_distance: u32,
    /// The time of the trip section, in seconds.
    pub trip_seconds: u32,
    /// Bytes 20 to 26, which a unit leaves at zero.
    pub reserved_tail: [u8; 7],
}

impl TelemetryReply {
    /// The record of the 27 bytes `b`.
    pub open spec fn of(b: Seq<u8>) -> TelemetryReply
        recommends
            b.len() == TELEMETRY_LEN,
    {
        TelemetryReply {
            pending: b[0],
            distance: be24(b[1], b[2], b[3]) as u32,
            seconds: be24(b[4], b[5], b[6]) as u32,
            mean_speed: be16(b[7], b[8]) as u16,
            max_speed: be16(b[9], b[10]) as u16,
            cadence: b[11],
            reserved_middle: [b[12], b[13]],
            trip_distance: be24(b[14], b[15], b[16]) as u32,
            trip_seconds: be24(b[17], b[18], b[19]) as u32,
            reserved_tail: [b[20], b[21], b[22], b[23], b[24], b[25], b[26]],
        }
    }

    /// Reads a reply. It is a reply if and only if it has 27 bytes.
    pub fn parse(bytes: &[u8]) -> (reply: Option<TelemetryReply>)
        ensures
            reply is Some <==> bytes@.len() == TELEMETRY_LEN,
            reply is Some ==> reply->0 == TelemetryReply::of(bytes@),
    {
        if bytes.len() != TELEMETRY_LEN {
            return None;
        }
        let reply = TelemetryReply {
            pending: bytes[0],
            distance: (bytes[1] as u32) * 65536 + (bytes[2] as u32) * 256 + (bytes[3] as u32),
            seconds: (bytes[4] as u32) * 65536 + (bytes[5] as u32) * 256 + (bytes[6] as u32),
            mean_speed: (bytes[7] as u16) * 256 + (bytes[8] as u16),
            max_speed: (bytes[9] as u16) * 256 + (bytes[10] as u16),
            cadence: bytes[11],
            reserved_middle: [bytes[12], bytes[13]],
            trip_distance: (bytes[14] as u32) * 65536 + (bytes[15] as u32) * 256
                + (bytes[16] as u32),
            trip_seconds: (bytes[17] as u32) * 65536 + (bytes[18] as u32) * 256
                + (bytes[19] as u32),
            reserved_tail: [
                bytes[20],
                bytes[21],
                bytes[22],
                bytes[23],
                bytes[24],
                bytes[25],
                bytes[26],
            ],
        };
        Some(reply)
    }

    /// What the reply gives cause to tell the operator: that more records
    /// wait, and that reserved bytes are in use.
    pub open spec fn remarks(self) -> Seq<NoticeView> {
        let pending: Seq<NoticeView> = if self.pending > 0 {
            seq![NoticeView::PendingRecords { count: (self.pending + 1) as u16 }]
        } else {
            seq![]
        };
        let middle: Seq<NoticeView> = if any_nonzero(self.reserved_middle@) {
            seq![NoticeView::TelemetryReserved { range: ReservedRange::Middle }]
        } else {
            seq![]
        };
        let tail: Seq<NoticeView> = if any_nonzero(self.reserved_tail@) {
            seq![NoticeView::TelemetryReserved { range: ReservedRange::Tail }]
        } else {
            seq![]
        };
        pending + middle + tail
    }

    /// The notices that the reply gives cause for.
    pub fn notices(&self) -> (notices: Vec<Notice>)
        ensures
            notice_views(notices@) == self.remarks(),
    {
        let mut notices: Vec<Notice> = Vec::new();
        if self.pending > 0 {
            notices.push(Notice::PendingRecords { count: self.pending as u16 + 1 });
        }
        let m = &self.reserved_middle;
        if m[0] != 0 || m[1] != 0 {
            assert(any_nonzero(m@)) by {
                assert(m@[0] != 0 || m@[1] != 0);
            }
            notices.push(Notice::TelemetryReserved { range: ReservedRange::Middle });
        }
        let t = &self.reserved_tail;
        if t[0] != 0 || t[1] != 0 || t[2] != 0 || t[3] != 0 || t[4] != 0 || t[5] != 0 || t[6]
            != 0 {
            assert(any_nonzero(t@)) by {
                assert(t@[0] != 0 || t@[1] != 0 || t@[2] != 0 || t@[3] != 0 || t@[4] != 0 || t@[5]
                    != 0 || t@[6] != 0);
            }
            notices.push(Notice::TelemetryReserved { range: ReservedRange::Tail });
        }
        assert(notice_views(notices@) =~= self.remarks());
        notices
    }

    /// The values to show: every distance and speed divided by `factor` and
    /// rounded down, the rest as it is.
    pub open spec fn converted(self, factor: Conversion) -> Telemetry {
        Telemetry {
            distance: factor.apply(self.distance as nat) as u64,
            seconds: self.seconds,
            mean_speed: factor.apply(self.mean_speed as nat) as u64,
            max_speed: factor.apply(self.max_speed as nat) as u64,
            cadence: self.cadence,
            trip_distance: factor.apply(self.trip_distance as nat) as u64,
            trip_seconds: self.trip_seconds,
        }
    }

    /// Divides every distance and speed by `factor`, each rounded down.
    pub fn convert(&self, factor: &Conversion) -> (telemetry: Telemetry)
        ensures
            factor.positive(),
            telemetry == self.converted(*factor),
    {
        Telemetry {
            distance: factor.convert(self.distance),
            seconds: self.seconds,
            mean_speed: factor.convert(self.mean_speed as u32),
            max_speed: factor.convert(self.max_speed as u32),
            cadence: self.cadence,
            trip_distance: factor.convert(self.trip_distance),
            trip_seconds: self.trip_seconds,
        }
    }
}

/// The values that are shown.
#[derive(Clone, Copy, Debug, PartialEq, Eq, Structural)]
pub struct Telemetry {
    /// The total distance, in thousandths of the unit of length.
    pub distance: u64,
    /// The time ridden, in seconds.
    pub seconds: u32,
    /// The mean speed, in hundredths of the unit of speed.
    pub mean_speed: u64,
    /// The highest speed, in hundredths of the unit of speed.
    pub max_speed: u64,
    /// The cadence, in turns per minute.
    pub cadence: u8,
    /// The distance of the trip section, in thousandths of the unit of length.
    pub trip_distance: u64,
    /// The time of the trip section, in seconds.
    pub trip_seconds: u32,
}

/// What decoding a data reply gives.
#[derive(Clone, Debug, PartialEq, Eq)]
pub struct Decoded {
    /// The reply, field by field.
    pub reply: TelemetryReply,
    /// The values that are shown.
    pub telemetry: Telemetry,
    /// What the reply gives cause to tell the operator.
    pub notices: Vec<Notice>,
    /// The output.
    pub text: String,
}

/// Converts the fields of a reply and writes the output.
pub fn decode_reply(
    reply: &TelemetryReply,
    config: &Config,
    distance_unit: &str,
    speed_unit: &str,
    factor: &Conversion,
) -> (decoded: Decoded)
    ensures
        factor.positive(),
        decoded.reply == *reply,
        decoded.telemetry == reply.converted(*factor),
        notice_views(decoded.notices@) == reply.remarks(),
        decoded.text@ == decoded.telemetry.text(*config, distance_unit@, speed_unit@),
{
    let telemetry = reply.convert(factor);
    let notices = reply.notices();
    let text = telemetry.render(config, distance_unit, speed_unit);
    Decoded { reply: *reply, telemetry, notices, text }
}

/// Decodes a data reply: reads its fields, divides distances and speeds by
/// `factor`, each rounded down, and writes the output that the options ask
/// for.
pub fn decode(
    buffer: &[u8; 27],
    config: &Config,
    distance_unit: &str,
    speed_unit: &str,
    factor: &Conversion,
) -> (decoded: Decoded)
    ensures
        factor.positive(),
        decoded.reply == TelemetryReply::of(buffer@),
        decoded.telemetry == decoded.reply.converted(*factor),
        decoded.telemetry.distance == factor.apply(be24(buffer@[1], buffer@[2], buffer@[3])),
        factor.num() == factor.den() ==> decoded.telemetry.distance == be24(
            buffer@[1],
            buffer@[2],
            buffer@[3],
        ),
        notice_views(decoded.notices@) == decoded.reply.remarks(),
        decoded.text@ == decoded.telemetry.text(*config, distance_unit@, speed_unit@),
{
    let parsed = TelemetryReply::parse(buffer.as_slice());
    let reply = parsed.unwrap();
    let decoded = decode_reply(&reply, config, distance_unit, speed_unit, factor);
    proof {
        lemma_apply_bound(*factor, reply.distance as nat);
        if factor.num() == factor.den() {
            lemma_unit_factor(*factor, reply.distance as nat);
        }
    }
    decoded
}

/// The fields of the output, in the order in which they are shown.
#[derive(Clone, Copy, Debug, PartialEq, Eq, Structural)]
pub enum Field {
    Distance,
    Time,
    MeanSpeed,
    MaxSpeed,
    Cadence,
    TripDistance,
    TripTime,
}

impl Field {
    /// Whether the field belongs to the trip section.
    pub open spec fn of_trip(self) -> bool {
        self is TripDistance || self is TripTime
    }

    /// Whether the field belongs to the trip section.
    pub fn is_of_trip(&self) -> (trip: bool)
        ensures
            trip == self.of_trip(),
    {
        match self {
            Field::TripDistance | Field::TripTime => true,
            _ => false,
        }
    }
}

/// A length in thousandths, as whole units and two decimals, the third cut off.
pub open spec fn length_text(thousandths: nat) -> Seq<char> {
    decimal(thousandths / 1000) + "."@ + two_digits((thousandths % 1000) / 10)
}

/// A speed in hundredths, as whole units and two decimals.
pub open spec fn speed_text(hundredths: nat) -> Seq<char> {
    decimal(hundredths / 100) + "."@ + two_digits(hundredths % 100)
}

/// A time in seconds, as hours, minutes and seconds.
pub open spec fn clock_text(seconds: nat) -> Seq<char> {
    decimal(seconds / 3600) + ":"@ + two_digits((seconds % 3600) / 60) + ":"@ + two_digits(
        seconds % 60,
    )
}

/// Writes a length in thousandths as whole units and two decimals.
pub fn format_length(thousandths: u64) -> (text: String)
    ensures
        text@ == length_text(thousandths as nat),
{
    let mut out = String::new();
    push_numeral(&mut out, thousandths / 1000, Radix::Decimal);
    out.append(".");
    push_fixed(&mut out, (thousandths % 1000) / 10, Radix::Decimal, 2);
    assert(out@ =~= length_text(thousandths as nat));
    out
}

/// Writes a speed in hundredths as whole units and two decimals.
pub fn format_speed(hundredths: u64) -> (text: String)
    ensures
        text@ == speed_text(hundredths as nat),
{
    let mut out = String::new();
    push_numeral(&mut out, hundredths / 100, Radix::Decimal);
    out.append(".");
    push_fixed(&mut out, hundredths % 100, Radix::Decimal, 2);
    assert(out@ =~= speed_text(hundredths as nat));
    out
}

/// Writes a time in seconds as hours, minutes and seconds.
pub fn format_clock(seconds: u32) -> (text: String)
    ensures
        text@ == clock_text(seconds as nat),
{
    let hours: u32 = seconds / 3600;
    let minutes: u32 = seconds % 3600;
    assert(minutes % 60 == seconds % 60);
    let mut out = String::new();
    push_numeral(&mut out, hours as u64, Radix::Decimal);
    out.append(":");
    push_fixed(&mut out, (minutes / 60) as u64, Radix::Decimal, 2);
    out.append(":");
    push_fixed(&mut out, (minutes % 60) as u64, Radix::Decimal, 2);
    proof {
        let h = decimal((seconds / 3600) as nat);
        let m = two_digits(((seconds % 3600) / 60) as nat);
        let s = two_digits((seconds % 60) as nat);
        assert(out@ =~= h + ":"@ + m + ":"@ + s);
    }
    out
}

impl Telemetry {
    /// The number by which a field is judged to be zero or not.
    pub open spec fn value(self, field: Field) -> nat {
        match field {
            Field::Distance => self.distance as nat,
            Field::Time => self.seconds as nat,
            Field::MeanSpeed => self.mean_speed as nat,
            Field::MaxSpeed => self.max_speed as nat,
            Field::Cadence => self.cadence as nat,
            Field::TripDistance => self.trip_distance as nat,
            Field::TripTime => self.trip_seconds as nat,
        }
    }

    /// Whether a field is shown: a zero only where zeros are asked for, a
    /// field of the trip section only where the trip section is asked for.
    pub open spec fn shows(self, field: Field, config: Config) -> bool {
        (self.value(field) > 0 || config.zeros) && (field.of_trip() ==> config.ts)
    }

    /// A field as it stands among the comma-separated values.
    pub open spec fn token_text(self, field: Field) -> Seq<char> {
        match field {
            Field::Distance => decimal(self.distance as nat),
            Field::Time => decimal(self.seconds as nat),
            Field::MeanSpeed => speed_text(self.mean_speed as nat),
            Field::MaxSpeed => speed_text(self.max_speed as nat),
            Field::Cadence => decimal(self.cadence as nat),
            Field::TripDistance => decimal(self.trip_distance as nat),
            Field::TripTime => decimal(self.trip_seconds as nat),
        }
    }

    /// A field as a labelled line.
    pub open spec fn line_text(
        self,
        field: Field,
        distance_unit: Seq<char>,
        speed_unit: Seq<char>,
    ) -> Seq<char> {
        match field {
            Field::Distance => "distance: "@ + length_text(self.distance as nat) + " "@
                + distance_unit + "\n"@,
            Field::Time => "time: "@ + clock_text(self.seconds as nat) + "\n"@,
            Field::MeanSpeed => "meanspeed: "@ + speed_text(self.mean_speed as nat) + " "@
                + speed_unit + "\n"@,
            Field::MaxSpeed => "maxspeed: "@ + speed_text(self.max_speed as nat) + " "@
                + speed_unit + "\n"@,
            Field::Cadence => "cadence: "@ + decimal(self.cadence as nat) + "/min"@ + "\n"@,
            Field::TripDistance => "ts_dist: "@ + length_text(self.trip_distance as nat) + " "@
                + distance_unit + "\n"@,
            Field::TripTime => "ts_time: "@ + clock_text(self.trip_seconds as nat) + "\n"@,
        }
    }

    /// What a field adds to the comma-separated values: its token where it is
    /// shown, nothing where it is not.
    pub open spec fn slot_text(self, field: Field, config: Config) -> Seq<char> {
        if self.shows(field, config) {
            self.token_text(field)
        } else {
            Seq::empty()
        }
    }

    /// What a field adds to the labelled output: its line where it is shown,
    /// nothing where it is not.
    pub open spec fn entry_text(
        self,
        field: Field,
        config: Config,
        distance_unit: Seq<char>,
        speed_unit: Seq<char>,
    ) -> Seq<char> {
        if self.shows(field, config) {
            self.line_text(field, distance_unit, speed_unit)
        } else {
            Seq::empty()
        }
    }

    /// The single line of comma-separated values: the slots of the fields,
    /// joined by commas and ended by a newline. The first five fields have
    /// their slot always, filled or empty; the two of the trip section have
    /// theirs only where the trip section is asked for.
    pub open spec fn raw_text(self, config: Config) -> Seq<char> {
        let trip = if config.ts {
            ","@ + self.slot_text(Field::TripDistance, config) + ","@ + self.slot_text(
                Field::TripTime,
                config,
            )
        } else {
            Seq::empty()
        };
        self.slot_text(Field::Distance, config) + ","@ + self.slot_text(Field::Time, config)
            + ","@ + self.slot_text(Field::MeanSpeed, config) + ","@ + self.slot_text(
            Field::MaxSpeed,
            config,
        ) + ","@ + self.slot_text(Field::Cadence, config) + trip + "\n"@
    }

    /// The labelled output: the lines of the fields that are shown, in order.
    pub open spec fn labelled_text(
        self,
        config: Config,
        distance_unit: Seq<char>,
        speed_unit: Seq<char>,
    ) -> Seq<char> {
        self.entry_text(Field::Distance, config, distance_unit, speed_unit) + self.entry_text(
            Field::Time,
            config,
            distance_unit,
            speed_unit,
        ) + self.entry_text(Field::MeanSpeed, config, distance_unit, speed_unit)
            + self.entry_text(Field::MaxSpeed, config, distance_unit, speed_unit)
            + self.entry_text(Field::Cadence, config, distance_unit, speed_unit)
            + self.entry_text(Field::TripDistance, config, distance_unit, speed_unit)
            + self.entry_text(Field::TripTime, config, distance_unit, speed_unit)
    }

    /// The output in the form that the options ask for.
    pub open spec fn text(
        self,
        config: Config,
        distance_unit: Seq<char>,
        speed_unit: Seq<char>,
    ) -> Seq<char> {
        if config.raw {
            self.raw_text(config)
        } else {
            self.labelled_text(config, distance_unit, speed_unit)
        }
    }

    /// The number by which a field is judged to be zero or not.
    pub fn field_value(&self, field: Field) -> (value: u64)
        ensures
            value == self.value(field),
    {
        match field {
            Field::Distance => self.distance,
            Field::Time => self.seconds as u64,
            Field::MeanSpeed => self.mean_speed,
            Field::MaxSpeed => self.max_speed,
            Field::Cadence => self.cadence as u64,
            Field::TripDistance => self.trip_distance,
            Field::TripTime => self.trip_seconds as u64,
        }
    }

    /// Whether a field is shown under the given options.
    pub fn is_shown(&self, field: Field, config: &Config) -> (shown: bool)
        ensures
            shown == self.shows(field, *config),
    {
        (self.field_value(field) > 0 || config.zeros) && (!field.is_of_trip() || config.ts)
    }

    /// Writes a field as it stands among the comma-separated values.
    pub fn render_token(&self, field: Field) -> (token: String)
        ensures
            token@ == self.token_text(field),
    {
        match field {
            Field::MeanSpeed => format_speed(self.mean_speed),
            Field::MaxSpeed => format_speed(self.max_speed),
            _ => {
                let mut out = String::new();
                push_numeral(&mut out, self.field_value(field), Radix::Decimal);
                assert(out@ =~= self.token_text(field));
                out
            },
        }
    }

    /// Writes a field as a labelled line.
    pub fn render_line(&self, field: Field, distance_unit: &str, speed_unit: &str) -> (line:
        String)
        ensures
            line@ == self.line_text(field, distance_unit@, speed_unit@),
    {
        let mut out = String::new();
        match field {
            Field::Distance => {
                out.append("distance: ");
                out.append(format_length(self.distance).as_str());
                out.append(" ");
                out.append(distance_unit);
            },
            Field::Time => {
                out.append("time: ");
                out.append(format_clock(self.seconds).as_str());
            },
            Field::MeanSpeed => {
                out.append("meanspeed: ");
                out.append(format_speed(self.mean_speed).as_str());
                out.append(" ");
                out.append(speed_unit);
            },
            Field::MaxSpeed => {
                out.append("maxspeed: ");
                out.append(format_speed(self.max_speed).as_str());
                out.append(" ");
                out.append(speed_unit);
            },
            Field::Cadence => {
                out.append("cadence: ");
                push_numeral(&mut out, self.cadence as u64, Radix::Decimal);
                out.append("/min");
            },
            Field::TripDistance => {
                out.append("ts_dist: ");
                out.append(format_length(self.trip_distance).as_str());
                out.append(" ");
                out.append(distance_unit);
            },
            Field::TripTime => {
                out.append("ts_time: ");
                out.append(format_clock(self.trip_seconds).as_str());
            },
        }
        out.append("\n");
        assert(out@ =~= self.line_text(field, distance_unit@, speed_unit@));
        out
    }

    /// Appends to `out` what a field adds to the comma-separated values.
    fn push_slot(&self, out: &mut String, field: Field, config: &Config)
        ensures
            final(out)@ == old(out)@ + self.slot_text(field, *config),
    {
        if self.is_shown(field, config) {
            out.append(self.render_token(field).as_str());
        }
        assert(out@ =~= old(out)@ + self.slot_text(field, *config));
    }

    /// Appends to `out` what a field adds to the labelled output.
    fn push_entry(
        &self,
        out: &mut String,
        field: Field,
        config: &Config,
        distance_unit: &str,
        speed_unit: &str,
    )
        ensures
            final(out)@ == old(out)@ + self.entry_text(
                field,
                *config,
                distance_unit@,
                speed_unit@,
            ),
    {
        if self.is_shown(field, config) {
            out.append(self.render_line(field, distance_unit, speed_unit).as_str());
        }
        assert(out@ =~= old(out)@ + self.entry_text(field, *config, distance_unit@, speed_unit@));
    }

    /// Writes the single line of comma-separated values.
    pub fn render_raw(&self, config: &Config) -> (text: String)
        ensures
            text@ == self.raw_text(*config),
    {
        let mut out = String::new();
        self.push_slot(&mut out, Field::Distance, config);
        out.append(",");
        self.push_slot(&mut out, Field::Time, config);
        out.append(",");
        self.push_slot(&mut out, Field::MeanSpeed, config);
        out.append(",");
        self.push_slot(&mut out, Field::MaxSpeed, config);
        out.append(",");
        self.push_slot(&mut out, Field::Cadence, config);
        if config.ts {
            out.append(",");
            self.push_slot(&mut out, Field::TripDistance, config);
            out.append(",");
            self.push_slot(&mut out, Field::TripTime, config);
        }
        out.append("\n");
        assert(out@ =~= self.raw_text(*config));
        out
    }

    /// Writes the labelled output.
    pub fn render_labelled(&self, config: &Config, distance_unit: &str, speed_unit: &str) -> (text:
        String)
        ensures
            text@ == self.labelled_text(*config, distance_unit@, speed_unit@),
    {
        let mut out = String::new();
        self.push_entry(&mut out, Field::Distance, config, distance_unit, speed_unit);
        self.push_entry(&mut out, Field::Time, config, distance_unit, speed_unit);
        self.push_entry(&mut out, Field::MeanSpeed, config, distance_unit, speed_unit);
        self.push_entry(&mut out, Field::MaxSpeed, config, distance_unit, speed_unit);
        self.push_entry(&mut out, Field::Cadence, config, distance_unit, speed_unit);
        self.push_entry(&mut out, Field::TripDistance, config, distance_unit, speed_unit);
        self.push_entry(&mut out, Field::TripTime, config, distance_unit, speed_unit);
        assert(out@ =~= self.labelled_text(*config, distance_unit@, speed_unit@));
        out
    }

    /// Writes the output in the form that the options ask for.
    pub fn render(&self, config: &Config, distance_unit: &str, speed_unit: &str) -> (text: String)
        ensures
            text@ == self.text(*config, distance_unit@, speed_unit@),
    {
        if config.raw {
            self.render_raw(config)
        } else {
            self.render_labelled(config, distance_unit, speed_unit)
        }
    }
}

/// A field whose value is zero is left out where zeros are not asked for: it
/// adds no line to the labelled output, and its place among the
/// comma-separated values stays empty. Where zeros are asked for it is shown
/// like any other field; one of the trip section, where the trip section is
/// asked for.
pub proof fn lemma_zero_suppression(
    telemetry: Telemetry,
    field: Field,
    config: Config,
    distance_unit: Seq<char>,
    speed_unit: Seq<char>,
)
    requires
        telemetry.value(field) == 0,
    ensures
        !config.zeros ==> telemetry.entry_text(field, config, distance_unit, speed_unit)
            == Seq::<char>::empty() && telemetry.slot_text(field, config) == Seq::<char>::empty(),
        config.zeros && (field.of_trip() ==> config.ts) ==> telemetry.entry_text(
            field,
            config,
            distance_unit,
            speed_unit,
        ) == telemetry.line_text(field, distance_unit, speed_unit) && telemetry.slot_text(
            field,
            config,
        ) == telemetry.token_text(field),
{
}

/// A field that is shown is there to see: neither its line nor its token is
/// empty.
pub proof fn lemma_shown_is_visible(
    telemetry: Telemetry,
    field: Field,
    distance_unit: Seq<char>,
    speed_unit: Seq<char>,
)
    ensures
        telemetry.line_text(field, distance_unit, speed_unit).len() > 0,
        telemetry.token_text(field).len() > 0,
{
    reveal_strlit("\n");
    lemma_numeral_not_empty(telemetry.value(field), 10);
    lemma_numeral_not_empty(telemetry.value(field) / 100, 10);
}

/// Where no value is above zero and zeros are not asked for, the line of
/// comma-separated values holds the commas alone: four between the five
/// empty slots, or six between the seven with the trip section.
pub proof fn lemma_all_suppressed(telemetry: Telemetry, config: Config)
    requires
        !config.zeros,
        forall|field: Field| telemetry.value(field) == 0,
    ensures
        !config.ts ==> telemetry.raw_text(config) == ",,,,\n"@,
        config.ts ==> telemetry.raw_text(config) == ",,,,,,\n"@,
        forall|distance_unit: Seq<char>, speed_unit: Seq<char>|
            telemetry.labelled_text(config, distance_unit, speed_unit) == Seq::<char>::empty(),
{
    reveal_strlit(",");
    reveal_strlit("\n");
    reveal_strlit(",,,,\n");
    reveal_strlit(",,,,,,\n");
    assert(telemetry.value(Field::Distance) == 0);
    assert(telemetry.value(Field::Time) == 0);
    assert(telemetry.value(Field::MeanSpeed) == 0);
    assert(telemetry.value(Field::MaxSpeed) == 0);
    assert(telemetry.value(Field::Cadence) == 0);
    assert(telemetry.value(Field::TripDistance) == 0);
    assert(telemetry.value(Field::TripTime) == 0);
    if config.ts {
        assert(telemetry.raw_text(config) =~= ",,,,,,\n"@);
    } else {
        assert(telemetry.raw_text(config) =~= ",,,,\n"@);
    }
    assert forall|distance_unit: Seq<char>, speed_unit: Seq<char>|
        telemetry.labelled_text(config, distance_unit, speed_unit) == Seq::<char>::empty() by {
        assert(telemetry.labelled_text(config, distance_unit, speed_unit) =~= Seq::<
            char,
        >::empty());
    }
}

/// The fields of the trip section are shown only where the trip section is
/// asked for, whatever is asked of zeros. Where it is asked for, such a field
/// is shown unless it is a zero that is not asked for. On the other fields
/// the trip section has no bearing.
pub proof fn lemma_trip_section_gate(telemetry: Telemetry, field: Field, config: Config)
    ensures
        field.of_trip() && !config.ts ==> !telemetry.shows(field, config),
        field.of_trip() && (telemetry.value(field) > 0 || config.zeros) ==> (telemetry.shows(
            field,
            config,
        ) <==> config.ts),
        !field.of_trip() ==> telemetry.shows(field, config) == telemetry.shows(
            field,
            Config { ts: !config.ts, ..config },
        ),
{
}

} // verus!
