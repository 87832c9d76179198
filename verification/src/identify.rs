//! The identification reply of a unit.

use vstd::prelude::*;
use crate::notice::{format_serial, notice_views, serial_text, Notice, NoticeView};
use crate::telemetry::any_nonzero;

verus! {

/// The length of the identification reply.
pub const IDENTIFY_LEN: usize = 11;

/// The type code of the one unit that is supported.
pub const SUPPORTED_UNIT: u8 = 0x15;

/// The identification reply, field by field.
#[derive(Clone, Copy, Debug, PartialEq, Eq)]
pub struct IdentifyReply {
    /// The type code of the unit.
    pub unit_type: u8,
    /// The code of the unit's model within its type.
    pub model: u8,
    /// The serial number, one digit in each byte.
    pub serial: [u8; 4],
    /// The version of the unit's firmware.
    pub version: u8,
    /// Bytes 7 to 10, which a unit leaves at zero.
    pub reserved: [u8; 4],
}

/// What an identification reply says of the unit in the cradle.
#[derive(Clone, Copy, Debug, PartialEq, Eq, Structural)]
pub enum UnitKind {
    /// The supported unit.
    Supported,
    /// No unit: the type code is zero.
    Absent,
    /// A unit of another type.
    Unsupported,
}

impl IdentifyReply {
    /// The record of the 11 bytes `b`.
    pub open spec fn of(b: Seq<u8>) -> IdentifyReply
        recommends
            b.len() == IDENTIFY_LEN,
    {
        IdentifyReply {
            unit_type: b[0],
            model: b[1],
            serial: [b[2], b[3], b[4], b[5]],
            version: b[6],
            reserved: [b[7], b[8], b[9], b[10]],
        }
    }

    /// Reads a reply. It is a reply if and only if it has 11 bytes.
    pub fn parse(bytes: &[u8]) -> (reply: Option<IdentifyReply>)
        ensures
            reply is Some <==> bytes@.len() == IDENTIFY_LEN,
            reply is Some ==> reply->0 == IdentifyReply::of(bytes@),
    {
        if bytes.len() != IDENTIFY_LEN {
            return None;
        }
        Some(
            IdentifyReply {
                unit_type: bytes[0],
                model: bytes[1],
                serial: [bytes[2], bytes[3], bytes[4], bytes[5]],
                version: bytes[6],
                reserved: [bytes[7], bytes[8], bytes[9], bytes[10]],
            },
        )
    }

    /// What the type code says of the unit.
    pub open spec fn kind(self) -> UnitKind {
        if self.unit_type == SUPPORTED_UNIT {
            UnitKind::Supported
        } else if self.unit_type == 0 {
            UnitKind::Absent
        } else {
            UnitKind::Unsupported
        }
    }

    /// What the type code says of the unit.
    pub fn unit_kind(&self) -> (kind: UnitKind)
        ensures
            kind == self.kind(),
    {
        if self.unit_type == SUPPORTED_UNIT {
            UnitKind::Supported
        } else if self.unit_type == 0 {
            UnitKind::Absent
        } else {
            UnitKind::Unsupported
        }
    }

    /// The serial number of the unit.
    pub fn serial_number(&self) -> (text: String)
        ensures
            text@ == serial_text(self.serial@),
    {
        format_serial(&self.serial)
    }

    /// What the reply gives cause to tell the operator: that reserved bytes
    /// are in use, what the unit is and, unless there is none, its serial
    /// number.
    pub open spec fn remarks(self) -> Seq<NoticeView> {
        let reserved: Seq<NoticeView> = if any_nonzero(self.reserved@) {
            seq![NoticeView::IdentifyReserved]
        } else {
            seq![]
        };
        let serial = NoticeView::SerialNumber { digits: self.serial@ };
        let unit: Seq<NoticeView> = match self.kind() {
            UnitKind::Supported => seq![
                NoticeView::UnitIdentified { unit_type: self.unit_type, version: self.version },
                serial,
            ],
            UnitKind::Absent => seq![NoticeView::UnknownUnit],
            UnitKind::Unsupported => seq![
                NoticeView::UnsupportedUnit { code: self.unit_type },
                serial,
            ],
        };
        reserved + unit
    }

    /// The notices that the reply gives cause for.
    pub fn notices(&self) -> (notices: Vec<Notice>)
        ensures
            notice_views(notices@) == self.remarks(),
    {
        let mut notices: Vec<Notice> = Vec::new();
        let r = &self.reserved;
        if r[0] != 0 || r[1] != 0 || r[2] != 0 || r[3] != 0 {
            assert(any_nonzero(r@)) by {
                assert(r@[0] != 0 || r@[1] != 0 || r@[2] != 0 || r@[3] != 0);
            }
            notices.push(Notice::IdentifyReserved);
        }
        match self.unit_kind() {
            UnitKind::Supported => {
                notices.push(
                    Notice::UnitIdentified { unit_type: self.unit_type, version: self.version },
                );
                notices.push(Notice::SerialNumber { digits: self.serial });
            },
            UnitKind::Absent => {
                notices.push(Notice::UnknownUnit);
            },
            UnitKind::Unsupported => {
                notices.push(Notice::UnsupportedUnit { code: self.unit_type });
                notices.push(Notice::SerialNumber { digits: self.serial });
            },
        }
        assert(notice_views(notices@) =~= self.remarks());
        notices
    }
}

} // verus!
