//! Gamepad profile constants and the input-report codec.
//!
//! The wire format is fixed: a 92-byte capability descriptor declaring
//! 10 buttons, a hat switch, four signed 8-bit axes and two unsigned
//! 8-bit axes, and a 10-byte input report whose layout must match that
//! descriptor bit for bit.

use vstd::prelude::*;

verus! {

/// Report id carried as byte 0 of every input report.
pub const REPORT_ID: u8 = 0x01;

/// Bits 0..=9 of the button word are meaningful; the rest are masked off.
pub const BUTTON_MASK: u16 = 0x03ff;

/// Input report length in bytes, including the report id byte.
pub const INPUT_REPORT_LEN: usize = 10;

/// Capability descriptor length in bytes.
pub const DESCRIPTOR_LEN: usize = 92;

/// The fixed 92-byte capability descriptor: 10 one-bit buttons plus 6
/// padding bits, a 4-bit hat switch (logical 0..=7) plus 4 padding
/// bits, four signed 8-bit axes (X, Y, Rx, Ry, logical -127..=127) and
/// two unsigned 8-bit axes (brake and accelerator, logical 0..=255).
pub open spec fn spec_descriptor() -> Seq<u8> {
    seq![
        0x05u8, 0x01, // Usage Page (Generic Desktop)
        0x09, 0x05, // Usage (Game Pad)
        0xa1, 0x01, // Collection (Application)
        0x85, REPORT_ID, // Report ID
        0x05, 0x09, // Usage Page (Button)
        0x19, 0x01, // Usage Minimum (Button 1)
        0x29, 0x0a, // Usage Maximum (Button 10)
        0x15, 0x00, // Logical Minimum (0)
        0x25, 0x01, // Logical Maximum (1)
        0x95, 0x0a, // Report Count (10)
        0x75, 0x01, // Report Size (1)
        0x81, 0x02, // Input (Data,Var,Abs)
        0x95, 0x01, // Report Count (1)
        0x75, 0x06, // Report Size (6)
        0x81, 0x03, // Input (Const,Var,Abs) padding
        0x05, 0x01, // Usage Page (Generic Desktop)
        0x09, 0x39, // Usage (Hat switch)
        0x15, 0x00, // Logical Minimum (0)
        0x25, 0x07, // Logical Maximum (7)
        0x35, 0x00, // Physical Minimum (0)
        0x46, 0x3b, 0x01, // Physical Maximum (315)
        0x65, 0x14, // Unit (English Rotation, Degrees)
        0x75, 0x04, // Report Size (4)
        0x95, 0x01, // Report Count (1)
        0x81, 0x02, // Input (Data,Var,Abs)
        0x75, 0x04, // Report Size (4)
        0x95, 0x01, // Report Count (1)
        0x81, 0x03, // Input (Const,Var,Abs) padding
        0x09, 0x30, // Usage (X)
        0x09, 0x31, // Usage (Y)
        0x09, 0x33, // Usage (Rx)
        0x09, 0x34, // Usage (Ry)
        0x15, 0x81, // Logical Minimum (-127)
        0x25, 0x7f, // Logical Maximum (127)
        0x75, 0x08, // Report Size (8)
        0x95, 0x04, // Report Count (4)
        0x81, 0x02, // Input (Data,Var,Abs)
        0x05, 0x02, // Usage Page (Simulation Controls)
        0x09, 0xc5, // Usage (Brake)
        0x09, 0xc4, // Usage (Accelerator)
        0x15, 0x00, // Logical Minimum (0)
        0x25, 0xff, // Logical Maximum (255)
        0x75, 0x08, // Report Size (8)
        0x95, 0x02, // Report Count (2)
        0x81, 0x02, // Input (Data,Var,Abs)
        0xc0, // End Collection
    ]
}

/// The capability descriptor as wire bytes.
pub fn hid_report_descriptor() -> (r: [u8; DESCRIPTOR_LEN])
    ensures
        r@ == spec_descriptor(),
{
    let r = [
        0x05u8, 0x01, 0x09, 0x05, 0xa1, 0x01, 0x85, REPORT_ID, 0x05, 0x09,
        0x19, 0x01, 0x29, 0x0a, 0x15, 0x00, 0x25, 0x01, 0x95, 0x0a,
        0x75, 0x01, 0x81, 0x02, 0x95, 0x01, 0x75, 0x06, 0x81, 0x03,
        0x05, 0x01, 0x09, 0x39, 0x15, 0x00, 0x25, 0x07, 0x35, 0x00,
        0x46, 0x3b, 0x01, 0x65, 0x14, 0x75, 0x04, 0x95, 0x01, 0x81,
        0x02, 0x75, 0x04, 0x95, 0x01, 0x81, 0x03, 0x09, 0x30, 0x09,
        0x31, 0x09, 0x33, 0x09, 0x34, 0x15, 0x81, 0x25, 0x7f, 0x75,
        0x08, 0x95, 0x04, 0x81, 0x02, 0x05, 0x02, 0x09, 0xc5, 0x09,
        0xc4, 0x15, 0x00, 0x25, 0xff, 0x75, 0x08, 0x95, 0x02, 0x81,
        0x02, 0xc0,
    ];
    proof {
        assert(r@ =~= spec_descriptor());
    }
    r
}

/// One logical input snapshot. Callers may set out-of-range button or
/// hat bits freely; only the wire encoding masks them.
#[derive(Debug, Clone, Copy, PartialEq, Eq, Structural)]
pub struct InputReport {
    pub buttons: u16,
    pub hat: u8,
    pub lx: i8,
    pub ly: i8,
    pub rx: i8,
    pub ry: i8,
    pub lt: u8,
    pub rt: u8,
}

impl Default for InputReport {
    /// The all-zero snapshot: no buttons, hat centred, all axes at zero.
    fn default() -> (r: Self)
        ensures
            r == InputReport::zero(),
    {
        InputReport { buttons: 0, hat: 0, lx: 0, ly: 0, rx: 0, ry: 0, lt: 0, rt: 0 }
    }
}

impl InputReport {
    /// The all-zero snapshot, as a spec-level constant.
    pub open spec fn zero() -> InputReport {
        InputReport { buttons: 0, hat: 0, lx: 0, ly: 0, rx: 0, ry: 0, lt: 0, rt: 0 }
    }
}

/// The unsigned byte that stores a signed 8-bit axis value on the wire
/// (two's complement).
pub open spec fn spec_i8_byte(x: i8) -> u8 {
    if x >= 0 {
        x as u8
    } else {
        (x + 256) as u8
    }
}

/// The exact 10 wire bytes for a snapshot: report id, buttons masked to
/// bits 0..=9 split over bytes 1 and 2, hat masked to 4 bits in byte 3,
/// then the six axis bytes.
pub open spec fn spec_report_bytes(r: InputReport) -> Seq<u8> {
    seq![
        REPORT_ID,
        ((r.buttons & BUTTON_MASK) & 0xff) as u8,
        (((r.buttons & BUTTON_MASK) >> 8) & 0x03) as u8,
        (r.hat & 0x0f) as u8,
        spec_i8_byte(r.lx),
        spec_i8_byte(r.ly),
        spec_i8_byte(r.rx),
        spec_i8_byte(r.ry),
        r.lt,
        r.rt,
    ]
}

/// Two's-complement byte of a signed 8-bit axis value.
fn i8_byte(x: i8) -> (r: u8)
    ensures
        r == spec_i8_byte(x),
{
    if x >= 0 {
        x as u8
    } else {
        (x as i16 + 256) as u8
    }
}

impl InputReport {
    /// Packs the snapshot into its 10 wire bytes.
    pub fn to_bytes(self) -> (r: [u8; INPUT_REPORT_LEN])
        ensures
            r@ == spec_report_bytes(self),
    {
        let buttons = self.buttons & BUTTON_MASK;
        proof {
            assert((buttons & 0xff) < 256 && ((buttons >> 8) & 0x03) < 256) by (bit_vector);
        }
        let r = [
            REPORT_ID,
            (buttons & 0xff) as u8,
            ((buttons >> 8) & 0x03) as u8,
            self.hat & 0x0f,
            i8_byte(self.lx),
            i8_byte(self.ly),
            i8_byte(self.rx),
            i8_byte(self.ry),
            self.lt,
            self.rt,
        ];
        proof {
            assert(r@ =~= spec_report_bytes(self));
        }
        r
    }
}

/// Masking on the wire: for every snapshot, bytes 1 and 2 carry the
/// button word masked to bits 0..=9 (so bits 2..=7 of byte 2 are
/// zero), and byte 3 carries the hat masked to 4 bits (so its bits
/// 4..=7 are zero).
pub proof fn lemma_report_bytes_masked(r: InputReport)
    ensures
        spec_report_bytes(r).len() == 10,
        spec_report_bytes(r)[0] == REPORT_ID,
        spec_report_bytes(r)[2] < 4,
        spec_report_bytes(r)[3] < 16,
        (spec_report_bytes(r)[1] as u16) | ((spec_report_bytes(r)[2] as u16) << 8) == r.buttons
            & BUTTON_MASK,
        spec_report_bytes(r)[3] == r.hat & 0x0f,
{
    let b = r.buttons;
    let h = r.hat;
    assert(((b & 0x03ff) & 0xff) < 256 && (((b & 0x03ff) >> 8) & 0x03) < 4 && (h & 0x0f) < 16)
        by (bit_vector);
    assert(((((b & 0x03ff) & 0xff) as u8) as u16) | (((((b & 0x03ff) >> 8) & 0x03) as u8 as u16)
        << 8) == b & 0x03ff) by (bit_vector);
}

} // verus!
