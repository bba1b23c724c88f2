//! Framed transport for the virtual-HID device file.
//!
//! Three frame shapes exist: a fixed 4376-byte registration frame
//! (4-byte tag plus a 4372-byte payload with the device identity and
//! the capability descriptor at fixed offsets), a report frame (tag,
//! 16-bit length, payload), and a bare 4-byte teardown tag. This
//! module builds the exact bytes of each frame and tracks the
//! registered/torn-down state; the device file itself is written by
//! unverified code around the crate, which reports write outcomes
//! back. Multi-byte fields use the byte order of the supported hosts,
//! least-significant byte first.

use vstd::prelude::*;
use crate::config::HidConfig;
use crate::hid::{spec_descriptor, hid_report_descriptor, DESCRIPTOR_LEN};

verus! {

/// Frame tag of a teardown event.
pub const UHID_DESTROY: u32 = 1;

/// Frame tag of a registration event.
pub const UHID_CREATE2: u32 = 11;

/// Frame tag of an input-report event.
pub const UHID_INPUT2: u32 = 12;

/// Bus identifier reported for the emulated device: Bluetooth.
pub const BUS_BLUETOOTH: u16 = 0x05;

/// Payload length of a registration frame.
pub const CREATE2_PAYLOAD_LEN: usize = 4372;

/// Whole length of a registration frame: tag plus payload.
pub const CREATE2_EVENT_LEN: usize = 4376;

/// Largest report payload a report frame may carry.
pub const MAX_REPORT_LEN: usize = 4096;

/// Payload offset of the zero-padded device name (128 bytes).
pub const OFF_NAME: usize = 0;

/// Payload offset of the physical-location string (64 bytes).
pub const OFF_PHYS: usize = 128;

/// Payload offset of the unique-id string (64 bytes, left empty).
pub const OFF_UNIQ: usize = 192;

/// Payload offset of the 16-bit descriptor-size field.
pub const OFF_RD_SIZE: usize = 256;

/// Payload offset of the 16-bit bus-type field.
pub const OFF_BUS: usize = 258;

/// Payload offset of the 32-bit vendor-id field.
pub const OFF_VENDOR: usize = 260;

/// Payload offset of the 32-bit product-id field.
pub const OFF_PRODUCT: usize = 264;

/// Payload offset of the 32-bit version field (fixed 1).
pub const OFF_VERSION: usize = 268;

/// Payload offset of the 32-bit country-code field (fixed 0).
pub const OFF_COUNTRY: usize = 272;

/// Payload offset of the descriptor bytes.
pub const OFF_RD_DATA: usize = 276;

/// Transport failure this crate can decide by itself. Write failures
/// of the device file are the unverified caller's to report.
#[derive(Debug, Clone, Copy, PartialEq, Eq, Structural)]
pub enum TransportError {
    ReportTooLarge,
}

impl TransportError {
    /// The human-readable reason.
    pub fn message(&self) -> (m: String)
        ensures
            m@ == "report too large"@,
    {
        String::from_str("report too large")
    }
}

/// The two bytes of a 16-bit field, least-significant first.
pub open spec fn spec_u16_le(x: u16) -> Seq<u8> {
    seq![(x & 0xff) as u8, ((x >> 8) & 0xff) as u8]
}

/// The four bytes of a 32-bit field, least-significant first.
pub open spec fn spec_u32_le(x: u32) -> Seq<u8> {
    seq![
        (x & 0xff) as u8,
        ((x >> 8) & 0xff) as u8,
        ((x >> 16) & 0xff) as u8,
        ((x >> 24) & 0xff) as u8,
    ]
}

/// The physical-location string written at `OFF_PHYS`: "bluetooth".
pub open spec fn spec_phys_bytes() -> Seq<u8> {
    seq![0x62u8, 0x6c, 0x75, 0x65, 0x74, 0x6f, 0x6f, 0x74, 0x68]
}

/// How many name bytes land in a zero-padded field: the whole name if
/// it fits with a trailing zero spare, else one byte less than the
/// field.
pub open spec fn spec_padded_len(src_len: int, field_len: int) -> int {
    let cap = if field_len >= 1 {
        field_len - 1
    } else {
        0
    };
    if src_len <= cap {
        src_len
    } else {
        cap
    }
}

/// Byte `i` of the registration payload: the padded name, the padded
/// location string, the empty unique id, the descriptor-size, bus,
/// vendor, product, version and country fields, the descriptor bytes,
/// and zero everywhere else.
pub open spec fn spec_create2_payload_byte(name: Seq<u8>, vendor_id: u16, product_id: u16, i: int) -> u8 {
    let n = spec_padded_len(name.len() as int, 128);
    if 0 <= i < n {
        name[i]
    } else if i < OFF_PHYS {
        0
    } else if i < OFF_PHYS + 9 {
        spec_phys_bytes()[i - OFF_PHYS]
    } else if i < OFF_RD_SIZE {
        0
    } else if i < OFF_RD_SIZE + 2 {
        spec_u16_le(DESCRIPTOR_LEN as u16)[i - OFF_RD_SIZE]
    } else if i < OFF_BUS + 2 {
        spec_u16_le(BUS_BLUETOOTH)[i - OFF_BUS]
    } else if i < OFF_VENDOR + 4 {
        spec_u32_le(vendor_id as u32)[i - OFF_VENDOR]
    } else if i < OFF_PRODUCT + 4 {
        spec_u32_le(product_id as u32)[i - OFF_PRODUCT]
    } else if i < OFF_VERSION + 4 {
        spec_u32_le(1)[i - OFF_VERSION]
    } else if i < OFF_COUNTRY + 4 {
        spec_u32_le(0)[i - OFF_COUNTRY]
    } else if i < OFF_RD_DATA + DESCRIPTOR_LEN {
        spec_descriptor()[i - OFF_RD_DATA]
    } else {
        0
    }
}

/// Byte `i` of the whole registration frame: the tag, then the
/// payload.
pub open spec fn spec_create2_event_byte(name: Seq<u8>, vendor_id: u16, product_id: u16, i: int) -> u8 {
    if i < 4 {
        spec_u32_le(UHID_CREATE2)[i]
    } else {
        spec_create2_payload_byte(name, vendor_id, product_id, i - 4)
    }
}

/// The whole report frame for a payload: tag, 16-bit length, payload.
pub open spec fn spec_input2_event(payload: Seq<u8>) -> Seq<u8>
    recommends
        payload.len() <= MAX_REPORT_LEN,
{
    spec_u32_le(UHID_INPUT2) + spec_u16_le(payload.len() as u16) + payload
}

/// The four bytes of a 32-bit field as a vector.
fn u32_le_vec(x: u32) -> (r: Vec<u8>)
    ensures
        r@ == spec_u32_le(x),
{
    proof {
        assert((x & 0xff) < 256 && ((x >> 8) & 0xff) < 256 && ((x >> 16) & 0xff) < 256 && ((x
            >> 24) & 0xff) < 256) by (bit_vector);
    }
    let mut r: Vec<u8> = Vec::new();
    r.push((x & 0xff) as u8);
    r.push(((x >> 8) & 0xff) as u8);
    r.push(((x >> 16) & 0xff) as u8);
    r.push(((x >> 24) & 0xff) as u8);
    proof {
        assert(r@ =~= spec_u32_le(x));
    }
    r
}

/// A vector of `n` zero bytes.
fn zeroed(n: usize) -> (r: Vec<u8>)
    ensures
        r@.len() == n,
        forall|i: int| 0 <= i < n ==> r@[i] == 0u8,
{
    let mut r: Vec<u8> = Vec::new();
    let mut k: usize = 0;
    while k < n
        invariant
            k <= n,
            r@.len() == k,
            forall|i: int| 0 <= i < k ==> r@[i] == 0u8,
        decreases n - k,
    {
        r.push(0u8);
        k += 1;
    }
    r
}

/// The location string "bluetooth" as bytes.
fn phys_bytes() -> (r: Vec<u8>)
    ensures
        r@ == spec_phys_bytes(),
{
    let mut r: Vec<u8> = Vec::new();
    r.push(0x62u8);
    r.push(0x6cu8);
    r.push(0x75u8);
    r.push(0x65u8);
    r.push(0x74u8);
    r.push(0x6fu8);
    r.push(0x6fu8);
    r.push(0x74u8);
    r.push(0x68u8);
    proof {
        assert(r@ =~= spec_phys_bytes());
    }
    r
}

/// Overwrites `dst[off..off + src.len()]` with `src`, leaving every
/// other byte unchanged.
fn store_bytes(dst: &mut Vec<u8>, off: usize, src: &Vec<u8>)
    requires
        off + src@.len() <= old(dst).len(),
    ensures
        final(dst)@.len() == old(dst)@.len(),
        forall|i: int|
            #![trigger final(dst)@[i]]
            off <= i < off + src@.len() ==> final(dst)@[i] == src@[i - off],
        forall|i: int|
            #![trigger final(dst)@[i]]
            0 <= i < old(dst)@.len() && !(off <= i < off + src@.len())
                ==> final(dst)@[i] == old(dst)@[i],
{
    let mut j: usize = 0;
    while j < src.len()
        invariant
            j <= src@.len(),
            off + src@.len() <= dst.len(),
            dst@.len() == old(dst)@.len(),
            forall|i: int|
                #![trigger dst@[i]]
                off <= i < off + j ==> dst@[i] == src@[i - off],
            forall|i: int|
                #![trigger dst@[i]]
                0 <= i < dst@.len() && !(off <= i < off + j) ==> dst@[i] == old(dst)@[i],
        decreases src@.len() - j,
    {
        dst[off + j] = src[j];
        j += 1;
    }
}

/// Writes as much of `src` as fits into the zero-padded field
/// `dst[start..end]`, always sparing at least the field's last byte,
/// and leaves every other byte (including the field's tail) unchanged.
pub fn write_padded(dst: &mut Vec<u8>, start: usize, end: usize, src: &Vec<u8>)
    requires
        start <= end <= old(dst).len(),
    ensures
        final(dst)@.len() == old(dst)@.len(),
        forall|i: int|
            #![trigger final(dst)@[i]]
            start <= i < start + spec_padded_len(src@.len() as int, end - start)
                ==> final(dst)@[i] == src@[i - start],
        forall|i: int|
            #![trigger final(dst)@[i]]
            0 <= i < old(dst)@.len() && !(start <= i < start + spec_padded_len(
                src@.len() as int,
                end - start,
            )) ==> final(dst)@[i] == old(dst)@[i],
{
    let field = end - start;
    let cap = if field >= 1 {
        field - 1
    } else {
        0
    };
    let n = if src.len() <= cap {
        src.len()
    } else {
        cap
    };
    let mut j: usize = 0;
    while j < n
        invariant
            j <= n,
            n == spec_padded_len(src@.len() as int, end - start),
            n <= src@.len(),
            start + n <= dst.len(),
            start <= end <= dst.len(),
            dst@.len() == old(dst)@.len(),
            forall|i: int|
                #![trigger dst@[i]]
                start <= i < start + j ==> dst@[i] == src@[i - start],
            forall|i: int|
                #![trigger dst@[i]]
                0 <= i < dst@.len() && !(start <= i < start + j) ==> dst@[i] == old(dst)@[i],
        decreases n - j,
    {
        dst[start + j] = src[j];
        j += 1;
    }
}

/// Builds the 4376-byte registration frame for a device identity: tag
/// 11, the zero-padded name, the fixed location string, the identity
/// and descriptor-size fields, and the capability descriptor, with the
/// rest of the payload zero.
pub fn build_create2_event(cfg: &HidConfig) -> (r: Vec<u8>)
    ensures
        r@.len() == CREATE2_EVENT_LEN,
        forall|i: int|
            0 <= i < CREATE2_EVENT_LEN ==> r@[i] == spec_create2_event_byte(
                cfg.device.name@,
                cfg.device.vendor_id,
                cfg.device.product_id,
                i,
            ),
{
    let mut event = zeroed(CREATE2_EVENT_LEN);
    let tag = u32_le_vec(UHID_CREATE2);
    store_bytes(&mut event, 0, &tag);
    write_padded(&mut event, 4 + OFF_NAME, 4 + OFF_PHYS, &cfg.device.name);
    let phys = phys_bytes();
    write_padded(&mut event, 4 + OFF_PHYS, 4 + OFF_UNIQ, &phys);
    proof {
        assert(92u16 & 0xff == 92 && (92u16 >> 8) & 0xff == 0) by (bit_vector);
        assert(5u16 & 0xff == 5 && (5u16 >> 8) & 0xff == 0) by (bit_vector);
    }
    let mut size_field: Vec<u8> = Vec::new();
    size_field.push(92u8);
    size_field.push(0u8);
    store_bytes(&mut event, 4 + OFF_RD_SIZE, &size_field);
    let mut bus_field: Vec<u8> = Vec::new();
    bus_field.push(5u8);
    bus_field.push(0u8);
    store_bytes(&mut event, 4 + OFF_BUS, &bus_field);
    let vendor = u32_le_vec(cfg.device.vendor_id as u32);
    store_bytes(&mut event, 4 + OFF_VENDOR, &vendor);
    let product = u32_le_vec(cfg.device.product_id as u32);
    store_bytes(&mut event, 4 + OFF_PRODUCT, &product);
    let version = u32_le_vec(1);
    store_bytes(&mut event, 4 + OFF_VERSION, &version);
    let country = u32_le_vec(0);
    store_bytes(&mut event, 4 + OFF_COUNTRY, &country);
    let desc = hid_report_descriptor();
    let ghost before_desc = event@;
    let mut k: usize = 0;
    while k < DESCRIPTOR_LEN
        invariant
            k <= DESCRIPTOR_LEN,
            event@.len() == CREATE2_EVENT_LEN,
            desc@ == spec_descriptor(),
            forall|i: int|
                #![trigger event@[i]]
                4 + OFF_RD_DATA <= i < 4 + OFF_RD_DATA + k ==> event@[i] == spec_descriptor()[i - 4
                    - OFF_RD_DATA],
            forall|i: int|
                #![trigger event@[i]]
                0 <= i < CREATE2_EVENT_LEN && !(4 + OFF_RD_DATA <= i < 4 + OFF_RD_DATA + k)
                    ==> event@[i] == before_desc[i],
        decreases DESCRIPTOR_LEN - k,
    {
        event[4 + OFF_RD_DATA + k] = desc[k];
        k += 1;
    }
    proof {
        let name = cfg.device.name@;
        let vid = cfg.device.vendor_id;
        let pid = cfg.device.product_id;
        let n = spec_padded_len(name.len() as int, 128);
        assert(0 <= n <= 127);
        assert forall|i: int| 0 <= i < 4 implies event@[i] == spec_u32_le(UHID_CREATE2)[i] by {}
        assert forall|i: int| 4 <= i < 4 + n implies event@[i] == name[i - 4] by {}
        assert forall|i: int| 4 + n <= i < 132 implies event@[i] == 0 by {}
        assert forall|i: int| 132 <= i < 141 implies event@[i] == spec_phys_bytes()[i - 132] by {}
        assert forall|i: int| 141 <= i < 260 implies event@[i] == 0 by {}
        assert(event@[260] == 92 && event@[261] == 0);
        assert(event@[262] == 5 && event@[263] == 0);
        assert forall|i: int| 264 <= i < 268 implies event@[i] == spec_u32_le(vid as u32)[i - 264]
            by {}
        assert forall|i: int| 268 <= i < 272 implies event@[i] == spec_u32_le(pid as u32)[i - 268]
            by {}
        assert forall|i: int| 272 <= i < 276 implies event@[i] == spec_u32_le(1)[i - 272] by {}
        assert forall|i: int| 276 <= i < 280 implies event@[i] == spec_u32_le(0)[i - 276] by {}
        assert forall|i: int| 280 <= i < 372 implies event@[i] == spec_descriptor()[i - 280] by {}
        assert forall|i: int| 372 <= i < 4376 implies event@[i] == 0 by {}
        assert forall|i: int| 0 <= i < CREATE2_EVENT_LEN implies event@[i]
            == spec_create2_event_byte(name, vid, pid, i) by {
            if 4 <= i < 132 {
                assert(spec_create2_event_byte(name, vid, pid, i)
                    == spec_create2_payload_byte(name, vid, pid, i - 4));
            }
        }
    }
    event
}

/// Whether a teardown with the device in state `created` emits a
/// frame: only a registered device has anything to tear down.
pub open spec fn spec_destroy_emits(created: bool) -> bool {
    created
}

/// The state after a teardown attempt: always torn down, whatever the
/// write outcome, so a second attempt writes nothing.
pub open spec fn spec_destroy_next(created: bool) -> bool {
    false
}

/// The registered/torn-down half of the device lifecycle. Opening and
/// writing the device file happen outside the crate; the caller feeds
/// write outcomes back in through `note_create_written`.
#[derive(Debug, Clone, Copy, PartialEq, Eq, Structural)]
pub struct UhidDevice {
    pub created: bool,
}

impl UhidDevice {
    /// A freshly opened, not yet registered device.
    pub fn new() -> (d: Self)
        ensures
            !d.created,
    {
        UhidDevice { created: false }
    }

    /// The registration frame for this device; writing it is the
    /// caller's job and changes no state here.
    pub fn create_event(&self, cfg: &HidConfig) -> (r: Vec<u8>)
        ensures
            r@.len() == CREATE2_EVENT_LEN,
            forall|i: int|
                0 <= i < CREATE2_EVENT_LEN ==> r@[i] == spec_create2_event_byte(
                    cfg.device.name@,
                    cfg.device.vendor_id,
                    cfg.device.product_id,
                    i,
                ),
    {
        build_create2_event(cfg)
    }

    /// Records the outcome of writing the registration frame: the
    /// device counts as registered exactly when the write succeeded
    /// (or it already was).
    pub fn note_create_written(&mut self, ok: bool)
        ensures
            final(self).created == (old(self).created || ok),
    {
        if ok {
            self.created = true;
        }
    }

    /// The report frame for a payload, or `ReportTooLarge` — without
    /// any frame to write — when the payload exceeds 4096 bytes. Only
    /// a registered device may send reports.
    pub fn input_report_event(&self, report: &Vec<u8>) -> (r: Result<Vec<u8>, TransportError>)
        requires
            self.created,
        ensures
            report@.len() > MAX_REPORT_LEN ==> r == Err::<Vec<u8>, TransportError>(
                TransportError::ReportTooLarge,
            ),
            report@.len() <= MAX_REPORT_LEN ==> (match r {
                Ok(frame) => frame@ == spec_input2_event(report@),
                Err(_) => false,
            }),
    {
        if report.len() > MAX_REPORT_LEN {
            return Err(TransportError::ReportTooLarge);
        }
        let mut event = u32_le_vec(UHID_INPUT2);
        let len16 = report.len() as u16;
        proof {
            assert((len16 & 0xff) < 256 && ((len16 >> 8) & 0xff) < 256) by (bit_vector);
        }
        event.push((len16 & 0xff) as u8);
        event.push(((len16 >> 8) & 0xff) as u8);
        let mut j: usize = 0;
        while j < report.len()
            invariant
                j <= report@.len(),
                event@ == spec_u32_le(UHID_INPUT2) + spec_u16_le(report@.len() as u16)
                    + report@.subrange(0, j as int),
            decreases report@.len() - j,
        {
            event.push(report[j]);
            proof {
                assert(report@.subrange(0, j + 1) =~= report@.subrange(0, j as int).push(
                    report@[j as int],
                ));
                assert(event@ =~= spec_u32_le(UHID_INPUT2) + spec_u16_le(report@.len() as u16)
                    + report@.subrange(0, j + 1));
            }
            j += 1;
        }
        proof {
            assert(report@.subrange(0, report@.len() as int) =~= report@);
            assert(event@ =~= spec_input2_event(report@));
            assert(event@ == spec_u32_le(UHID_INPUT2) + spec_u16_le(report@.len() as u16)
                + report@.subrange(0, report@.len() as int));
        }
        Ok(event)
    }

    /// Tears the device down: emits the 4-byte teardown frame on the
    /// first call and marks the device torn down whatever happens to
    /// the write; any later call is a frameless no-op.
    pub fn destroy_event(&mut self) -> (r: Option<Vec<u8>>)
        ensures
            final(self).created == spec_destroy_next(old(self).created),
            r is Some <==> spec_destroy_emits(old(self).created),
            match r {
                Some(frame) => frame@ == spec_u32_le(UHID_DESTROY),
                None => true,
            },
    {
        if !self.created {
            return None;
        }
        self.created = false;
        Some(u32_le_vec(UHID_DESTROY))
    }
}

/// A teardown is idempotent: after one attempt the device is torn
/// down, and a second attempt emits no frame, whatever state the
/// device started in.
pub proof fn lemma_teardown_idempotent(created: bool)
    ensures
        !spec_destroy_emits(spec_destroy_next(created)),
        !spec_destroy_next(spec_destroy_next(created)),
{
}

/// Shape of the registration frame: its descriptor-size field holds
/// 92 and its payload bytes 276..368 (frame bytes 280..372) are
/// exactly the capability descriptor, for every identity.
pub proof fn lemma_create2_event_carries_descriptor(name: Seq<u8>, vendor_id: u16, product_id: u16)
    ensures
        forall|i: int|
            0 <= i < DESCRIPTOR_LEN ==> spec_create2_event_byte(name, vendor_id, product_id, 4
                + OFF_RD_DATA + i) == spec_descriptor()[i],
        spec_create2_event_byte(name, vendor_id, product_id, 4 + OFF_RD_SIZE) == 92,
        spec_create2_event_byte(name, vendor_id, product_id, 4 + OFF_RD_SIZE + 1) == 0,
{
    assert(92u16 & 0xff == 92 && (92u16 >> 8) & 0xff == 0) by (bit_vector);
    assert forall|i: int|
        0 <= i < DESCRIPTOR_LEN implies spec_create2_event_byte(name, vendor_id, product_id, 4
        + OFF_RD_DATA + i) == spec_descriptor()[i] by {
        assert(spec_create2_event_byte(name, vendor_id, product_id, 4 + OFF_RD_DATA + i)
            == spec_create2_payload_byte(name, vendor_id, product_id, OFF_RD_DATA + i));
    }
}

} // verus!
