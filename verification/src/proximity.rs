//! Decoder for the proximity-pairing frames that wireless-earbud accessories
//! broadcast inside BLE advertisement manufacturer data: frame classification,
//! the paired-frame and pairing-frame field extraction, and the similarity
//! heuristic that decides whether two decoded records describe the same
//! physical device.

use vstd::prelude::*;

verus! {

/// The BLE manufacturer identifier under which the protocol's frames travel.
pub const AIRPODS_MANUFACTURER: u16 = 76;
/// Byte 0 of every frame of this protocol family.
pub const PROXIMITY_PROTOCOL: u8 = 0x07;
/// Byte 2 of a pairing-mode frame.
pub const PAIRING_MODE_BYTE: u8 = 0x00;
/// Byte 2 of a paired-mode frame.
pub const PAIRED_MODE_BYTE: u8 = 0x01;
/// Byte 1 of a pairing-mode frame: the declared inner length.
pub const PAIRING_INNER_LENGTH: u8 = 15;
/// Byte 1 of a paired-mode frame: the declared inner length.
pub const PAIRED_INNER_LENGTH: u8 = 25;
/// Total payload length of a pairing-mode frame.
pub const PAIRING_FRAME_LENGTH: usize = 17;
/// Total payload length of a paired-mode frame.
pub const PAIRED_FRAME_LENGTH: usize = 27;

/// Which physical unit a paired frame speaks for.
#[derive(Debug, Clone, Copy, PartialEq, Eq, Structural)]
pub enum Part {
    LeftEarPlug,
    RightEarPlug,
    Headphones,
}

/// How many units are placed somewhere (in an ear, in the case).
#[derive(Debug, Clone, Copy, PartialEq, Eq, Structural)]
pub enum Plugged {
    Single,
    Both,
    Neither,
}

/// A battery reading: a level in tenths (0 to 10 meaningful), or absent.
/// The raw nibble 15 is the wire format's sentinel for "no battery here".
#[derive(Debug, Clone, Copy, PartialEq, Eq, Structural)]
pub enum Battery {
    Level(u8),
    Absent,
}

/// What `Battery::from_u8` returns: the sentinel nibble 15 means absent,
/// every other value is a level.
pub open spec fn spec_battery_from(value: u8) -> Battery {
    if value == 15 {
        Battery::Absent
    } else {
        Battery::Level(value)
    }
}

impl Battery {
    pub fn from_u8(value: u8) -> (r: Battery)
        ensures
            r == spec_battery_from(value),
    {
        if value == 15 {
            Battery::Absent
        } else {
            Battery::Level(value)
        }
    }
}

/// Lid state of the charging case, folded together with a 3-bit rolling
/// count of lid events.
#[derive(Debug, Clone, Copy, PartialEq, Eq, Structural)]
pub enum Lid {
    Open(u8),
    Closed(u8),
}

/// What `Lid::from_u8` returns: the low 3 bits are the event counter,
/// bit 3 clear means the lid is open.
pub open spec fn spec_lid_from(value: u8) -> Lid {
    if value & 0x08 == 0 {
        Lid::Open(value & 0x07)
    } else {
        Lid::Closed(value & 0x07)
    }
}

impl Lid {
    pub fn from_u8(value: u8) -> (r: Lid)
        ensures
            r == spec_lid_from(value),
    {
        let lid_count = value & 0x07;  // low 3 bits: rolling lid-event counter
        let lid_open_event = value & 0x08 == 0;  // bit 3: closed flag
        match lid_open_event {
            true => Lid::Open(lid_count),
            false => Lid::Closed(lid_count),
        }
    }
}

/// The accessory model, decoded from a 16-bit big-endian code, with a
/// tagged fallback for codes not in the table.
#[derive(Debug, Clone, Copy, PartialEq, Eq, Structural)]
pub enum Model {
    AirPods1,
    AirPods2,
    AirPods3,
    AirPodsPro,
    AirPodsPro2,
    AirPodsMax,
    PowerbeatsPro,
    BeatsX,
    BeatsFlex,
    BeatsSolo3,
    BeatsStudio3,
    PowerBeats3,
    BeatsStudioBuds,
    BeatsSoloPro,
    Unknown(u16),
}

/// The 16-bit model code carried big-endian in two payload bytes.
pub open spec fn spec_model_code(hi: u8, lo: u8) -> u16 {
    ((hi as u16) * 256 + (lo as u16)) as u16
}

/// The model table: every known code, and `Unknown` for the rest,
/// so the lookup is total over all 16-bit codes.
pub open spec fn spec_model_from_code(code: u16) -> Model {
    match code {
        0x0220 => Model::AirPods1,
        0x0f20 => Model::AirPods2,
        0x1320 => Model::AirPods3,
        0x0e20 => Model::AirPodsPro,
        0x1420 => Model::AirPodsPro2,
        0x0a20 => Model::AirPodsMax,
        0x0b20 => Model::PowerbeatsPro,
        0x0520 => Model::BeatsX,
        0x1020 => Model::BeatsFlex,
        0x1120 => Model::BeatsStudioBuds,
        0x0620 => Model::BeatsSolo3,
        0x0920 => Model::BeatsStudio3,
        0x0320 => Model::PowerBeats3,
        0x0c20 => Model::BeatsSoloPro,
        _ => Model::Unknown(code),
    }
}

/// Models that are a single physical body (over-ear or single-unit
/// accessories) rather than a left/right pair of earbuds.
pub open spec fn spec_is_single_device(m: Model) -> bool {
    match m {
        Model::AirPodsMax => true,
        Model::BeatsFlex => true,
        Model::BeatsSolo3 => true,
        Model::BeatsX => true,
        Model::BeatsStudio3 => true,
        Model::PowerbeatsPro => true,
        _ => false,
    }
}

impl Model {
    pub fn from_bytes(bytes: [u8; 2]) -> (r: Model)
        ensures
            r == spec_model_from_code(spec_model_code(bytes[0], bytes[1])),
    {
        let code: u16 = (bytes[0] as u16) * 256 + (bytes[1] as u16);
        match code {
            0x0220 => Model::AirPods1,
            0x0f20 => Model::AirPods2,
            0x1320 => Model::AirPods3,
            0x0e20 => Model::AirPodsPro,
            0x1420 => Model::AirPodsPro2,
            0x0a20 => Model::AirPodsMax,
            0x0b20 => Model::PowerbeatsPro,
            0x0520 => Model::BeatsX,
            0x1020 => Model::BeatsFlex,
            0x1120 => Model::BeatsStudioBuds,
            0x0620 => Model::BeatsSolo3,
            0x0920 => Model::BeatsStudio3,
            0x0320 => Model::PowerBeats3,
            0x0c20 => Model::BeatsSoloPro,
            id => Model::Unknown(id),
        }
    }

    pub fn is_single_device(&self) -> (r: bool)
        ensures
            r == spec_is_single_device(*self),
    {
        match self {
            Model::AirPodsMax => true,
            Model::BeatsFlex => true,
            Model::BeatsSolo3 => true,
            Model::BeatsX => true,
            Model::BeatsStudio3 => true,
            Model::PowerbeatsPro => true,
            _ => false,
        }
    }
}

/// The accessory color, decoded from one byte, with a tagged fallback
/// for bytes not in the table.
#[derive(Debug, Clone, Copy, PartialEq, Eq, Structural)]
pub enum Color {
    White,
    Black,
    Red,
    Blue,
    Pink,
    Gray,
    Silver,
    Gold,
    RoseGold,
    SpaceGray,
    DarkBlue,
    LightBlue,
    Yellow,
    Unknown(u8),
}

/// The color table: every known byte, and `Unknown` for the rest,
/// so the lookup is total over all byte values.
pub open spec fn spec_color_from(value: u8) -> Color {
    match value {
        0x00 => Color::White,
        0x01 => Color::Black,
        0x02 => Color::Red,
        0x03 => Color::Blue,
        0x04 => Color::Pink,
        0x05 => Color::Gray,
        0x06 => Color::Silver,
        0x07 => Color::Gold,
        0x08 => Color::RoseGold,
        0x09 => Color::SpaceGray,
        0x0a => Color::DarkBlue,
        0x0b => Color::LightBlue,
        0x0c => Color::Yellow,
        _ => Color::Unknown(value),
    }
}

impl Color {
    pub fn from_u8(value: u8) -> (r: Color)
        ensures
            r == spec_color_from(value),
    {
        match value {
            0x00 => Color::White,
            0x01 => Color::Black,
            0x02 => Color::Red,
            0x03 => Color::Blue,
            0x04 => Color::Pink,
            0x05 => Color::Gray,
            0x06 => Color::Silver,
            0x07 => Color::Gold,
            0x08 => Color::RoseGold,
            0x09 => Color::SpaceGray,
            0x0a => Color::DarkBlue,
            0x0b => Color::LightBlue,
            0x0c => Color::Yellow,
            id => Color::Unknown(id),
        }
    }
}

// Placement, part and orientation flags, all in byte 5 of a paired frame.
/// Bit 1 of byte 5: at least one unit is in an ear.
pub const MASK_ONE_OR_BOTH_IN_EAR: u8 = 0x02;
/// Bit 2 of byte 5: at least one unit is in the case.
pub const MASK_ONE_OR_BOTH_IN_CASE: u8 = 0x04;
/// Bit 3 of byte 5: both units are in ears.
pub const MASK_BOTH_IN_EAR: u8 = 0x08;
/// Bit 4 of byte 5: both units are in the case.
pub const MASK_BOTH_IN_CASE: u8 = 0x10;
/// Bit 5 of byte 5: the reporting unit is the left one (clear: the right one).
pub const MASK_PART_IS_LEFT: u8 = 0x20;
/// Bit 6 of byte 5: left/right telemetry was reported in reversed order.
pub const MASK_FLIPPED: u8 = 0x40;

// Charging flags, in the high nibble of byte 7 of a paired frame.
/// Bit 4 of byte 7: the right unit is charging.
pub const MASK_RIGHT_CHARGING: u8 = 0x10;
/// Bit 5 of byte 7: the left unit is charging.
pub const MASK_LEFT_CHARGING: u8 = 0x20;
/// Bit 6 of byte 7: the case is charging.
pub const MASK_CASE_CHARGING: u8 = 0x40;

/// Whether every bit of `mask` is set in `b` (used with single-bit masks).
pub open spec fn spec_bit_set(b: u8, mask: u8) -> bool {
    b & mask != 0
}

/// The low 4 bits of a byte.
pub open spec fn spec_low_nibble(b: u8) -> u8 {
    b & 0x0f
}

/// The high 4 bits of a byte, shifted down.
pub open spec fn spec_high_nibble(b: u8) -> u8 {
    (b >> 4) & 0x0f
}

/// How the two placement bits for one location resolve to a `Plugged` state.
pub open spec fn spec_plugged(both: bool, one_or_both: bool) -> Plugged {
    if both && one_or_both {
        Plugged::Both
    } else if one_or_both {
        Plugged::Single
    } else {
        Plugged::Neither
    }
}

/// Full telemetry decoded from one paired-mode frame.
#[derive(Debug, Clone, Copy, PartialEq, Eq, Structural)]
pub struct PairedMessage {
    pub model: Model,
    pub lid: Lid,
    pub color: Color,
    pub case_battery_level: Battery,
    pub left_battery_level: Battery,
    pub right_battery_level: Battery,
    pub case_charging: bool,
    pub right_charging: bool,
    pub left_charging: bool,
    pub plugged_in_ear: Plugged,
    pub plugged_in_case: Plugged,
    pub part: Part,
}

/// The full field extraction for a length-validated paired frame,
/// including the orientation-flip swap of left/right battery and charging.
pub open spec fn spec_decode_paired(bytes: Seq<u8>) -> PairedMessage
    recommends
        bytes.len() == PAIRED_FRAME_LENGTH,
{
    let model = spec_model_from_code(spec_model_code(bytes[3], bytes[4]));
    let flipped = spec_bit_set(bytes[5], MASK_FLIPPED);
    let straight_left_battery = spec_battery_from(spec_high_nibble(bytes[6]));
    let straight_right_battery = spec_battery_from(spec_low_nibble(bytes[6]));
    let straight_left_charging = spec_bit_set(bytes[7], MASK_LEFT_CHARGING);
    let straight_right_charging = spec_bit_set(bytes[7], MASK_RIGHT_CHARGING);
    PairedMessage {
        model,
        lid: spec_lid_from(bytes[8]),
        color: spec_color_from(bytes[9]),
        case_battery_level: spec_battery_from(spec_low_nibble(bytes[7])),
        left_battery_level: if flipped {
            straight_right_battery
        } else {
            straight_left_battery
        },
        right_battery_level: if flipped {
            straight_left_battery
        } else {
            straight_right_battery
        },
        case_charging: spec_bit_set(bytes[7], MASK_CASE_CHARGING),
        right_charging: if flipped {
            straight_left_charging
        } else {
            straight_right_charging
        },
        left_charging: if flipped {
            straight_right_charging
        } else {
            straight_left_charging
        },
        plugged_in_ear: spec_plugged(
            spec_bit_set(bytes[5], MASK_BOTH_IN_EAR),
            spec_bit_set(bytes[5], MASK_ONE_OR_BOTH_IN_EAR),
        ),
        plugged_in_case: spec_plugged(
            spec_bit_set(bytes[5], MASK_BOTH_IN_CASE),
            spec_bit_set(bytes[5], MASK_ONE_OR_BOTH_IN_CASE),
        ),
        part: if spec_is_single_device(model) {
            Part::Headphones
        } else if spec_bit_set(bytes[5], MASK_PART_IS_LEFT) {
            Part::LeftEarPlug
        } else {
            Part::RightEarPlug
        },
    }
}

impl PairedMessage {
    /// Decode a paired-mode frame. Callable only on a payload the classifier
    /// has already validated to the exact paired-frame length.
    pub fn from_bytes(bytes: &Vec<u8>) -> (r: PairedMessage)
        requires
            bytes@.len() == PAIRED_FRAME_LENGTH,
        ensures
            r == spec_decode_paired(bytes@),
    {
        let device_model = Model::from_bytes([bytes[3], bytes[4]]);
        let device_color = Color::from_u8(bytes[9]);
        let lid = Lid::from_u8(bytes[8]);
        let left_battery_level = Battery::from_u8((bytes[6] >> 4) & 0x0f);
        let right_battery_level = Battery::from_u8(bytes[6] & 0x0f);
        let case_battery_level = Battery::from_u8(bytes[7] & 0x0f);
        let right_charging = bytes[7] & MASK_RIGHT_CHARGING != 0;
        let left_charging = bytes[7] & MASK_LEFT_CHARGING != 0;
        let case_charging = bytes[7] & MASK_CASE_CHARGING != 0;
        let one_or_both_in_ear = bytes[5] & MASK_ONE_OR_BOTH_IN_EAR != 0;
        let one_or_both_in_case = bytes[5] & MASK_ONE_OR_BOTH_IN_CASE != 0;
        let both_in_ear = bytes[5] & MASK_BOTH_IN_EAR != 0;
        let both_in_case = bytes[5] & MASK_BOTH_IN_CASE != 0;

        let plugged_in_ear = match (both_in_ear, one_or_both_in_ear) {
            (false, true) => Plugged::Single,
            (true, true) => Plugged::Both,
            _ => Plugged::Neither,
        };

        let plugged_in_case = match (both_in_case, one_or_both_in_case) {
            (false, true) => Plugged::Single,
            (true, true) => Plugged::Both,
            _ => Plugged::Neither,
        };

        let part = match bytes[5] & MASK_PART_IS_LEFT != 0 {
            _ if device_model.is_single_device() => Part::Headphones,
            false => Part::RightEarPlug,
            true => Part::LeftEarPlug,
        };
        let flipped = bytes[5] & MASK_FLIPPED != 0;

        let mut msg = PairedMessage {
            model: device_model,
            lid,
            color: device_color,
            left_battery_level,
            right_battery_level,
            case_battery_level,
            right_charging,
            left_charging,
            case_charging,
            plugged_in_case,
            plugged_in_ear,
            part,
        };
        if flipped {
            msg.left_battery_level = right_battery_level;
            msg.right_battery_level = left_battery_level;
            msg.left_charging = right_charging;
            msg.right_charging = left_charging;
        }
        msg
    }
}

/// How many of the nine volatile field pairs (three charging flags, three
/// battery levels, lid, and the two placement states) agree between two
/// paired records.
pub open spec fn spec_match_count(a: PairedMessage, b: PairedMessage) -> int {
    (if a.left_charging == b.left_charging { 1int } else { 0int })
    + (if a.right_charging == b.right_charging { 1int } else { 0int })
    + (if a.case_charging == b.case_charging { 1int } else { 0int })
    + (if a.case_battery_level == b.case_battery_level { 1int } else { 0int })
    + (if a.left_battery_level == b.left_battery_level { 1int } else { 0int })
    + (if a.right_battery_level == b.right_battery_level { 1int } else { 0int })
    + (if a.lid == b.lid { 1int } else { 0int })
    + (if a.plugged_in_case == b.plugged_in_case { 1int } else { 0int })
    + (if a.plugged_in_ear == b.plugged_in_ear { 1int } else { 0int })
}

/// The similarity heuristic: model, color and part are hard identity keys;
/// given those match, at most three of the nine volatile fields may differ.
pub open spec fn spec_same_device(a: PairedMessage, b: PairedMessage) -> bool {
    &&& a.model == b.model
    &&& a.color == b.color
    &&& a.part == b.part
    &&& spec_match_count(a, b) >= 6
}

impl PairedMessage {
    /// Decide whether `self` and `other` describe the same physical device.
    #[verifier::rlimit(50)]
    pub fn cmp(&self, other: &PairedMessage) -> (r: bool)
        ensures
            r == spec_same_device(*self, *other),
    {
        if self.model != other.model || self.color != other.color || self.part != other.part {
            false
        } else {
            let mut characteristic_count: u32 = 0;
            if self.left_charging == other.left_charging {
                characteristic_count += 1;
            }
            if self.right_charging == other.right_charging {
                characteristic_count += 1;
            }
            if self.case_charging == other.case_charging {
                characteristic_count += 1;
            }
            if self.case_battery_level == other.case_battery_level {
                characteristic_count += 1;
            }
            if self.left_battery_level == other.left_battery_level {
                characteristic_count += 1;
            }
            if self.right_battery_level == other.right_battery_level {
                characteristic_count += 1;
            }
            if self.lid == other.lid {
                characteristic_count += 1;
            }
            if self.plugged_in_case == other.plugged_in_case {
                characteristic_count += 1;
            }
            if self.plugged_in_ear == other.plugged_in_ear {
                characteristic_count += 1;
            }
            characteristic_count >= 6  // at most 3 volatile fields changed
        }
    }
}

/// Identity-only record decoded from one pairing-mode frame, which carries
/// no battery or lid telemetry.
pub struct PairingMessage {
    pub device_model: Model,
    pub device_color: Color,
    pub address: [u8; 6],
}

/// The field extraction for a length-validated pairing frame: model code,
/// the 6 raw address bytes, and the color byte at the tail.
pub open spec fn spec_pairing_fields(m: PairingMessage, bytes: Seq<u8>) -> bool
    recommends
        bytes.len() == PAIRING_FRAME_LENGTH,
{
    &&& m.device_model == spec_model_from_code(spec_model_code(bytes[3], bytes[4]))
    &&& m.device_color == spec_color_from(bytes[16])
    &&& m.address@ == bytes.subrange(5, 11)
}

impl PairingMessage {
    /// Decode a pairing-mode frame. Callable only on a payload the classifier
    /// has already validated to the exact pairing-frame length.
    pub fn from_bytes(bytes: &Vec<u8>) -> (r: PairingMessage)
        requires
            bytes@.len() == PAIRING_FRAME_LENGTH,
        ensures
            spec_pairing_fields(r, bytes@),
    {
        let device_model = Model::from_bytes([bytes[3], bytes[4]]);
        let address: [u8; 6] = [bytes[5], bytes[6], bytes[7], bytes[8], bytes[9], bytes[10]];
        let device_color = Color::from_u8(bytes[16]);
        proof {
            assert(address@ =~= bytes@.subrange(5, 11));
        }
        PairingMessage { device_model, device_color, address }
    }
}

/// The classifier's output: a pairing-mode identity record or a paired-mode
/// telemetry record.
pub enum ProximityEvent {
    Pairing(PairingMessage),
    Paired(PairedMessage),
}

/// A payload that passes every paired-mode gate: the protocol byte, the
/// paired mode byte, the exact total length and the declared inner length.
pub open spec fn spec_is_paired_frame(p: Seq<u8>) -> bool {
    &&& p.len() == PAIRED_FRAME_LENGTH
    &&& p[0] == PROXIMITY_PROTOCOL
    &&& p[1] == PAIRED_INNER_LENGTH
    &&& p[2] == PAIRED_MODE_BYTE
}

/// A payload that passes every pairing-mode gate.
pub open spec fn spec_is_pairing_frame(p: Seq<u8>) -> bool {
    &&& p.len() == PAIRING_FRAME_LENGTH
    &&& p[0] == PROXIMITY_PROTOCOL
    &&& p[1] == PAIRING_INNER_LENGTH
    &&& p[2] == PAIRING_MODE_BYTE
}

/// What classification owes for one manufacturer payload: a fully decoded
/// event for a well-formed frame of either mode, and silence for anything
/// else.
pub open spec fn spec_classified(p: Seq<u8>, r: Option<ProximityEvent>) -> bool {
    if spec_is_paired_frame(p) {
        r matches Some(ProximityEvent::Paired(m)) && m == spec_decode_paired(p)
    } else if spec_is_pairing_frame(p) {
        r matches Some(ProximityEvent::Pairing(m)) && spec_pairing_fields(m, p)
    } else {
        r is None
    }
}

impl ProximityEvent {
    /// Classify one advertisement's manufacturer data: look up the fixed
    /// manufacturer identifier, validate the protocol markers and the exact
    /// frame length, and decode. Every failure is an absence, never an error.
    pub fn from_manufacturer_data(data: std::collections::HashMap<u16, Vec<u8>>) -> (r: Option<
        ProximityEvent,
    >)
        ensures
            data@.contains_key(AIRPODS_MANUFACTURER) ==> spec_classified(
                data@[AIRPODS_MANUFACTURER]@,
                r,
            ),
            !data@.contains_key(AIRPODS_MANUFACTURER) ==> r is None,
    {
        if let Some(manufacturer_data) = data.get(&AIRPODS_MANUFACTURER) {
            if manufacturer_data.len() > 3 && manufacturer_data[0] == PROXIMITY_PROTOCOL {
                match manufacturer_data[2] {
                    PAIRED_MODE_BYTE if (manufacturer_data.len() == PAIRED_FRAME_LENGTH
                        && manufacturer_data[1] == PAIRED_INNER_LENGTH) => {
                        Some(ProximityEvent::Paired(PairedMessage::from_bytes(manufacturer_data)))
                    },
                    PAIRING_MODE_BYTE if (manufacturer_data.len() == PAIRING_FRAME_LENGTH
                        && manufacturer_data[1] == PAIRING_INNER_LENGTH) => {
                        Some(ProximityEvent::Pairing(PairingMessage::from_bytes(manufacturer_data)))
                    },
                    _ => None,
                }
            } else {
                None
            }
        } else {
            None
        }
    }
}

/// A payload that is shorter than 4 bytes, or whose first byte is not the
/// protocol identifier, is never classified as an event.
pub proof fn lemma_non_protocol_rejected(p: Seq<u8>, r: Option<ProximityEvent>)
    requires
        spec_classified(p, r),
        p.len() < 4 || p[0] != PROXIMITY_PROTOCOL,
    ensures
        r is None,
{
}

/// A payload carrying the paired mode byte but the wrong total length or the
/// wrong declared inner length is never classified as an event, in
/// particular never as a paired one.
pub proof fn lemma_malformed_paired_rejected(p: Seq<u8>, r: Option<ProximityEvent>)
    requires
        spec_classified(p, r),
        p.len() > 2,
        p[2] == PAIRED_MODE_BYTE,
        p.len() != PAIRED_FRAME_LENGTH || p[1] != PAIRED_INNER_LENGTH,
    ensures
        r is None,
{
}

/// The battery sentinel rule, independent of position: nibble 15 decodes to
/// absent, and every other nibble to its own level.
pub proof fn lemma_battery_sentinel()
    ensures
        forall|v: u8| (#[trigger] spec_battery_from(v)) is Absent <==> v == 15,
        forall|v: u8| v != 15 ==> #[trigger] spec_battery_from(v) == Battery::Level(v),
{
}

/// The similarity heuristic is reflexive: every record describes the same
/// device as itself.
pub proof fn lemma_same_device_reflexive(x: PairedMessage)
    ensures
        spec_same_device(x, x),
{
}

/// The similarity heuristic is symmetric: the order of the two records never
/// changes the verdict.
pub proof fn lemma_same_device_symmetric(a: PairedMessage, b: PairedMessage)
    ensures
        spec_same_device(a, b) == spec_same_device(b, a),
{
}

/// Toggling the orientation-flip bit (bit 6 of byte 5) of a paired frame
/// swaps exactly the left/right battery levels and the left/right charging
/// flags; every other decoded field, placement and part included, stays the
/// same.
pub proof fn lemma_flip_bit_swaps(b1: Seq<u8>, b2: Seq<u8>)
    requires
        b1.len() == PAIRED_FRAME_LENGTH,
        b2.len() == PAIRED_FRAME_LENGTH,
        forall|i: int| 0 <= i < PAIRED_FRAME_LENGTH && i != 5 ==> b1[i] == b2[i],
        b2[5] == b1[5] ^ MASK_FLIPPED,
    ensures
        spec_decode_paired(b2).left_battery_level == spec_decode_paired(b1).right_battery_level,
        spec_decode_paired(b2).right_battery_level == spec_decode_paired(b1).left_battery_level,
        spec_decode_paired(b2).left_charging == spec_decode_paired(b1).right_charging,
        spec_decode_paired(b2).right_charging == spec_decode_paired(b1).left_charging,
        spec_decode_paired(b2).model == spec_decode_paired(b1).model,
        spec_decode_paired(b2).lid == spec_decode_paired(b1).lid,
        spec_decode_paired(b2).color == spec_decode_paired(b1).color,
        spec_decode_paired(b2).case_battery_level == spec_decode_paired(b1).case_battery_level,
        spec_decode_paired(b2).case_charging == spec_decode_paired(b1).case_charging,
        spec_decode_paired(b2).plugged_in_ear == spec_decode_paired(b1).plugged_in_ear,
        spec_decode_paired(b2).plugged_in_case == spec_decode_paired(b1).plugged_in_case,
        spec_decode_paired(b2).part == spec_decode_paired(b1).part,
{
    let x = b1[5];
    let y = b2[5];
    assert((y & MASK_FLIPPED != 0) == !(x & MASK_FLIPPED != 0)
        && (y & MASK_ONE_OR_BOTH_IN_EAR != 0) == (x & MASK_ONE_OR_BOTH_IN_EAR != 0)
        && (y & MASK_ONE_OR_BOTH_IN_CASE != 0) == (x & MASK_ONE_OR_BOTH_IN_CASE != 0)
        && (y & MASK_BOTH_IN_EAR != 0) == (x & MASK_BOTH_IN_EAR != 0)
        && (y & MASK_BOTH_IN_CASE != 0) == (x & MASK_BOTH_IN_CASE != 0)
        && (y & MASK_PART_IS_LEFT != 0) == (x & MASK_PART_IS_LEFT != 0)) by (bit_vector)
        requires
            y == x ^ 0x40u8,
    ;
}

} // verus!

