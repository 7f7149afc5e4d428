use vstd::prelude::*;

use crate::error::OsdError;
use crate::volume::volume_ceiling;

verus! {

/// Width of the level bar at full scale, in pixels.
pub const LEVEL_WIDTH: i32 = 272;

/// The device kind a display request speaks of, with the volume flags
/// that presentation needs.
#[derive(Clone, Copy, Debug, PartialEq, Eq, Structural)]
pub enum DisplayType {
    Volume { is_muted: bool, is_extended: bool },
    Brightness,
}

/// One notification from the CLI to the overlay: which device changed
/// and the level it now has. Sent as a single serialized record per
/// connection.
#[derive(Clone, Copy, Debug, PartialEq, Eq, Structural)]
pub struct DisplayRequest {
    pub display_type: DisplayType,
    pub level_percentage: u32,
}

/// The byte a flag is encoded as.
pub open spec fn bool_byte(b: bool) -> u8 {
    if b {
        1u8
    } else {
        0u8
    }
}

/// The four little-endian bytes of a level value.
pub open spec fn le_bytes(n: u32) -> Seq<u8> {
    seq![
        (n % 256) as u8,
        ((n / 256) % 256) as u8,
        ((n / 65536) % 256) as u8,
        ((n / 16777216) % 256) as u8,
    ]
}

/// The level value four little-endian bytes hold.
pub open spec fn le_value(b0: u8, b1: u8, b2: u8, b3: u8) -> int {
    b0 + 256 * b1 + 65536 * b2 + 16777216 * b3
}

/// The wire form of a display request: a tag byte for the variant, the
/// volume flags as one byte each, then the level as four little-endian
/// bytes.
pub open spec fn encode_request_spec(r: DisplayRequest) -> Seq<u8> {
    match r.display_type {
        DisplayType::Volume { is_muted, is_extended } => seq![
            0u8,
            bool_byte(is_muted),
            bool_byte(is_extended),
        ] + le_bytes(r.level_percentage),
        DisplayType::Brightness => seq![1u8] + le_bytes(r.level_percentage),
    }
}

/// The request a byte string decodes to, or `None` where the bytes are
/// not the wire form of any request.
pub open spec fn decode_request_spec(s: Seq<u8>) -> Option<DisplayRequest> {
    if s.len() == 7 && s[0] == 0 && s[1] <= 1 && s[2] <= 1 {
        Some(DisplayRequest {
            display_type: DisplayType::Volume { is_muted: s[1] == 1, is_extended: s[2] == 1 },
            level_percentage: le_value(s[3], s[4], s[5], s[6]) as u32,
        })
    } else if s.len() == 5 && s[0] == 1 {
        Some(DisplayRequest {
            display_type: DisplayType::Brightness,
            level_percentage: le_value(s[1], s[2], s[3], s[4]) as u32,
        })
    } else {
        None
    }
}

/// Four little-endian bytes of a value recompose to that value.
proof fn lemma_le_round_trip(n: u32)
    ensures
        le_value(
            le_bytes(n)[0],
            le_bytes(n)[1],
            le_bytes(n)[2],
            le_bytes(n)[3],
        ) == n,
{
    let b = le_bytes(n);
    assert(le_value(b[0], b[1], b[2], b[3]) == n) by (nonlinear_arith)
        requires
            b[0] == n % 256,
            b[1] == (n / 256) % 256,
            b[2] == (n / 65536) % 256,
            b[3] == (n / 16777216) % 256,
            n < 4294967296,
    {
    }
}

/// Encoding a display request and decoding the bytes reproduces the
/// exact original variant, flags and level.
pub proof fn lemma_request_round_trip(r: DisplayRequest)
    ensures
        decode_request_spec(encode_request_spec(r)) == Some(r),
{
    let s = encode_request_spec(r);
    lemma_le_round_trip(r.level_percentage);
    match r.display_type {
        DisplayType::Volume { is_muted, is_extended } => {
            assert(s[3] == le_bytes(r.level_percentage)[0]);
            assert(s[4] == le_bytes(r.level_percentage)[1]);
            assert(s[5] == le_bytes(r.level_percentage)[2]);
            assert(s[6] == le_bytes(r.level_percentage)[3]);
            assert(decode_request_spec(s) == Some(r));
        }
        DisplayType::Brightness => {
            assert(s[1] == le_bytes(r.level_percentage)[0]);
            assert(s[2] == le_bytes(r.level_percentage)[1]);
            assert(s[3] == le_bytes(r.level_percentage)[2]);
            assert(s[4] == le_bytes(r.level_percentage)[3]);
            assert(decode_request_spec(s) == Some(r));
        }
    }
}

/// Serializes a display request into its wire form.
pub fn encode_request(r: &DisplayRequest) -> (out: Vec<u8>)
    ensures
        out@ == encode_request_spec(*r),
{
    let mut out: Vec<u8> = Vec::new();
    match r.display_type {
        DisplayType::Volume { is_muted, is_extended } => {
            out.push(0);
            out.push(if is_muted { 1 } else { 0 });
            out.push(if is_extended { 1 } else { 0 });
        }
        DisplayType::Brightness => {
            out.push(1);
        }
    }
    let n: u32 = r.level_percentage;
    out.push((n % 256) as u8);
    out.push(((n / 256) % 256) as u8);
    out.push(((n / 65536) % 256) as u8);
    out.push(((n / 16777216) % 256) as u8);
    proof {
        assert(out@ =~= encode_request_spec(*r));
    }
    out
}

/// Deserializes one complete inbound byte stream; `ProtocolError`
/// exactly when the bytes are not the wire form of any request.
pub fn decode_request(bytes: &[u8]) -> (r: Result<DisplayRequest, OsdError>)
    ensures
        match r {
            Ok(req) => decode_request_spec(bytes@) == Some(req),
            Err(e) => decode_request_spec(bytes@) is None && e == OsdError::ProtocolError,
        },
{
    if bytes.len() == 7 && bytes[0] == 0 && bytes[1] <= 1 && bytes[2] <= 1 {
        let level: u32 = bytes[3] as u32 + 256 * (bytes[4] as u32) + 65536 * (bytes[5] as u32)
            + 16777216 * (bytes[6] as u32);
        Ok(DisplayRequest {
            display_type: DisplayType::Volume {
                is_muted: bytes[1] == 1,
                is_extended: bytes[2] == 1,
            },
            level_percentage: level,
        })
    } else if bytes.len() == 5 && bytes[0] == 1 {
        let level: u32 = bytes[1] as u32 + 256 * (bytes[2] as u32) + 65536 * (bytes[3] as u32)
            + 16777216 * (bytes[4] as u32);
        Ok(DisplayRequest { display_type: DisplayType::Brightness, level_percentage: level })
    } else {
        Err(OsdError::ProtocolError)
    }
}

/// The status icons the overlay can show.
#[derive(Clone, Copy, Debug, PartialEq, Eq, Structural)]
pub enum Icon {
    VolumeMax,
    VolumeNotMax,
    VolumeMuted,
    VolumeExtended,
    BrightnessMax,
    BrightnessNotMax,
    BrightnessMin,
}

/// The band table of the icon mapping: a total function on every
/// `(kind, level)` pair.
pub open spec fn icon_spec(display_type: DisplayType, level: u32) -> Icon {
    match display_type {
        DisplayType::Volume { is_muted, .. } => if is_muted {
            Icon::VolumeMuted
        } else if level == 0 {
            Icon::VolumeMuted
        } else if level == 100 {
            Icon::VolumeMax
        } else if 101 <= level && level <= 150 {
            Icon::VolumeExtended
        } else {
            Icon::VolumeNotMax
        },
        DisplayType::Brightness => if level == 1 {
            Icon::BrightnessMin
        } else if level == 100 {
            Icon::BrightnessMax
        } else {
            Icon::BrightnessNotMax
        },
    }
}

/// Picks the status icon for a request: exactly the documented band
/// table, for every `(kind, level)` pair.
pub fn decide_icon(display_type: &DisplayType, level_percentage: u32) -> (r: Icon)
    ensures
        r == icon_spec(*display_type, level_percentage),
{
    match display_type {
        DisplayType::Volume { is_muted: false, .. } => {
            if level_percentage == 0 {
                Icon::VolumeMuted
            } else if level_percentage == 100 {
                Icon::VolumeMax
            } else if 101 <= level_percentage && level_percentage <= 150 {
                Icon::VolumeExtended
            } else {
                Icon::VolumeNotMax
            }
        }
        DisplayType::Volume { is_muted: true, .. } => Icon::VolumeMuted,
        DisplayType::Brightness => {
            if level_percentage == 1 {
                Icon::BrightnessMin
            } else if level_percentage == 100 {
                Icon::BrightnessMax
            } else {
                Icon::BrightnessNotMax
            }
        }
    }
}

/// File name of an icon, under the overlay's icon directory.
pub fn icon_file_name(icon: Icon) -> (r: &'static str)
    ensures
        icon is VolumeMax ==> r@ == "volume_max_icon.png"@,
        icon is VolumeNotMax ==> r@ == "volume_not_max_icon.png"@,
        icon is VolumeMuted ==> r@ == "volume_muted_icon.png"@,
        icon is VolumeExtended ==> r@ == "volume_extended_icon.png"@,
        icon is BrightnessMax ==> r@ == "brightness_max_icon.png"@,
        icon is BrightnessNotMax ==> r@ == "brightness_not_max_icon.png"@,
        icon is BrightnessMin ==> r@ == "brightness_min_icon.png"@,
{
    match icon {
        Icon::VolumeMax => "volume_max_icon.png",
        Icon::VolumeNotMax => "volume_not_max_icon.png",
        Icon::VolumeMuted => "volume_muted_icon.png",
        Icon::VolumeExtended => "volume_extended_icon.png",
        Icon::BrightnessMax => "brightness_max_icon.png",
        Icon::BrightnessNotMax => "brightness_not_max_icon.png",
        Icon::BrightnessMin => "brightness_min_icon.png",
    }
}

/// The floor of the level range a request's kind allows.
pub open spec fn level_floor_of(d: DisplayType) -> int {
    match d {
        DisplayType::Volume { .. } => 0,
        DisplayType::Brightness => 1,
    }
}

/// The ceiling of the level range a request's kind allows.
pub open spec fn level_ceiling_of(d: DisplayType) -> int {
    match d {
        DisplayType::Volume { is_extended, .. } => volume_ceiling(is_extended),
        DisplayType::Brightness => 100,
    }
}

/// The style class the level bar is drawn with.
#[derive(Clone, Copy, Debug, PartialEq, Eq, Structural)]
pub enum BarStyle {
    Min,
    Normal,
    Extended,
}

/// How the level bar is drawn: its style class and, except at the
/// floor, its requested width in pixels.
#[derive(Clone, Copy, Debug, PartialEq, Eq)]
pub struct BarSettings {
    pub style: BarStyle,
    pub width: Option<i32>,
}

/// Width of a partial level bar: the ceiling of
/// `(level - min) / max * LEVEL_WIDTH`, in integer arithmetic.
pub open spec fn bar_width_spec(level: int, min: int, max: int) -> int {
    ((level - min) * 272 + (max - 1)) / max
}

/// The bar drawn for a kind and an in-range level: the minimum visual
/// marker at the floor, exact full width at the ceiling, the scaled
/// width in between, and the extended style above the nominal volume
/// ceiling.
pub open spec fn bar_spec(d: DisplayType, level: int) -> BarSettings {
    match d {
        DisplayType::Volume { is_extended, .. } => {
            let max = volume_ceiling(is_extended);
            let style = if level > 100 {
                BarStyle::Extended
            } else if level == 0 {
                BarStyle::Min
            } else {
                BarStyle::Normal
            };
            let width = if level == 0 {
                Option::<i32>::None
            } else if level == max {
                Some(272i32)
            } else {
                Some(bar_width_spec(level, 0, max) as i32)
            };
            BarSettings { style, width }
        }
        DisplayType::Brightness => {
            if level == 1 {
                BarSettings { style: BarStyle::Min, width: None }
            } else if level == 100 {
                BarSettings { style: BarStyle::Normal, width: Some(272i32) }
            } else {
                BarSettings {
                    style: BarStyle::Normal,
                    width: Some(bar_width_spec(level, 1, 100) as i32),
                }
            }
        }
    }
}

/// Scaled width of a partial bar.
fn percentage_level_compute(level_percentage: u32, min: u32, max: u32) -> (r: i32)
    requires
        min <= level_percentage <= max,
        0 < max <= 150,
    ensures
        r == bar_width_spec(level_percentage as int, min as int, max as int),
        0 <= r <= 272,
{
    let w: u32 = ((level_percentage - min) * 272 + (max - 1)) / max;
    proof {
        assert((level_percentage - min) * 272 <= max * 272) by (nonlinear_arith)
            requires
                level_percentage - min <= max,
                max >= 0,
        {
        }
        assert(((level_percentage - min) * 272 + (max - 1)) / max as int <= 272) by (nonlinear_arith)
            requires
                (level_percentage - min) * 272 <= max * 272,
                max >= 1,
        {
        }
    }
    w as i32
}

/// Decides how the level bar is drawn for an in-range level, matching
/// the documented band behaviour exactly.
pub fn level_bar(display_type: &DisplayType, level_percentage: u32) -> (r: BarSettings)
    requires
        level_floor_of(*display_type) <= level_percentage <= level_ceiling_of(*display_type),
    ensures
        r == bar_spec(*display_type, level_percentage as int),
{
    match display_type {
        DisplayType::Volume { is_extended, .. } => {
            let max: u32 = if *is_extended {
                150
            } else {
                100
            };
            let style = if level_percentage > 100 {
                BarStyle::Extended
            } else if level_percentage == 0 {
                BarStyle::Min
            } else {
                BarStyle::Normal
            };
            let width = if level_percentage == 0 {
                None
            } else if level_percentage == max {
                Some(LEVEL_WIDTH)
            } else {
                Some(percentage_level_compute(level_percentage, 0, max))
            };
            BarSettings { style, width }
        }
        DisplayType::Brightness => {
            if level_percentage == 1 {
                BarSettings { style: BarStyle::Min, width: None }
            } else if level_percentage == 100 {
                BarSettings { style: BarStyle::Normal, width: Some(LEVEL_WIDTH) }
            } else {
                BarSettings {
                    style: BarStyle::Normal,
                    width: Some(percentage_level_compute(level_percentage, 1, 100)),
                }
            }
        }
    }
}

/// CSS widget name of a bar style.
pub fn bar_style_name(style: BarStyle) -> (r: &'static str)
    ensures
        style is Min ==> r@ == "level-min"@,
        style is Normal ==> r@ == "level"@,
        style is Extended ==> r@ == "level-extended"@,
{
    match style {
        BarStyle::Min => "level-min",
        BarStyle::Normal => "level",
        BarStyle::Extended => "level-extended",
    }
}

} // verus!
