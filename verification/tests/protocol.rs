use augment_vol_brt_man::display::{decode_request, encode_request, DisplayRequest, DisplayType};
use augment_vol_brt_man::error::OsdError;

fn round_trip(req: DisplayRequest) {
    let bytes = encode_request(&req);
    assert_eq!(decode_request(&bytes), Ok(req));
}

#[test]
fn volume_requests_round_trip() {
    for &is_muted in &[false, true] {
        for &is_extended in &[false, true] {
            for &level in &[0u32, 1, 55, 100, 125, 150, u32::MAX] {
                round_trip(DisplayRequest {
                    display_type: DisplayType::Volume { is_muted, is_extended },
                    level_percentage: level,
                });
            }
        }
    }
}

#[test]
fn brightness_requests_round_trip() {
    for &level in &[1u32, 57, 100, 4242] {
        round_trip(DisplayRequest {
            display_type: DisplayType::Brightness,
            level_percentage: level,
        });
    }
}

#[test]
fn wire_form_is_tag_flags_level() {
    let bytes = encode_request(&DisplayRequest {
        display_type: DisplayType::Volume { is_muted: true, is_extended: false },
        level_percentage: 258,
    });
    assert_eq!(bytes, vec![0, 1, 0, 2, 1, 0, 0]);

    let bytes = encode_request(&DisplayRequest {
        display_type: DisplayType::Brightness,
        level_percentage: 1,
    });
    assert_eq!(bytes, vec![1, 1, 0, 0, 0]);
}

#[test]
fn malformed_payloads_are_protocol_errors() {
    assert_eq!(decode_request(b""), Err(OsdError::ProtocolError));
    assert_eq!(decode_request(b"abc"), Err(OsdError::ProtocolError));
    // Right length for a volume record, wrong tag.
    assert_eq!(decode_request(&[9, 0, 0, 1, 0, 0, 0]), Err(OsdError::ProtocolError));
    // Volume tag with a flag byte that is not a flag.
    assert_eq!(decode_request(&[0, 2, 0, 1, 0, 0, 0]), Err(OsdError::ProtocolError));
    // Brightness tag with a volume-length record.
    assert_eq!(decode_request(&[1, 0, 0, 1, 0, 0, 0]), Err(OsdError::ProtocolError));
    // A truncated record.
    assert_eq!(decode_request(&[0, 1, 0, 2]), Err(OsdError::ProtocolError));
}
