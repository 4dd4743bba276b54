//! Tests for the error taxonomy's display messages.

use vxutil_core::error::VxError;

#[test]
fn test_error_messages_carry_prefix_and_detail() {
    let cases = vec![
        (VxError::Io("disk gone".to_string()), "IO error: disk gone"),
        (VxError::Project("bad header".to_string()), "Project error: bad header"),
        (VxError::Timeline("gap".to_string()), "Timeline error: gap"),
        (VxError::Media("no probe".to_string()), "Media error: no probe"),
        (VxError::Effect("bad radius".to_string()), "Effect error: bad radius"),
        (
            VxError::InvalidParameter("speed is zero".to_string()),
            "Invalid parameter: speed is zero",
        ),
        (VxError::NotFound("clip 7".to_string()), "Not found: clip 7"),
        (
            VxError::Serialization("truncated".to_string()),
            "Serialization error: truncated",
        ),
        (VxError::Unknown("?".to_string()), "Unknown error: ?"),
    ];
    for (err, expected) in cases {
        assert_eq!(err.message(), expected);
    }
}
