use desktop_host::config::{decode_configuration, decode_dimensions, decode_title, HostConfiguration, HostError};
use desktop_host::utf8::is_valid_utf8;

#[test]
fn it_works() {
    assert_eq!(2 + 2, 4);
}

#[test]
fn ascii_title_round_trips() {
    let title = b"Test".to_vec();
    let decoded = decode_title(title.clone()).unwrap();
    assert_eq!(decoded, title);
}

#[test]
fn multibyte_title_round_trips() {
    // exercises two-, three- and four-byte encodings
    let title = "h\u{e9}llo w\u{f6}rld \u{2603} \u{1f642}".as_bytes().to_vec();
    let decoded = decode_title(title.clone()).unwrap();
    assert_eq!(decoded, title);
}

#[test]
fn empty_title_round_trips() {
    let decoded = decode_title(Vec::new()).unwrap();
    assert_eq!(decoded, Vec::<u8>::new());
}

#[test]
fn invalid_title_is_rejected() {
    assert_eq!(decode_title(vec![0xFF]), Err(HostError::InvalidEncoding));
    // lone continuation byte
    assert_eq!(decode_title(vec![0x80]), Err(HostError::InvalidEncoding));
    // truncated two-byte encoding
    assert_eq!(decode_title(vec![0xC3]), Err(HostError::InvalidEncoding));
    // overlong encoding of NUL
    assert_eq!(decode_title(vec![0xC0, 0x80]), Err(HostError::InvalidEncoding));
    // surrogate half U+D800
    assert_eq!(decode_title(vec![0xED, 0xA0, 0x80]), Err(HostError::InvalidEncoding));
    // past U+10FFFF
    assert_eq!(decode_title(vec![0xF4, 0x90, 0x80, 0x80]), Err(HostError::InvalidEncoding));
}

#[test]
fn validator_agrees_with_std_on_boundary_cases() {
    let cases: Vec<Vec<u8>> = vec![
        vec![],
        vec![0x7F],
        vec![0x80],
        vec![0xC1, 0xBF],
        vec![0xC2, 0x80],
        vec![0xDF, 0xBF],
        vec![0xE0, 0x9F, 0xBF],
        vec![0xE0, 0xA0, 0x80],
        vec![0xED, 0x9F, 0xBF],
        vec![0xED, 0xA0, 0x80],
        vec![0xEF, 0xBF, 0xBF],
        vec![0xF0, 0x8F, 0xBF, 0xBF],
        vec![0xF0, 0x90, 0x80, 0x80],
        vec![0xF4, 0x8F, 0xBF, 0xBF],
        vec![0xF4, 0x90, 0x80, 0x80],
        vec![0xF5, 0x80, 0x80, 0x80],
        vec![0x54, 0xC3, 0xA9, 0x73, 0x74],
        vec![0xE2, 0x82],
        vec![0xE2, 0x82, 0xAC, 0xF0],
    ];
    for bytes in cases {
        assert_eq!(
            is_valid_utf8(&bytes),
            std::str::from_utf8(&bytes).is_ok(),
            "disagreement on {bytes:?}"
        );
    }
}

#[test]
fn dimensions_pass_through() {
    assert_eq!(decode_dimensions(800, 600), (800, 600));
    assert_eq!(decode_dimensions(u32::MAX, 1), (u32::MAX, 1));
}

#[test]
fn configuration_is_kept_field_for_field() {
    let config = HostConfiguration {
        window_title: b"Test".to_vec(),
        window_width: 800,
        window_height: 600,
        is_resizable: true,
    };
    let settings = decode_configuration(config).unwrap();
    assert_eq!(settings.title, b"Test".to_vec());
    assert_eq!(settings.width, 800);
    assert_eq!(settings.height, 600);
    assert!(settings.resizable);
}

#[test]
fn zero_dimensions_pass_through_unchanged() {
    // a degenerate geometry is not rejected: it goes to the OS window
    // layer exactly as the caller wrote it
    let config = HostConfiguration {
        window_title: b"Test".to_vec(),
        window_width: 0,
        window_height: 0,
        is_resizable: false,
    };
    let settings = decode_configuration(config).unwrap();
    assert_eq!(settings.width, 0);
    assert_eq!(settings.height, 0);
    assert!(!settings.resizable);
}

#[test]
fn invalid_configuration_reports_invalid_encoding() {
    let config = HostConfiguration {
        window_title: vec![0x54, 0xFF],
        window_width: 800,
        window_height: 600,
        is_resizable: true,
    };
    match decode_configuration(config) {
        Err(e) => assert_eq!(e, HostError::InvalidEncoding),
        Ok(_) => panic!("a non-UTF-8 title must be rejected"),
    }
}
