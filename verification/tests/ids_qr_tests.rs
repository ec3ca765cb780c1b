use mdow::ids::generate_short_uuid;
use mdow::qr::generate_qr_svg;

#[test]
fn short_uuid_is_seven_lowercase_hex_characters() {
    for _ in 0..32 {
        let id = generate_short_uuid();
        assert_eq!(id.len(), 7);
        assert!(id.chars().all(|c| c.is_ascii_hexdigit() && !c.is_ascii_uppercase()));
    }
}

#[test]
fn short_uuids_are_practically_unique() {
    let a = generate_short_uuid();
    let b = generate_short_uuid();
    assert_ne!(a, b);
}

#[test]
fn qr_svg_is_an_svg_image_not_the_id() {
    let svg = generate_qr_svg("abcdef0");
    assert!(svg.contains("<svg"));
    assert!(svg.contains("</svg>"));
    assert_ne!(svg, "abcdef0");
}

#[test]
fn qr_svg_is_deterministic_for_an_id() {
    let first = generate_qr_svg("1234abc");
    let second = generate_qr_svg("1234abc");
    assert_eq!(first, second);
}

#[test]
fn qr_svg_differs_between_ids() {
    let a = generate_qr_svg("aaaaaaa");
    let b = generate_qr_svg("bbbbbbb");
    assert_ne!(a, b);
}
