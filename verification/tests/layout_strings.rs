use randomprime::layout::{default_elevator_bytes, parse_layout, parse_layout_chars_to_ints};

#[test]
fn the_vanilla_elevator_section_decodes() {
    let mut dens = vec![21u8];
    dens.extend(std::iter::repeat(20u8).take(20));
    let digits =
        parse_layout_chars_to_ints(&default_elevator_bytes(), 91, 5, &dens).unwrap();
    assert_eq!(digits.len(), 21);
    for (d, den) in digits.iter().zip(dens.iter()) {
        assert!(d < den);
    }
}

#[test]
fn an_invalid_character_is_rejected() {
    let dens = vec![20u8; 21];
    let r = parse_layout_chars_to_ints(b"!!!!************", 91, 5, &dens);
    assert!(r.is_err());
}

#[test]
fn a_tampered_section_does_not_silently_decode_the_same() {
    let mut dens = vec![21u8];
    dens.extend(std::iter::repeat(20u8).take(20));
    let good =
        parse_layout_chars_to_ints(&default_elevator_bytes(), 91, 5, &dens).unwrap();
    let mut tampered = default_elevator_bytes();
    tampered[0] = b'A';
    match parse_layout_chars_to_ints(&tampered, 91, 5, &dens) {
        Ok(other) => assert_ne!(other, good),
        Err(_) => {},
    }
}

#[test]
fn parse_layout_rejects_malformed_strings() {
    assert!(parse_layout("héllo").is_err());
    assert!(parse_layout("tooshort.alsotooshort").is_err());
    assert!(parse_layout("").is_err());
}
