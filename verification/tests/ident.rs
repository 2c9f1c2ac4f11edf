use fitness_core::ident::{id_from_param, id_or_nil, id_text};

#[test]
fn id_text_is_hyphenated_lower_case_hex() {
    assert_eq!(
        id_text(0xa1a2a3a4b1b2c1c2d1d2d3d4d5d6d7d8),
        "a1a2a3a4-b1b2-c1c2-d1d2-d3d4d5d6d7d8"
    );
    assert_eq!(id_text(0), "00000000-0000-0000-0000-000000000000");
    assert_eq!(id_text(u128::MAX), "ffffffff-ffff-ffff-ffff-ffffffffffff");
    assert_eq!(id_text(1), "00000000-0000-0000-0000-000000000001");
    assert_eq!(id_text(0xABCDEF << 104), "abcdef00-0000-0000-0000-000000000000");
    assert_eq!(
        id_text(0x0123456789abcdef0123456789abcdef),
        "01234567-89ab-cdef-0123-456789abcdef"
    );
}

#[test]
fn id_text_has_the_shape_of_its_definition() {
    for id in [0u128, 1, 0x9f, u128::MAX, 0x550e8400e29b41d4a716446655440000] {
        let text: Vec<char> = id_text(id).chars().collect();
        assert_eq!(text.len(), 36);
        let mut digit = 0u32;
        for (at, c) in text.iter().enumerate() {
            if at == 8 || at == 13 || at == 18 || at == 23 {
                assert_eq!(*c, '-');
            } else {
                let nibble = ((id >> (4 * (31 - digit))) & 0xf) as u32;
                assert_eq!(*c, char::from_digit(nibble, 16).unwrap());
                digit += 1;
            }
        }
    }
}

#[test]
fn id_from_param_reads_an_identifier() {
    assert_eq!(
        id_from_param(Some("550e8400-e29b-41d4-a716-446655440000")),
        0x550e8400e29b41d4a716446655440000
    );
    assert_eq!(
        id_from_param(Some("550E8400E29B41D4A716446655440000")),
        0x550e8400e29b41d4a716446655440000
    );
}

#[test]
fn id_from_param_falls_back_to_nil() {
    assert_eq!(id_from_param(None), 0);
    assert_eq!(id_from_param(Some("")), 0);
    assert_eq!(id_from_param(Some("not-an-id")), 0);
    assert_eq!(id_from_param(Some("550e8400-e29b-41d4-a716-44665544000")), 0);
}

#[test]
fn id_text_reads_back() {
    for id in [0u128, 7, u128::MAX, 0xa1a2a3a4b1b2c1c2d1d2d3d4d5d6d7d8] {
        let text = id_text(id);
        assert_eq!(id_from_param(Some(text.as_str())), id);
    }
}

#[test]
fn id_or_nil_unwraps() {
    assert_eq!(id_or_nil(Some(5)), 5);
    assert_eq!(id_or_nil(None), 0);
}
