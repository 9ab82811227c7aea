use placer::palette::{hex_to_color, Color};

const TABLE: [(u32, Color); 16] = [
    (4278207999, Color::Red),
    (4278233343, Color::Orange),
    (4281718527, Color::Yellow),
    (4285047552, Color::DarkGreen),
    (4283886974, Color::LightGreen),
    (4288958500, Color::DarkBlue),
    (4293562422, Color::Blue),
    (4294240593, Color::LightBlue),
    (4288618113, Color::DarkPurple),
    (4290792116, Color::Purple),
    (4289370623, Color::LightPink),
    (4280707484, Color::Brown),
    (4278190080, Color::Black),
    (4287663497, Color::Gray),
    (4292466644, Color::LightGray),
    (4294967295, Color::White),
];

#[test]
fn every_table_entry_maps_to_its_color() {
    for (raw, color) in TABLE {
        assert_eq!(hex_to_color(raw), Some(color));
    }
}

#[test]
fn values_outside_the_table_have_no_color() {
    assert_eq!(hex_to_color(0), None);
    assert_eq!(hex_to_color(1), None);
    assert_eq!(hex_to_color(4278207998), None);
    assert_eq!(hex_to_color(4278208000), None);
    assert_eq!(hex_to_color(4294967294), None);
    // Sweep a band around each table entry; only the entries themselves map.
    for (raw, _) in TABLE {
        for delta in 1u32..4 {
            let below = raw.wrapping_sub(delta);
            let above = raw.wrapping_add(delta);
            if !TABLE.iter().any(|&(t, _)| t == below) {
                assert_eq!(hex_to_color(below), None);
            }
            if !TABLE.iter().any(|&(t, _)| t == above) {
                assert_eq!(hex_to_color(above), None);
            }
        }
    }
}

#[test]
fn palette_indices_match_the_wire_numbering() {
    let expected: [(Color, i32); 16] = [
        (Color::Red, 2),
        (Color::Orange, 3),
        (Color::Yellow, 4),
        (Color::DarkGreen, 6),
        (Color::LightGreen, 8),
        (Color::DarkBlue, 12),
        (Color::Blue, 13),
        (Color::LightBlue, 14),
        (Color::DarkPurple, 17),
        (Color::Purple, 18),
        (Color::LightPink, 23),
        (Color::Brown, 25),
        (Color::Black, 27),
        (Color::Gray, 29),
        (Color::LightGray, 30),
        (Color::White, 31),
    ];
    for (color, index) in expected {
        assert_eq!(color.index(), index);
    }
}
