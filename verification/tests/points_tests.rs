use seat_agent::points::{point_key, point_key_text, PointKey};

fn round_trip(id: &str) -> String {
    point_key_text(&Some(point_key(id)))
}

#[test]
fn numeric_ids_become_numbers() {
    assert!(matches!(point_key("42"), PointKey::Num(42)));
    assert!(matches!(point_key("18446744073709551615"), PointKey::Num(u64::MAX)));
    assert!(matches!(point_key("+7"), PointKey::Num(7)));
}

#[test]
fn other_ids_stay_text() {
    assert!(matches!(point_key("summary:s1:c1"), PointKey::Uuid(ref s) if s == "summary:s1:c1"));
    assert!(matches!(point_key("18446744073709551616"), PointKey::Uuid(_)));
    assert!(matches!(point_key("-1"), PointKey::Uuid(_)));
    assert!(matches!(point_key(""), PointKey::Uuid(_)));
    assert!(matches!(point_key("+"), PointKey::Uuid(_)));
    assert!(matches!(point_key(" 1"), PointKey::Uuid(_)));
}

#[test]
fn ids_read_back_as_stored() {
    assert_eq!(round_trip("k0"), "k0");
    assert_eq!(round_trip("0"), "0");
    assert_eq!(round_trip("1234"), "1234");
    assert_eq!(round_trip("550e8400-e29b-41d4-a716-446655440000"), "550e8400-e29b-41d4-a716-446655440000");
}

#[test]
fn non_canonical_numerals_read_back_canonical() {
    assert_eq!(round_trip("007"), "7");
    assert_eq!(round_trip("+5"), "5");
}

#[test]
fn missing_point_id_reads_as_empty() {
    assert_eq!(point_key_text(&None), "");
}
