use slay::ids::IdGenerator;

#[test]
fn id_generator_counts_up() {
    let mut ids = IdGenerator::new();
    assert_eq!(ids.generate(), 1);
    assert_eq!(ids.generate(), 2);
}

#[test]
fn numbers_are_written_in_decimal() {
    assert_eq!(slay::text::decimal_text(0), "0");
    assert_eq!(slay::text::decimal_text(7), "7");
    assert_eq!(slay::text::decimal_text(10), "10");
    assert_eq!(slay::text::decimal_text(1234567), "1234567");
    assert_eq!(slay::text::decimal_text(u64::MAX), u64::MAX.to_string());
}
