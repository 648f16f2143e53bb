use telepirate::store::chat_table;
use telepirate::text::i64_text;

#[test]
fn chat_tables() {
    assert_eq!(chat_table(0), "0");
    assert_eq!(chat_table(7), "7");
    assert_eq!(chat_table(42), "42");
    assert_eq!(chat_table(123456789), "123456789");
    assert_eq!(chat_table(-1001234567890), "-1001234567890");
    assert_eq!(chat_table(i64::MAX), i64::MAX.to_string());
    assert_eq!(chat_table(i64::MIN), i64::MIN.to_string());
    assert_ne!(chat_table(10), chat_table(-10));
}

#[test]
fn decimal_text_matches_std() {
    for n in [-100i64, -99, -10, -9, -1, 0, 1, 9, 10, 99, 100, 65536, 4294967296] {
        assert_eq!(i64_text(n), n.to_string());
    }
}
