use topic_chat::accounts::{decimal_text, named_by_number, new_user};

#[test]
fn numbers_are_written_in_decimal() {
    assert_eq!(decimal_text(0), "0");
    assert_eq!(decimal_text(7), "7");
    assert_eq!(decimal_text(9), "9");
    assert_eq!(decimal_text(10), "10");
    assert_eq!(decimal_text(101), "101");
    assert_eq!(decimal_text(1_234_567_890), "1234567890");
    assert_eq!(decimal_text(u32::MAX), "4294967295");
}

#[test]
fn decimal_text_agrees_with_the_standard_library() {
    let mut number: u32 = 1;
    for _ in 0..40 {
        assert_eq!(decimal_text(number), number.to_string());
        number = number.wrapping_mul(2_654_435_761).wrapping_add(12_345);
    }
}

#[test]
fn a_user_is_named_by_a_number() {
    let user = named_by_number(0xb1074c65_6006_4858_a8b0_f6ff98b7fe03, 3_735_928_559);
    assert_eq!(user.user_id, 0xb1074c65_6006_4858_a8b0_f6ff98b7fe03);
    assert_eq!(user.username, "3735928559");
}

#[test]
fn a_new_user_has_a_random_identifier_and_a_number_for_a_name() {
    let user = new_user();
    let id = uuid::Uuid::from_u128(user.user_id);
    assert_eq!(id.get_version_num(), 4);
    assert_eq!(id.get_variant(), uuid::Variant::RFC4122);
    let number: u32 = user.username.parse().unwrap();
    assert_eq!(number.to_string(), user.username);
}

#[test]
fn new_users_differ() {
    let first = new_user();
    let second = new_user();
    assert_ne!(first.user_id, second.user_id);
}

#[test]
fn a_copy_of_a_user_equals_it() {
    let user = named_by_number(5, 6);
    assert_eq!(user.clone(), user);
}
