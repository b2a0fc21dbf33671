use soup_sdk::chat::parser::util::normalize_user_id;

#[test]
fn test_normalize_user_id() {
    assert_eq!(normalize_user_id("bemong"), "bemong");
    assert_eq!(normalize_user_id("bemong(1)"), "bemong");
    assert_eq!(normalize_user_id("bemong(2)"), "bemong");
    assert_eq!(normalize_user_id("bemong(9)"), "bemong");
    assert_eq!(normalize_user_id("user_name(5)"), "user_name");
    assert_eq!(normalize_user_id("test(a)"), "test(a)");
    assert_eq!(normalize_user_id("test()"), "test()");
    assert_eq!(normalize_user_id("ab"), "ab");
    assert_eq!(normalize_user_id(""), "");
}
