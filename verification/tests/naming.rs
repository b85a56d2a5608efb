use rbatis_schema::naming::canonical_name;

#[test]
fn camel_case_becomes_snake_case() {
    assert_eq!(canonical_name("myVarName"), "my_var_name");
    assert_eq!(canonical_name("userName"), "user_name");
}

#[test]
fn pascal_case_becomes_snake_case() {
    assert_eq!(canonical_name("TestModel"), "test_model");
}

#[test]
fn acronyms_stay_one_word() {
    assert_eq!(canonical_name("HTTPRequest"), "http_request");
}

#[test]
fn snake_case_words_are_kept() {
    assert_eq!(canonical_name("created_at"), "created_at");
    assert_eq!(canonical_name("id"), "id");
    assert_eq!(canonical_name("description"), "description");
}

#[test]
fn upper_case_is_folded() {
    assert_eq!(canonical_name("ID"), "id");
    assert_eq!(canonical_name("USER_NAME"), "user_name");
}

#[test]
fn hyphens_and_spaces_separate_words() {
    assert_eq!(canonical_name("first-name last"), "first_name_last");
}

#[test]
fn digits_are_words_of_their_own() {
    assert_eq!(canonical_name("vector4d"), "vector_4_d");
}

#[test]
fn empty_name_stays_empty() {
    assert_eq!(canonical_name(""), "");
}

#[test]
fn canonical_form_is_deterministic() {
    assert_eq!(canonical_name("someFieldName"), canonical_name("someFieldName"));
}

#[test]
fn outer_and_doubled_underscores_are_kept() {
    assert_eq!(canonical_name("_leading__double"), "_leading__double");
    assert_eq!(canonical_name("trailing_"), "trailing_");
}

#[test]
fn letters_outside_ascii_are_folded_too() {
    assert_eq!(canonical_name("\u{dc}n\u{ef}code N\u{e4}me"), "\u{fc}n\u{ef}code_n\u{e4}me");
}
