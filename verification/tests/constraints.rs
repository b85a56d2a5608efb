use rbatis_schema::constraints::{compose_constraints, modifier_keywords};

#[test]
fn keywords_for_every_flag_combination() {
    assert_eq!(modifier_keywords(false, false), "");
    assert_eq!(modifier_keywords(true, false), "UNIQUE");
    assert_eq!(modifier_keywords(false, true), "NOT NULL");
    assert_eq!(modifier_keywords(true, true), "UNIQUE NOT NULL");
}

#[test]
fn unique_and_not_null_follow_the_type() {
    assert_eq!(compose_constraints("TEXT", true, true), "TEXT UNIQUE NOT NULL");
}

#[test]
fn unique_comes_before_not_null() {
    let text = compose_constraints("INTEGER", true, true);
    assert!(text.find("UNIQUE").unwrap() < text.find("NOT NULL").unwrap());
}

#[test]
fn no_flags_leave_the_type_alone() {
    assert_eq!(compose_constraints("TEXT", false, false), "TEXT");
}

#[test]
fn single_flags() {
    assert_eq!(compose_constraints("VARCHAR(50)", true, false), "VARCHAR(50) UNIQUE");
    assert_eq!(compose_constraints("VARCHAR(50)", false, true), "VARCHAR(50) NOT NULL");
}

#[test]
fn no_trailing_space_without_flags() {
    let text = compose_constraints("BIGINT", false, false);
    assert!(!text.ends_with(' '));
    assert_eq!(text.len(), 6);
}

#[test]
fn outer_whitespace_of_the_type_is_trimmed() {
    assert_eq!(compose_constraints("  TEXT \n", false, false), "TEXT");
    assert_eq!(compose_constraints("  TEXT", true, true), "TEXT UNIQUE NOT NULL");
}

#[test]
fn trailing_whitespace_of_the_type_stays_inside() {
    assert_eq!(compose_constraints("TEXT ", true, false), "TEXT  UNIQUE");
}

#[test]
fn empty_type_leaves_the_keywords() {
    assert_eq!(compose_constraints("", true, true), "UNIQUE NOT NULL");
    assert_eq!(compose_constraints("", false, true), "NOT NULL");
    assert_eq!(compose_constraints("   ", true, false), "UNIQUE");
    assert_eq!(compose_constraints("", false, false), "");
}

#[test]
fn composition_agrees_with_formatting_and_trimming() {
    for ty in ["TEXT", " TEXT", "TEXT ", "", " ", "DOUBLE PRECISION"] {
        for (unique, not_null) in [(false, false), (true, false), (false, true), (true, true)] {
            let mut keywords: Vec<String> = Vec::new();
            if unique {
                keywords.push("UNIQUE".to_string());
            }
            if not_null {
                keywords.push("NOT NULL".to_string());
            }
            let expected = format!("{} {}", ty, keywords.join(" ")).trim().to_string();
            assert_eq!(compose_constraints(ty, unique, not_null), expected);
        }
    }
}
