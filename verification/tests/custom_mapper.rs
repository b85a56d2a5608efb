use rbatis_schema::entity::EntityDefinition;
use rbatis_schema::field::FieldInput;
use rbatis_schema::mapper::{ColumnMapper, FnMapper};
use rbatis_schema::sample::{DeclaredType, SampleValue};
use std::cell::{Cell, RefCell};

fn declare(
    name: &str,
    declared_type: DeclaredType,
    unique: bool,
    not_null: bool,
    sql_type: Option<&str>,
) -> FieldInput {
    FieldInput {
        name: name.to_string(),
        declared_type,
        unique,
        not_null,
        select: false,
        sql_type: sql_type.map(|ty| ty.to_string()),
    }
}

fn model() -> EntityDefinition {
    EntityDefinition::new(
        "TestModel",
        None,
        vec![
            declare("id", DeclaredType::Text, false, false, Some("UUID")),
            declare("name", DeclaredType::Text, true, true, None),
            declare("description", DeclaredType::Text, false, false, None),
            declare("loginCount", DeclaredType::U64, false, true, None),
        ],
    )
    .unwrap()
}

fn text_for_strings(_field: &str, sample: &SampleValue) -> String {
    match sample {
        SampleValue::Text(_) => "TEXT".to_string(),
        SampleValue::Null => "NULL".to_string(),
        SampleValue::Bool(_) => "BOOLEAN".to_string(),
        SampleValue::I32(_) | SampleValue::U32(_) => "INTEGER".to_string(),
        SampleValue::I64(_) | SampleValue::U64(_) => "BIGINT".to_string(),
        SampleValue::Binary(_) => "BLOB".to_string(),
        SampleValue::F32(_) | SampleValue::F64(_) => "REAL".to_string(),
        SampleValue::Array(_) | SampleValue::Object(_) | SampleValue::Ext(_, _) => {
            "JSON".to_string()
        }
    }
}

#[test]
fn scenario_with_a_mapper_that_infers_text_for_strings() {
    let def = EntityDefinition::new(
        "TestModel",
        None,
        vec![
            declare("id", DeclaredType::Text, false, false, None),
            declare("name", DeclaredType::Text, true, true, None),
            declare("description", DeclaredType::Text, false, false, None),
        ],
    )
    .unwrap();
    let mapper = FnMapper::new(text_for_strings);
    assert_eq!(def.fields(), vec!["id", "name", "description"]);
    assert_eq!(def.field_constraints("name", &mapper), Some("TEXT UNIQUE NOT NULL".to_string()));
    assert_eq!(def.field_constraints("description", &mapper), Some("TEXT".to_string()));
    assert_eq!(def.field_type("id", &mapper), Some("TEXT".to_string()));
}

#[test]
fn inferred_types_follow_the_declared_type() {
    let def = model();
    let mapper = FnMapper::new(text_for_strings);
    assert_eq!(def.field_type("login_count", &mapper), Some("BIGINT".to_string()));
    assert_eq!(def.field_constraints("login_count", &mapper), Some("BIGINT NOT NULL".to_string()));
}

#[test]
fn explicit_type_never_consults_the_mapper() {
    let calls = Cell::new(0u32);
    let mapper = FnMapper::new(|_field: &str, _sample: &SampleValue| {
        calls.set(calls.get() + 1);
        "TEXT".to_string()
    });
    let def = model();
    assert_eq!(def.field_type("id", &mapper), Some("UUID".to_string()));
    assert_eq!(def.field_constraints("id", &mapper), Some("UUID".to_string()));
    assert_eq!(calls.get(), 0);
}

#[test]
fn unknown_field_never_consults_the_mapper() {
    let calls = Cell::new(0u32);
    let mapper = FnMapper::new(|_field: &str, _sample: &SampleValue| {
        calls.set(calls.get() + 1);
        "TEXT".to_string()
    });
    let def = model();
    assert_eq!(def.field_type("nothing", &mapper), None);
    assert_eq!(def.field_constraints("nothing", &mapper), None);
    assert_eq!(calls.get(), 0);
}

#[test]
fn inference_consults_the_mapper_once() {
    let calls = Cell::new(0u32);
    let mapper = FnMapper::new(|_field: &str, _sample: &SampleValue| {
        calls.set(calls.get() + 1);
        "TEXT".to_string()
    });
    let def = model();
    assert_eq!(def.field_type("name", &mapper), Some("TEXT".to_string()));
    assert_eq!(calls.get(), 1);
    assert_eq!(def.field_constraints("name", &mapper), Some("TEXT UNIQUE NOT NULL".to_string()));
    assert_eq!(calls.get(), 2);
}

#[test]
fn the_plan_consults_the_mapper_once_for_each_inferred_field() {
    let calls = Cell::new(0u32);
    let mapper = FnMapper::new(|_field: &str, _sample: &SampleValue| {
        calls.set(calls.get() + 1);
        "TEXT".to_string()
    });
    let plan = model().sync_plan(&mapper);
    assert_eq!(plan.columns.len(), 4);
    assert_eq!(calls.get(), 3);
}

#[test]
fn the_mapper_sees_the_canonical_name_and_the_default_value() {
    let seen: RefCell<Vec<(String, String)>> = RefCell::new(Vec::new());
    let mapper = FnMapper::new(|field: &str, sample: &SampleValue| {
        seen.borrow_mut().push((field.to_string(), format!("{:?}", sample)));
        "ANY".to_string()
    });
    let def = model();
    def.field_type("login_count", &mapper);
    def.field_type("name", &mapper);
    assert_eq!(
        *seen.borrow(),
        vec![
            ("login_count".to_string(), "U64(0)".to_string()),
            ("name".to_string(), "Text(\"\")".to_string()),
        ]
    );
}

#[test]
fn equivalent_mappers_give_identical_strings() {
    let first = FnMapper::new(text_for_strings);
    let second = FnMapper::new(|field: &str, sample: &SampleValue| {
        let mut ty = String::new();
        ty.push_str(&text_for_strings(field, sample));
        ty
    });
    let def = model();
    for name in ["id", "name", "description", "login_count", "unknown"] {
        assert_eq!(def.field_type(name, &first), def.field_type(name, &second));
        assert_eq!(def.field_constraints(name, &first), def.field_constraints(name, &second));
        assert_eq!(def.field_type(name, &first), def.field_type(name, &first));
        assert_eq!(def.field_constraints(name, &first), def.field_constraints(name, &first));
    }
}

#[test]
fn inferred_types_are_trimmed_in_constraints_only() {
    let mapper = FnMapper::new(|_field: &str, _sample: &SampleValue| "  INT ".to_string());
    let def = model();
    assert_eq!(def.field_type("description", &mapper), Some("  INT ".to_string()));
    assert_eq!(def.field_constraints("description", &mapper), Some("INT".to_string()));
    assert_eq!(def.field_constraints("name", &mapper), Some("INT  UNIQUE NOT NULL".to_string()));
}

#[test]
fn an_empty_inferred_type_leaves_the_keywords() {
    let mapper = FnMapper::new(|_field: &str, _sample: &SampleValue| String::new());
    let def = model();
    assert_eq!(def.field_type("name", &mapper), Some(String::new()));
    assert_eq!(def.field_constraints("name", &mapper), Some("UNIQUE NOT NULL".to_string()));
    assert_eq!(def.field_constraints("login_count", &mapper), Some("NOT NULL".to_string()));
    assert_eq!(def.field_constraints("description", &mapper), Some(String::new()));
}

#[test]
fn a_function_mapper_answers_like_its_function() {
    let mapper = FnMapper::new(text_for_strings);
    assert_eq!(mapper.infer_type("flag", &SampleValue::Bool(false)), "BOOLEAN");
    assert_eq!(mapper.infer_type("blob", &SampleValue::Binary(Vec::new())), "BLOB");
}
