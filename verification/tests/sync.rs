use rbatis_schema::entity::EntityDefinition;
use rbatis_schema::field::FieldInput;
use rbatis_schema::dialect::Dialect;
use rbatis_schema::sample::DeclaredType;

fn field(name: &str, unique: bool, not_null: bool, sql_type: Option<&str>) -> FieldInput {
    FieldInput {
        name: name.to_string(),
        declared_type: DeclaredType::Text,
        unique,
        not_null,
        select: true,
        sql_type: sql_type.map(|ty| ty.to_string()),
    }
}

fn model() -> EntityDefinition {
    EntityDefinition::new(
        "TestModel",
        Some("test".to_string()),
        vec![
            field("id", false, false, Some("UUID")),
            field("displayName", true, true, None),
            field("description", false, false, None),
        ],
    )
    .unwrap()
}

#[test]
fn plan_lists_every_field_in_order() {
    let plan = model().sync_plan(&Dialect::Postgres);
    let names: Vec<&str> = plan.columns.iter().map(|c| c.name.as_str()).collect();
    assert_eq!(names, vec!["id", "display_name", "description"]);
}

#[test]
fn plan_carries_the_constraint_strings() {
    let plan = model().sync_plan(&Dialect::Postgres);
    let texts: Vec<&str> = plan.columns.iter().map(|c| c.constraints.as_str()).collect();
    assert_eq!(texts, vec!["UUID", "TEXT UNIQUE NOT NULL", "TEXT"]);
}

#[test]
fn plan_carries_the_table_name() {
    assert_eq!(model().sync_plan(&Dialect::Sqlite).table_name, "test");
    let def = EntityDefinition::new("OrderLine", None, vec![]).unwrap();
    let plan = def.sync_plan(&Dialect::Sqlite);
    assert_eq!(plan.table_name, "order_line");
    assert!(plan.columns.is_empty());
}

#[test]
fn plan_agrees_with_the_lookups() {
    let def = model();
    for dialect in [Dialect::Sqlite, Dialect::Mysql, Dialect::Mssql, Dialect::Postgres] {
        let plan = def.sync_plan(&dialect);
        assert_eq!(plan.columns.len(), def.len());
        for (column, name) in plan.columns.iter().zip(def.fields()) {
            assert_eq!(column.name, name);
            assert_eq!(Some(column.constraints.clone()), def.field_constraints(&name, &dialect));
        }
    }
}

#[test]
fn plan_depends_on_the_dialect() {
    let def = model();
    assert_eq!(def.sync_plan(&Dialect::Mssql).columns[2].constraints, "NVARCHAR(MAX)");
    assert_eq!(def.sync_plan(&Dialect::Mysql).columns[2].constraints, "TEXT");
}

#[test]
fn plan_names_no_column_twice() {
    let plan = model().sync_plan(&Dialect::Postgres);
    let mut names: Vec<&str> = plan.columns.iter().map(|c| c.name.as_str()).collect();
    names.sort();
    names.dedup();
    assert_eq!(names.len(), plan.columns.len());
}
