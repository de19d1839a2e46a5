use diesel::expression::expression_methods::NullableExpressionMethods;
use diesel::expression::{Column, Grouped, QuerySource, SqlLiteral, TableColumn};
use diesel::query_builder::update_statement::{AsChangeset, Assign, BatchChangeset};
use diesel::query_builder::{AstPass, QueryFragment, QueryId};
use diesel::types::{Nullable, Text, VarChar};

struct Users;

impl QuerySource for Users {}

fn name_column() -> TableColumn<Users, VarChar> {
    TableColumn::new("users".to_string(), "name".to_string())
}

fn hair_color_column() -> TableColumn<Users, Nullable<Text>> {
    TableColumn::new("users".to_string(), "hair_color".to_string())
}

fn render<F: QueryFragment<()>>(f: &F) -> String {
    let mut pass: AstPass<()> = AstPass::new();
    assert!(f.walk_ast(&mut pass).is_ok());
    pass.finish().0
}

#[test]
fn column_knows_its_table_and_name() {
    let c = name_column();
    assert_eq!(c.table(), "users");
    assert_eq!(c.name(), "name");
    assert_eq!(render(&c), "users.name");
}

#[test]
fn eq_becomes_an_assignment() {
    let e = diesel::expression::Eq::new(name_column(), SqlLiteral::new("'Sean'".to_string()));
    let a: Assign<TableColumn<Users, VarChar>, SqlLiteral> = e.as_changeset();
    assert_eq!(a.column.name(), "name");
    assert_eq!(render(&a), "name = 'Sean'");
}

#[test]
fn grouped_eq_becomes_the_same_assignment() {
    let e = Grouped(diesel::expression::Eq::new(name_column(), SqlLiteral::new("'Jim'".to_string())));
    let a = e.as_changeset();
    assert_eq!(render(&a), "name = 'Jim'");
}

#[test]
fn option_changeset_maps_inside() {
    let some = Some(diesel::expression::Eq::new(name_column(), SqlLiteral::new("1".to_string())));
    let c = some.as_changeset();
    assert!(c.is_some());
    assert_eq!(render(&c.unwrap()), "name = 1");

    let none: Option<diesel::expression::Eq<TableColumn<Users, VarChar>, SqlLiteral>> = None;
    assert!(none.as_changeset().is_none());
}

#[test]
fn vec_changeset_keeps_the_order() {
    let v = vec![
        diesel::expression::Eq::new(name_column(), SqlLiteral::new("'a'".to_string())),
        diesel::expression::Eq::new(name_column(), SqlLiteral::new("'b'".to_string())),
        diesel::expression::Eq::new(name_column(), SqlLiteral::new("'c'".to_string())),
    ];
    let batch: BatchChangeset<Vec<Assign<TableColumn<Users, VarChar>, SqlLiteral>>> = v.as_changeset();
    let rendered: Vec<String> = batch.changesets.iter().map(render).collect();
    assert_eq!(rendered, vec!["name = 'a'", "name = 'b'", "name = 'c'"]);
}

#[test]
fn empty_vec_changeset_is_an_empty_batch() {
    let v: Vec<diesel::expression::Eq<TableColumn<Users, VarChar>, SqlLiteral>> = Vec::new();
    assert!(v.as_changeset().changesets.is_empty());
}

#[test]
fn batch_update_pieces_of_an_assignment() {
    let a = diesel::expression::Eq::new(name_column(), SqlLiteral::new("'Sean'".to_string())).as_changeset();

    let mut values: AstPass<()> = AstPass::new();
    assert!(a.walk_values(&mut values).is_ok());
    assert_eq!(values.finish().0, "'Sean'");

    let mut columns: AstPass<()> = AstPass::new();
    assert!(a.walk_column_list(&mut columns).is_ok());
    assert_eq!(columns.finish().0, "name");

    let mut assigns: AstPass<()> = AstPass::new();
    assert!(a.walk_assign_list(&mut assigns).is_ok());
    assert_eq!(assigns.finish().0, "users.name = r.name");
}

#[test]
fn is_null_on_a_nullable_column() {
    assert_eq!(render(&hair_color_column().is_null()), "users.hair_color IS NULL");
    assert_eq!(render(&hair_color_column().is_not_null()), "users.hair_color IS NOT NULL");
}

#[test]
fn is_null_keeps_the_expression() {
    let p = hair_color_column().is_null();
    assert_eq!(p.expr.name(), "hair_color");
}

#[test]
fn changeset_targets_the_columns_table() {
    fn target_of<C: AsChangeset<Target = Users>>(c: C) -> C::Changeset {
        c.as_changeset()
    }
    let a = target_of(diesel::expression::Eq::new(name_column(), SqlLiteral::new("1".to_string())));
    assert_eq!(render(&a), "name = 1");
}

#[test]
fn query_ids_of_assignments() {
    assert!(<TableColumn<Users, VarChar> as QueryId>::HAS_STATIC_QUERY_ID);
    assert!(!<SqlLiteral as QueryId>::HAS_STATIC_QUERY_ID);
    assert!(!<Assign<TableColumn<Users, VarChar>, SqlLiteral> as QueryId>::HAS_STATIC_QUERY_ID);
    assert!(<Assign<TableColumn<Users, VarChar>, TableColumn<Users, VarChar>> as QueryId>::HAS_STATIC_QUERY_ID);
}
