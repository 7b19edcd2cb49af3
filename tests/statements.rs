use sqlx_adapter::actions::{
    add_policy, clear_policy, filtered_where_values, load_filtered_policy, load_policy, new,
    new_with_table_name, remove_filtered_policy, remove_policy,
};
use sqlx_adapter::error::AdapterError;
use sqlx_adapter::identifier::TableName;
use sqlx_adapter::models::{Filter, NewCasbinRule};
use sqlx_adapter::sql::{Dialect, RowCheck};

fn strings(items: &[&str]) -> Vec<String> {
    items.iter().map(|s| s.to_string()).collect()
}

fn some(items: &[&str]) -> Vec<Option<String>> {
    items.iter().map(|s| Some(s.to_string())).collect()
}

fn table() -> TableName {
    TableName::default_table()
}

#[test]
fn exact_delete_in_each_dialect() {
    let q = remove_policy(Dialect::Postgres, &table(), "p", strings(&["alice", "data1", "read"]));
    assert_eq!(
        q.sql,
        "DELETE FROM casbin_rule WHERE ptype = $1 AND v0 = $2 AND v1 = $3 AND v2 = $4 AND v3 = $5 AND v4 = $6 AND v5 = $7"
    );
    assert_eq!(q.args, some(&["p", "alice", "data1", "read", "", "", ""]));
    assert_eq!(q.check, RowCheck::ExactlyOne);
    let q = remove_policy(Dialect::MySql, &table(), "p", strings(&["alice"]));
    assert_eq!(
        q.sql,
        "DELETE FROM casbin_rule WHERE ptype = ? AND v0 = ? AND v1 = ? AND v2 = ? AND v3 = ? AND v4 = ? AND v5 = ?"
    );
    let q = remove_policy(Dialect::Sqlite, &table(), "p", strings(&["alice"]));
    assert_eq!(
        q.sql,
        "DELETE FROM casbin_rule WHERE ptype = ?1 AND v0 = ?2 AND v1 = ?3 AND v2 = ?4 AND v3 = ?5 AND v4 = ?6 AND v5 = ?7"
    );
}

#[test]
fn filtered_delete_from_last_column() {
    let q = remove_filtered_policy(Dialect::Postgres, &table(), "p", 5, strings(&["write"]));
    assert_eq!(
        q.sql,
        "DELETE FROM casbin_rule WHERE ptype = $1 AND (v5 is NULL OR v5 = COALESCE($2,v5))"
    );
    assert_eq!(q.args, some(&["p", "write"]));
    assert_eq!(q.check, RowCheck::AtLeastOne);
}

#[test]
fn filtered_delete_from_second_column() {
    let q = remove_filtered_policy(Dialect::Sqlite, &table(), "g", 1, strings(&["", "domain1"]));
    assert_eq!(
        q.sql,
        "DELETE FROM casbin_rule WHERE ptype = ?1 AND (v1 is NULL OR v1 = COALESCE(?2,v1)) AND (v2 is NULL OR v2 = COALESCE(?3,v2)) AND (v3 is NULL OR v3 = COALESCE(?4,v3)) AND (v4 is NULL OR v4 = COALESCE(?5,v4)) AND (v5 is NULL OR v5 = COALESCE(?6,v5))"
    );
    assert_eq!(
        q.args,
        vec![Some("g".to_string()), None, Some("domain1".to_string()), None, None, None]
    );
}

#[test]
fn filtered_delete_with_nothing_given_binds_only_nulls() {
    let q = remove_filtered_policy(Dialect::MySql, &table(), "p", 0, Vec::new());
    assert_eq!(
        q.sql,
        "DELETE FROM casbin_rule WHERE ptype = ? AND (v0 is NULL OR v0 = COALESCE(?,v0)) AND (v1 is NULL OR v1 = COALESCE(?,v1)) AND (v2 is NULL OR v2 = COALESCE(?,v2)) AND (v3 is NULL OR v3 = COALESCE(?,v3)) AND (v4 is NULL OR v4 = COALESCE(?,v4)) AND (v5 is NULL OR v5 = COALESCE(?,v5))"
    );
    assert_eq!(q.args, vec![Some("p".to_string()), None, None, None, None, None, None]);
}

#[test]
fn filtered_delete_with_all_values_binds_the_tuple() {
    let values = strings(&["alice", "data1", "read", "x", "y", "z"]);
    let filtered = remove_filtered_policy(Dialect::Postgres, &table(), "p", 0, values.clone());
    let exact = remove_policy(Dialect::Postgres, &table(), "p", values);
    assert_eq!(filtered.args, exact.args);
}

#[test]
fn insert_statement_binds_the_padded_row() {
    let row = NewCasbinRule::new("p", strings(&["admin", "data1", "read"]));
    let q = add_policy(Dialect::Postgres, &table(), &row);
    assert_eq!(
        q.sql,
        "INSERT INTO casbin_rule ( ptype, v0, v1, v2, v3, v4, v5 ) VALUES ( $1, $2, $3, $4, $5, $6, $7 )"
    );
    assert_eq!(q.args, some(&["p", "admin", "data1", "read", "", "", ""]));
    assert_eq!(q.check, RowCheck::ExactlyOne);
    let q = add_policy(Dialect::MySql, &table(), &row);
    assert_eq!(q.sql, "INSERT INTO casbin_rule ( ptype, v0, v1, v2, v3, v4, v5 ) VALUES ( ?, ?, ?, ?, ?, ?, ? )");
}

#[test]
fn where_values_default_to_wildcard() {
    let filter = Filter { p: Vec::new(), g: strings(&["alice", "", "", "", "", ""]) };
    let (g, p) = filtered_where_values(&filter);
    assert_eq!(g, strings(&["alice", "%", "%", "%", "%", "%"]));
    assert_eq!(p, strings(&["%", "%", "%", "%", "%", "%"]));
}

#[test]
fn filtered_load_binds_twelve_patterns() {
    let filter = Filter { p: strings(&["", "", "", "", "", ""]), g: strings(&["alice", "", "", "", "", ""]) };
    let q = load_filtered_policy(Dialect::Postgres, &table(), &filter);
    assert_eq!(
        q.sql,
        "SELECT id, ptype, v0, v1, v2, v3, v4, v5 FROM casbin_rule WHERE ( ptype LIKE 'g%' AND v0 LIKE $1 AND v1 LIKE $2 AND v2 LIKE $3 AND v3 LIKE $4 AND v4 LIKE $5 AND v5 LIKE $6 ) OR ( ptype LIKE 'p%' AND v0 LIKE $7 AND v1 LIKE $8 AND v2 LIKE $9 AND v3 LIKE $10 AND v4 LIKE $11 AND v5 LIKE $12 )"
    );
    assert_eq!(q.args, some(&["alice", "%", "%", "%", "%", "%", "%", "%", "%", "%", "%", "%"]));
    let q = load_filtered_policy(Dialect::MySql, &table(), &filter);
    assert!(q.sql.ends_with("AND v4 LIKE ? AND v5 LIKE ? )"));
    let q = load_filtered_policy(Dialect::Sqlite, &table(), &filter);
    assert!(q.sql.ends_with("AND v4 LIKE ?11 AND v5 LIKE ?12 )"));
}

#[test]
fn plain_statements() {
    let t = TableName::parse("rules").unwrap();
    assert_eq!(load_policy(&t).sql, "SELECT id, ptype, v0, v1, v2, v3, v4, v5 FROM rules");
    assert_eq!(clear_policy(&t).sql, "DELETE FROM rules");
    assert!(load_policy(&t).args.is_empty());
    assert_eq!(clear_policy(&t).check, RowCheck::Any);
}

#[test]
fn create_table_in_each_dialect() {
    let t = TableName::parse("rules").unwrap();
    assert_eq!(
        new_with_table_name(Dialect::Postgres, &t).sql,
        "CREATE TABLE IF NOT EXISTS rules ( id SERIAL PRIMARY KEY, ptype VARCHAR NOT NULL, v0 VARCHAR NOT NULL, v1 VARCHAR NOT NULL, v2 VARCHAR NOT NULL, v3 VARCHAR NOT NULL, v4 VARCHAR NOT NULL, v5 VARCHAR NOT NULL, CONSTRAINT unique_key_sqlx_adapter_rules UNIQUE(ptype, v0, v1, v2, v3, v4, v5) )"
    );
    assert_eq!(
        new_with_table_name(Dialect::MySql, &t).sql,
        "CREATE TABLE IF NOT EXISTS rules ( id INT NOT NULL AUTO_INCREMENT, ptype VARCHAR(12) NOT NULL, v0 VARCHAR(128) NOT NULL, v1 VARCHAR(128) NOT NULL, v2 VARCHAR(128) NOT NULL, v3 VARCHAR(128) NOT NULL, v4 VARCHAR(128) NOT NULL, v5 VARCHAR(128) NOT NULL, PRIMARY KEY(id), CONSTRAINT unique_key_sqlx_adapter_rules UNIQUE(ptype, v0, v1, v2, v3, v4, v5) ) ENGINE=InnoDB DEFAULT CHARSET=utf8"
    );
    assert!(new(Dialect::Sqlite).sql.starts_with("CREATE TABLE IF NOT EXISTS casbin_rule ( id INTEGER PRIMARY KEY AUTOINCREMENT,"));
}

#[test]
fn duplicate_insert_fails() {
    let row = NewCasbinRule::new("p", strings(&["alice", "data1", "read"]));
    let first = add_policy(Dialect::Postgres, &table(), &row);
    let second = add_policy(Dialect::Postgres, &table(), &row);
    assert_eq!(first.args, second.args);
    assert_eq!(first.outcome(Ok(1)), Ok(true));
    assert_eq!(second.outcome(Err(AdapterError::ConstraintViolation)), Err(AdapterError::ConstraintViolation));
    assert_eq!(second.outcome(Ok(0)), Ok(false));
}

#[test]
fn filtered_delete_outcome_needs_a_row() {
    let q = remove_filtered_policy(Dialect::Postgres, &table(), "p", 0, Vec::new());
    assert_eq!(q.outcome(Ok(0)), Ok(false));
    assert_eq!(q.outcome(Ok(3)), Ok(true));
    assert_eq!(q.outcome(Err(AdapterError::StoreConnectivity)), Err(AdapterError::StoreConnectivity));
}
