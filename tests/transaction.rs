use sqlx_adapter::actions::{add_policies, remove_policies, save_policy};
use sqlx_adapter::adapter::SqlxAdapter;
use sqlx_adapter::error::AdapterError;
use sqlx_adapter::identifier::TableName;
use sqlx_adapter::models::{CasbinRule, NewCasbinRule};
use sqlx_adapter::sql::{Dialect, RowCheck};
use sqlx_adapter::transaction::{Transaction, TxAction, TxEvent, TxPhase};

fn strings(items: &[&str]) -> Vec<String> {
    items.iter().map(|s| s.to_string()).collect()
}

fn rows(n: usize) -> Vec<NewCasbinRule> {
    (0..n).map(|i| NewCasbinRule::new("p", strings(&["user", &format!("data{i}"), "read"]))).collect()
}

fn stored(id: i64, row: &NewCasbinRule) -> CasbinRule {
    CasbinRule {
        id,
        ptype: row.ptype.clone(),
        v0: row.v0.clone(),
        v1: row.v1.clone(),
        v2: row.v2.clone(),
        v3: row.v3.clone(),
        v4: row.v4.clone(),
        v5: row.v5.clone(),
    }
}

#[test]
fn batch_commits_after_every_row() {
    let mut tx = add_policies(Dialect::Postgres, &TableName::default_table(), rows(3));
    assert_eq!(tx.len(), 3);
    assert_eq!(tx.advance(TxEvent::Opened), TxAction::Execute(0));
    assert_eq!(tx.advance(TxEvent::Executed(1)), TxAction::Execute(1));
    assert_eq!(tx.advance(TxEvent::Executed(1)), TxAction::Execute(2));
    assert_eq!(tx.advance(TxEvent::Executed(1)), TxAction::Commit);
    assert_eq!(tx.advance(TxEvent::Committed), TxAction::Done);
    assert_eq!(tx.current_phase(), TxPhase::Succeeded);
}

#[test]
fn batch_aborts_on_a_duplicate_row() {
    let mut tx = add_policies(Dialect::Postgres, &TableName::default_table(), rows(4));
    assert_eq!(tx.advance(TxEvent::Opened), TxAction::Execute(0));
    assert_eq!(tx.advance(TxEvent::Executed(1)), TxAction::Execute(1));
    assert_eq!(
        tx.advance(TxEvent::Failed(AdapterError::ConstraintViolation)),
        TxAction::Abort(AdapterError::ConstraintViolation)
    );
    assert_eq!(tx.advance(TxEvent::Executed(1)), TxAction::Abort(AdapterError::ConstraintViolation));
    assert_eq!(tx.current_phase(), TxPhase::Failed(AdapterError::ConstraintViolation));
}

#[test]
fn batch_aborts_when_a_delete_misses() {
    let rules = vec![strings(&["alice", "data1", "read"]), strings(&["bob", "data2", "write"])];
    let mut tx = remove_policies(Dialect::MySql, &TableName::default_table(), "p", rules);
    assert_eq!(tx.query(1).args[1], Some("bob".to_string()));
    assert_eq!(tx.query(1).check, RowCheck::ExactlyOne);
    assert_eq!(tx.advance(TxEvent::Opened), TxAction::Execute(0));
    assert_eq!(tx.advance(TxEvent::Executed(1)), TxAction::Execute(1));
    assert_eq!(tx.advance(TxEvent::Executed(0)), TxAction::Abort(AdapterError::RowNotFound));
}

#[test]
fn batch_reports_open_and_commit_failures() {
    let mut tx = add_policies(Dialect::Postgres, &TableName::default_table(), rows(1));
    assert_eq!(
        tx.advance(TxEvent::Failed(AdapterError::StoreConnectivity)),
        TxAction::Abort(AdapterError::StoreConnectivity)
    );
    let mut tx = add_policies(Dialect::Postgres, &TableName::default_table(), rows(1));
    tx.advance(TxEvent::Opened);
    assert_eq!(tx.advance(TxEvent::Executed(1)), TxAction::Commit);
    assert_eq!(
        tx.advance(TxEvent::Failed(AdapterError::StoreProtocol)),
        TxAction::Abort(AdapterError::StoreProtocol)
    );
}

#[test]
fn empty_batch_commits_at_once() {
    let mut tx = Transaction::new(Vec::new());
    assert_eq!(tx.advance(TxEvent::Opened), TxAction::Commit);
    assert_eq!(tx.advance(TxEvent::Committed), TxAction::Done);
}

#[test]
fn out_of_order_event_is_a_protocol_error() {
    let mut tx = add_policies(Dialect::Postgres, &TableName::default_table(), rows(1));
    assert_eq!(tx.advance(TxEvent::Committed), TxAction::Abort(AdapterError::StoreProtocol));
}

#[test]
fn save_clears_before_inserting() {
    let mut tx = save_policy(Dialect::Sqlite, &TableName::default_table(), rows(2));
    assert_eq!(tx.len(), 3);
    assert_eq!(tx.query(0).sql, "DELETE FROM casbin_rule");
    assert_eq!(tx.query(0).check, RowCheck::Any);
    assert!(tx.query(1).sql.starts_with("INSERT INTO casbin_rule"));
    assert_eq!(tx.advance(TxEvent::Opened), TxAction::Execute(0));
    assert_eq!(tx.advance(TxEvent::Executed(17)), TxAction::Execute(1));
    assert_eq!(tx.advance(TxEvent::Executed(1)), TxAction::Execute(2));
    assert_eq!(tx.advance(TxEvent::Executed(1)), TxAction::Commit);
}

#[test]
fn adapter_rejects_bad_table_name() {
    assert!(matches!(
        SqlxAdapter::new_with_table_name(Dialect::Postgres, "rules; DROP TABLE users"),
        Err(AdapterError::InvalidIdentifier)
    ));
    let a = SqlxAdapter::new_with_table_name(Dialect::MySql, "rules").unwrap();
    assert_eq!(a.table().as_str(), "rules");
    assert_eq!(a.dialect(), Dialect::MySql);
    assert!(!a.is_filtered());
}

#[test]
fn filtered_load_sets_the_flag_only_on_success() {
    let mut a = SqlxAdapter::new(Dialect::Postgres);
    assert_eq!(a.load_filtered_policy_done(Err(AdapterError::StoreConnectivity)).unwrap_err(), AdapterError::StoreConnectivity);
    assert!(!a.is_filtered());
    let row = NewCasbinRule::new("g", strings(&["alice", "admin"]));
    let rules = a.load_filtered_policy_done(Ok(vec![stored(7, &row)])).unwrap();
    assert!(a.is_filtered());
    assert_eq!(rules[0].rule, strings(&["alice", "admin"]));
}

#[test]
fn provision_insert_load_clear() {
    let a = SqlxAdapter::new(Dialect::Postgres);
    let t = a.table();
    assert!(sqlx_adapter::actions::new(a.dialect()).sql.starts_with("CREATE TABLE IF NOT EXISTS casbin_rule"));
    let p = NewCasbinRule::new("p", strings(&["admin", "data1", "read"]));
    let g = NewCasbinRule::new("g", strings(&["alice", "admin"]));
    let insert_p = sqlx_adapter::actions::add_policy(a.dialect(), t, &p);
    let insert_g = sqlx_adapter::actions::add_policy(a.dialect(), t, &g);
    assert_eq!(insert_p.args[1..4], [Some("admin".to_string()), Some("data1".to_string()), Some("read".to_string())]);
    assert_eq!(insert_g.args[4], Some(String::new()));
    let loaded = sqlx_adapter::models::rows_to_rules(&vec![stored(1, &p), stored(2, &g)]);
    assert_eq!(loaded.len(), 2);
    assert_eq!((loaded[0].ptype.as_str(), loaded[0].rule.clone()), ("p", strings(&["admin", "data1", "read"])));
    assert_eq!((loaded[1].ptype.as_str(), loaded[1].rule.clone()), ("g", strings(&["alice", "admin"])));
    assert_eq!(sqlx_adapter::actions::clear_policy(t).sql, "DELETE FROM casbin_rule");
    assert!(sqlx_adapter::models::rows_to_rules(&Vec::new()).is_empty());
}
