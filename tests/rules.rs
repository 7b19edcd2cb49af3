use sqlx_adapter::identifier::{validate, TableName};
use sqlx_adapter::error::AdapterError;
use sqlx_adapter::models::{rows_to_rules, CasbinRule, NewCasbinRule};
use sqlx_adapter::rule::{normalize_casbin_rule, normalize_casbin_rule_option, trim_rule};

fn strings(items: &[&str]) -> Vec<String> {
    items.iter().map(|s| s.to_string()).collect()
}

fn stored(id: i64, row: &NewCasbinRule) -> CasbinRule {
    CasbinRule {
        id,
        ptype: row.ptype.clone(),
        v0: row.v0.clone(),
        v1: row.v1.clone(),
        v2: row.v2.clone(),
        v3: row.v3.clone(),
        v4: row.v4.clone(),
        v5: row.v5.clone(),
    }
}

#[test]
fn validate_accepts_identifier_characters() {
    assert_eq!(validate("casbin_rule"), Ok(()));
    assert_eq!(validate("Schema.Rules_2024"), Ok(()));
    assert_eq!(validate(""), Ok(()));
}

#[test]
fn validate_rejects_other_characters() {
    for name in ["casbin rule", "rules;DROP TABLE x", "a'b", "a\"b", "a-b", "t\n", "r\u{e8}gles", "x/*"] {
        assert_eq!(validate(name), Err(AdapterError::InvalidIdentifier), "{name}");
    }
}

#[test]
fn table_name_keeps_valid_text() {
    let t = TableName::parse("auth.rules").unwrap();
    assert_eq!(t.as_str(), "auth.rules");
    assert_eq!(TableName::default_table().as_str(), "casbin_rule");
    assert!(matches!(TableName::parse("rules where 1=1"), Err(AdapterError::InvalidIdentifier)));
}

#[test]
fn normalize_pads_to_six() {
    assert_eq!(normalize_casbin_rule(strings(&["alice", "data1", "read"])), strings(&["alice", "data1", "read", "", "", ""]));
    assert_eq!(normalize_casbin_rule(Vec::new()), strings(&["", "", "", "", "", ""]));
    let full = strings(&["a", "b", "c", "d", "e", "f"]);
    assert_eq!(normalize_casbin_rule(full.clone()), full);
}

#[test]
fn normalize_option_maps_empty_to_none() {
    assert_eq!(
        normalize_casbin_rule_option(strings(&["alice", "", "read"])),
        vec![Some("alice".to_string()), None, Some("read".to_string()), None, None, None]
    );
    assert_eq!(normalize_casbin_rule_option(Vec::new()), vec![None, None, None, None, None, None]);
}

#[test]
fn trim_drops_only_trailing_empty_fields() {
    assert_eq!(trim_rule(strings(&["a", "", "b", "", ""])), strings(&["a", "", "b"]));
    assert_eq!(trim_rule(strings(&["", "", ""])), Vec::<String>::new());
    assert_eq!(trim_rule(strings(&["x"])), strings(&["x"]));
}

#[test]
fn new_row_is_padded() {
    let row = NewCasbinRule::new("g", strings(&["alice", "admin"]));
    assert_eq!(row.ptype, "g");
    assert_eq!((row.v0.as_str(), row.v1.as_str(), row.v2.as_str(), row.v5.as_str()), ("alice", "admin", "", ""));
}

#[test]
fn padded_rule_round_trips() {
    for rule in [strings(&[]), strings(&["alice", "data1", "read"]), strings(&["", "x"]), strings(&["a", "b", "c", "d", "e", "f"])] {
        let row = NewCasbinRule::new("p", rule.clone());
        let back = stored(1, &row).to_abstract();
        assert_eq!(back.ptype, "p");
        assert_eq!(back.rule, rule);
    }
}

#[test]
fn trailing_empty_fields_are_lost_once() {
    let row = NewCasbinRule::new("p", strings(&["alice", "", ""]));
    let once = stored(1, &row).to_abstract();
    assert_eq!(once.rule, strings(&["alice"]));
    let twice = stored(2, &NewCasbinRule::new("p", once.rule.clone())).to_abstract();
    assert_eq!(twice.rule, once.rule);
}

#[test]
fn rows_map_to_rules_in_order() {
    let rows = vec![
        stored(1, &NewCasbinRule::new("p", strings(&["admin", "data1", "read"]))),
        stored(2, &NewCasbinRule::new("g", strings(&["alice", "admin"]))),
    ];
    let rules = rows_to_rules(&rows);
    assert_eq!(rules.len(), 2);
    assert_eq!((rules[0].ptype.as_str(), rules[0].rule.clone()), ("p", strings(&["admin", "data1", "read"])));
    assert_eq!((rules[1].ptype.as_str(), rules[1].rule.clone()), ("g", strings(&["alice", "admin"])));
}
