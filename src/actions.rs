use vstd::prelude::*;

use crate::identifier::TableName;
use crate::models::{Filter, NewCasbinRule};
use crate::rule::{normalize_casbin_rule, normalize_casbin_rule_option, pad_constraints, pad_fields, FIELD_COUNT};
use crate::transaction::{Transaction, TxPhase};
use crate::sql::{
    clear_sql, clear_text, create_table_sql, create_table_text, exact_delete_sql, exact_delete_text,
    filtered_delete_sql, filtered_delete_text, insert_sql, insert_text, select_all_sql,
    select_all_text, select_filtered_sql, select_filtered_text, Dialect, Query, RowCheck,
};

verus! {

/// Parameters binding a type tag followed by the given fields.
pub open spec fn bound_row(ptype: Seq<char>, fields: Seq<Seq<char>>) -> Seq<Option<Seq<char>>> {
    seq![Some(ptype)] + fields.map_values(|f: Seq<char>| Some(f))
}

/// The match-any pattern `%`.
pub open spec fn wildcard() -> Seq<char> {
    "%"@
}

/// The pattern for position `i`: the filter's value where it is given and non-empty,
/// the wildcard otherwise.
pub open spec fn pattern_at(values: Seq<Seq<char>>, i: int) -> Seq<char> {
    if i < values.len() && values[i].len() > 0 {
        values[i]
    } else {
        wildcard()
    }
}

/// The six patterns bound for one rule category.
pub open spec fn like_patterns(values: Seq<Seq<char>>) -> Seq<Seq<char>> {
    Seq::new(FIELD_COUNT as nat, |i: int| pattern_at(values, i))
}

fn bind_row(ptype: &str, fields: &Vec<String>) -> (r: Vec<Option<String>>)
    ensures
        r.deep_view() == bound_row(ptype@, fields.deep_view()),
{
    let mut args: Vec<Option<String>> = Vec::new();
    args.push(Some(ptype.to_owned()));
    let mut i: usize = 0;
    while i < fields.len()
        invariant
            i <= fields@.len(),
            args.deep_view() =~= bound_row(ptype@, fields.deep_view().subrange(0, i as int)),
        decreases fields@.len() - i,
    {
        let ghost before = args.deep_view();
        args.push(Some(fields[i].clone()));
        assert(args.deep_view() =~= before.push(Some(fields.deep_view()[i as int])));
        assert(fields.deep_view().subrange(0, i + 1) =~= fields.deep_view().subrange(
            0,
            i as int,
        ).push(fields.deep_view()[i as int]));
        i = i + 1;
    }
    assert(fields.deep_view().subrange(0, i as int) =~= fields.deep_view());
    args
}

fn row_fields(rule: &NewCasbinRule) -> (r: Vec<String>)
    ensures
        r.deep_view() == rule.fields(),
{
    let mut fields: Vec<String> = Vec::new();
    fields.push(rule.v0.clone());
    fields.push(rule.v1.clone());
    fields.push(rule.v2.clone());
    fields.push(rule.v3.clone());
    fields.push(rule.v4.clone());
    fields.push(rule.v5.clone());
    assert(fields.deep_view() =~= rule.fields());
    fields
}

/// Creates the rule table under `table` unless it exists.
pub fn new_with_table_name(dialect: Dialect, table: &TableName) -> (q: Query)
    ensures
        q.sql@ == create_table_sql(dialect, table@),
        q.args@.len() == 0,
        q.check == RowCheck::Any,
{
    Query { sql: create_table_text(dialect, table), args: Vec::new(), check: RowCheck::Any }
}

/// Creates the rule table under the standard name `casbin_rule` unless it exists.
pub fn new(dialect: Dialect) -> (q: Query)
    ensures
        q.sql@ == create_table_sql(dialect, "casbin_rule"@),
        q.args@.len() == 0,
        q.check == RowCheck::Any,
{
    new_with_table_name(dialect, &TableName::default_table())
}

/// Deletes the row equal to `pt` and `rule` padded to six fields; it succeeds when
/// exactly one row went.
pub fn remove_policy(dialect: Dialect, table: &TableName, pt: &str, rule: Vec<String>) -> (q: Query)
    requires
        rule@.len() <= FIELD_COUNT,
    ensures
        q.sql@ == exact_delete_sql(dialect, table@),
        q.args.deep_view() == bound_row(pt@, pad_fields(rule.deep_view())),
        q.check == RowCheck::ExactlyOne,
{
    let fields = normalize_casbin_rule(rule);
    Query {
        sql: exact_delete_text(dialect, table),
        args: bind_row(pt, &fields),
        check: RowCheck::ExactlyOne,
    }
}

/// Deletes the rows of type `pt` whose columns from `field_index` on match
/// `field_values`; an empty value leaves its column unconstrained. It succeeds when
/// at least one row went.
pub fn remove_filtered_policy(
    dialect: Dialect,
    table: &TableName,
    pt: &str,
    field_index: usize,
    field_values: Vec<String>,
) -> (q: Query)
    requires
        field_index < FIELD_COUNT,
        field_values@.len() <= FIELD_COUNT,
    ensures
        q.sql@ == filtered_delete_sql(dialect, table@, field_index as nat),
        q.args.deep_view() == seq![Some(pt@)] + pad_constraints(field_values.deep_view()).take(
            FIELD_COUNT - field_index,
        ),
        q.check == RowCheck::AtLeastOne,
{
    let ghost given = field_values.deep_view();
    let values = normalize_casbin_rule_option(field_values);
    assert(values.deep_view().len() == FIELD_COUNT);
    let mut args: Vec<Option<String>> = Vec::new();
    args.push(Some(pt.to_owned()));
    let count = FIELD_COUNT - field_index;
    let mut i: usize = 0;
    while i < count
        invariant
            count == FIELD_COUNT - field_index,
            i <= count,
            values.deep_view() == pad_constraints(given),
            values@.len() == FIELD_COUNT,
            args.deep_view() =~= seq![Some(pt@)] + pad_constraints(given).take(i as int),
        decreases count - i,
    {
        let ghost before = args.deep_view();
        args.push(values[i].clone());
        assert(args.deep_view() =~= before.push(values.deep_view()[i as int]));
        assert(pad_constraints(given).take(i + 1) =~= pad_constraints(given).take(i as int).push(
            pad_constraints(given)[i as int],
        ));
        i = i + 1;
    }
    Query {
        sql: filtered_delete_text(dialect, table, field_index as u64),
        args,
        check: RowCheck::AtLeastOne,
    }
}

/// The patterns bound by a filtered load: for each category, the filter's non-empty
/// values where given and the wildcard `%` elsewhere.
pub fn filtered_where_values(filter: &Filter) -> (r: (Vec<String>, Vec<String>))
    requires
        filter.g@.len() <= FIELD_COUNT,
        filter.p@.len() <= FIELD_COUNT,
    ensures
        r.0.deep_view() == like_patterns(filter.g.deep_view()),
        r.1.deep_view() == like_patterns(filter.p.deep_view()),
{
    (patterns_of(&filter.g), patterns_of(&filter.p))
}

fn patterns_of(values: &Vec<String>) -> (r: Vec<String>)
    requires
        values@.len() <= FIELD_COUNT,
    ensures
        r.deep_view() == like_patterns(values.deep_view()),
{
    let mut out: Vec<String> = Vec::new();
    let mut i: usize = 0;
    while i < FIELD_COUNT
        invariant
            i <= FIELD_COUNT,
            values@.len() <= FIELD_COUNT,
            out.deep_view() =~= like_patterns(values.deep_view()).take(i as int),
        decreases FIELD_COUNT - i,
    {
        let ghost before = out.deep_view();
        if i < values.len() && !values[i].as_str().is_empty() {
            out.push(values[i].clone());
        } else {
            out.push(String::from_str("%"));
        }
        assert(out.deep_view() =~= before.push(pattern_at(values.deep_view(), i as int)));
        i = i + 1;
    }
    out
}

/// Selects every row.
pub fn load_policy(table: &TableName) -> (q: Query)
    ensures
        q.sql@ == select_all_sql(table@),
        q.args@.len() == 0,
        q.check == RowCheck::Any,
{
    Query { sql: select_all_text(table), args: Vec::new(), check: RowCheck::Any }
}

/// Selects the grouping rows that match `filter.g` and the policy rows that match
/// `filter.p`, position by position.
pub fn load_filtered_policy(dialect: Dialect, table: &TableName, filter: &Filter) -> (q: Query)
    requires
        filter.g@.len() <= FIELD_COUNT,
        filter.p@.len() <= FIELD_COUNT,
    ensures
        q.sql@ == select_filtered_sql(dialect, table@),
        q.args.deep_view() == (like_patterns(filter.g.deep_view()) + like_patterns(
            filter.p.deep_view(),
        )).map_values(|f: Seq<char>| Some(f)),
        q.check == RowCheck::Any,
{
    let (g, p) = filtered_where_values(filter);
    let mut args: Vec<Option<String>> = Vec::new();
    let ghost all = g.deep_view() + p.deep_view();
    let mut i: usize = 0;
    while i < FIELD_COUNT
        invariant
            i <= FIELD_COUNT,
            g@.len() == FIELD_COUNT,
            all == g.deep_view() + p.deep_view(),
            args.deep_view() =~= all.take(i as int).map_values(|f: Seq<char>| Some(f)),
        decreases FIELD_COUNT - i,
    {
        let ghost before = args.deep_view();
        args.push(Some(g[i].clone()));
        assert(args.deep_view() =~= before.push(Some(all[i as int])));
        i = i + 1;
    }
    let mut j: usize = 0;
    while j < FIELD_COUNT
        invariant
            j <= FIELD_COUNT,
            g@.len() == FIELD_COUNT,
            p@.len() == FIELD_COUNT,
            all == g.deep_view() + p.deep_view(),
            args.deep_view() =~= all.take(FIELD_COUNT + j).map_values(|f: Seq<char>| Some(f)),
        decreases FIELD_COUNT - j,
    {
        let ghost before = args.deep_view();
        args.push(Some(p[j].clone()));
        assert(args.deep_view() =~= before.push(Some(all[FIELD_COUNT + j])));
        j = j + 1;
    }
    assert(all.take(2 * FIELD_COUNT) =~= all);
    Query { sql: select_filtered_text(dialect, table), args, check: RowCheck::Any }
}

/// Inserts one row; it succeeds when exactly one row was added.
pub fn add_policy(dialect: Dialect, table: &TableName, rule: &NewCasbinRule) -> (q: Query)
    ensures
        q.sql@ == insert_sql(dialect, table@),
        q.args.deep_view() == bound_row(rule.ptype@, rule.fields()),
        q.check == RowCheck::ExactlyOne,
{
    let fields = row_fields(rule);
    Query {
        sql: insert_text(dialect, table),
        args: bind_row(rule.ptype.as_str(), &fields),
        check: RowCheck::ExactlyOne,
    }
}

/// Removes every row.
pub fn clear_policy(table: &TableName) -> (q: Query)
    ensures
        q.sql@ == clear_sql(table@),
        q.args@.len() == 0,
        q.check == RowCheck::Any,
{
    Query { sql: clear_text(table), args: Vec::new(), check: RowCheck::Any }
}

/// Deletes each rule in `rules` exactly, all in one transaction; the batch fails and
/// rolls back unless every delete removes exactly one row.
pub fn remove_policies(
    dialect: Dialect,
    table: &TableName,
    pt: &str,
    rules: Vec<Vec<String>>,
) -> (t: Transaction)
    requires
        forall|i: int| 0 <= i < rules@.len() ==> (#[trigger] rules@[i])@.len() <= FIELD_COUNT,
    ensures
        t.phase() == TxPhase::Opening,
        t.statements().len() == rules@.len(),
        forall|i: int|
            0 <= i < rules@.len() ==> {
                &&& (#[trigger] t.statements()[i]).sql@ == exact_delete_sql(dialect, table@)
                &&& t.statements()[i].args.deep_view() == bound_row(
                    pt@,
                    pad_fields(rules@[i].deep_view()),
                )
                &&& t.statements()[i].check == RowCheck::ExactlyOne
            },
{
    let mut queries: Vec<Query> = Vec::new();
    let mut i: usize = 0;
    while i < rules.len()
        invariant
            i <= rules@.len(),
            queries@.len() == i,
            forall|k: int| 0 <= k < rules@.len() ==> (#[trigger] rules@[k])@.len() <= FIELD_COUNT,
            forall|k: int|
                0 <= k < i ==> {
                    &&& (#[trigger] queries@[k]).sql@ == exact_delete_sql(dialect, table@)
                    &&& queries@[k].args.deep_view() == bound_row(
                        pt@,
                        pad_fields(rules@[k].deep_view()),
                    )
                    &&& queries@[k].check == RowCheck::ExactlyOne
                },
        decreases rules@.len() - i,
    {
        let rule = rules[i].clone();
        assert(rule.deep_view() =~= rules@[i as int].deep_view());
        queries.push(remove_policy(dialect, table, pt, rule));
        i = i + 1;
    }
    Transaction::new(queries)
}

/// Inserts each row of `rules`, all in one transaction; the batch fails and rolls
/// back unless every insert adds exactly one row.
pub fn add_policies(dialect: Dialect, table: &TableName, rules: Vec<NewCasbinRule>) -> (t:
    Transaction)
    ensures
        t.phase() == TxPhase::Opening,
        t.statements().len() == rules@.len(),
        forall|i: int|
            0 <= i < rules@.len() ==> {
                &&& (#[trigger] t.statements()[i]).sql@ == insert_sql(dialect, table@)
                &&& t.statements()[i].args.deep_view() == bound_row(
                    rules@[i].ptype@,
                    rules@[i].fields(),
                )
                &&& t.statements()[i].check == RowCheck::ExactlyOne
            },
{
    let mut queries: Vec<Query> = Vec::new();
    let mut i: usize = 0;
    while i < rules.len()
        invariant
            i <= rules@.len(),
            queries@.len() == i,
            forall|k: int|
                0 <= k < i ==> {
                    &&& (#[trigger] queries@[k]).sql@ == insert_sql(dialect, table@)
                    &&& queries@[k].args.deep_view() == bound_row(
                        rules@[k].ptype@,
                        rules@[k].fields(),
                    )
                    &&& queries@[k].check == RowCheck::ExactlyOne
                },
        decreases rules@.len() - i,
    {
        queries.push(add_policy(dialect, table, &rules[i]));
        i = i + 1;
    }
    Transaction::new(queries)
}

/// Replaces the whole table by `rules` in one transaction: clears it, then inserts
/// each row; the batch fails and rolls back unless every insert adds exactly one row.
pub fn save_policy(dialect: Dialect, table: &TableName, rules: Vec<NewCasbinRule>) -> (t:
    Transaction)
    ensures
        t.phase() == TxPhase::Opening,
        t.statements().len() == rules@.len() + 1,
        t.statements()[0].sql@ == clear_sql(table@),
        t.statements()[0].args@.len() == 0,
        t.statements()[0].check == RowCheck::Any,
        forall|i: int|
            0 <= i < rules@.len() ==> {
                &&& (#[trigger] t.statements()[i + 1]).sql@ == insert_sql(dialect, table@)
                &&& t.statements()[i + 1].args.deep_view() == bound_row(
                    rules@[i].ptype@,
                    rules@[i].fields(),
                )
                &&& t.statements()[i + 1].check == RowCheck::ExactlyOne
            },
{
    let mut queries: Vec<Query> = Vec::new();
    queries.push(clear_policy(table));
    let mut i: usize = 0;
    while i < rules.len()
        invariant
            i <= rules@.len(),
            queries@.len() == i + 1,
            queries@[0].sql@ == clear_sql(table@),
            queries@[0].args@.len() == 0,
            queries@[0].check == RowCheck::Any,
            forall|k: int|
                0 <= k < i ==> {
                    &&& (#[trigger] queries@[k + 1]).sql@ == insert_sql(dialect, table@)
                    &&& queries@[k + 1].args.deep_view() == bound_row(
                        rules@[k].ptype@,
                        rules@[k].fields(),
                    )
                    &&& queries@[k + 1].check == RowCheck::ExactlyOne
                },
        decreases rules@.len() - i,
    {
        queries.push(add_policy(dialect, table, &rules[i]));
        i = i + 1;
    }
    Transaction::new(queries)
}

} // verus!
