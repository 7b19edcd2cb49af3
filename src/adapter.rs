use vstd::prelude::*;

use crate::error::AdapterError;
use crate::identifier::{valid_identifier, TableName};
use crate::models::{rows_to_rules, CasbinRule, PolicyRule};
use crate::rule::trim_trailing_empty;
use crate::sql::Dialect;

verus! {

/// The engine's own state: where the rules live, in which dialect, and whether the
/// last load was filtered (after which a full save would drop rows it never saw).
pub struct SqlxAdapter {
    table: TableName,
    dialect: Dialect,
    is_filtered: bool,
}

impl SqlxAdapter {
    pub closed spec fn table_view(&self) -> Seq<char> {
        self.table@
    }

    pub closed spec fn dialect_view(&self) -> Dialect {
        self.dialect
    }

    pub closed spec fn filtered(&self) -> bool {
        self.is_filtered
    }

    /// An engine over the standard table `casbin_rule`.
    pub fn new(dialect: Dialect) -> (r: SqlxAdapter)
        ensures
            r.table_view() == "casbin_rule"@,
            r.dialect_view() == dialect,
            !r.filtered(),
    {
        SqlxAdapter { table: TableName::default_table(), dialect, is_filtered: false }
    }

    /// An engine over the table `table_name`, which must be a valid identifier.
    pub fn new_with_table_name(dialect: Dialect, table_name: &str) -> (r: Result<
        SqlxAdapter,
        AdapterError,
    >)
        ensures
            r is Ok <==> valid_identifier(table_name@),
            r matches Ok(a) ==> a.table_view() == table_name@ && a.dialect_view() == dialect
                && !a.filtered(),
            r is Err ==> r->Err_0 == AdapterError::InvalidIdentifier,
    {
        match TableName::parse(table_name) {
            Ok(table) => Ok(SqlxAdapter { table, dialect, is_filtered: false }),
            Err(e) => Err(e),
        }
    }

    /// The validated table name.
    pub fn table(&self) -> (r: &TableName)
        ensures
            r@ == self.table_view(),
    {
        &self.table
    }

    /// The dialect statements are written in.
    pub fn dialect(&self) -> (r: Dialect)
        ensures
            r == self.dialect_view(),
    {
        self.dialect
    }

    /// Whether the last successful load was filtered.
    pub fn is_filtered(&self) -> (r: bool)
        ensures
            r == self.filtered(),
    {
        self.is_filtered
    }

    /// Completes a filtered load with what the store returned: on success the rows
    /// become abstract rules and the engine records that its view is partial; on
    /// failure the error is passed on and nothing changes.
    pub fn load_filtered_policy_done(&mut self, fetched: Result<Vec<CasbinRule>, AdapterError>) -> (r:
        Result<Vec<PolicyRule>, AdapterError>)
        ensures
            final(self).table_view() == old(self).table_view(),
            final(self).dialect_view() == old(self).dialect_view(),
            fetched is Ok ==> final(self).filtered(),
            fetched is Err ==> final(self).filtered() == old(self).filtered(),
            fetched is Err ==> r == Err::<Vec<PolicyRule>, AdapterError>(fetched->Err_0),
            fetched matches Ok(rows) ==> r matches Ok(rules) && rules@.len() == rows@.len() && (
            forall|i: int|
                0 <= i < rows@.len() ==> {
                    &&& (#[trigger] rules@[i]).ptype@ == rows@[i].ptype@
                    &&& rules@[i].rule.deep_view() == trim_trailing_empty(rows@[i].fields())
                }),
    {
        match fetched {
            Ok(rows) => {
                self.is_filtered = true;
                Ok(rows_to_rules(&rows))
            },
            Err(e) => Err(e),
        }
    }
}

} // verus!
