use vstd::prelude::*;
use vstd::string::*;

use crate::error::AdapterError;
use crate::identifier::TableName;

verus! {

/// The SQL dialect of the backing store; it decides the parameter placeholder style.
#[derive(Clone, Copy, Debug, PartialEq, Eq, Structural)]
pub enum Dialect {
    /// Numbered placeholders `$1`, `$2`, ...
    Postgres,
    /// Positional placeholders `?`.
    MySql,
    /// Numbered placeholders `?1`, `?2`, ...
    Sqlite,
}

/// The decimal digit `d` (below ten) as a character.
pub open spec fn digit_char(d: nat) -> char {
    if d == 0 {
        '0'
    } else if d == 1 {
        '1'
    } else if d == 2 {
        '2'
    } else if d == 3 {
        '3'
    } else if d == 4 {
        '4'
    } else if d == 5 {
        '5'
    } else if d == 6 {
        '6'
    } else if d == 7 {
        '7'
    } else if d == 8 {
        '8'
    } else {
        '9'
    }
}

/// `n` written in decimal without leading zeros.
pub open spec fn decimal(n: nat) -> Seq<char>
    decreases n,
{
    if n < 10 {
        seq![digit_char(n)]
    } else {
        decimal(n / 10) + seq![digit_char(n % 10)]
    }
}

/// The placeholder of the `n`-th bound parameter (counting from one).
pub open spec fn placeholder(d: Dialect, n: nat) -> Seq<char> {
    match d {
        Dialect::Postgres => "$"@ + decimal(n),
        Dialect::MySql => "?"@,
        Dialect::Sqlite => "?"@ + decimal(n),
    }
}

/// The name of value column `i`: `v0` to `v5`.
pub open spec fn column(i: nat) -> Seq<char> {
    "v"@ + decimal(i)
}

fn digit_str(d: u64) -> (r: &'static str)
    requires
        d < 10,
    ensures
        r@ == seq![digit_char(d as nat)],
{
    if d == 0 {
        proof {
            reveal_strlit("0");
        }
        "0"
    } else if d == 1 {
        proof {
            reveal_strlit("1");
        }
        "1"
    } else if d == 2 {
        proof {
            reveal_strlit("2");
        }
        "2"
    } else if d == 3 {
        proof {
            reveal_strlit("3");
        }
        "3"
    } else if d == 4 {
        proof {
            reveal_strlit("4");
        }
        "4"
    } else if d == 5 {
        proof {
            reveal_strlit("5");
        }
        "5"
    } else if d == 6 {
        proof {
            reveal_strlit("6");
        }
        "6"
    } else if d == 7 {
        proof {
            reveal_strlit("7");
        }
        "7"
    } else if d == 8 {
        proof {
            reveal_strlit("8");
        }
        "8"
    } else {
        proof {
            reveal_strlit("9");
        }
        "9"
    }
}

/// Appends `n` in decimal.
pub fn push_decimal(s: &mut String, n: u64)
    ensures
        final(s)@ == old(s)@ + decimal(n as nat),
    decreases n,
{
    if n >= 10 {
        push_decimal(s, n / 10);
        s.append(digit_str(n % 10));
        assert(s@ =~= old(s)@ + decimal(n as nat));
    } else {
        s.append(digit_str(n));
    }
}

/// Appends the placeholder of the `n`-th bound parameter.
pub fn push_placeholder(s: &mut String, d: Dialect, n: u64)
    ensures
        final(s)@ == old(s)@ + placeholder(d, n as nat),
{
    match d {
        Dialect::Postgres => {
            s.append("$");
            push_decimal(s, n);
        },
        Dialect::MySql => {
            s.append("?");
        },
        Dialect::Sqlite => {
            s.append("?");
            push_decimal(s, n);
        },
    }
    assert(s@ =~= old(s)@ + placeholder(d, n as nat));
}

/// Appends the name of value column `i`.
pub fn push_column(s: &mut String, i: u64)
    ensures
        final(s)@ == old(s)@ + column(i as nat),
{
    s.append("v");
    push_decimal(s, i);
    assert(s@ =~= old(s)@ + column(i as nat));
}

/// What a statement's affected-row count must satisfy for the statement to succeed.
#[derive(Clone, Copy, Debug, PartialEq, Eq, Structural)]
pub enum RowCheck {
    /// Exactly one row (exact insert or delete).
    ExactlyOne,
    /// At least one row (filtered delete).
    AtLeastOne,
    /// Any count (queries, table creation, clearing).
    Any,
}

impl RowCheck {
    pub open spec fn holds(self, rows: nat) -> bool {
        match self {
            RowCheck::ExactlyOne => rows == 1,
            RowCheck::AtLeastOne => rows >= 1,
            RowCheck::Any => true,
        }
    }
}

/// A statement ready to run: its text, its bound parameters in order (`None` binds
/// NULL) and the check its affected-row count must pass.
#[derive(Clone, Debug)]
pub struct Query {
    pub sql: String,
    pub args: Vec<Option<String>>,
    pub check: RowCheck,
}

impl Query {
    /// Whether `rows` affected rows count as success for this statement.
    pub fn accepts(&self, rows: u64) -> (r: bool)
        ensures
            r == self.check.holds(rows as nat),
    {
        match self.check {
            RowCheck::ExactlyOne => rows == 1,
            RowCheck::AtLeastOne => rows >= 1,
            RowCheck::Any => true,
        }
    }

    /// The result of running this statement alone: the store's error as it came, or
    /// whether the affected-row count passed the check.
    pub fn outcome(&self, executed: Result<u64, AdapterError>) -> (r: Result<bool, AdapterError>)
        ensures
            executed matches Ok(n) ==> r == Ok::<bool, AdapterError>(self.check.holds(n as nat)),
            executed matches Err(e) ==> r == Err::<bool, AdapterError>(e),
    {
        match executed {
            Ok(n) => Ok(self.accepts(n)),
            Err(e) => Err(e),
        }
    }
}

/// Conditions `ptype = $1 AND v0 = $2 AND ...` (in the dialect's placeholders) over the
/// first `k` value columns.
pub open spec fn exact_conditions(d: Dialect, k: nat) -> Seq<char>
    decreases k,
{
    if k == 0 {
        "ptype = "@ + placeholder(d, 1)
    } else {
        let i = (k - 1) as nat;
        exact_conditions(d, i) + " AND "@ + column(i) + " = "@ + placeholder(d, k + 1)
    }
}

/// Deletes the rows equal to a full tuple; binds ptype and the six values.
pub open spec fn exact_delete_sql(d: Dialect, table: Seq<char>) -> Seq<char> {
    "DELETE FROM "@ + table + " WHERE "@ + exact_conditions(d, 6)
}

/// For each column `i` from `first` up to (not including) `k`, the condition that the
/// column is unconstrained when its bound value is NULL and equal to it otherwise.
pub open spec fn coalesce_conditions(d: Dialect, first: nat, k: nat) -> Seq<char>
    decreases k,
{
    if k <= first {
        Seq::empty()
    } else {
        let i = (k - 1) as nat;
        coalesce_conditions(d, first, i) + " AND ("@ + column(i) + " is NULL OR "@ + column(i)
            + " = COALESCE("@ + placeholder(d, (i - first + 2) as nat) + ","@ + column(i) + "))"@
    }
}

/// Deletes the rows of one ptype that match the values bound for columns `first..6`.
pub open spec fn filtered_delete_sql(d: Dialect, table: Seq<char>, first: nat) -> Seq<char> {
    "DELETE FROM "@ + table + " WHERE ptype = "@ + placeholder(d, 1) + coalesce_conditions(
        d,
        first,
        6,
    )
}

/// The placeholders of parameters one to `n`, separated by commas.
pub open spec fn placeholder_list(d: Dialect, n: nat) -> Seq<char>
    decreases n,
{
    if n <= 1 {
        placeholder(d, 1)
    } else {
        placeholder_list(d, (n - 1) as nat) + ", "@ + placeholder(d, n)
    }
}

/// Inserts one row; binds ptype and the six values.
pub open spec fn insert_sql(d: Dialect, table: Seq<char>) -> Seq<char> {
    "INSERT INTO "@ + table + " ( ptype, v0, v1, v2, v3, v4, v5 ) VALUES ( "@ + placeholder_list(
        d,
        7,
    ) + " )"@
}

/// Selects every row.
pub open spec fn select_all_sql(table: Seq<char>) -> Seq<char> {
    "SELECT id, ptype, v0, v1, v2, v3, v4, v5 FROM "@ + table
}

/// Conditions ` AND v0 LIKE ... AND v1 LIKE ...` over the first `k` value columns, bound to
/// the parameters numbered from `base` on.
pub open spec fn like_conditions(d: Dialect, base: nat, k: nat) -> Seq<char>
    decreases k,
{
    if k == 0 {
        Seq::empty()
    } else {
        let i = (k - 1) as nat;
        like_conditions(d, base, i) + " AND "@ + column(i) + " LIKE "@ + placeholder(d, base + i)
    }
}

/// Selects the grouping rows matching the first six patterns and the policy rows
/// matching the next six.
pub open spec fn select_filtered_sql(d: Dialect, table: Seq<char>) -> Seq<char> {
    select_all_sql(table) + " WHERE ( ptype LIKE 'g%'"@ + like_conditions(d, 1, 6)
        + " ) OR ( ptype LIKE 'p%'"@ + like_conditions(d, 7, 6) + " )"@
}

/// Removes every row.
pub open spec fn clear_sql(table: Seq<char>) -> Seq<char> {
    "DELETE FROM "@ + table
}

/// Column definitions of the rule table in each dialect.
pub open spec fn column_definitions(d: Dialect) -> Seq<char> {
    match d {
        Dialect::Postgres => "id SERIAL PRIMARY KEY, ptype VARCHAR NOT NULL, v0 VARCHAR NOT NULL, v1 VARCHAR NOT NULL, v2 VARCHAR NOT NULL, v3 VARCHAR NOT NULL, v4 VARCHAR NOT NULL, v5 VARCHAR NOT NULL"@,
        Dialect::MySql => "id INT NOT NULL AUTO_INCREMENT, ptype VARCHAR(12) NOT NULL, v0 VARCHAR(128) NOT NULL, v1 VARCHAR(128) NOT NULL, v2 VARCHAR(128) NOT NULL, v3 VARCHAR(128) NOT NULL, v4 VARCHAR(128) NOT NULL, v5 VARCHAR(128) NOT NULL, PRIMARY KEY(id)"@,
        Dialect::Sqlite => "id INTEGER PRIMARY KEY AUTOINCREMENT, ptype VARCHAR NOT NULL, v0 VARCHAR NOT NULL, v1 VARCHAR NOT NULL, v2 VARCHAR NOT NULL, v3 VARCHAR NOT NULL, v4 VARCHAR NOT NULL, v5 VARCHAR NOT NULL"@,
    }
}

/// Storage options that follow the table definition.
pub open spec fn table_options(d: Dialect) -> Seq<char> {
    match d {
        Dialect::MySql => " ENGINE=InnoDB DEFAULT CHARSET=utf8"@,
        _ => ""@,
    }
}

/// Creates the rule table unless it exists, with a uniqueness constraint over the tuple.
pub open spec fn create_table_sql(d: Dialect, table: Seq<char>) -> Seq<char> {
    "CREATE TABLE IF NOT EXISTS "@ + table + " ( "@ + column_definitions(d)
        + ", CONSTRAINT unique_key_sqlx_adapter_"@ + table
        + " UNIQUE(ptype, v0, v1, v2, v3, v4, v5) )"@ + table_options(d)
}

/// Text of [`exact_delete_sql`].
pub fn exact_delete_text(d: Dialect, table: &TableName) -> (r: String)
    ensures
        r@ == exact_delete_sql(d, table@),
{
    let mut s = String::from_str("DELETE FROM ");
    s.append(table.as_str());
    s.append(" WHERE ");
    s.append("ptype = ");
    push_placeholder(&mut s, d, 1);
    let ghost head = "DELETE FROM "@ + table@ + " WHERE "@;
    assert(s@ =~= head + exact_conditions(d, 0));
    let mut k: u64 = 0;
    while k < 6
        invariant
            k <= 6,
            s@ =~= head + exact_conditions(d, k as nat),
        decreases 6 - k,
    {
        s.append(" AND ");
        push_column(&mut s, k);
        s.append(" = ");
        push_placeholder(&mut s, d, k + 2);
        k = k + 1;
        assert(s@ =~= head + exact_conditions(d, k as nat));
    }
    s
}

/// Text of [`filtered_delete_sql`].
pub fn filtered_delete_text(d: Dialect, table: &TableName, first: u64) -> (r: String)
    requires
        first <= 5,
    ensures
        r@ == filtered_delete_sql(d, table@, first as nat),
{
    let mut s = String::from_str("DELETE FROM ");
    s.append(table.as_str());
    s.append(" WHERE ptype = ");
    push_placeholder(&mut s, d, 1);
    let ghost head = "DELETE FROM "@ + table@ + " WHERE ptype = "@ + placeholder(d, 1);
    assert(s@ =~= head + coalesce_conditions(d, first as nat, first as nat));
    let mut k: u64 = first;
    while k < 6
        invariant
            first <= k <= 6,
            s@ =~= head + coalesce_conditions(d, first as nat, k as nat),
        decreases 6 - k,
    {
        s.append(" AND (");
        push_column(&mut s, k);
        s.append(" is NULL OR ");
        push_column(&mut s, k);
        s.append(" = COALESCE(");
        push_placeholder(&mut s, d, k - first + 2);
        s.append(",");
        push_column(&mut s, k);
        s.append("))");
        k = k + 1;
        assert(s@ =~= head + coalesce_conditions(d, first as nat, k as nat));
    }
    s
}

/// Text of [`insert_sql`].
pub fn insert_text(d: Dialect, table: &TableName) -> (r: String)
    ensures
        r@ == insert_sql(d, table@),
{
    let mut s = String::from_str("INSERT INTO ");
    s.append(table.as_str());
    s.append(" ( ptype, v0, v1, v2, v3, v4, v5 ) VALUES ( ");
    push_placeholder(&mut s, d, 1);
    let ghost head = "INSERT INTO "@ + table@ + " ( ptype, v0, v1, v2, v3, v4, v5 ) VALUES ( "@;
    assert(s@ =~= head + placeholder_list(d, 1));
    let mut n: u64 = 1;
    while n < 7
        invariant
            1 <= n <= 7,
            s@ =~= head + placeholder_list(d, n as nat),
        decreases 7 - n,
    {
        s.append(", ");
        push_placeholder(&mut s, d, n + 1);
        n = n + 1;
        assert(s@ =~= head + placeholder_list(d, n as nat));
    }
    s.append(" )");
    s
}

/// Text of [`select_all_sql`].
pub fn select_all_text(table: &TableName) -> (r: String)
    ensures
        r@ == select_all_sql(table@),
{
    let mut s = String::from_str("SELECT id, ptype, v0, v1, v2, v3, v4, v5 FROM ");
    s.append(table.as_str());
    s
}

fn push_like_conditions(s: &mut String, d: Dialect, base: u64)
    requires
        base <= 7,
    ensures
        final(s)@ == old(s)@ + like_conditions(d, base as nat, 6),
{
    let ghost head = old(s)@;
    assert(s@ =~= head + like_conditions(d, base as nat, 0));
    let mut k: u64 = 0;
    while k < 6
        invariant
            k <= 6,
            base <= 7,
            s@ =~= head + like_conditions(d, base as nat, k as nat),
        decreases 6 - k,
    {
        s.append(" AND ");
        push_column(s, k);
        s.append(" LIKE ");
        push_placeholder(s, d, base + k);
        k = k + 1;
        assert(s@ =~= head + like_conditions(d, base as nat, k as nat));
    }
}

/// Text of [`select_filtered_sql`].
pub fn select_filtered_text(d: Dialect, table: &TableName) -> (r: String)
    ensures
        r@ == select_filtered_sql(d, table@),
{
    let mut s = select_all_text(table);
    s.append(" WHERE ( ptype LIKE 'g%'");
    push_like_conditions(&mut s, d, 1);
    s.append(" ) OR ( ptype LIKE 'p%'");
    push_like_conditions(&mut s, d, 7);
    s.append(" )");
    s
}

/// Text of [`clear_sql`].
pub fn clear_text(table: &TableName) -> (r: String)
    ensures
        r@ == clear_sql(table@),
{
    let mut s = String::from_str("DELETE FROM ");
    s.append(table.as_str());
    s
}

/// Text of [`create_table_sql`].
pub fn create_table_text(d: Dialect, table: &TableName) -> (r: String)
    ensures
        r@ == create_table_sql(d, table@),
{
    let mut s = String::from_str("CREATE TABLE IF NOT EXISTS ");
    s.append(table.as_str());
    s.append(" ( ");
    match d {
        Dialect::Postgres => s.append("id SERIAL PRIMARY KEY, ptype VARCHAR NOT NULL, v0 VARCHAR NOT NULL, v1 VARCHAR NOT NULL, v2 VARCHAR NOT NULL, v3 VARCHAR NOT NULL, v4 VARCHAR NOT NULL, v5 VARCHAR NOT NULL"),
        Dialect::MySql => s.append("id INT NOT NULL AUTO_INCREMENT, ptype VARCHAR(12) NOT NULL, v0 VARCHAR(128) NOT NULL, v1 VARCHAR(128) NOT NULL, v2 VARCHAR(128) NOT NULL, v3 VARCHAR(128) NOT NULL, v4 VARCHAR(128) NOT NULL, v5 VARCHAR(128) NOT NULL, PRIMARY KEY(id)"),
        Dialect::Sqlite => s.append("id INTEGER PRIMARY KEY AUTOINCREMENT, ptype VARCHAR NOT NULL, v0 VARCHAR NOT NULL, v1 VARCHAR NOT NULL, v2 VARCHAR NOT NULL, v3 VARCHAR NOT NULL, v4 VARCHAR NOT NULL, v5 VARCHAR NOT NULL"),
    }
    s.append(", CONSTRAINT unique_key_sqlx_adapter_");
    s.append(table.as_str());
    s.append(" UNIQUE(ptype, v0, v1, v2, v3, v4, v5) )");
    match d {
        Dialect::MySql => s.append(" ENGINE=InnoDB DEFAULT CHARSET=utf8"),
        _ => {
            proof {
                reveal_strlit("");
            }
        },
    }
    assert(s@ =~= create_table_sql(d, table@));
    s
}

} // verus!
