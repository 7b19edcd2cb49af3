use vstd::prelude::*;
use vstd::string::*;

use crate::error::AdapterError;

verus! {

/// Characters allowed in a table identifier: ASCII letters and digits, `_` and `.`.
pub open spec fn is_identifier_char(c: char) -> bool {
    ('a' <= c && c <= 'z') || ('A' <= c && c <= 'Z') || ('0' <= c && c <= '9') || c == '_'
        || c == '.'
}

/// A name that may be interpolated into SQL text as a table identifier.
pub open spec fn valid_identifier(name: Seq<char>) -> bool {
    forall|i: int| 0 <= i < name.len() ==> #[trigger] is_identifier_char(name[i])
}

fn identifier_char(c: char) -> (r: bool)
    ensures
        r == is_identifier_char(c),
{
    ('a' <= c && c <= 'z') || ('A' <= c && c <= 'Z') || ('0' <= c && c <= '9') || c == '_'
        || c == '.'
}

/// Checks a table name before it is placed in any statement text.
pub fn validate(name: &str) -> (r: Result<(), AdapterError>)
    ensures
        r is Ok <==> valid_identifier(name@),
        r is Err ==> r == Err::<(), AdapterError>(AdapterError::InvalidIdentifier),
{
    let n = name.unicode_len();
    let mut i: usize = 0;
    while i < n
        invariant
            n == name@.len(),
            i <= n,
            forall|j: int| 0 <= j < i ==> #[trigger] is_identifier_char(name@[j]),
        decreases n - i,
    {
        if !identifier_char(name.get_char(i)) {
            return Err(AdapterError::InvalidIdentifier);
        }
        i = i + 1;
    }
    Ok(())
}

/// A table identifier that passed [`validate`]; only such a name reaches statement text.
pub struct TableName {
    name: String,
}

impl View for TableName {
    type V = Seq<char>;

    closed spec fn view(&self) -> Seq<char> {
        self.name@
    }
}

impl TableName {
    #[verifier::type_invariant]
    spec fn inv(&self) -> bool {
        valid_identifier(self.name@)
    }

    /// Accepts `name` as a table identifier, or fails with `InvalidIdentifier`.
    pub fn parse(name: &str) -> (r: Result<TableName, AdapterError>)
        ensures
            r is Ok <==> valid_identifier(name@),
            r matches Ok(t) ==> t@ == name@,
            r is Err ==> r->Err_0 == AdapterError::InvalidIdentifier,
    {
        match validate(name) {
            Ok(()) => Ok(TableName { name: name.to_owned() }),
            Err(e) => Err(e),
        }
    }

    /// The standard table name `casbin_rule`.
    pub fn default_table() -> (r: TableName)
        ensures
            r@ == "casbin_rule"@,
    {
        proof {
            reveal_strlit("casbin_rule");
        }
        TableName { name: String::from_str("casbin_rule") }
    }

    /// The identifier as text; it holds only identifier characters.
    pub fn as_str(&self) -> (r: &str)
        ensures
            r@ == self@,
            valid_identifier(r@),
    {
        proof {
            use_type_invariant(self);
        }
        self.name.as_str()
    }
}

} // verus!
