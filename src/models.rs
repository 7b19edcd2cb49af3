use vstd::prelude::*;

use crate::rule::{normalize_casbin_rule, pad_fields, trim_rule, trim_trailing_empty, FIELD_COUNT};

verus! {

/// A row as stored in the rule table: identifier, type tag and six value columns.
#[derive(Clone, Debug)]
pub struct CasbinRule {
    pub id: i64,
    pub ptype: String,
    pub v0: String,
    pub v1: String,
    pub v2: String,
    pub v3: String,
    pub v4: String,
    pub v5: String,
}

/// The payload of an insert: a row without its identifier.
#[derive(Clone, Debug)]
pub struct NewCasbinRule {
    pub ptype: String,
    pub v0: String,
    pub v1: String,
    pub v2: String,
    pub v3: String,
    pub v4: String,
    pub v5: String,
}

/// A rule as the evaluation engine sees it: a type tag and up to six fields.
#[derive(Clone, Debug)]
pub struct PolicyRule {
    pub ptype: String,
    pub rule: Vec<String>,
}

/// Patterns for a filtered load: one list for grouping rules (`g`), one for policy
/// rules (`p`). An empty pattern at a position matches any value there.
#[derive(Clone, Debug)]
pub struct Filter {
    pub p: Vec<String>,
    pub g: Vec<String>,
}

impl CasbinRule {
    /// The six value columns in order.
    pub open spec fn fields(&self) -> Seq<Seq<char>> {
        seq![self.v0@, self.v1@, self.v2@, self.v3@, self.v4@, self.v5@]
    }

    /// The abstract rule of this row: its ptype and its fields without trailing padding.
    pub fn to_abstract(&self) -> (r: PolicyRule)
        ensures
            r.ptype@ == self.ptype@,
            r.rule.deep_view() == trim_trailing_empty(self.fields()),
    {
        let mut fields: Vec<String> = Vec::new();
        fields.push(self.v0.clone());
        fields.push(self.v1.clone());
        fields.push(self.v2.clone());
        fields.push(self.v3.clone());
        fields.push(self.v4.clone());
        fields.push(self.v5.clone());
        assert(fields.deep_view() =~= self.fields());
        PolicyRule { ptype: self.ptype.clone(), rule: trim_rule(fields) }
    }
}

impl NewCasbinRule {
    /// The six value columns in order.
    pub open spec fn fields(&self) -> Seq<Seq<char>> {
        seq![self.v0@, self.v1@, self.v2@, self.v3@, self.v4@, self.v5@]
    }

    /// The row for a rule of at most six fields, padded with empty strings.
    pub fn new(ptype: &str, rule: Vec<String>) -> (r: NewCasbinRule)
        requires
            rule@.len() <= FIELD_COUNT,
        ensures
            r.ptype@ == ptype@,
            r.fields() == pad_fields(rule.deep_view()),
    {
        let padded = normalize_casbin_rule(rule);
        assert(padded.deep_view().len() == FIELD_COUNT);
        assert(padded@.len() == FIELD_COUNT);
        let r = NewCasbinRule {
            ptype: ptype.to_owned(),
            v0: padded[0].clone(),
            v1: padded[1].clone(),
            v2: padded[2].clone(),
            v3: padded[3].clone(),
            v4: padded[4].clone(),
            v5: padded[5].clone(),
        };
        assert(r.fields() =~= padded.deep_view());
        r
    }
}

/// Rows mapped back to abstract rules, in the order they were read.
pub fn rows_to_rules(rows: &Vec<CasbinRule>) -> (r: Vec<PolicyRule>)
    ensures
        r@.len() == rows@.len(),
        forall|i: int|
            0 <= i < rows@.len() ==> {
                &&& (#[trigger] r@[i]).ptype@ == rows@[i].ptype@
                &&& r@[i].rule.deep_view() == trim_trailing_empty(rows@[i].fields())
            },
{
    let mut out: Vec<PolicyRule> = Vec::new();
    let mut i: usize = 0;
    while i < rows.len()
        invariant
            i <= rows@.len(),
            out@.len() == i,
            forall|j: int|
                0 <= j < i ==> {
                    &&& (#[trigger] out@[j]).ptype@ == rows@[j].ptype@
                    &&& out@[j].rule.deep_view() == trim_trailing_empty(rows@[j].fields())
                },
        decreases rows@.len() - i,
    {
        out.push(rows[i].to_abstract());
        i = i + 1;
    }
    out
}

} // verus!
