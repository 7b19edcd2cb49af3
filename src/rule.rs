use vstd::prelude::*;

verus! {

/// Number of value columns (`v0` to `v5`) in a stored row.
pub const FIELD_COUNT: usize = 6;

/// A rule right-padded with empty fields to the six columns of a row.
pub open spec fn pad_fields(rule: Seq<Seq<char>>) -> Seq<Seq<char>>
    recommends
        rule.len() <= FIELD_COUNT,
{
    rule + Seq::new((FIELD_COUNT - rule.len()) as nat, |_i: int| Seq::<char>::empty())
}

/// How a filter value constrains a column: an empty value leaves it unconstrained.
pub open spec fn field_constraint(value: Seq<char>) -> Option<Seq<char>> {
    if value.len() == 0 {
        None
    } else {
        Some(value)
    }
}

/// Filter values mapped to constraints and padded with "unconstrained" to six columns.
pub open spec fn pad_constraints(values: Seq<Seq<char>>) -> Seq<Option<Seq<char>>>
    recommends
        values.len() <= FIELD_COUNT,
{
    values.map_values(|v: Seq<char>| field_constraint(v)) + Seq::new(
        (FIELD_COUNT - values.len()) as nat,
        |_i: int| None::<Seq<char>>,
    )
}

/// The fields with every trailing empty field removed; inner empty fields stay.
pub open spec fn trim_trailing_empty(fields: Seq<Seq<char>>) -> Seq<Seq<char>>
    decreases fields.len(),
{
    if fields.len() > 0 && fields.last().len() == 0 {
        trim_trailing_empty(fields.drop_last())
    } else {
        fields
    }
}

proof fn lemma_trim_ignores_padding(fields: Seq<Seq<char>>, k: nat)
    ensures
        trim_trailing_empty(fields + Seq::new(k, |_i: int| Seq::<char>::empty()))
            == trim_trailing_empty(fields),
    decreases k,
{
    let padded = fields + Seq::new(k, |_i: int| Seq::<char>::empty());
    if k == 0 {
        assert(padded =~= fields);
    } else {
        let shorter = fields + Seq::new((k - 1) as nat, |_i: int| Seq::<char>::empty());
        assert(padded.last() =~= Seq::<char>::empty());
        assert(padded.drop_last() =~= shorter);
        lemma_trim_ignores_padding(fields, (k - 1) as nat);
    }
}

/// Trimming is idempotent: a trimmed rule has no trailing empty field left.
pub proof fn lemma_trim_idempotent(fields: Seq<Seq<char>>)
    ensures
        trim_trailing_empty(trim_trailing_empty(fields)) == trim_trailing_empty(fields),
    decreases fields.len(),
{
    if fields.len() > 0 && fields.last().len() == 0 {
        lemma_trim_idempotent(fields.drop_last());
    }
}

/// Padding a rule of at most six fields to the row width and trimming it again gives
/// the rule without its own trailing empty fields; so a rule that is empty or ends in
/// a non-empty field comes back unchanged, while explicit trailing empty fields are
/// lost. Doing it a second time changes nothing more.
pub proof fn lemma_pad_then_trim(rule: Seq<Seq<char>>)
    requires
        rule.len() <= FIELD_COUNT,
    ensures
        trim_trailing_empty(pad_fields(rule)) == trim_trailing_empty(rule),
        rule.len() == 0 || rule.last().len() > 0 ==> trim_trailing_empty(pad_fields(rule)) == rule,
        trim_trailing_empty(pad_fields(trim_trailing_empty(pad_fields(rule))))
            == trim_trailing_empty(pad_fields(rule)),
{
    lemma_trim_ignores_padding(rule, (FIELD_COUNT - rule.len()) as nat);
    lemma_trim_shrinks(rule);
    let once = trim_trailing_empty(rule);
    lemma_trim_ignores_padding(once, (FIELD_COUNT - once.len()) as nat);
    lemma_trim_idempotent(rule);
}

proof fn lemma_trim_shrinks(fields: Seq<Seq<char>>)
    ensures
        trim_trailing_empty(fields).len() <= fields.len(),
    decreases fields.len(),
{
    if fields.len() > 0 && fields.last().len() == 0 {
        lemma_trim_shrinks(fields.drop_last());
    }
}

/// Pads a rule of at most six fields to exactly six, filling with empty strings.
pub fn normalize_casbin_rule(mut rule: Vec<String>) -> (r: Vec<String>)
    requires
        rule@.len() <= FIELD_COUNT,
    ensures
        r.deep_view() == pad_fields(rule.deep_view()),
{
    let ghost before = rule.deep_view();
    rule.resize(FIELD_COUNT, String::new());
    assert(rule.deep_view() =~= pad_fields(before));
    rule
}

/// Maps each filter value to a constraint (empty means none) and pads to six columns.
pub fn normalize_casbin_rule_option(rule: Vec<String>) -> (r: Vec<Option<String>>)
    requires
        rule@.len() <= FIELD_COUNT,
    ensures
        r.deep_view() == pad_constraints(rule.deep_view()),
{
    let mut out: Vec<Option<String>> = Vec::new();
    let mut i: usize = 0;
    while i < rule.len()
        invariant
            i <= rule@.len(),
            out.deep_view() =~= rule.deep_view().subrange(0, i as int).map_values(
                |v: Seq<char>| field_constraint(v),
            ),
        decreases rule@.len() - i,
    {
        let ghost before = out.deep_view();
        if rule[i].as_str().is_empty() {
            out.push(None);
        } else {
            out.push(Some(rule[i].clone()));
        }
        assert(out.deep_view() =~= before.push(field_constraint(rule.deep_view()[i as int])));
        assert(rule.deep_view().subrange(0, i + 1) =~= rule.deep_view().subrange(0, i as int).push(
            rule.deep_view()[i as int],
        ));
        i = i + 1;
    }
    assert(rule.deep_view().subrange(0, i as int) =~= rule.deep_view());
    while out.len() < FIELD_COUNT
        invariant
            rule@.len() <= out@.len() <= FIELD_COUNT,
            out.deep_view() =~= rule.deep_view().map_values(|v: Seq<char>| field_constraint(v))
                + Seq::new((out@.len() - rule@.len()) as nat, |_i: int| None::<Seq<char>>),
        decreases FIELD_COUNT - out@.len(),
    {
        let ghost before = out.deep_view();
        out.push(None);
        assert(out.deep_view() =~= before.push(None));
    }
    out
}

/// Removes the trailing empty fields that padding to six columns introduced.
pub fn trim_rule(mut fields: Vec<String>) -> (r: Vec<String>)
    ensures
        r.deep_view() == trim_trailing_empty(fields.deep_view()),
{
    let ghost given = fields.deep_view();
    while fields.len() > 0 && fields[fields.len() - 1].as_str().is_empty()
        invariant
            trim_trailing_empty(fields.deep_view()) == trim_trailing_empty(given),
        decreases fields@.len(),
    {
        let ghost before = fields.deep_view();
        fields.pop();
        assert(fields.deep_view() =~= before.drop_last());
    }
    fields
}

} // verus!
