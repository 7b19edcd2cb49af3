//! What the WHERE clauses of the engine's statements select, over one stored row
//! (type tag and six non-null value columns) and the parameters bound to them.
use vstd::prelude::*;

use crate::actions::{bound_row, like_patterns, pattern_at, wildcard};
use crate::rule::{pad_constraints, pad_fields, FIELD_COUNT};

verus! {

/// `v IS NULL OR v = COALESCE(b, v)` for a non-null stored value `v`: a NULL
/// parameter leaves the column unconstrained, any other value must equal it.
pub open spec fn coalesce_matches(bound: Option<Seq<char>>, stored: Seq<char>) -> bool {
    match bound {
        None => true,
        Some(b) => stored == b,
    }
}

/// The filtered delete with parameters `args` (type tag, then the values of columns
/// `first..6`) removes this row.
pub open spec fn filtered_delete_removes(
    args: Seq<Option<Seq<char>>>,
    first: int,
    ptype: Seq<char>,
    fields: Seq<Seq<char>>,
) -> bool {
    &&& args[0] == Some(ptype)
    &&& forall|i: int| first <= i < FIELD_COUNT ==> coalesce_matches(args[i - first + 1], #[trigger] fields[i])
}

/// The exact delete with parameters `args` (type tag, then six values) removes this row.
pub open spec fn exact_delete_removes(
    args: Seq<Option<Seq<char>>>,
    ptype: Seq<char>,
    fields: Seq<Seq<char>>,
) -> bool {
    &&& args[0] == Some(ptype)
    &&& forall|i: int| 0 <= i < FIELD_COUNT ==> args[i + 1] == Some(#[trigger] fields[i])
}

/// SQL `LIKE` without an escape character, comparing characters exactly (as
/// PostgreSQL does): `%` matches any run of characters and `_` any single one.
pub open spec fn like(pattern: Seq<char>, value: Seq<char>) -> bool
    decreases pattern.len() + value.len(),
{
    if pattern.len() == 0 {
        value.len() == 0
    } else if pattern[0] == '%' {
        like(pattern.drop_first(), value) || (value.len() > 0 && like(
            pattern,
            value.drop_first(),
        ))
    } else {
        &&& value.len() > 0
        &&& pattern[0] == '_' || pattern[0] == value[0]
        &&& like(pattern.drop_first(), value.drop_first())
    }
}

/// The six columns match the six patterns bound from `base` on.
pub open spec fn columns_like(
    args: Seq<Option<Seq<char>>>,
    base: int,
    fields: Seq<Seq<char>>,
) -> bool {
    forall|i: int|
        0 <= i < FIELD_COUNT ==> (args[base + i] matches Some(p) && like(p, #[trigger] fields[i]))
}

/// The filtered select with parameters `args` (six grouping patterns, then six policy
/// patterns) returns this row.
pub open spec fn filtered_select_returns(
    args: Seq<Option<Seq<char>>>,
    ptype: Seq<char>,
    fields: Seq<Seq<char>>,
) -> bool {
    ||| like("g%"@, ptype) && columns_like(args, 0, fields)
    ||| like("p%"@, ptype) && columns_like(args, FIELD_COUNT as int, fields)
}

/// A filter value holds no character that `LIKE` treats specially.
pub open spec fn literal_pattern(value: Seq<char>) -> bool {
    forall|i: int| 0 <= i < value.len() ==> #[trigger] value[i] != '%' && value[i] != '_'
}

/// A row's column `i` satisfies filter `values` there: the filter gives no value, an
/// empty one, or exactly the stored one.
pub open spec fn satisfies_filter_at(values: Seq<Seq<char>>, i: int, stored: Seq<char>) -> bool {
    i >= values.len() || values[i].len() == 0 || values[i] == stored
}

/// A type tag begins with the character `c`.
pub open spec fn starts_with(ptype: Seq<char>, c: char) -> bool {
    ptype.len() > 0 && ptype[0] == c
}

proof fn lemma_wildcard_matches_all(value: Seq<char>)
    ensures
        like(wildcard(), value),
    decreases value.len(),
{
    reveal_strlit("%");
    assert(wildcard().len() == 1 && wildcard()[0] == '%');
    assert(wildcard().drop_first() =~= Seq::<char>::empty());
    if value.len() > 0 {
        lemma_wildcard_matches_all(value.drop_first());
    } else {
        assert(like(wildcard().drop_first(), value));
    }
}

proof fn lemma_literal_like(pattern: Seq<char>, value: Seq<char>)
    requires
        literal_pattern(pattern),
    ensures
        like(pattern, value) <==> pattern == value,
    decreases pattern.len() + value.len(),
{
    if pattern.len() == 0 {
        if value.len() == 0 {
            assert(pattern =~= value);
        }
    } else {
        assert(pattern[0] != '%' && pattern[0] != '_');
        assert(literal_pattern(pattern.drop_first()));
        if value.len() > 0 {
            lemma_literal_like(pattern.drop_first(), value.drop_first());
            if pattern.drop_first() == value.drop_first() && pattern[0] == value[0] {
                assert(pattern =~= seq![pattern[0]] + pattern.drop_first());
                assert(value =~= seq![value[0]] + value.drop_first());
            }
            if pattern == value {
                assert(pattern.drop_first() =~= value.drop_first());
            }
        }
    }
}

proof fn lemma_prefix_pattern(c: char, ptype: Seq<char>)
    requires
        c != '%' && c != '_',
    ensures
        like(seq![c, '%'], ptype) <==> starts_with(ptype, c),
{
    let pat = seq![c, '%'];
    if ptype.len() > 0 && ptype[0] == c {
        assert(pat.drop_first() =~= wildcard()) by {
            reveal_strlit("%");
        }
        lemma_wildcard_matches_all(ptype.drop_first());
    }
}

proof fn lemma_patterns_match(values: Seq<Seq<char>>, fields: Seq<Seq<char>>, i: int)
    requires
        0 <= i < FIELD_COUNT,
        forall|j: int| 0 <= j < values.len() ==> literal_pattern(#[trigger] values[j]),
    ensures
        like(pattern_at(values, i), fields[i]) <==> satisfies_filter_at(values, i, fields[i]),
{
    if i < values.len() && values[i].len() > 0 {
        lemma_literal_like(values[i], fields[i]);
    } else {
        lemma_wildcard_matches_all(fields[i]);
    }
}

/// A filtered delete from the first column with no value given removes exactly the
/// rows of the given type; with all six values given and non-empty it removes exactly
/// the rows the exact delete of those values removes.
pub proof fn lemma_filtered_delete_extremes(
    pt: Seq<char>,
    values: Seq<Seq<char>>,
    ptype: Seq<char>,
    fields: Seq<Seq<char>>,
)
    requires
        values.len() <= FIELD_COUNT,
        fields.len() == FIELD_COUNT,
    ensures
        (forall|i: int| 0 <= i < values.len() ==> (#[trigger] values[i]).len() == 0)
            ==> (filtered_delete_removes(
            seq![Some(pt)] + pad_constraints(values).take(FIELD_COUNT as int),
            0,
            ptype,
            fields,
        ) <==> ptype == pt),
        (values.len() == FIELD_COUNT && forall|i: int|
            0 <= i < values.len() ==> (#[trigger] values[i]).len() > 0) ==> (filtered_delete_removes(
            seq![Some(pt)] + pad_constraints(values).take(FIELD_COUNT as int),
            0,
            ptype,
            fields,
        ) <==> exact_delete_removes(bound_row(pt, pad_fields(values)), ptype, fields)),
{
    let args = seq![Some(pt)] + pad_constraints(values).take(FIELD_COUNT as int);
    assert forall|i: int| 0 <= i < FIELD_COUNT implies args[i + 1] == (if i < values.len() {
        if values[i].len() == 0 { None } else { Some(values[i]) }
    } else {
        None
    }) by {}
    if values.len() == FIELD_COUNT {
        let exact = bound_row(pt, pad_fields(values));
        assert(pad_fields(values) =~= values);
        assert forall|i: int| 0 <= i < FIELD_COUNT implies exact[i + 1] == Some(values[i]) by {}
    }
}

/// With filters whose values hold no `%` or `_`, the filtered load returns exactly
/// the grouping rows (type tag beginning with `g`) that satisfy the grouping filter
/// at every column, and the policy rows (beginning with `p`) that satisfy the policy
/// filter at every column; an empty or missing value accepts any stored value.
pub proof fn lemma_filtered_load_selects(
    g: Seq<Seq<char>>,
    p: Seq<Seq<char>>,
    ptype: Seq<char>,
    fields: Seq<Seq<char>>,
)
    requires
        g.len() <= FIELD_COUNT,
        p.len() <= FIELD_COUNT,
        fields.len() == FIELD_COUNT,
        forall|j: int| 0 <= j < g.len() ==> literal_pattern(#[trigger] g[j]),
        forall|j: int| 0 <= j < p.len() ==> literal_pattern(#[trigger] p[j]),
    ensures
        filtered_select_returns(
            (like_patterns(g) + like_patterns(p)).map_values(|f: Seq<char>| Some(f)),
            ptype,
            fields,
        ) <==> {
            ||| starts_with(ptype, 'g') && forall|i: int|
                0 <= i < FIELD_COUNT ==> satisfies_filter_at(g, i, #[trigger] fields[i])
            ||| starts_with(ptype, 'p') && forall|i: int|
                0 <= i < FIELD_COUNT ==> satisfies_filter_at(p, i, #[trigger] fields[i])
        },
{
    let args = (like_patterns(g) + like_patterns(p)).map_values(|f: Seq<char>| Some(f));
    reveal_strlit("g%");
    reveal_strlit("p%");
    assert("g%"@ =~= seq!['g', '%']);
    assert("p%"@ =~= seq!['p', '%']);
    lemma_prefix_pattern('g', ptype);
    lemma_prefix_pattern('p', ptype);
    assert forall|i: int| 0 <= i < FIELD_COUNT implies (args[i] matches Some(q) && like(
        q,
        #[trigger] fields[i],
    )) <==> satisfies_filter_at(g, i, fields[i]) by {
        assert(args[i] == Some(pattern_at(g, i)));
        lemma_patterns_match(g, fields, i);
    }
    assert forall|i: int| 0 <= i < FIELD_COUNT implies (args[FIELD_COUNT + i] matches Some(q)
        && like(q, #[trigger] fields[i])) <==> satisfies_filter_at(p, i, fields[i]) by {
        assert(args[FIELD_COUNT + i] == Some(pattern_at(p, i)));
        lemma_patterns_match(p, fields, i);
    }
}

} // verus!
