//! The SQL queries that the verse, search and chapter-count endpoints send to
//! the database. Whatever a client supplies reaches a query only as a bound
//! value, never as SQL text.

use vstd::prelude::*;

use rand::Rng;

use crate::constants::{lemma_canon_totals, total_verses, TOTAL};
use crate::models::{SearchParameters, TranslationSelector, VerseFilter};
use crate::sql::{placeholder, query_args, query_text, SqlArg, SqlQuery};
use crate::text::{lemma_trimmed_idempotent, to_uppercase, trim, trimmed, uppercase};

verus! {

/// One filter of a verse query: the column and comparison it tests, whether
/// it selects the book (and may so open the `WHERE` clause), and the value
/// it compares with.
pub struct Condition {
    pub column: Seq<char>,
    pub selects_book: bool,
    pub arg: SqlArg,
}

/// The condition that an optional text filter adds: none when it is absent.
/// `upper` says whether the value is compared in upper case.
pub open spec fn text_condition(
    value: Option<String>,
    column: Seq<char>,
    selects_book: bool,
    upper: bool,
) -> Seq<Condition> {
    match value {
        Some(x) => seq![
            Condition {
                column,
                selects_book,
                arg: SqlArg::Text(if upper { uppercase(x@) } else { x@ }),
            },
        ],
        None => Seq::empty(),
    }
}

/// The condition that an optional number filter adds: none when it is absent.
pub open spec fn int_condition(value: Option<i32>, column: Seq<char>) -> Seq<Condition> {
    match value {
        Some(x) => seq![Condition { column, selects_book: false, arg: SqlArg::Int(x as int) }],
        None => Seq::empty(),
    }
}

/// The conditions of a verse query, in the order in which they are written:
/// abbreviation, book, chapter, chapter range, verse, verse range, then
/// translation, the long and the short name of each one after the other.
/// Abbreviations and translations are compared in upper case.
pub open spec fn verse_conditions(f: VerseFilter) -> Seq<Condition> {
    text_condition(f.abbreviation, "abbreviation="@, true, true)
        + text_condition(f.ab, "abbreviation="@, true, true)
        + text_condition(f.book, "book="@, true, false)
        + text_condition(f.b, "book="@, true, false)
        + int_condition(f.ch, "chapter="@)
        + int_condition(f.chapter, "chapter="@)
        + int_condition(f.sch, "chapter>="@)
        + int_condition(f.startchapter, "chapter>="@)
        + int_condition(f.ech, "chapter<="@)
        + int_condition(f.endchapter, "chapter<="@)
        + int_condition(f.v, "verse_number="@)
        + int_condition(f.verse, "verse_number="@)
        + int_condition(f.sv, "verse_number>="@)
        + int_condition(f.startverse, "verse_number>="@)
        + int_condition(f.ev, "verse_number<="@)
        + int_condition(f.endverse, "verse_number<="@)
        + text_condition(f.tr, "translation="@, false, true)
        + text_condition(f.translation, "translation="@, false, true)
}

/// Whether one of the conditions selects the book.
pub open spec fn book_selected(cs: Seq<Condition>) -> bool
    decreases cs.len(),
{
    if cs.len() == 0 {
        false
    } else {
        cs.last().selects_book || book_selected(cs.drop_last())
    }
}

/// What a condition is joined with: the first condition that selects the
/// book opens the `WHERE` clause; every other condition is joined by `AND`.
pub open spec fn joiner(c: Condition, after_book: bool) -> Seq<char> {
    if c.selects_book && !after_book {
        " WHERE "@
    } else {
        " AND "@
    }
}

/// The SQL text of a list of conditions, the `n`-th of them tested against
/// the `n`-th placeholder.
pub open spec fn render_conditions(cs: Seq<Condition>) -> Seq<char>
    decreases cs.len(),
{
    if cs.len() == 0 {
        Seq::empty()
    } else {
        let before = cs.drop_last();
        render_conditions(before) + joiner(cs.last(), book_selected(before)) + cs.last().column
            + placeholder(cs.len())
    }
}

/// The values that a list of conditions binds, in order.
pub open spec fn condition_args(cs: Seq<Condition>) -> Seq<SqlArg> {
    cs.map_values(|c: Condition| c.arg)
}

/// The start of every verse query.
pub open spec fn verse_select() -> Seq<char> {
    "SELECT translation, book, abbreviation, book_name, chapter, verse_number, verse FROM fulltable"@
}

/// The SQL text of the verse query of a filter.
pub open spec fn verse_query_text(f: VerseFilter) -> Seq<char> {
    verse_select() + render_conditions(verse_conditions(f)) + " ORDER BY id"@
}

/// Whether a query holds `base` followed by the given conditions.
pub open spec fn holds_conditions(q: SqlQuery, base: Seq<char>, cs: Seq<Condition>) -> bool {
    &&& query_text(q) == base + render_conditions(cs)
    &&& query_args(q) == condition_args(cs)
}

proof fn lemma_push_condition(cs: Seq<Condition>, c: Condition)
    ensures
        cs.push(c).drop_last() == cs,
        render_conditions(cs.push(c)) == render_conditions(cs) + joiner(c, book_selected(cs))
            + c.column + placeholder(cs.len() + 1),
        book_selected(cs.push(c)) == (c.selects_book || book_selected(cs)),
        condition_args(cs.push(c)) == condition_args(cs).push(c.arg),
{
    assert(cs.push(c).drop_last() =~= cs);
    assert(condition_args(cs.push(c)) =~= condition_args(cs).push(c.arg));
}

/// Appends the condition of an optional text filter to a verse query.
fn add_text_condition(
    q: &mut SqlQuery,
    is_first: &mut bool,
    Ghost(base): Ghost<Seq<char>>,
    Ghost(cs): Ghost<Seq<Condition>>,
    value: &Option<String>,
    column: &str,
    selects_book: bool,
    upper: bool,
)
    requires
        holds_conditions(*old(q), base, cs),
        *old(is_first) == !book_selected(cs),
        cs.len() < 100,
    ensures
        holds_conditions(
            *final(q),
            base,
            cs + text_condition(*value, column@, selects_book, upper),
        ),
        *final(is_first) == !book_selected(
            cs + text_condition(*value, column@, selects_book, upper),
        ),
        (cs + text_condition(*value, column@, selects_book, upper)).len() <= cs.len() + 1,
{
    match value {
        Some(x) => {
            if selects_book && *is_first {
                q.push(" WHERE ");
                *is_first = false;
            } else {
                q.push(" AND ");
            }
            q.push(column);
            let v = if upper {
                to_uppercase(x.as_str())
            } else {
                x.clone()
            };
            let ghost c = Condition { column: column@, selects_book, arg: SqlArg::Text(v@) };
            q.push_bind_text(v);
            proof {
                lemma_push_condition(cs, c);
                assert(cs + text_condition(*value, column@, selects_book, upper) =~= cs.push(c));
                assert(query_text(*q) =~= base + render_conditions(cs.push(c)));
            }
        },
        None => {
            assert(cs + text_condition(*value, column@, selects_book, upper) =~= cs);
        },
    }
}

/// Appends the condition of an optional number filter to a verse query.
fn add_int_condition(
    q: &mut SqlQuery,
    is_first: &bool,
    Ghost(base): Ghost<Seq<char>>,
    Ghost(cs): Ghost<Seq<Condition>>,
    value: &Option<i32>,
    column: &str,
)
    requires
        holds_conditions(*old(q), base, cs),
        *is_first == !book_selected(cs),
        cs.len() < 100,
    ensures
        holds_conditions(*final(q), base, cs + int_condition(*value, column@)),
        *is_first == !book_selected(cs + int_condition(*value, column@)),
        (cs + int_condition(*value, column@)).len() <= cs.len() + 1,
{
    match value {
        Some(x) => {
            q.push(" AND ");
            q.push(column);
            let ghost c = Condition { column: column@, selects_book: false, arg: SqlArg::Int(*x as int) };
            q.push_bind_int(*x);
            proof {
                lemma_push_condition(cs, c);
                assert(cs + int_condition(*value, column@) =~= cs.push(c));
                assert(query_text(*q) =~= base + render_conditions(cs.push(c)));
            }
        },
        None => {
            assert(cs + int_condition(*value, column@) =~= cs);
        },
    }
}

/// The query of the verses that a filter selects, in the order of their
/// ids. Each supplied field adds one condition, bound as a value.
pub fn query_verses(qp: &VerseFilter) -> (q: SqlQuery)
    ensures
        query_text(q) == verse_query_text(*qp),
        query_args(q) == condition_args(verse_conditions(*qp)),
{
    let mut q = SqlQuery::new(
        "SELECT translation, book, abbreviation, book_name, chapter, verse_number, verse FROM fulltable",
    );
    let ghost base = query_text(q);
    let mut is_first = true;
    let ghost mut cs: Seq<Condition> = Seq::empty();
    assert(condition_args(cs) =~= Seq::<SqlArg>::empty());
    assert(base + render_conditions(cs) =~= base);

    add_text_condition(&mut q, &mut is_first, Ghost(base), Ghost(cs), &qp.abbreviation, "abbreviation=", true, true);
    proof { cs = cs + text_condition(qp.abbreviation, "abbreviation="@, true, true); }
    add_text_condition(&mut q, &mut is_first, Ghost(base), Ghost(cs), &qp.ab, "abbreviation=", true, true);
    proof { cs = cs + text_condition(qp.ab, "abbreviation="@, true, true); }
    add_text_condition(&mut q, &mut is_first, Ghost(base), Ghost(cs), &qp.book, "book=", true, false);
    proof { cs = cs + text_condition(qp.book, "book="@, true, false); }
    add_text_condition(&mut q, &mut is_first, Ghost(base), Ghost(cs), &qp.b, "book=", true, false);
    proof { cs = cs + text_condition(qp.b, "book="@, true, false); }
    add_int_condition(&mut q, &is_first, Ghost(base), Ghost(cs), &qp.ch, "chapter=");
    proof { cs = cs + int_condition(qp.ch, "chapter="@); }
    add_int_condition(&mut q, &is_first, Ghost(base), Ghost(cs), &qp.chapter, "chapter=");
    proof { cs = cs + int_condition(qp.chapter, "chapter="@); }
    add_int_condition(&mut q, &is_first, Ghost(base), Ghost(cs), &qp.sch, "chapter>=");
    proof { cs = cs + int_condition(qp.sch, "chapter>="@); }
    add_int_condition(&mut q, &is_first, Ghost(base), Ghost(cs), &qp.startchapter, "chapter>=");
    proof { cs = cs + int_condition(qp.startchapter, "chapter>="@); }
    add_int_condition(&mut q, &is_first, Ghost(base), Ghost(cs), &qp.ech, "chapter<=");
    proof { cs = cs + int_condition(qp.ech, "chapter<="@); }
    add_int_condition(&mut q, &is_first, Ghost(base), Ghost(cs), &qp.endchapter, "chapter<=");
    proof { cs = cs + int_condition(qp.endchapter, "chapter<="@); }
    add_int_condition(&mut q, &is_first, Ghost(base), Ghost(cs), &qp.v, "verse_number=");
    proof { cs = cs + int_condition(qp.v, "verse_number="@); }
    add_int_condition(&mut q, &is_first, Ghost(base), Ghost(cs), &qp.verse, "verse_number=");
    proof { cs = cs + int_condition(qp.verse, "verse_number="@); }
    add_int_condition(&mut q, &is_first, Ghost(base), Ghost(cs), &qp.sv, "verse_number>=");
    proof { cs = cs + int_condition(qp.sv, "verse_number>="@); }
    add_int_condition(&mut q, &is_first, Ghost(base), Ghost(cs), &qp.startverse, "verse_number>=");
    proof { cs = cs + int_condition(qp.startverse, "verse_number>="@); }
    add_int_condition(&mut q, &is_first, Ghost(base), Ghost(cs), &qp.ev, "verse_number<=");
    proof { cs = cs + int_condition(qp.ev, "verse_number<="@); }
    add_int_condition(&mut q, &is_first, Ghost(base), Ghost(cs), &qp.endverse, "verse_number<=");
    proof { cs = cs + int_condition(qp.endverse, "verse_number<="@); }
    add_text_condition(&mut q, &mut is_first, Ghost(base), Ghost(cs), &qp.tr, "translation=", false, true);
    proof { cs = cs + text_condition(qp.tr, "translation="@, false, true); }
    add_text_condition(&mut q, &mut is_first, Ghost(base), Ghost(cs), &qp.translation, "translation=", false, true);
    proof { cs = cs + text_condition(qp.translation, "translation="@, false, true); }

    q.push(" ORDER BY id");
    q
}


/// Whether two lists of conditions test the same columns in the same way,
/// whatever values they compare with.
pub open spec fn same_shape(cs1: Seq<Condition>, cs2: Seq<Condition>) -> bool {
    &&& cs1.len() == cs2.len()
    &&& forall|i: int|
        0 <= i < cs1.len() ==> (#[trigger] cs1[i]).column == cs2[i].column && cs1[i].selects_book
            == cs2[i].selects_book
}

proof fn lemma_same_shape_render(cs1: Seq<Condition>, cs2: Seq<Condition>)
    requires
        same_shape(cs1, cs2),
    ensures
        render_conditions(cs1) == render_conditions(cs2),
        book_selected(cs1) == book_selected(cs2),
    decreases cs1.len(),
{
    if cs1.len() > 0 {
        let last = cs1.len() - 1;
        assert(cs1[last].column == cs2[last].column);
        lemma_same_shape_render(cs1.drop_last(), cs2.drop_last());
    }
}

proof fn lemma_same_shape_concat(a1: Seq<Condition>, a2: Seq<Condition>, b1: Seq<Condition>, b2: Seq<Condition>)
    requires
        same_shape(a1, a2),
        same_shape(b1, b2),
    ensures
        same_shape(a1 + b1, a2 + b2),
{
    assert forall|i: int| 0 <= i < (a1 + b1).len() implies (#[trigger] (a1 + b1)[i]).column == (a2
        + b2)[i].column && (a1 + b1)[i].selects_book == (a2 + b2)[i].selects_book by {
        if i < a1.len() {
            assert((a1 + b1)[i] == a1[i]);
            assert((a2 + b2)[i] == a2[i]);
        } else {
            assert((a1 + b1)[i] == b1[i - a1.len()]);
            assert((a2 + b2)[i] == b2[i - a2.len()]);
        }
    }
}

/// Whether two filters give the same fields, whatever their values.
pub open spec fn same_fields(f1: VerseFilter, f2: VerseFilter) -> bool {
    &&& f1.translation is Some == f2.translation is Some
    &&& f1.tr is Some == f2.tr is Some
    &&& f1.book is Some == f2.book is Some
    &&& f1.b is Some == f2.b is Some
    &&& f1.abbreviation is Some == f2.abbreviation is Some
    &&& f1.ab is Some == f2.ab is Some
    &&& f1.chapter is Some == f2.chapter is Some
    &&& f1.ch is Some == f2.ch is Some
    &&& f1.startchapter is Some == f2.startchapter is Some
    &&& f1.sch is Some == f2.sch is Some
    &&& f1.endchapter is Some == f2.endchapter is Some
    &&& f1.ech is Some == f2.ech is Some
    &&& f1.verse is Some == f2.verse is Some
    &&& f1.v is Some == f2.v is Some
    &&& f1.startverse is Some == f2.startverse is Some
    &&& f1.sv is Some == f2.sv is Some
    &&& f1.endverse is Some == f2.endverse is Some
    &&& f1.ev is Some == f2.ev is Some
}

proof fn lemma_text_condition_shape(
    v1: Option<String>,
    v2: Option<String>,
    column: Seq<char>,
    selects_book: bool,
    upper: bool,
)
    requires
        v1 is Some == v2 is Some,
    ensures
        same_shape(
            text_condition(v1, column, selects_book, upper),
            text_condition(v2, column, selects_book, upper),
        ),
{
}

/// Two lists of the same shape, extended by the conditions of two optional
/// text filters that are both given or both absent, keep the same shape.
proof fn lemma_shape_extend_text(
    a1: Seq<Condition>,
    a2: Seq<Condition>,
    v1: Option<String>,
    v2: Option<String>,
    column: Seq<char>,
    selects_book: bool,
    upper: bool,
)
    requires
        same_shape(a1, a2),
        v1 is Some == v2 is Some,
    ensures
        same_shape(
            a1 + text_condition(v1, column, selects_book, upper),
            a2 + text_condition(v2, column, selects_book, upper),
        ),
{
    lemma_text_condition_shape(v1, v2, column, selects_book, upper);
    lemma_same_shape_concat(
        a1,
        a2,
        text_condition(v1, column, selects_book, upper),
        text_condition(v2, column, selects_book, upper),
    );
}

/// Two lists of the same shape, extended by the conditions of two optional
/// number filters that are both given or both absent, keep the same shape.
proof fn lemma_shape_extend_int(
    a1: Seq<Condition>,
    a2: Seq<Condition>,
    v1: Option<i32>,
    v2: Option<i32>,
    column: Seq<char>,
)
    requires
        same_shape(a1, a2),
        v1 is Some == v2 is Some,
    ensures
        same_shape(a1 + int_condition(v1, column), a2 + int_condition(v2, column)),
{
    lemma_same_shape_concat(a1, a2, int_condition(v1, column), int_condition(v2, column));
}

/// What a client sends reaches the verse query only as bound values: two
/// filters that give the same fields have the same SQL text, whatever the
/// values of those fields; and the query binds one value per given field.
#[verifier::spinoff_prover]
pub proof fn lemma_verse_text_independent_of_values(f1: VerseFilter, f2: VerseFilter)
    requires
        same_fields(f1, f2),
    ensures
        verse_query_text(f1) == verse_query_text(f2),
        condition_args(verse_conditions(f1)).len() == condition_args(verse_conditions(f2)).len(),
{
    lemma_text_condition_shape(f1.abbreviation, f2.abbreviation, "abbreviation="@, true, true);
    let a1 = text_condition(f1.abbreviation, "abbreviation="@, true, true);
    let a2 = text_condition(f2.abbreviation, "abbreviation="@, true, true);
    lemma_shape_extend_text(a1, a2, f1.ab, f2.ab, "abbreviation="@, true, true);
    let a1 = a1 + text_condition(f1.ab, "abbreviation="@, true, true);
    let a2 = a2 + text_condition(f2.ab, "abbreviation="@, true, true);
    lemma_shape_extend_text(a1, a2, f1.book, f2.book, "book="@, true, false);
    let a1 = a1 + text_condition(f1.book, "book="@, true, false);
    let a2 = a2 + text_condition(f2.book, "book="@, true, false);
    lemma_shape_extend_text(a1, a2, f1.b, f2.b, "book="@, true, false);
    let a1 = a1 + text_condition(f1.b, "book="@, true, false);
    let a2 = a2 + text_condition(f2.b, "book="@, true, false);
    lemma_shape_extend_int(a1, a2, f1.ch, f2.ch, "chapter="@);
    let a1 = a1 + int_condition(f1.ch, "chapter="@);
    let a2 = a2 + int_condition(f2.ch, "chapter="@);
    lemma_shape_extend_int(a1, a2, f1.chapter, f2.chapter, "chapter="@);
    let a1 = a1 + int_condition(f1.chapter, "chapter="@);
    let a2 = a2 + int_condition(f2.chapter, "chapter="@);
    lemma_shape_extend_int(a1, a2, f1.sch, f2.sch, "chapter>="@);
    let a1 = a1 + int_condition(f1.sch, "chapter>="@);
    let a2 = a2 + int_condition(f2.sch, "chapter>="@);
    lemma_shape_extend_int(a1, a2, f1.startchapter, f2.startchapter, "chapter>="@);
    let a1 = a1 + int_condition(f1.startchapter, "chapter>="@);
    let a2 = a2 + int_condition(f2.startchapter, "chapter>="@);
    lemma_shape_extend_int(a1, a2, f1.ech, f2.ech, "chapter<="@);
    let a1 = a1 + int_condition(f1.ech, "chapter<="@);
    let a2 = a2 + int_condition(f2.ech, "chapter<="@);
    lemma_shape_extend_int(a1, a2, f1.endchapter, f2.endchapter, "chapter<="@);
    let a1 = a1 + int_condition(f1.endchapter, "chapter<="@);
    let a2 = a2 + int_condition(f2.endchapter, "chapter<="@);
    lemma_shape_extend_int(a1, a2, f1.v, f2.v, "verse_number="@);
    let a1 = a1 + int_condition(f1.v, "verse_number="@);
    let a2 = a2 + int_condition(f2.v, "verse_number="@);
    lemma_shape_extend_int(a1, a2, f1.verse, f2.verse, "verse_number="@);
    let a1 = a1 + int_condition(f1.verse, "verse_number="@);
    let a2 = a2 + int_condition(f2.verse, "verse_number="@);
    lemma_shape_extend_int(a1, a2, f1.sv, f2.sv, "verse_number>="@);
    let a1 = a1 + int_condition(f1.sv, "verse_number>="@);
    let a2 = a2 + int_condition(f2.sv, "verse_number>="@);
    lemma_shape_extend_int(a1, a2, f1.startverse, f2.startverse, "verse_number>="@);
    let a1 = a1 + int_condition(f1.startverse, "verse_number>="@);
    let a2 = a2 + int_condition(f2.startverse, "verse_number>="@);
    lemma_shape_extend_int(a1, a2, f1.ev, f2.ev, "verse_number<="@);
    let a1 = a1 + int_condition(f1.ev, "verse_number<="@);
    let a2 = a2 + int_condition(f2.ev, "verse_number<="@);
    lemma_shape_extend_int(a1, a2, f1.endverse, f2.endverse, "verse_number<="@);
    let a1 = a1 + int_condition(f1.endverse, "verse_number<="@);
    let a2 = a2 + int_condition(f2.endverse, "verse_number<="@);
    lemma_shape_extend_text(a1, a2, f1.tr, f2.tr, "translation="@, false, true);
    let a1 = a1 + text_condition(f1.tr, "translation="@, false, true);
    let a2 = a2 + text_condition(f2.tr, "translation="@, false, true);
    lemma_shape_extend_text(a1, a2, f1.translation, f2.translation, "translation="@, false, true);
    let a1 = a1 + text_condition(f1.translation, "translation="@, false, true);
    let a2 = a2 + text_condition(f2.translation, "translation="@, false, true);
    lemma_same_shape_render(a1, a2);
}

/// Whether a field with two names is given the same way by two filters:
/// the same under each name, or its one value moved from one name to the
/// other.
pub open spec fn same_field<T>(a1: Option<T>, b1: Option<T>, a2: Option<T>, b2: Option<T>) -> bool {
    ||| a1 == a2 && b1 == b2
    ||| a1 is None && b2 is None && b1 == a2
    ||| b1 is None && a2 is None && a1 == b2
}

proof fn lemma_pair_text(
    x: Seq<Condition>,
    a1: Option<String>,
    b1: Option<String>,
    a2: Option<String>,
    b2: Option<String>,
    column: Seq<char>,
    selects_book: bool,
    upper: bool,
)
    requires
        same_field(a1, b1, a2, b2),
    ensures
        x + text_condition(a1, column, selects_book, upper) + text_condition(
            b1,
            column,
            selects_book,
            upper,
        ) == x + text_condition(a2, column, selects_book, upper) + text_condition(
            b2,
            column,
            selects_book,
            upper,
        ),
{
    assert(x + text_condition(a1, column, selects_book, upper) + text_condition(
        b1,
        column,
        selects_book,
        upper,
    ) =~= x + text_condition(a2, column, selects_book, upper) + text_condition(
        b2,
        column,
        selects_book,
        upper,
    ));
}

proof fn lemma_pair_int(
    x: Seq<Condition>,
    a1: Option<i32>,
    b1: Option<i32>,
    a2: Option<i32>,
    b2: Option<i32>,
    column: Seq<char>,
)
    requires
        same_field(a1, b1, a2, b2),
    ensures
        x + int_condition(a1, column) + int_condition(b1, column) == x + int_condition(a2, column)
            + int_condition(b2, column),
{
    assert(x + int_condition(a1, column) + int_condition(b1, column) =~= x + int_condition(
        a2,
        column,
    ) + int_condition(b2, column));
}

/// The short name of each field is a synonym of its long name: two filters
/// that give every field the same way, except that some fields given under
/// one name by one filter are given under the other name by the other, have
/// the same verse query (SQL text and bound values).
#[verifier::spinoff_prover]
pub proof fn lemma_short_names_are_synonyms(f1: VerseFilter, f2: VerseFilter)
    requires
        same_field(f1.abbreviation, f1.ab, f2.abbreviation, f2.ab),
        same_field(f1.book, f1.b, f2.book, f2.b),
        same_field(f1.ch, f1.chapter, f2.ch, f2.chapter),
        same_field(f1.sch, f1.startchapter, f2.sch, f2.startchapter),
        same_field(f1.ech, f1.endchapter, f2.ech, f2.endchapter),
        same_field(f1.v, f1.verse, f2.v, f2.verse),
        same_field(f1.sv, f1.startverse, f2.sv, f2.startverse),
        same_field(f1.ev, f1.endverse, f2.ev, f2.endverse),
        same_field(f1.tr, f1.translation, f2.tr, f2.translation),
    ensures
        verse_conditions(f1) == verse_conditions(f2),
        verse_query_text(f1) == verse_query_text(f2),
        condition_args(verse_conditions(f1)) == condition_args(verse_conditions(f2)),
{
    let col = "abbreviation="@;
    let x1 = text_condition(f1.abbreviation, col, true, true) + text_condition(f1.ab, col, true, true);
    let x2 = text_condition(f2.abbreviation, col, true, true) + text_condition(f2.ab, col, true, true);
    assert(x1 =~= x2);
    lemma_pair_text(x1, f1.book, f1.b, f2.book, f2.b, "book="@, true, false);
    let x1 = x1 + text_condition(f1.book, "book="@, true, false) + text_condition(f1.b, "book="@, true, false);
    let x2 = x2 + text_condition(f2.book, "book="@, true, false) + text_condition(f2.b, "book="@, true, false);
    lemma_pair_int(x1, f1.ch, f1.chapter, f2.ch, f2.chapter, "chapter="@);
    let x1 = x1 + int_condition(f1.ch, "chapter="@) + int_condition(f1.chapter, "chapter="@);
    let x2 = x2 + int_condition(f2.ch, "chapter="@) + int_condition(f2.chapter, "chapter="@);
    lemma_pair_int(x1, f1.sch, f1.startchapter, f2.sch, f2.startchapter, "chapter>="@);
    let x1 = x1 + int_condition(f1.sch, "chapter>="@) + int_condition(f1.startchapter, "chapter>="@);
    let x2 = x2 + int_condition(f2.sch, "chapter>="@) + int_condition(f2.startchapter, "chapter>="@);
    lemma_pair_int(x1, f1.ech, f1.endchapter, f2.ech, f2.endchapter, "chapter<="@);
    let x1 = x1 + int_condition(f1.ech, "chapter<="@) + int_condition(f1.endchapter, "chapter<="@);
    let x2 = x2 + int_condition(f2.ech, "chapter<="@) + int_condition(f2.endchapter, "chapter<="@);
    lemma_pair_int(x1, f1.v, f1.verse, f2.v, f2.verse, "verse_number="@);
    let x1 = x1 + int_condition(f1.v, "verse_number="@) + int_condition(f1.verse, "verse_number="@);
    let x2 = x2 + int_condition(f2.v, "verse_number="@) + int_condition(f2.verse, "verse_number="@);
    lemma_pair_int(x1, f1.sv, f1.startverse, f2.sv, f2.startverse, "verse_number>="@);
    let x1 = x1 + int_condition(f1.sv, "verse_number>="@) + int_condition(f1.startverse, "verse_number>="@);
    let x2 = x2 + int_condition(f2.sv, "verse_number>="@) + int_condition(f2.startverse, "verse_number>="@);
    lemma_pair_int(x1, f1.ev, f1.endverse, f2.ev, f2.endverse, "verse_number<="@);
    let x1 = x1 + int_condition(f1.ev, "verse_number<="@) + int_condition(f1.endverse, "verse_number<="@);
    let x2 = x2 + int_condition(f2.ev, "verse_number<="@) + int_condition(f2.endverse, "verse_number<="@);
    lemma_pair_text(x1, f1.tr, f1.translation, f2.tr, f2.translation, "translation="@, false, true);
    let x1 = x1 + text_condition(f1.tr, "translation="@, false, true) + text_condition(f1.translation, "translation="@, false, true);
    let x2 = x2 + text_condition(f2.tr, "translation="@, false, true) + text_condition(f2.translation, "translation="@, false, true);
}

/// What a request for verses that names no book is answered with.
pub const MISSING_BOOK_MESSAGE: &'static str = "Either one of book or abbreviation parameters is required";

/// Whether a filter names the book, by name or by abbreviation, under the
/// long or the short field name.
pub open spec fn names_book(f: VerseFilter) -> bool {
    ||| f.book is Some
    ||| f.b is Some
    ||| f.abbreviation is Some
    ||| f.ab is Some
}

/// A request for verses: refused with `MISSING_BOOK_MESSAGE` when the filter
/// names no book, else the query of the verses it selects.
pub fn verses_request(f: &VerseFilter) -> (r: Result<SqlQuery, &'static str>)
    ensures
        r is Err <==> !names_book(*f),
        r matches Err(m) ==> m@ == MISSING_BOOK_MESSAGE@,
        r matches Ok(q) ==> query_text(q) == verse_query_text(*f) && query_args(q)
            == condition_args(verse_conditions(*f)),
{
    if f.book.is_none() && f.b.is_none() && f.abbreviation.is_none() && f.ab.is_none() {
        Err(MISSING_BOOK_MESSAGE)
    } else {
        Ok(query_verses(f))
    }
}

/// The start of the query of one verse by its id, in every translation.
pub const RANDOM_VERSE_SELECT: &'static str = "select t.name as translation, b.name as book, b.abbreviation as abbreviation, bb.name as book_name, c.chapter_number as chapter, v.verse_number as verse_number, vv.verse as verse from \"VerseText\" vv join \"Translation\" t on t.id=vv.translation_id join \"Verse\" v on v.id=vv.verse_id join \"Chapter\"\n        c on c.id=v.chapter_id join \"Book\"\n        b on b.id=c.book_id join \"TranslationBookName\"\n        bb on bb.book_id=b.id and vv.translation_id=bb.translation_id\n        where vv.verse_id=";

/// The smallest verse id that a random verse is drawn from.
pub const FIRST_VERSE_ID: i32 = 1i32;

/// The verse ids that a random verse is drawn from stop below this one.
pub const VERSE_ID_END: i32 = 31102i32;

/// The translation that a selector chooses: the long field where it is
/// given, else the short one.
pub open spec fn chosen_translation(sel: TranslationSelector) -> Option<String> {
    if sel.translation is Some {
        sel.translation
    } else {
        sel.tr
    }
}

/// The SQL text of the query of verse `id`, in the chosen translation if
/// there is one.
pub open spec fn random_verse_text(sel: TranslationSelector) -> Seq<char> {
    RANDOM_VERSE_SELECT@ + placeholder(1) + match chosen_translation(sel) {
        Some(_) => " and t.name="@ + placeholder(2),
        None => Seq::empty(),
    }
}

/// The values that the query of verse `id` binds: the id, then the chosen
/// translation in upper case.
pub open spec fn random_verse_args(id: int, sel: TranslationSelector) -> Seq<SqlArg> {
    seq![SqlArg::Int(id)] + match chosen_translation(sel) {
        Some(t) => seq![SqlArg::Text(uppercase(t@))],
        None => Seq::empty(),
    }
}

/// The query of the verse with the given id, in the translation that the
/// selector chooses, or in all of them.
pub fn random_verse_query(id: i32, sel: &TranslationSelector) -> (q: SqlQuery)
    ensures
        query_text(q) == random_verse_text(*sel),
        query_args(q) == random_verse_args(id as int, *sel),
        sel.translation matches Some(t) ==> query_args(q) == seq![
            SqlArg::Int(id as int),
            SqlArg::Text(uppercase(t@)),
        ],
        sel.translation is None ==> (sel.tr matches Some(t) ==> query_args(q) == seq![
            SqlArg::Int(id as int),
            SqlArg::Text(uppercase(t@)),
        ]),
        sel.translation is None && sel.tr is None ==> query_args(q) == seq![SqlArg::Int(id as int)],
{
    let mut q = SqlQuery::new(RANDOM_VERSE_SELECT);
    q.push_bind_int(id);
    assert(query_args(q) =~= seq![SqlArg::Int(id as int)]);
    let chosen = if sel.translation.is_some() {
        &sel.translation
    } else {
        &sel.tr
    };
    match chosen {
        Some(t) => {
            let upper = to_uppercase(t.as_str());
            q.push(" and t.name=");
            q.push_bind_text(upper);
            assert(query_text(q) =~= random_verse_text(*sel));
            assert(query_args(q) =~= random_verse_args(id as int, *sel));
        },
        None => {
            assert(query_text(q) =~= random_verse_text(*sel));
            assert(query_args(q) =~= random_verse_args(id as int, *sel));
        },
    }
    q
}

/// `rand::Rng::gen_range` on the thread's generator: a number drawn
/// uniformly from `low` up to, not including, `high` (which must be above
/// `low`, else it panics). Which number comes back is chance; only the range
/// is promised.
#[verifier::external_body]
fn random_i32(low: i32, high: i32) -> (r: i32)
    requires
        low < high,
    ensures
        low <= r < high,
{
    rand::thread_rng().gen_range(low..high)
}

/// The query of a verse drawn at random, in the translation that the
/// selector chooses, or in all of them.
pub fn random_verse(sel: &TranslationSelector) -> (q: SqlQuery)
    ensures
        query_text(q) == random_verse_text(*sel),
        exists|id: int|
            FIRST_VERSE_ID <= id < VERSE_ID_END && query_args(q) == random_verse_args(id, *sel),
{
    let id = random_i32(FIRST_VERSE_ID, VERSE_ID_END);
    random_verse_query(id, sel)
}

/// The start of the query of the number of chapters of a book, by its name.
pub const CHAPTER_COUNT_SELECT: &'static str = "SELECT COUNT(*) AS count FROM \"Chapter\" WHERE book_id=(SELECT id FROM \"Book\" WHERE name=";

/// The query of the number of chapters of the book of the given name.
pub fn chapter_count_query(book: String) -> (q: SqlQuery)
    ensures
        query_text(q) == CHAPTER_COUNT_SELECT@ + placeholder(1) + ")"@,
        query_args(q) == seq![SqlArg::Text(book@)],
{
    let mut q = SqlQuery::new(CHAPTER_COUNT_SELECT);
    q.push_bind_text(book);
    q.push(")");
    assert(query_args(q) =~= seq![SqlArg::Text(book@)]);
    q
}


/// The start of every search query: the verse text is compared next.
pub const SEARCH_SELECT: &'static str = "\n    SELECT translation, book, abbreviation, book_name, chapter, verse_number, verse from fulltable where verse ";

/// The fewest bytes of search text that a search is run for.
pub const MIN_SEARCH_BYTES: usize = 3usize;

/// The length in bytes (UTF-8) of a text, as `str::len` gives it (a text
/// held in memory has fewer bytes than `usize` can count).
pub open spec fn byte_len(s: Seq<char>) -> usize {
    vstd::utf8::encode_utf8(s).len() as usize
}

/// An optional flag, false where it is absent.
pub open spec fn flag(b: Option<bool>) -> bool {
    match b {
        Some(x) => x,
        None => false,
    }
}

/// The comparison a search makes: a Postgres regular expression match for
/// whole words, else `LIKE`; case-insensitive unless the case must match.
pub open spec fn search_operator(match_case: bool, whole_words: bool) -> Seq<char> {
    if whole_words {
        if match_case {
            "~ "@
        } else {
            "~* "@
        }
    } else {
        if match_case {
            "like "@
        } else {
            "ilike "@
        }
    }
}

/// The pattern a search compares with: the trimmed text between word
/// boundaries (`\m`, `\M`) for whole words, else between `%` wildcards.
pub open spec fn search_pattern(text: Seq<char>, whole_words: bool) -> Seq<char> {
    if whole_words {
        "\\m"@ + trimmed(text) + "\\M"@
    } else {
        "%"@ + trimmed(text) + "%"@
    }
}

/// The pattern that a search for `text` compares verses with: the trimmed
/// text between word boundaries for whole words, else between wildcards.
pub fn search_pattern_for(text: &str, whole_words: bool) -> (pattern: String)
    ensures
        pattern@ == search_pattern(text@, whole_words),
{
    let trimmed_text = trim(text);
    if whole_words {
        String::from_str("\\m").concat(trimmed_text.as_str()).concat("\\M")
    } else {
        String::from_str("%").concat(trimmed_text.as_str()).concat("%")
    }
}

/// The SQL text of the search query of `p`.
pub open spec fn search_text(p: SearchParameters) -> Seq<char> {
    let nb: nat = if p.book is Some { 1 } else { 0 };
    SEARCH_SELECT@ + search_operator(flag(p.match_case), flag(p.whole_words)) + placeholder(1)
        + " and translation="@ + placeholder(2) + match p.book {
        Some(_) => " and book="@ + placeholder(3),
        None => Seq::empty(),
    } + match p.abbreviation {
        Some(_) => " and abbreviation="@ + placeholder(3 + nb),
        None => Seq::empty(),
    }
}

/// The values that the search query of `p` binds: the pattern, the
/// translation in upper case, the book, the abbreviation in upper case.
pub open spec fn search_args(p: SearchParameters) -> Seq<SqlArg> {
    seq![
        SqlArg::Text(search_pattern(p.search_text@, flag(p.whole_words))),
        SqlArg::Text(uppercase(p.translation@)),
    ] + match p.book {
        Some(b) => seq![SqlArg::Text(b@)],
        None => Seq::empty(),
    } + match p.abbreviation {
        Some(a) => seq![SqlArg::Text(uppercase(a@))],
        None => Seq::empty(),
    }
}

/// The query of a full-text search: none when the search text is shorter
/// than `MIN_SEARCH_BYTES` bytes (such a search finds nothing), else the
/// query of the verses of the translation (and book) whose text matches.
pub fn search_query(p: &SearchParameters) -> (r: Option<SqlQuery>)
    ensures
        r is None <==> byte_len(p.search_text@) < MIN_SEARCH_BYTES,
        r matches Some(q) ==> query_text(q) == search_text(*p) && query_args(q) == search_args(*p),
{
    if p.search_text.as_str().len() < MIN_SEARCH_BYTES {
        return None;
    }
    let mut q = SqlQuery::new(SEARCH_SELECT);
    let match_case = match p.match_case {
        Some(x) => x,
        None => false,
    };
    let whole_words = match p.whole_words {
        Some(x) => x,
        None => false,
    };
    if whole_words {
        if match_case {
            q.push("~ ");
        } else {
            q.push("~* ");
        }
    } else {
        if match_case {
            q.push("like ");
        } else {
            q.push("ilike ");
        }
    }
    q.push_bind_text(search_pattern_for(p.search_text.as_str(), whole_words));
    q.push(" and translation=");
    q.push_bind_text(to_uppercase(p.translation.as_str()));
    let ghost nb: nat = if p.book is Some { 1 } else { 0 };
    let ghost mid_args = query_args(q);
    assert(mid_args.len() == 2);
    if let Some(book) = &p.book {
        q.push(" and book=");
        q.push_bind_text(book.clone());
    }
    assert(query_args(q).len() == 2 + nb);
    if let Some(abbreviation) = &p.abbreviation {
        q.push(" and abbreviation=");
        q.push_bind_text(to_uppercase(abbreviation.as_str()));
    }
    assert(query_text(q) =~= search_text(*p));
    assert(query_args(q) =~= search_args(*p));
    Some(q)
}


/// What a client searches for reaches the search query only as bound
/// values: two searches with the same flags and the same optional fields
/// given have the same SQL text, whatever their texts, translations, books
/// and abbreviations.
pub proof fn lemma_search_text_independent_of_values(p1: SearchParameters, p2: SearchParameters)
    requires
        flag(p1.match_case) == flag(p2.match_case),
        flag(p1.whole_words) == flag(p2.whole_words),
        p1.book is Some == p2.book is Some,
        p1.abbreviation is Some == p2.abbreviation is Some,
    ensures
        search_text(p1) == search_text(p2),
        search_args(p1).len() == search_args(p2).len(),
{
}


/// Every id that a random verse is drawn from is the id of a verse: the ids
/// run from 1 and stay within the number of verses of the canon.
pub proof fn lemma_random_ids_are_verses(id: int)
    requires
        FIRST_VERSE_ID <= id < VERSE_ID_END,
    ensures
        1 <= id <= total_verses(TOTAL as int),
{
    lemma_canon_totals();
}


/// White space around the search text does not change a search: a search for
/// the trimmed text, with everything else the same, has the same SQL text
/// and binds the same values (whenever both searches are run).
pub proof fn lemma_search_ignores_surrounding_white_space(p1: SearchParameters, p2: SearchParameters)
    requires
        p2.search_text@ == trimmed(p1.search_text@),
        p2.match_case == p1.match_case,
        p2.whole_words == p1.whole_words,
        p2.translation == p1.translation,
        p2.book == p1.book,
        p2.abbreviation == p1.abbreviation,
    ensures
        search_text(p2) == search_text(p1),
        search_args(p2) == search_args(p1),
{
    lemma_trimmed_idempotent(p1.search_text@);
}


/// Whether every condition of `a` is also a condition of `b`.
pub open spec fn covers(a: Seq<Condition>, b: Seq<Condition>) -> bool {
    forall|i: int| 0 <= i < a.len() ==> b.contains(#[trigger] a[i])
}

/// Whether `f2` gives every field that `f1` gives, with the same value (and
/// possibly more).
pub open spec fn extends(f1: VerseFilter, f2: VerseFilter) -> bool {
    &&& f1.abbreviation is Some ==> f2.abbreviation == f1.abbreviation
    &&& f1.ab is Some ==> f2.ab == f1.ab
    &&& f1.book is Some ==> f2.book == f1.book
    &&& f1.b is Some ==> f2.b == f1.b
    &&& f1.ch is Some ==> f2.ch == f1.ch
    &&& f1.chapter is Some ==> f2.chapter == f1.chapter
    &&& f1.sch is Some ==> f2.sch == f1.sch
    &&& f1.startchapter is Some ==> f2.startchapter == f1.startchapter
    &&& f1.ech is Some ==> f2.ech == f1.ech
    &&& f1.endchapter is Some ==> f2.endchapter == f1.endchapter
    &&& f1.v is Some ==> f2.v == f1.v
    &&& f1.verse is Some ==> f2.verse == f1.verse
    &&& f1.sv is Some ==> f2.sv == f1.sv
    &&& f1.startverse is Some ==> f2.startverse == f1.startverse
    &&& f1.ev is Some ==> f2.ev == f1.ev
    &&& f1.endverse is Some ==> f2.endverse == f1.endverse
    &&& f1.tr is Some ==> f2.tr == f1.tr
    &&& f1.translation is Some ==> f2.translation == f1.translation
}

proof fn lemma_cover_text(
    a: Seq<Condition>,
    b: Seq<Condition>,
    v1: Option<String>,
    v2: Option<String>,
    column: Seq<char>,
    selects_book: bool,
    upper: bool,
)
    requires
        covers(a, b),
        v1 is Some ==> v2 == v1,
    ensures
        covers(
            a + text_condition(v1, column, selects_book, upper),
            b + text_condition(v2, column, selects_book, upper),
        ),
{
    let a2 = a + text_condition(v1, column, selects_book, upper);
    let b2 = b + text_condition(v2, column, selects_book, upper);
    assert forall|i: int| 0 <= i < a2.len() implies b2.contains(#[trigger] a2[i]) by {
        if i < a.len() {
            let j = choose|j: int| 0 <= j < b.len() && b[j] == a[i];
            assert(b2[j] == a2[i]);
        } else {
            assert(b2[b.len() as int] == a2[i]);
        }
    }
}

proof fn lemma_cover_int(
    a: Seq<Condition>,
    b: Seq<Condition>,
    v1: Option<i32>,
    v2: Option<i32>,
    column: Seq<char>,
)
    requires
        covers(a, b),
        v1 is Some ==> v2 == v1,
    ensures
        covers(a + int_condition(v1, column), b + int_condition(v2, column)),
{
    let a2 = a + int_condition(v1, column);
    let b2 = b + int_condition(v2, column);
    assert forall|i: int| 0 <= i < a2.len() implies b2.contains(#[trigger] a2[i]) by {
        if i < a.len() {
            let j = choose|j: int| 0 <= j < b.len() && b[j] == a[i];
            assert(b2[j] == a2[i]);
        } else {
            assert(b2[b.len() as int] == a2[i]);
        }
    }
}

/// Giving more fields only adds conditions: when `f2` gives every field that
/// `f1` gives, with the same value, every condition of the verse query of
/// `f1` is a condition of that of `f2`; and where `f1` names a book, so does
/// `f2`, so that both queries are one `WHERE` clause of conditions joined by
/// `AND`, and `f2`'s selects no verse that `f1`'s does not.
#[verifier::spinoff_prover]
pub proof fn lemma_more_fields_more_conditions(f1: VerseFilter, f2: VerseFilter)
    requires
        extends(f1, f2),
    ensures
        covers(verse_conditions(f1), verse_conditions(f2)),
        names_book(f1) ==> names_book(f2),
{
    let c1 = text_condition(f1.abbreviation, "abbreviation="@, true, true);
    let c2 = text_condition(f2.abbreviation, "abbreviation="@, true, true);
    assert(covers(c1, c2));
    lemma_cover_text(c1, c2, f1.ab, f2.ab, "abbreviation="@, true, true);
    let c1 = c1 + text_condition(f1.ab, "abbreviation="@, true, true);
    let c2 = c2 + text_condition(f2.ab, "abbreviation="@, true, true);
    lemma_cover_text(c1, c2, f1.book, f2.book, "book="@, true, false);
    let c1 = c1 + text_condition(f1.book, "book="@, true, false);
    let c2 = c2 + text_condition(f2.book, "book="@, true, false);
    lemma_cover_text(c1, c2, f1.b, f2.b, "book="@, true, false);
    let c1 = c1 + text_condition(f1.b, "book="@, true, false);
    let c2 = c2 + text_condition(f2.b, "book="@, true, false);
    lemma_cover_int(c1, c2, f1.ch, f2.ch, "chapter="@);
    let c1 = c1 + int_condition(f1.ch, "chapter="@);
    let c2 = c2 + int_condition(f2.ch, "chapter="@);
    lemma_cover_int(c1, c2, f1.chapter, f2.chapter, "chapter="@);
    let c1 = c1 + int_condition(f1.chapter, "chapter="@);
    let c2 = c2 + int_condition(f2.chapter, "chapter="@);
    lemma_cover_int(c1, c2, f1.sch, f2.sch, "chapter>="@);
    let c1 = c1 + int_condition(f1.sch, "chapter>="@);
    let c2 = c2 + int_condition(f2.sch, "chapter>="@);
    lemma_cover_int(c1, c2, f1.startchapter, f2.startchapter, "chapter>="@);
    let c1 = c1 + int_condition(f1.startchapter, "chapter>="@);
    let c2 = c2 + int_condition(f2.startchapter, "chapter>="@);
    lemma_cover_int(c1, c2, f1.ech, f2.ech, "chapter<="@);
    let c1 = c1 + int_condition(f1.ech, "chapter<="@);
    let c2 = c2 + int_condition(f2.ech, "chapter<="@);
    lemma_cover_int(c1, c2, f1.endchapter, f2.endchapter, "chapter<="@);
    let c1 = c1 + int_condition(f1.endchapter, "chapter<="@);
    let c2 = c2 + int_condition(f2.endchapter, "chapter<="@);
    lemma_cover_int(c1, c2, f1.v, f2.v, "verse_number="@);
    let c1 = c1 + int_condition(f1.v, "verse_number="@);
    let c2 = c2 + int_condition(f2.v, "verse_number="@);
    lemma_cover_int(c1, c2, f1.verse, f2.verse, "verse_number="@);
    let c1 = c1 + int_condition(f1.verse, "verse_number="@);
    let c2 = c2 + int_condition(f2.verse, "verse_number="@);
    lemma_cover_int(c1, c2, f1.sv, f2.sv, "verse_number>="@);
    let c1 = c1 + int_condition(f1.sv, "verse_number>="@);
    let c2 = c2 + int_condition(f2.sv, "verse_number>="@);
    lemma_cover_int(c1, c2, f1.startverse, f2.startverse, "verse_number>="@);
    let c1 = c1 + int_condition(f1.startverse, "verse_number>="@);
    let c2 = c2 + int_condition(f2.startverse, "verse_number>="@);
    lemma_cover_int(c1, c2, f1.ev, f2.ev, "verse_number<="@);
    let c1 = c1 + int_condition(f1.ev, "verse_number<="@);
    let c2 = c2 + int_condition(f2.ev, "verse_number<="@);
    lemma_cover_int(c1, c2, f1.endverse, f2.endverse, "verse_number<="@);
    let c1 = c1 + int_condition(f1.endverse, "verse_number<="@);
    let c2 = c2 + int_condition(f2.endverse, "verse_number<="@);
    lemma_cover_text(c1, c2, f1.tr, f2.tr, "translation="@, false, true);
    let c1 = c1 + text_condition(f1.tr, "translation="@, false, true);
    let c2 = c2 + text_condition(f2.tr, "translation="@, false, true);
    lemma_cover_text(c1, c2, f1.translation, f2.translation, "translation="@, false, true);
    let c1 = c1 + text_condition(f1.translation, "translation="@, false, true);
    let c2 = c2 + text_condition(f2.translation, "translation="@, false, true);
}


/// The filter that gives no field.
pub open spec fn no_fields() -> VerseFilter {
    VerseFilter {
        translation: None,
        tr: None,
        book: None,
        b: None,
        abbreviation: None,
        ab: None,
        chapter: None,
        ch: None,
        startchapter: None,
        sch: None,
        endchapter: None,
        ech: None,
        verse: None,
        v: None,
        startverse: None,
        sv: None,
        endverse: None,
        ev: None,
    }
}

proof fn lemma_single_field_condition(g: VerseFilter, f: VerseFilter, c: Condition)
    requires
        extends(g, f),
        verse_conditions(g) == seq![c],
    ensures
        verse_conditions(f).contains(c),
        condition_args(verse_conditions(f)).contains(c.arg),
{
    lemma_more_fields_more_conditions(g, f);
    assert(verse_conditions(g)[0] == c);
    let i = choose|i: int| 0 <= i < verse_conditions(f).len() && verse_conditions(f)[i] == c;
    assert(condition_args(verse_conditions(f))[i] == c.arg);
}

/// What the verse query compares each given text field with: an
/// abbreviation or a translation in upper case (the names are stored in
/// upper case), a book name exactly as the client gave it; each as a bound
/// value of the query.
pub proof fn lemma_verse_text_fields_bound(f: VerseFilter)
    ensures
        f.abbreviation matches Some(x) ==> verse_conditions(f).contains(
            (Condition { column: "abbreviation="@, selects_book: true, arg: SqlArg::Text(uppercase(x@)) }),
        ) && condition_args(verse_conditions(f)).contains((Condition { column: "abbreviation="@, selects_book: true, arg: SqlArg::Text(uppercase(x@)) }).arg),
        f.ab matches Some(x) ==> verse_conditions(f).contains(
            (Condition { column: "abbreviation="@, selects_book: true, arg: SqlArg::Text(uppercase(x@)) }),
        ) && condition_args(verse_conditions(f)).contains((Condition { column: "abbreviation="@, selects_book: true, arg: SqlArg::Text(uppercase(x@)) }).arg),
        f.book matches Some(x) ==> verse_conditions(f).contains(
            (Condition { column: "book="@, selects_book: true, arg: SqlArg::Text(x@) }),
        ) && condition_args(verse_conditions(f)).contains((Condition { column: "book="@, selects_book: true, arg: SqlArg::Text(x@) }).arg),
        f.b matches Some(x) ==> verse_conditions(f).contains(
            (Condition { column: "book="@, selects_book: true, arg: SqlArg::Text(x@) }),
        ) && condition_args(verse_conditions(f)).contains((Condition { column: "book="@, selects_book: true, arg: SqlArg::Text(x@) }).arg),
        f.tr matches Some(x) ==> verse_conditions(f).contains(
            (Condition { column: "translation="@, selects_book: false, arg: SqlArg::Text(uppercase(x@)) }),
        ) && condition_args(verse_conditions(f)).contains((Condition { column: "translation="@, selects_book: false, arg: SqlArg::Text(uppercase(x@)) }).arg),
        f.translation matches Some(x) ==> verse_conditions(f).contains(
            (Condition { column: "translation="@, selects_book: false, arg: SqlArg::Text(uppercase(x@)) }),
        ) && condition_args(verse_conditions(f)).contains((Condition { column: "translation="@, selects_book: false, arg: SqlArg::Text(uppercase(x@)) }).arg),
{
    if let Some(x) = f.abbreviation {
        let g = VerseFilter { abbreviation: f.abbreviation, ..no_fields() };
        let c = Condition { column: "abbreviation="@, selects_book: true, arg: SqlArg::Text(uppercase(x@)) };
        assert(verse_conditions(g) =~= seq![c]);
        lemma_single_field_condition(g, f, c);
    }
    if let Some(x) = f.ab {
        let g = VerseFilter { ab: f.ab, ..no_fields() };
        let c = Condition { column: "abbreviation="@, selects_book: true, arg: SqlArg::Text(uppercase(x@)) };
        assert(verse_conditions(g) =~= seq![c]);
        lemma_single_field_condition(g, f, c);
    }
    if let Some(x) = f.book {
        let g = VerseFilter { book: f.book, ..no_fields() };
        let c = Condition { column: "book="@, selects_book: true, arg: SqlArg::Text(x@) };
        assert(verse_conditions(g) =~= seq![c]);
        lemma_single_field_condition(g, f, c);
    }
    if let Some(x) = f.b {
        let g = VerseFilter { b: f.b, ..no_fields() };
        let c = Condition { column: "book="@, selects_book: true, arg: SqlArg::Text(x@) };
        assert(verse_conditions(g) =~= seq![c]);
        lemma_single_field_condition(g, f, c);
    }
    if let Some(x) = f.tr {
        let g = VerseFilter { tr: f.tr, ..no_fields() };
        let c = Condition { column: "translation="@, selects_book: false, arg: SqlArg::Text(uppercase(x@)) };
        assert(verse_conditions(g) =~= seq![c]);
        lemma_single_field_condition(g, f, c);
    }
    if let Some(x) = f.translation {
        let g = VerseFilter { translation: f.translation, ..no_fields() };
        let c = Condition { column: "translation="@, selects_book: false, arg: SqlArg::Text(uppercase(x@)) };
        assert(verse_conditions(g) =~= seq![c]);
        lemma_single_field_condition(g, f, c);
    }
}

/// What the verse query compares each given chapter field with: the number
/// the client gave, as a bound value, with `=`, `>=` or `<=` for the chapter,
/// the first and the last chapter.
pub proof fn lemma_verse_chapter_fields_bound(f: VerseFilter)
    ensures
        f.ch matches Some(n) ==> verse_conditions(f).contains(
            (Condition { column: "chapter="@, selects_book: false, arg: SqlArg::Int(n as int) }),
        ) && condition_args(verse_conditions(f)).contains((Condition { column: "chapter="@, selects_book: false, arg: SqlArg::Int(n as int) }).arg),
        f.chapter matches Some(n) ==> verse_conditions(f).contains(
            (Condition { column: "chapter="@, selects_book: false, arg: SqlArg::Int(n as int) }),
        ) && condition_args(verse_conditions(f)).contains((Condition { column: "chapter="@, selects_book: false, arg: SqlArg::Int(n as int) }).arg),
        f.sch matches Some(n) ==> verse_conditions(f).contains(
            (Condition { column: "chapter>="@, selects_book: false, arg: SqlArg::Int(n as int) }),
        ) && condition_args(verse_conditions(f)).contains((Condition { column: "chapter>="@, selects_book: false, arg: SqlArg::Int(n as int) }).arg),
        f.startchapter matches Some(n) ==> verse_conditions(f).contains(
            (Condition { column: "chapter>="@, selects_book: false, arg: SqlArg::Int(n as int) }),
        ) && condition_args(verse_conditions(f)).contains((Condition { column: "chapter>="@, selects_book: false, arg: SqlArg::Int(n as int) }).arg),
        f.ech matches Some(n) ==> verse_conditions(f).contains(
            (Condition { column: "chapter<="@, selects_book: false, arg: SqlArg::Int(n as int) }),
        ) && condition_args(verse_conditions(f)).contains((Condition { column: "chapter<="@, selects_book: false, arg: SqlArg::Int(n as int) }).arg),
        f.endchapter matches Some(n) ==> verse_conditions(f).contains(
            (Condition { column: "chapter<="@, selects_book: false, arg: SqlArg::Int(n as int) }),
        ) && condition_args(verse_conditions(f)).contains((Condition { column: "chapter<="@, selects_book: false, arg: SqlArg::Int(n as int) }).arg),
{
    if let Some(n) = f.ch {
        let g = VerseFilter { ch: f.ch, ..no_fields() };
        let c = Condition { column: "chapter="@, selects_book: false, arg: SqlArg::Int(n as int) };
        assert(verse_conditions(g) =~= seq![c]);
        lemma_single_field_condition(g, f, c);
    }
    if let Some(n) = f.chapter {
        let g = VerseFilter { chapter: f.chapter, ..no_fields() };
        let c = Condition { column: "chapter="@, selects_book: false, arg: SqlArg::Int(n as int) };
        assert(verse_conditions(g) =~= seq![c]);
        lemma_single_field_condition(g, f, c);
    }
    if let Some(n) = f.sch {
        let g = VerseFilter { sch: f.sch, ..no_fields() };
        let c = Condition { column: "chapter>="@, selects_book: false, arg: SqlArg::Int(n as int) };
        assert(verse_conditions(g) =~= seq![c]);
        lemma_single_field_condition(g, f, c);
    }
    if let Some(n) = f.startchapter {
        let g = VerseFilter { startchapter: f.startchapter, ..no_fields() };
        let c = Condition { column: "chapter>="@, selects_book: false, arg: SqlArg::Int(n as int) };
        assert(verse_conditions(g) =~= seq![c]);
        lemma_single_field_condition(g, f, c);
    }
    if let Some(n) = f.ech {
        let g = VerseFilter { ech: f.ech, ..no_fields() };
        let c = Condition { column: "chapter<="@, selects_book: false, arg: SqlArg::Int(n as int) };
        assert(verse_conditions(g) =~= seq![c]);
        lemma_single_field_condition(g, f, c);
    }
    if let Some(n) = f.endchapter {
        let g = VerseFilter { endchapter: f.endchapter, ..no_fields() };
        let c = Condition { column: "chapter<="@, selects_book: false, arg: SqlArg::Int(n as int) };
        assert(verse_conditions(g) =~= seq![c]);
        lemma_single_field_condition(g, f, c);
    }
}

/// What the verse query compares each given verse field with: the number the
/// client gave, as a bound value, with `=`, `>=` or `<=` for the verse, the
/// first and the last verse.
pub proof fn lemma_verse_number_fields_bound(f: VerseFilter)
    ensures
        f.v matches Some(n) ==> verse_conditions(f).contains(
            (Condition { column: "verse_number="@, selects_book: false, arg: SqlArg::Int(n as int) }),
        ) && condition_args(verse_conditions(f)).contains((Condition { column: "verse_number="@, selects_book: false, arg: SqlArg::Int(n as int) }).arg),
        f.verse matches Some(n) ==> verse_conditions(f).contains(
            (Condition { column: "verse_number="@, selects_book: false, arg: SqlArg::Int(n as int) }),
        ) && condition_args(verse_conditions(f)).contains((Condition { column: "verse_number="@, selects_book: false, arg: SqlArg::Int(n as int) }).arg),
        f.sv matches Some(n) ==> verse_conditions(f).contains(
            (Condition { column: "verse_number>="@, selects_book: false, arg: SqlArg::Int(n as int) }),
        ) && condition_args(verse_conditions(f)).contains((Condition { column: "verse_number>="@, selects_book: false, arg: SqlArg::Int(n as int) }).arg),
        f.startverse matches Some(n) ==> verse_conditions(f).contains(
            (Condition { column: "verse_number>="@, selects_book: false, arg: SqlArg::Int(n as int) }),
        ) && condition_args(verse_conditions(f)).contains((Condition { column: "verse_number>="@, selects_book: false, arg: SqlArg::Int(n as int) }).arg),
        f.ev matches Some(n) ==> verse_conditions(f).contains(
            (Condition { column: "verse_number<="@, selects_book: false, arg: SqlArg::Int(n as int) }),
        ) && condition_args(verse_conditions(f)).contains((Condition { column: "verse_number<="@, selects_book: false, arg: SqlArg::Int(n as int) }).arg),
        f.endverse matches Some(n) ==> verse_conditions(f).contains(
            (Condition { column: "verse_number<="@, selects_book: false, arg: SqlArg::Int(n as int) }),
        ) && condition_args(verse_conditions(f)).contains((Condition { column: "verse_number<="@, selects_book: false, arg: SqlArg::Int(n as int) }).arg),
{
    if let Some(n) = f.v {
        let g = VerseFilter { v: f.v, ..no_fields() };
        let c = Condition { column: "verse_number="@, selects_book: false, arg: SqlArg::Int(n as int) };
        assert(verse_conditions(g) =~= seq![c]);
        lemma_single_field_condition(g, f, c);
    }
    if let Some(n) = f.verse {
        let g = VerseFilter { verse: f.verse, ..no_fields() };
        let c = Condition { column: "verse_number="@, selects_book: false, arg: SqlArg::Int(n as int) };
        assert(verse_conditions(g) =~= seq![c]);
        lemma_single_field_condition(g, f, c);
    }
    if let Some(n) = f.sv {
        let g = VerseFilter { sv: f.sv, ..no_fields() };
        let c = Condition { column: "verse_number>="@, selects_book: false, arg: SqlArg::Int(n as int) };
        assert(verse_conditions(g) =~= seq![c]);
        lemma_single_field_condition(g, f, c);
    }
    if let Some(n) = f.startverse {
        let g = VerseFilter { startverse: f.startverse, ..no_fields() };
        let c = Condition { column: "verse_number>="@, selects_book: false, arg: SqlArg::Int(n as int) };
        assert(verse_conditions(g) =~= seq![c]);
        lemma_single_field_condition(g, f, c);
    }
    if let Some(n) = f.ev {
        let g = VerseFilter { ev: f.ev, ..no_fields() };
        let c = Condition { column: "verse_number<="@, selects_book: false, arg: SqlArg::Int(n as int) };
        assert(verse_conditions(g) =~= seq![c]);
        lemma_single_field_condition(g, f, c);
    }
    if let Some(n) = f.endverse {
        let g = VerseFilter { endverse: f.endverse, ..no_fields() };
        let c = Condition { column: "verse_number<="@, selects_book: false, arg: SqlArg::Int(n as int) };
        assert(verse_conditions(g) =~= seq![c]);
        lemma_single_field_condition(g, f, c);
    }
}


/// The pattern a search binds agrees with the comparison it makes: for whole
/// words, a Postgres regular expression match (`~`, or `~*` ignoring case)
/// with the trimmed text between word boundaries `\m` and `\M`; otherwise a
/// `LIKE` (`ILIKE` ignoring case) with the trimmed text between `%`
/// wildcards. The translation is bound next, in upper case, then the book as
/// given and the abbreviation in upper case, where they are given.
pub proof fn lemma_search_pattern_agrees_with_operator(p: SearchParameters)
    ensures
        flag(p.whole_words) ==> {
            &&& search_args(p)[0] == SqlArg::Text("\\m"@ + trimmed(p.search_text@) + "\\M"@)
            &&& (SEARCH_SELECT@ + if flag(p.match_case) {
                "~ "@
            } else {
                "~* "@
            }).is_prefix_of(search_text(p))
        },
        !flag(p.whole_words) ==> {
            &&& search_args(p)[0] == SqlArg::Text("%"@ + trimmed(p.search_text@) + "%"@)
            &&& (SEARCH_SELECT@ + if flag(p.match_case) {
                "like "@
            } else {
                "ilike "@
            }).is_prefix_of(search_text(p))
        },
        search_args(p)[1] == SqlArg::Text(uppercase(p.translation@)),
        p.book matches Some(b) ==> search_args(p)[2] == SqlArg::Text(b@),
        p.abbreviation matches Some(a) ==> search_args(p).last() == SqlArg::Text(uppercase(a@)),
        search_args(p).len() == 2 + (if p.book is Some { 1int } else { 0 }) + (if p.abbreviation is Some {
            1int
        } else {
            0
        }),
{
    let op = search_operator(flag(p.match_case), flag(p.whole_words));
    let k = (SEARCH_SELECT@ + op).len() as int;
    assert(search_text(p).subrange(0, k) =~= SEARCH_SELECT@ + op);
}

/// The values a random-verse query binds: the verse id, then, where the
/// selector names a translation, that translation in upper case (the names
/// are stored in upper case), the long field `translation` winning over the
/// short `tr`.
pub proof fn lemma_random_verse_binds(id: int, sel: TranslationSelector)
    ensures
        sel.translation matches Some(t) ==> random_verse_args(id, sel) == seq![
            SqlArg::Int(id),
            SqlArg::Text(uppercase(t@)),
        ],
        sel.translation is None ==> (sel.tr matches Some(t) ==> random_verse_args(id, sel) == seq![
            SqlArg::Int(id),
            SqlArg::Text(uppercase(t@)),
        ]),
        sel.translation is None && sel.tr is None ==> random_verse_args(id, sel) == seq![
            SqlArg::Int(id),
        ],
{
    assert(random_verse_args(id, sel) =~= seq![SqlArg::Int(id)] + match chosen_translation(sel) {
        Some(t) => seq![SqlArg::Text(uppercase(t@))],
        None => Seq::empty(),
    });
}

} // verus!
