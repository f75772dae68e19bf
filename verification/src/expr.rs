//! Zip expression synthesis: the pairwise-nested type expression, its
//! value-level twin, and the flattened chained-zip expression.
//!
//! All three artifacts are indexed by field position: a leaf `i` stands
//! for "a cursor over column `i`". The surrounding record description
//! supplies the name and element type of field `i`, so the expressions
//! stay plain data that the rest of the synthesizer can reason about.

use vstd::prelude::*;

verus! {

/// A type expression denoting "a cursor over zipped parallel columns".
///
/// `Cursor(i)` is a single-column read cursor over field `i`'s element
/// type. `Group` is the one-tuple grouping used for single-field records
/// so the result stays syntactically uniform for downstream consumers
/// expecting a single type argument slot. `Zip` is the binary
/// pair-of-cursors combinator.
#[derive(PartialEq, Eq, Debug)]
pub enum TypeExpr {
    Cursor(usize),
    Group(Box<TypeExpr>),
    Zip(Box<TypeExpr>, Box<TypeExpr>),
}

/// A value expression constructing the nested-pair cursor aggregate.
///
/// `Cursor(i)` is the cursor-producing expression for field `i` (for
/// instance "column i's iter() call"); `Pair` is a two-tuple of the two
/// sub-expressions.
#[derive(PartialEq, Eq, Debug)]
pub enum ValExpr {
    Cursor(usize),
    Pair(Box<ValExpr>, Box<ValExpr>),
}

/// The type expression the fold must produce for `n` fields:
/// a single grouped cursor for one field, and otherwise the left fold
/// seeded with the pair of the first two cursors.
pub open spec fn zip_type_spec(n: int) -> TypeExpr
    decreases n,
{
    if n <= 1 {
        TypeExpr::Group(Box::new(TypeExpr::Cursor(0)))
    } else if n == 2 {
        TypeExpr::Zip(Box::new(TypeExpr::Cursor(0)), Box::new(TypeExpr::Cursor(1)))
    } else {
        TypeExpr::Zip(Box::new(zip_type_spec(n - 1)), Box::new(TypeExpr::Cursor((n - 1) as usize)))
    }
}

/// The value expression the fold must produce for `n` fields: the lone
/// cursor expression for one field, and otherwise the left fold of
/// two-tuples seeded with the first two cursor expressions.
pub open spec fn zip_tuple_spec(n: int) -> ValExpr
    decreases n,
{
    if n <= 1 {
        ValExpr::Cursor(0)
    } else if n == 2 {
        ValExpr::Pair(Box::new(ValExpr::Cursor(0)), Box::new(ValExpr::Cursor(1)))
    } else {
        ValExpr::Pair(Box::new(zip_tuple_spec(n - 1)), Box::new(ValExpr::Cursor((n - 1) as usize)))
    }
}

/// The flattened chained-zip value expression: take field `head`'s
/// cursor-producing call, then chain one zip call per entry of `zips`,
/// in order. This is the idiomatic equivalent of the nested tuple fold
/// and is what generated accessor methods return.
#[derive(PartialEq, Eq, Debug)]
pub struct ChainExpr {
    pub head: usize,
    pub zips: Vec<usize>,
}

/// The column order in which a chained-zip expression consumes cursors.
pub open spec fn chain_order(c: ChainExpr) -> Seq<usize> {
    seq![c.head] + c.zips@
}

/// The column order in which a nested-pair value expression consumes
/// cursors: its leaves, left to right.
pub open spec fn val_leaves(e: ValExpr) -> Seq<usize>
    decreases e,
{
    match e {
        ValExpr::Cursor(i) => seq![i],
        ValExpr::Pair(left, right) => val_leaves(*left) + val_leaves(*right),
    }
}

/// The bare nesting structure of a fold result, with the one-tuple
/// grouping erased: what remains of a type expression and of a value
/// expression when only the pairwise composition tree is kept.
pub enum Shape {
    Leaf,
    Node(Box<Shape>, Box<Shape>),
}

/// The nesting structure of a type expression.
pub open spec fn type_shape(e: TypeExpr) -> Shape
    decreases e,
{
    match e {
        TypeExpr::Cursor(_) => Shape::Leaf,
        TypeExpr::Group(inner) => type_shape(*inner),
        TypeExpr::Zip(left, right) => Shape::Node(
            Box::new(type_shape(*left)),
            Box::new(type_shape(*right)),
        ),
    }
}

/// The nesting structure of a value expression.
pub open spec fn val_shape(e: ValExpr) -> Shape
    decreases e,
{
    match e {
        ValExpr::Cursor(_) => Shape::Leaf,
        ValExpr::Pair(left, right) => Shape::Node(
            Box::new(val_shape(*left)),
            Box::new(val_shape(*right)),
        ),
    }
}

/// Number of pairwise compositions in a type expression.
pub open spec fn type_pair_count(e: TypeExpr) -> nat
    decreases e,
{
    match e {
        TypeExpr::Cursor(_) => 0,
        TypeExpr::Group(inner) => type_pair_count(*inner),
        TypeExpr::Zip(left, right) => 1 + type_pair_count(*left) + type_pair_count(*right),
    }
}

/// Number of pairwise compositions in a value expression.
pub open spec fn val_pair_count(e: ValExpr) -> nat
    decreases e,
{
    match e {
        ValExpr::Cursor(_) => 0,
        ValExpr::Pair(left, right) => 1 + val_pair_count(*left) + val_pair_count(*right),
    }
}

/// Build the zip type expression for a record with `n_fields` fields.
pub fn gen_zip_type(n_fields: usize) -> (r: TypeExpr)
    requires
        1 <= n_fields,
    ensures
        r == zip_type_spec(n_fields as int),
{
    if n_fields == 1 {
        TypeExpr::Group(Box::new(TypeExpr::Cursor(0)))
    } else {
        let mut acc = TypeExpr::Zip(Box::new(TypeExpr::Cursor(0)), Box::new(TypeExpr::Cursor(1)));
        let mut i: usize = 2;
        while i < n_fields
            invariant
                2 <= i <= n_fields,
                acc == zip_type_spec(i as int),
            decreases n_fields - i,
        {
            acc = TypeExpr::Zip(Box::new(acc), Box::new(TypeExpr::Cursor(i)));
            i = i + 1;
        }
        acc
    }
}

/// Build the nested-pair value expression for a record with `n_fields`
/// fields.
pub fn gen_zip_tuple(n_fields: usize) -> (r: ValExpr)
    requires
        1 <= n_fields,
    ensures
        r == zip_tuple_spec(n_fields as int),
{
    if n_fields == 1 {
        ValExpr::Cursor(0)
    } else {
        let mut acc = ValExpr::Pair(Box::new(ValExpr::Cursor(0)), Box::new(ValExpr::Cursor(1)));
        let mut i: usize = 2;
        while i < n_fields
            invariant
                2 <= i <= n_fields,
                acc == zip_tuple_spec(i as int),
            decreases n_fields - i,
        {
            acc = ValExpr::Pair(Box::new(acc), Box::new(ValExpr::Cursor(i)));
            i = i + 1;
        }
        acc
    }
}

/// Build the chained-zip expression for a record with `n_fields` fields:
/// field 0's cursor call, then one zip per remaining field, in field
/// order.
pub fn gen_zip_iter(n_fields: usize) -> (r: ChainExpr)
    requires
        1 <= n_fields,
    ensures
        chain_order(r) == Seq::new(n_fields as nat, |i: int| i as usize),
{
    let mut zips: Vec<usize> = Vec::new();
    let mut i: usize = 1;
    while i < n_fields
        invariant
            1 <= i <= n_fields,
            zips@.len() == i - 1,
            forall|j: int| 0 <= j < i - 1 ==> zips@[j] == j + 1,
        decreases n_fields - i,
    {
        zips.push(i);
        i = i + 1;
    }
    let r = ChainExpr { head: 0, zips };
    proof {
        assert(chain_order(r) =~= Seq::new(n_fields as nat, |i: int| i as usize));
    }
    r
}

/// The type-expression fold and the value-expression fold over the same
/// field list produce structurally isomorphic nesting: the same
/// composition tree, with `n - 1` pairwise compositions for `n >= 2`
/// fields and zero for a single field, so the declared type and the
/// constructed value correspond slot for slot.
pub proof fn lemma_fold_isomorphism(n: int)
    requires
        1 <= n,
    ensures
        type_shape(zip_type_spec(n)) == val_shape(zip_tuple_spec(n)),
        type_pair_count(zip_type_spec(n)) == n - 1,
        val_pair_count(zip_tuple_spec(n)) == n - 1,
    decreases n,
{
    reveal_with_fuel(zip_type_spec, 3);
    reveal_with_fuel(zip_tuple_spec, 3);
    reveal_with_fuel(type_pair_count, 4);
    reveal_with_fuel(val_pair_count, 4);
    reveal_with_fuel(type_shape, 4);
    reveal_with_fuel(val_shape, 4);
    if n > 2 {
        lemma_fold_isomorphism(n - 1);
    }
}

/// Zip two view streams: the result is as long as the shorter stream,
/// and step `k` concatenates the two step-`k` views.
pub open spec fn zip_views(s: Seq<Seq<i64>>, t: Seq<Seq<i64>>) -> Seq<Seq<i64>> {
    Seq::new(
        if s.len() <= t.len() {
            s.len()
        } else {
            t.len()
        },
        |k: int| s[k] + t[k],
    )
}

/// The view stream a nested-pair cursor expression produces when it is
/// stepped over the given columns: a lone cursor yields its column's
/// elements as one-field views, and a pair zips its two sub-streams.
pub open spec fn zip_run(e: ValExpr, cols: Seq<Seq<i64>>) -> Seq<Seq<i64>>
    decreases e,
{
    match e {
        ValExpr::Cursor(i) => if i < cols.len() {
            cols[i as int].map_values(|x: i64| seq![x])
        } else {
            Seq::empty()
        },
        ValExpr::Pair(left, right) => zip_views(zip_run(*left, cols), zip_run(*right, cols)),
    }
}

/// Stepping the nested-pair cursor composition over equal-length
/// columns yields exactly one view per stored record, in storage order,
/// with field `i` of view `k` equal to element `k` of column `i`: the
/// nested-pair form and a per-field cursor aggregate stepped in field
/// order are observably equivalent.
pub proof fn lemma_zip_run_views(cols: Seq<Seq<i64>>, m: int, len: int)
    requires
        1 <= m <= cols.len(),
        m <= usize::MAX,
        forall|i: int| 0 <= i < cols.len() ==> cols[i].len() == len,
    ensures
        zip_run(zip_tuple_spec(m), cols) == Seq::new(
            len as nat,
            |k: int| Seq::new(m as nat, |i: int| cols[i][k]),
        ),
    decreases m,
{
    reveal_with_fuel(zip_tuple_spec, 3);
    reveal_with_fuel(zip_run, 3);
    let want = Seq::new(len as nat, |k: int| Seq::new(m as nat, |i: int| cols[i][k]));
    if m == 1 {
        let got = cols[0].map_values(|x: i64| seq![x]);
        assert(zip_run(zip_tuple_spec(m), cols) == got);
        assert forall|k: int| 0 <= k < len implies got[k] =~= want[k] by {}
        assert(got =~~= want);
    } else if m == 2 {
        let got = zip_views(
            cols[0].map_values(|x: i64| seq![x]),
            cols[1].map_values(|x: i64| seq![x]),
        );
        assert(zip_run(zip_tuple_spec(m), cols) == got);
        assert forall|k: int| 0 <= k < len implies got[k] =~= want[k] by {}
        assert(got =~~= want);
    } else {
        lemma_zip_run_views(cols, m - 1, len);
        let prefix = Seq::new(len as nat, |k: int| Seq::new((m - 1) as nat, |i: int| cols[i][k]));
        let got = zip_views(prefix, cols[m - 1].map_values(|x: i64| seq![x]));
        assert(zip_run(zip_tuple_spec(m), cols) == got);
        assert forall|k: int| 0 <= k < len implies got[k] =~= want[k] by {}
        assert(got =~~= want);
    }
}

/// The nested-pair value expression consumes its cursors in exactly
/// field order, which is the order the chained-zip expression uses: the
/// two forms zip the same columns in the same positions.
pub proof fn lemma_chain_matches_fold(n: int)
    requires
        1 <= n,
    ensures
        val_leaves(zip_tuple_spec(n)) == Seq::new(n as nat, |i: int| i as usize),
    decreases n,
{
    reveal_with_fuel(zip_tuple_spec, 3);
    reveal_with_fuel(val_leaves, 4);
    if n == 1 {
        assert(val_leaves(zip_tuple_spec(1)) =~= Seq::new(1nat, |i: int| i as usize));
    } else if n == 2 {
        assert(val_leaves(zip_tuple_spec(2)) =~= Seq::new(2nat, |i: int| i as usize));
    } else {
        lemma_chain_matches_fold(n - 1);
        assert(val_leaves(zip_tuple_spec(n)) =~= Seq::new(n as nat, |i: int| i as usize));
    }
}

} // verus!
