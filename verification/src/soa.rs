//! Columnar (structure-of-arrays) runtime model: parallel columns, one
//! cursor per field, and the step function that assembles record views.
//!
//! The model keeps one column of elements per field. A read or write
//! pass owns a cursor aggregate with one position per column. Each step
//! advances every cursor exactly once, in field order, and exhaustion of
//! the first field's cursor alone decides end-of-sequence; if the first
//! cursor still has an element, every other cursor must too, which is
//! the container's length-synchronization invariant.

use vstd::prelude::*;
use vstd::pervasive::VecAdditionalExecFns;
use crate::expr::lemma_zip_run_views;
use crate::expr::zip_run;
use crate::expr::zip_tuple_spec;

verus! {

/// A cursor position after one advance: it moves one element forward,
/// or stays put once its column is exhausted.
pub open spec fn advanced(p: int, len: int) -> int {
    if p < len {
        p + 1
    } else {
        p
    }
}

/// Read cursor aggregate: one position per column, all walking the same
/// container.
pub struct Iter {
    pub pos: Vec<usize>,
}

/// Write cursor aggregate for a mutable pass.
pub struct IterMut {
    pub pos: Vec<usize>,
}

/// A mutable record view: the per-field element coordinates one step of
/// a mutable pass produced. Reads and writes through the view go back to
/// the container, so a write needs the container exclusively.
pub struct RecordViewMut {
    pub coords: Vec<usize>,
}

/// The columnar container: one parallel column per record field.
pub struct SoaVec {
    pub columns: Vec<Vec<i64>>,
}

impl SoaVec {
    /// Number of fields (columns).
    pub open spec fn n_fields(self) -> int {
        self.columns@.len() as int
    }

    /// Number of stored records, as the first column counts them.
    pub open spec fn n_records(self) -> int {
        self.columns@[0]@.len() as int
    }

    /// Well-formed: at least one field, and every column holds exactly
    /// one element per stored record.
    pub open spec fn wf(self) -> bool {
        &&& self.columns@.len() >= 1
        &&& forall|i: int| 0 <= i < self.n_fields() ==> self.columns@[i]@.len() == self.n_records()
    }

    /// The stored records as views: entry `k` is record `k`, field by
    /// field in declaration order.
    pub open spec fn view_seq(self) -> Seq<Seq<i64>> {
        Seq::new(
            self.n_records() as nat,
            |k: int| Seq::new(self.columns@.len(), |i: int| self.columns@[i]@[k]),
        )
    }

    /// Cursor positions that belong to this container: one per column,
    /// none past its column's end.
    pub open spec fn cursors_compat(self, pos: Seq<usize>) -> bool {
        &&& pos.len() == self.columns@.len()
        &&& forall|i: int| 0 <= i < pos.len() ==> pos[i] <= self.columns@[i]@.len()
    }

    /// The step function gates termination on the first cursor alone,
    /// so whenever the first cursor still has an element, every other
    /// cursor must have one as well. Positions violating this would make
    /// a step assemble a view from a missing element, which is the
    /// container invariant violation the model rules out.
    pub open spec fn first_gate_safe(self, pos: Seq<usize>) -> bool {
        pos[0] < self.columns@[0]@.len() ==> forall|i: int|
            0 <= i < pos.len() ==> pos[i] < self.columns@[i]@.len()
    }

    /// Create a container with `n_fields` empty columns.
    pub fn new(n_fields: usize) -> (r: SoaVec)
        requires
            1 <= n_fields,
        ensures
            r.wf(),
            r.n_fields() == n_fields,
            r.n_records() == 0,
    {
        let mut columns: Vec<Vec<i64>> = Vec::new();
        let mut i: usize = 0;
        while i < n_fields
            invariant
                i <= n_fields,
                columns@.len() == i,
                forall|j: int| 0 <= j < i ==> columns@[j]@.len() == 0,
            decreases n_fields - i,
        {
            columns.push(Vec::new());
            i = i + 1;
        }
        SoaVec { columns }
    }

    /// Append one record: element `i` of `vals` goes to the end of
    /// column `i`.
    pub fn push_record(&mut self, vals: &Vec<i64>)
        requires
            old(self).wf(),
            vals@.len() == old(self).n_fields(),
        ensures
            final(self).wf(),
            final(self).n_fields() == old(self).n_fields(),
            final(self).n_records() == old(self).n_records() + 1,
            forall|i: int| 0 <= i < old(self).n_fields()
                ==> final(self).columns@[i]@ == old(self).columns@[i]@.push(vals@[i]),
            final(self).view_seq() == old(self).view_seq().push(vals@),
    {
        let ghost prev = *self;
        let n: usize = self.columns.len();
        let mut i: usize = 0;
        while i < n
            invariant
                i <= n,
                self.columns@.len() == n,
                prev.wf(),
                n == prev.n_fields(),
                vals@.len() == n,
                forall|j: int| #![trigger self.columns@[j]]
                    0 <= j < i ==> self.columns@[j]@ == prev.columns@[j]@.push(vals@[j]),
                forall|j: int| #![trigger self.columns@[j]]
                    i <= j < n ==> self.columns@[j] == prev.columns@[j],
            decreases n - i,
        {
            let value: i64 = vals[i];
            self.columns[i].push(value);
            i = i + 1;
        }
        proof {
            assert(self.n_records() == prev.n_records() + 1);
            assert forall|k: int| 0 <= k < self.view_seq().len() implies self.view_seq()[k]
                =~= prev.view_seq().push(vals@)[k] by {
                assert(forall|j: int| 0 <= j < self.columns@.len()
                    ==> self.columns@[j]@ == prev.columns@[j]@.push(vals@[j]));
            }
            assert(self.view_seq() =~~= prev.view_seq().push(vals@));
        }
    }

    /// Begin a read pass: every cursor starts at the first record.
    pub fn iter(&self) -> (it: Iter)
        ensures
            it.pos@.len() == self.columns@.len(),
            forall|i: int| 0 <= i < it.pos@.len() ==> it.pos@[i] == 0,
    {
        let n: usize = self.columns.len();
        let mut pos: Vec<usize> = Vec::new();
        let mut i: usize = 0;
        while i < n
            invariant
                i <= n,
                pos@.len() == i,
                forall|j: int| 0 <= j < i ==> pos@[j] == 0,
            decreases n - i,
        {
            pos.push(0);
            i = i + 1;
        }
        Iter { pos }
    }

    /// Begin a mutable pass: every cursor starts at the first record.
    pub fn iter_mut(&self) -> (it: IterMut)
        ensures
            it.pos@.len() == self.columns@.len(),
            forall|i: int| 0 <= i < it.pos@.len() ==> it.pos@[i] == 0,
    {
        let n: usize = self.columns.len();
        let mut pos: Vec<usize> = Vec::new();
        let mut i: usize = 0;
        while i < n
            invariant
                i <= n,
                pos@.len() == i,
                forall|j: int| 0 <= j < i ==> pos@[j] == 0,
            decreases n - i,
        {
            pos.push(0);
            i = i + 1;
        }
        IterMut { pos }
    }

    /// One step of a read pass. Every cursor advances exactly once, in
    /// field order; a cursor already past its column's end stays put.
    /// Only the first cursor's outcome decides the result: if its column
    /// is exhausted the step signals end-of-sequence and the other
    /// advances are discarded; otherwise the step returns the record
    /// view of the elements all cursors passed over.
    pub fn next(&self, it: &mut Iter) -> (r: Option<Vec<i64>>)
        requires
            self.columns@.len() >= 1,
            self.cursors_compat(old(it).pos@),
            self.first_gate_safe(old(it).pos@),
        ensures
            self.cursors_compat(final(it).pos@),
            forall|i: int| 0 <= i < final(it).pos@.len()
                ==> final(it).pos@[i] as int
                    == advanced(old(it).pos@[i] as int, self.columns@[i]@.len() as int),
            old(it).pos@[0] >= self.columns@[0]@.len() ==> r is None,
            old(it).pos@[0] < self.columns@[0]@.len() ==> (r matches Some(v)
                && v@.len() == self.columns@.len()
                && (forall|i: int| 0 <= i < v@.len()
                    ==> v@[i] == self.columns@[i]@[old(it).pos@[i] as int])),
    {
        let n: usize = self.columns.len();
        let first_live: bool = it.pos[0] < self.columns[0].len();
        let ghost pos0 = it.pos@;
        let mut vals: Vec<i64> = Vec::new();
        let mut k: usize = 0;
        while k < n
            invariant
                k <= n,
                n == self.columns@.len(),
                it.pos@.len() == n,
                pos0.len() == n,
                forall|j: int| 0 <= j < n ==> pos0[j] <= self.columns@[j]@.len(),
                first_live <==> pos0[0] < self.columns@[0]@.len(),
                first_live ==> forall|j: int| 0 <= j < n ==> pos0[j] < self.columns@[j]@.len(),
                forall|j: int| 0 <= j < k
                    ==> it.pos@[j] as int == advanced(pos0[j] as int, self.columns@[j]@.len() as int),
                forall|j: int| k <= j < n ==> it.pos@[j] == pos0[j],
                first_live ==> vals@.len() == k,
                first_live ==> forall|j: int| 0 <= j < k ==> vals@[j] == self.columns@[j]@[pos0[j] as int],
            decreases n - k,
        {
            let p: usize = it.pos[k];
            proof {
                assert(it.pos@[k as int] == pos0[k as int]);
                if first_live {
                    assert(pos0[k as int] < self.columns@[k as int]@.len());
                }
            }
            if p < self.columns[k].len() {
                if first_live {
                    vals.push(self.columns[k][p]);
                }
                it.pos.set(k, p + 1);
            }
            k = k + 1;
        }
        if first_live {
            Some(vals)
        } else {
            None
        }
    }

    /// One step of a mutable pass. The cursors move exactly as in a read
    /// step; a produced view carries the per-field coordinates of the
    /// elements this step passed over, for reads and writes through it.
    pub fn next_mut(&self, it: &mut IterMut) -> (r: Option<RecordViewMut>)
        requires
            self.columns@.len() >= 1,
            self.cursors_compat(old(it).pos@),
            self.first_gate_safe(old(it).pos@),
        ensures
            self.cursors_compat(final(it).pos@),
            forall|i: int| 0 <= i < final(it).pos@.len()
                ==> final(it).pos@[i] as int
                    == advanced(old(it).pos@[i] as int, self.columns@[i]@.len() as int),
            old(it).pos@[0] >= self.columns@[0]@.len() ==> r is None,
            old(it).pos@[0] < self.columns@[0]@.len() ==> (r matches Some(v)
                && v.coords@ == old(it).pos@
                && (forall|i: int| 0 <= i < v.coords@.len()
                    ==> v.coords@[i] < self.columns@[i]@.len())),
    {
        let n: usize = self.columns.len();
        let first_live: bool = it.pos[0] < self.columns[0].len();
        let ghost pos0 = it.pos@;
        let mut coords: Vec<usize> = Vec::new();
        let mut k: usize = 0;
        while k < n
            invariant
                k <= n,
                n == self.columns@.len(),
                it.pos@.len() == n,
                pos0.len() == n,
                forall|j: int| 0 <= j < n ==> pos0[j] <= self.columns@[j]@.len(),
                first_live <==> pos0[0] < self.columns@[0]@.len(),
                first_live ==> forall|j: int| 0 <= j < n ==> pos0[j] < self.columns@[j]@.len(),
                forall|j: int| 0 <= j < k
                    ==> it.pos@[j] as int == advanced(pos0[j] as int, self.columns@[j]@.len() as int),
                forall|j: int| k <= j < n ==> it.pos@[j] == pos0[j],
                first_live ==> coords@.len() == k,
                first_live ==> forall|j: int| 0 <= j < k ==> coords@[j] == pos0[j],
            decreases n - k,
        {
            let p: usize = it.pos[k];
            proof {
                assert(it.pos@[k as int] == pos0[k as int]);
                if first_live {
                    assert(pos0[k as int] < self.columns@[k as int]@.len());
                }
            }
            if p < self.columns[k].len() {
                if first_live {
                    coords.push(p);
                }
                it.pos.set(k, p + 1);
            }
            k = k + 1;
        }
        if first_live {
            proof {
                assert(coords@ =~= pos0);
            }
            Some(RecordViewMut { coords })
        } else {
            None
        }
    }

    /// Read field `f` of the record a mutable view stands for.
    pub fn get_field(&self, view: &RecordViewMut, f: usize) -> (r: i64)
        requires
            view.coords@.len() == self.columns@.len(),
            f < self.columns@.len(),
            view.coords@[f as int] < self.columns@[f as int]@.len(),
        ensures
            r == self.columns@[f as int]@[view.coords@[f as int] as int],
    {
        self.columns[f][view.coords[f]]
    }

    /// Write field `f` of the record a mutable view stands for. Exactly
    /// that one element changes; every other element of every column
    /// stays as it was.
    pub fn set_field(&mut self, view: &RecordViewMut, f: usize, value: i64)
        requires
            view.coords@.len() == old(self).columns@.len(),
            f < old(self).columns@.len(),
            view.coords@[f as int] < old(self).columns@[f as int]@.len(),
        ensures
            final(self).columns@.len() == old(self).columns@.len(),
            final(self).columns@[f as int]@
                == old(self).columns@[f as int]@.update(view.coords@[f as int] as int, value),
            forall|i: int| 0 <= i < old(self).columns@.len() && i != f
                ==> final(self).columns@[i] == old(self).columns@[i],
    {
        let c: usize = view.coords[f];
        self.columns[f].set(c, value);
    }

    /// Run a whole read pass: one record view per stored record, in
    /// storage order, ending when the first column is exhausted.
    pub fn collect_records(&self) -> (r: Vec<Vec<i64>>)
        requires
            self.wf(),
        ensures
            r@.len() == self.n_records(),
            forall|k: int| 0 <= k < r@.len() ==> r@[k]@ == self.view_seq()[k],
    {
        let mut it = self.iter();
        let mut out: Vec<Vec<i64>> = Vec::new();
        loop
            invariant
                self.wf(),
                it.pos@.len() == self.columns@.len(),
                out@.len() <= self.n_records(),
                forall|i: int| 0 <= i < it.pos@.len() ==> it.pos@[i] == out@.len(),
                forall|k: int| 0 <= k < out@.len() ==> out@[k]@ == self.view_seq()[k],
            ensures
                out@.len() == self.n_records(),
                forall|k: int| 0 <= k < out@.len() ==> out@[k]@ == self.view_seq()[k],
            decreases self.n_records() - out@.len(),
        {
            let ghost done = out@.len();
            match self.next(&mut it) {
                Some(v) => {
                    proof {
                        assert(v@ =~= self.view_seq()[done as int]);
                    }
                    out.push(v);
                }
                None => {
                    break;
                }
            }
        }
        out
    }
}

/// Stepping the nested-pair cursor composition the value-expression
/// fold builds for this container's field count yields exactly the
/// container's record views, in storage order: the nested-pair form and
/// the named per-field cursor aggregate behave identically on a
/// well-formed container.
pub proof fn lemma_nested_zip_matches_views(s: SoaVec)
    requires
        s.wf(),
    ensures
        zip_run(zip_tuple_spec(s.n_fields()), s.columns@.map_values(|c: Vec<i64>| c@))
            == s.view_seq(),
{
    let cols = s.columns@.map_values(|c: Vec<i64>| c@);
    broadcast use vstd::std_specs::vec::axiom_spec_len;

    assert(s.columns.len() <= usize::MAX);
    lemma_zip_run_views(cols, s.n_fields(), s.n_records());
    assert forall|k: int| 0 <= k < s.n_records() implies Seq::new(
        s.n_fields() as nat,
        |i: int| cols[i][k],
    ) =~= s.view_seq()[k] by {}
    assert(zip_run(zip_tuple_spec(s.n_fields()), cols) =~~= s.view_seq());
}

/// Writing one field of one record through a mutable view is observable
/// at exactly that field of exactly that record in any later read pass,
/// and nowhere else.
pub proof fn lemma_mutation_visible(before: SoaVec, after: SoaVec, f: int, k: int, value: i64)
    requires
        before.wf(),
        0 <= f < before.n_fields(),
        0 <= k < before.n_records(),
        after.columns@.len() == before.columns@.len(),
        after.columns@[f]@ == before.columns@[f]@.update(k, value),
        forall|i: int| 0 <= i < before.n_fields() && i != f ==> after.columns@[i]@ == before.columns@[i]@,
    ensures
        after.wf(),
        after.view_seq() == before.view_seq().update(k, before.view_seq()[k].update(f, value)),
{
    assert(after.columns@[0]@.len() == before.columns@[0]@.len());
    assert(after.wf());
    assert(after.view_seq() =~~= before.view_seq().update(k, before.view_seq()[k].update(f, value)));
}

} // verus!
