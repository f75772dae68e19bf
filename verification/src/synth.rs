//! The synthesizer driver: from one record description to the full set
//! of planned iterator artifacts.
//!
//! A record description is an ordered field list plus a visibility
//! marker. For a well-formed description the driver produces the zip
//! type expression, the nested-pair value expression, the chained-zip
//! accessor expression, and the list of default-iteration conversions
//! owed to the record's visibility. An empty field list is malformed
//! input and is rejected before any fold runs: both folds assume at
//! least one field.

use vstd::prelude::*;
use crate::expr::ChainExpr;
use crate::expr::TypeExpr;
use crate::expr::ValExpr;
use crate::expr::chain_order;
use crate::expr::gen_zip_iter;
use crate::expr::gen_zip_tuple;
use crate::expr::gen_zip_type;
use crate::expr::zip_tuple_spec;
use crate::expr::zip_type_spec;

verus! {

/// One field of the record: its name and the text of its element type.
pub struct FieldDesc {
    pub name: String,
    pub ty: String,
}

/// Whether the record type is exported or internal to its crate.
#[derive(PartialEq, Eq, Structural, Clone, Copy, Debug)]
pub enum Visibility {
    Public,
    Internal,
}

/// A record type description: base name, visibility, ordered field
/// list. The field order drives the fold nesting and the positional
/// correspondence of every generated artifact.
pub struct RecordDesc {
    pub name: String,
    pub visibility: Visibility,
    pub fields: Vec<FieldDesc>,
}

impl RecordDesc {
    /// Field names are pairwise distinct. Together with a non-empty
    /// field list this is the description's well-formedness invariant;
    /// emptiness is the one condition the driver checks and reports.
    pub open spec fn distinct_names(self) -> bool {
        forall|i: int, j: int|
            0 <= i < j < self.fields@.len() ==> self.fields@[i].name@ != self.fields@[j].name@
    }
}

/// The one malformed-input class: a record with no fields.
#[derive(PartialEq, Eq, Structural, Clone, Copy, Debug)]
pub enum GenError {
    EmptyFieldList,
}

/// A receiver shape that gets a default-iteration conversion: iterating
/// it without calling an accessor method yields the respective
/// read-only or mutable record-view sequence.
#[derive(PartialEq, Eq, Structural, Clone, Copy, Debug)]
pub enum IntoIterTarget {
    ContainerByValue,
    ContainerByRef,
    ContainerByMutRef,
    SliceByValue,
    SliceByRef,
    SliceMutByValue,
}

/// The default-iteration conversions owed to a visibility: all six
/// receiver shapes for a public record type, none for an internal one,
/// which stays iterable through the explicit accessor methods alone.
pub open spec fn into_iter_targets_spec(v: Visibility) -> Seq<IntoIterTarget> {
    match v {
        Visibility::Public => seq![
            IntoIterTarget::ContainerByValue,
            IntoIterTarget::ContainerByRef,
            IntoIterTarget::ContainerByMutRef,
            IntoIterTarget::SliceByValue,
            IntoIterTarget::SliceByRef,
            IntoIterTarget::SliceMutByValue,
        ],
        Visibility::Internal => Seq::empty(),
    }
}

/// Everything the synthesizer plans for one record description.
pub struct Generated {
    /// Number of fields all artifacts are indexed by.
    pub n_fields: usize,
    /// The pairwise-nested cursor composition type expression.
    pub zip_type: TypeExpr,
    /// The nested-pair construction expression, the type's value twin.
    pub zip_tuple: ValExpr,
    /// The flattened chained-zip expression the accessors return.
    pub zip_iter: ChainExpr,
    /// The default-iteration conversions to emit.
    pub into_iter_targets: Vec<IntoIterTarget>,
}

/// Synthesize the iterator artifacts for one record description.
///
/// An empty field list is rejected up front; over any non-empty field
/// list the synthesis is total: the two folds follow field order, the
/// chained expression consumes the columns in that same order, and the
/// default-iteration conversions are emitted exactly for a public
/// record type.
pub fn derive(input: &RecordDesc) -> (r: Result<Generated, GenError>)
    requires
        input.distinct_names(),
    ensures
        input.fields@.len() == 0 ==> r is Err,
        r is Err ==> input.fields@.len() == 0 && r == Result::<Generated, GenError>::Err(
            GenError::EmptyFieldList,
        ),
        input.fields@.len() >= 1 ==> (r matches Ok(g)
            && g.n_fields == input.fields@.len()
            && g.zip_type == zip_type_spec(input.fields@.len() as int)
            && g.zip_tuple == zip_tuple_spec(input.fields@.len() as int)
            && chain_order(g.zip_iter) == Seq::new(input.fields@.len(), |i: int| i as usize)
            && g.into_iter_targets@ == into_iter_targets_spec(input.visibility)),
{
    let n_fields: usize = input.fields.len();
    if n_fields == 0 {
        return Err(GenError::EmptyFieldList);
    }
    let zip_type = gen_zip_type(n_fields);
    let zip_tuple = gen_zip_tuple(n_fields);
    let zip_iter = gen_zip_iter(n_fields);
    let mut into_iter_targets: Vec<IntoIterTarget> = Vec::new();
    match input.visibility {
        Visibility::Public => {
            into_iter_targets.push(IntoIterTarget::ContainerByValue);
            into_iter_targets.push(IntoIterTarget::ContainerByRef);
            into_iter_targets.push(IntoIterTarget::ContainerByMutRef);
            into_iter_targets.push(IntoIterTarget::SliceByValue);
            into_iter_targets.push(IntoIterTarget::SliceByRef);
            into_iter_targets.push(IntoIterTarget::SliceMutByValue);
        }
        Visibility::Internal => {}
    }
    proof {
        assert(into_iter_targets@ =~= into_iter_targets_spec(input.visibility));
    }
    Ok(Generated { n_fields, zip_type, zip_tuple, zip_iter, into_iter_targets })
}

} // verus!
