//! The global key registry: publishes one loaded parameter bundle through a
//! write-once cell, at most once per cell, to any number of callers.
//!
//! The cell itself is expected to live for the whole process (the embedding
//! program keeps it in a `static`); every function here takes a reference to
//! it, so verification speaks about any cell, process-wide or not.

use vstd::prelude::*;
use once_cell::sync::OnceCell;
use crate::sapling::Sapling;
use crate::sapling::SaplingError;
use crate::sapling::all_params_ok;

pub use bls12_381::Scalar;

verus! {

#[verifier::external_type_specification]
#[verifier::external_body]
#[verifier::reject_recursive_types(T)]
pub struct ExOnceCell<T>(OnceCell<T>);

/// The one bundle a registry cell ever publishes. A `OnceCell` is write-once:
/// every read that returns a value returns the same published value, so the
/// contents can be named as a function of the cell. Nothing is known of a
/// cell that has published nothing yet.
pub uninterp spec fn cell_value(cell: OnceCell<Sapling>) -> Sapling;

/// Relies on `once_cell::sync::OnceCell::get_or_try_init`: it returns the
/// already-published value if there is one; otherwise it runs the loader
/// (blocking concurrent callers rather than running it twice), publishes its
/// result on success, and surfaces its error on failure. Either way, a value
/// handed out is the cell's single published value, and an error can only be
/// the loader's, which `Sapling::load` yields exactly when some blob is
/// malformed.
#[verifier::external_body]
fn cell_init<'a>(cell: &'a OnceCell<Sapling>, mint_bytes: Vec<u8>, spend_bytes: Vec<u8>, output_bytes: Vec<u8>) -> (r: Result<&'a Sapling, SaplingError>)
    ensures
        all_params_ok(mint_bytes@, spend_bytes@, output_bytes@) ==> r is Ok,
        r is Ok ==> *r->Ok_0 == cell_value(*cell),
        r is Err ==> r->Err_0 == SaplingError::FormatError
            && !all_params_ok(mint_bytes@, spend_bytes@, output_bytes@),
{
    cell.get_or_try_init(|| Sapling::load(mint_bytes, spend_bytes, output_bytes))
}

/// Relies on `once_cell::sync::OnceCell::get`: it returns a value only after
/// one has been published, and then always the same published value.
#[verifier::external_body]
fn cell_get<'a>(cell: &'a OnceCell<Sapling>) -> (r: Option<&'a Sapling>)
    ensures
        r is Some ==> *r->0 == cell_value(*cell),
{
    cell.get()
}

/// Entry points for initializing and reading a registry cell.
pub struct SaplingWrapper {}

impl SaplingWrapper {
    /// The published bundle, or `None` while the cell is still empty.
    /// Asking for the keys before a successful `load` is a caller ordering
    /// bug with no recoverable answer, so the embedding program aborts on
    /// `None` rather than substituting absent key material.
    pub fn global<'a>(cell: &'a OnceCell<Sapling>) -> (r: Option<&'a Sapling>)
        ensures
            r is Some ==> *r->0 == cell_value(*cell),
    {
        cell_get(cell)
    }

    /// Initialize the registry cell: load all three circuits' parameters and
    /// publish the bundle, unless one is already published. Concurrent
    /// callers race safely: the expensive load runs at most once per cell,
    /// and every caller that returns `Ok` observes a fully published bundle.
    /// Once the cell is filled the arguments are ignored (first call wins)
    /// and the call succeeds regardless of them; an error is therefore owed
    /// only when some blob is malformed, and is then always `FormatError`
    /// with nothing published by this call.
    pub fn load(cell: &OnceCell<Sapling>, mint_bytes: Vec<u8>, spend_bytes: Vec<u8>, output_bytes: Vec<u8>) -> (r: Result<bool, SaplingError>)
        ensures
            all_params_ok(mint_bytes@, spend_bytes@, output_bytes@) ==> r is Ok,
            r is Ok ==> r->Ok_0 == true,
            r is Err ==> r->Err_0 == SaplingError::FormatError
                && !all_params_ok(mint_bytes@, spend_bytes@, output_bytes@),
    {
        match cell_init(cell, mint_bytes, spend_bytes, output_bytes) {
            Ok(_) => Ok(true),
            Err(e) => Err(e),
        }
    }
}

/// The registry hands every reader the identical bundle: any two reads of
/// the same cell that return a value return the same value. (At run time the
/// reads also alias the same object; the reference never points at a copy.)
pub proof fn lemma_global_stable(cell: OnceCell<Sapling>, r1: Sapling, r2: Sapling)
    requires
        r1 == cell_value(cell),
        r2 == cell_value(cell),
    ensures
        r1 == r2,
{
}

} // verus!
