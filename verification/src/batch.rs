//! Batch resolution.
//!
//! A run resolves a whole list of raw identifiers before it gives up:
//! every failure is collected and reported together, so the user can fix
//! all bad identifiers in one pass.  Only after the whole list has been
//! attempted is the run aborted, and a valid set that turns out empty is
//! a failure of its own, distinct from any single bad identifier.

use vstd::prelude::*;
use crate::license::License;
use crate::license::UnknownLicense;
use crate::license::resolve;
use crate::license::spec_resolve;

verus! {

/// The licenses that a list of raw identifiers resolves to, in order.
pub open spec fn spec_resolved(ins: Seq<Seq<char>>) -> Seq<License>
    decreases ins.len(),
{
    if ins.len() == 0 {
        Seq::empty()
    } else {
        (match spec_resolve(ins[0]) {
            Some(l) => seq![l],
            None => Seq::empty(),
        }) + spec_resolved(ins.skip(1))
    }
}

/// The raw identifiers that resolve to nothing, in order.
pub open spec fn spec_rejected(ins: Seq<Seq<char>>) -> Seq<Seq<char>>
    decreases ins.len(),
{
    if ins.len() == 0 {
        Seq::empty()
    } else {
        (match spec_resolve(ins[0]) {
            Some(l) => Seq::empty(),
            None => seq![ins[0]],
        }) + spec_rejected(ins.skip(1))
    }
}

/// Resolve every identifier of a batch.  No failure stops the attempt on
/// the identifiers after it, and both lists keep the input's order.
pub fn resolve_batch(inputs: &Vec<String>) -> (r: (Vec<License>, Vec<UnknownLicense>))
    ensures
        r.0@ == spec_resolved(inputs.deep_view()),
        r.1@.map_values(|u: UnknownLicense| u@) == spec_rejected(inputs.deep_view()),
{
    let ghost ins = inputs.deep_view();
    let mut found: Vec<License> = Vec::new();
    let mut errors: Vec<UnknownLicense> = Vec::new();
    let mut i: usize = 0;
    proof {
        assert(ins.skip(0) =~= ins);
        assert(Seq::<License>::empty() + spec_resolved(ins) =~= spec_resolved(ins));
        assert(errors@.map_values(|u: UnknownLicense| u@) =~= Seq::<Seq<char>>::empty());
        assert(Seq::<Seq<char>>::empty() + spec_rejected(ins) =~= spec_rejected(ins));
    }
    while i < inputs.len()
        invariant
            i <= inputs.len(),
            ins == inputs.deep_view(),
            ins.len() == inputs@.len(),
            spec_resolved(ins) == found@ + spec_resolved(ins.skip(i as int)),
            spec_rejected(ins) == errors@.map_values(|u: UnknownLicense| u@) + spec_rejected(
                ins.skip(i as int),
            ),
        decreases inputs.len() - i,
    {
        let ghost prev_found = found@;
        let ghost prev_errs = errors@.map_values(|u: UnknownLicense| u@);
        let ghost rest = ins.skip(i as int);
        proof {
            assert(rest[0] == ins[i as int]);
            assert(ins[i as int] == inputs@[i as int]@);
        }
        match resolve(inputs[i].as_str()) {
            Ok(license) => {
                found.push(license);
                proof {
                    assert(found@ =~= prev_found + seq![license]);
                }
            },
            Err(e) => {
                errors.push(e);
                proof {
                    assert(errors@.map_values(|u: UnknownLicense| u@) =~= prev_errs + seq![
                        ins[i as int],
                    ]);
                }
            },
        }
        i = i + 1;
        proof {
            assert(rest.skip(1) =~= ins.skip(i as int));
            assert(spec_resolved(ins) =~= found@ + spec_resolved(ins.skip(i as int)));
            assert(spec_rejected(ins) =~= errors@.map_values(|u: UnknownLicense| u@)
                + spec_rejected(ins.skip(i as int)));
        }
    }
    proof {
        assert(ins.skip(inputs@.len() as int) =~= Seq::<Seq<char>>::empty());
        assert(found@ + spec_resolved(ins.skip(inputs@.len() as int)) =~= found@);
        assert(errors@.map_values(|u: UnknownLicense| u@) + spec_rejected(
            ins.skip(inputs@.len() as int),
        ) =~= errors@.map_values(|u: UnknownLicense| u@));
    }
    (found, errors)
}

/// Why a run selected no licenses.
#[derive(Debug)]
pub enum SelectionError {
    /// At least one identifier matched no alias.  Every failure of the
    /// batch is carried, in the order the identifiers were given.
    Unresolved(Vec<UnknownLicense>),
    /// The valid set came out empty: nothing was requested at all, or
    /// nothing requested was valid.
    EmptySelection,
}

/// Resolve a batch and decide the run's fate.  All failures are reported
/// together; an empty valid set is a distinct failure of its own; and only
/// a batch that is wholly valid and non-empty yields its licenses.
pub fn select_licenses(inputs: &Vec<String>) -> (r: Result<Vec<License>, SelectionError>)
    ensures
        ({
            let rejected = spec_rejected(inputs.deep_view());
            let resolved = spec_resolved(inputs.deep_view());
            if rejected.len() > 0 {
                r matches Err(SelectionError::Unresolved(es)) && es@.map_values(
                    |u: UnknownLicense| u@,
                ) == rejected
            } else if resolved.len() == 0 {
                r matches Err(SelectionError::EmptySelection)
            } else {
                r matches Ok(ls) && ls@ == resolved
            }
        }),
{
    let (found, errors) = resolve_batch(inputs);
    if errors.len() > 0 {
        proof {
            assert(errors@.map_values(|u: UnknownLicense| u@).len() == errors@.len());
        }
        Err(SelectionError::Unresolved(errors))
    } else if found.len() == 0 {
        proof {
            assert(errors@.map_values(|u: UnknownLicense| u@).len() == errors@.len());
        }
        Err(SelectionError::EmptySelection)
    } else {
        proof {
            assert(errors@.map_values(|u: UnknownLicense| u@).len() == errors@.len());
        }
        Ok(found)
    }
}

} // verus!
