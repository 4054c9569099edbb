//! Backend selection and the dispatch cache.
//!
//! The scan has interchangeable backends: the scalar scanner and the two
//! chunked tiers. Selection ranks them by the vector capabilities the
//! running machine reports, with the scalar scanner as the universal
//! floor. Because the capabilities of one machine never change within a
//! process, every caller that resolves the choice computes the same value,
//! so a process-wide slot holding the resolved backend may be written
//! without exclusion; [`DispatchCache`] is that slot's logic, ready to be
//! embedded behind whatever well-defined store the host provides.

use vstd::prelude::*;

use crate::CoordType;
use crate::scalar;
use crate::vector;

verus! {

/// One concrete implementation of the backward scan.
#[derive(Clone, Copy, Debug, PartialEq, Eq, Structural)]
pub enum Backend {
    /// The byte-at-a-time reference scanner.
    Scalar,
    /// The wide chunked tier (128/32-byte blocks).
    Wide,
    /// The narrow chunked tier (64/16-byte blocks).
    Narrow,
}

/// What the running machine offers: whether the wide and the narrow
/// vector tiers are worthwhile. A machine with neither gets the scalar
/// scanner.
#[derive(Clone, Copy, Debug, PartialEq, Eq, Structural)]
pub struct CpuFeatures {
    /// The wide (256-bit class) tier is available.
    pub wide: bool,
    /// The narrow (128-bit class) tier is available.
    pub narrow: bool,
}

/// The ranked choice: the widest available tier wins, the scalar scanner
/// is the floor.
pub open spec fn chosen_backend(features: CpuFeatures) -> Backend {
    if features.wide {
        Backend::Wide
    } else if features.narrow {
        Backend::Narrow
    } else {
        Backend::Scalar
    }
}

/// Selects the best backend the given capabilities allow.
pub fn select_backend(features: CpuFeatures) -> (b: Backend)
    ensures
        b == chosen_backend(features),
{
    if features.wide {
        Backend::Wide
    } else if features.narrow {
        Backend::Narrow
    } else {
        Backend::Scalar
    }
}

/// The lazily resolved, idempotently written slot holding the selected
/// backend. Writers that race on first use all store the same value, since
/// the selection is a pure function of the machine's capabilities.
#[derive(Clone, Copy, Debug)]
pub struct DispatchCache {
    slot: Option<Backend>,
}

impl DispatchCache {
    /// What the slot currently holds, if it was ever resolved.
    pub closed spec fn resolved(self) -> Option<Backend> {
        self.slot
    }

    /// A fresh cache: nothing detected yet.
    pub fn new() -> (c: DispatchCache)
        ensures
            c.resolved() is None,
    {
        DispatchCache { slot: None }
    }

    /// Returns the cached backend, resolving and storing it on first use.
    /// A resolved slot is never overwritten; a first resolution stores
    /// exactly the ranked choice for `features`.
    pub fn resolve(&mut self, features: CpuFeatures) -> (b: Backend)
        ensures
            b == match old(self).resolved() {
                Some(prior) => prior,
                None => chosen_backend(features),
            },
            final(self).resolved() == Some(b),
    {
        match self.slot {
            Some(prior) => prior,
            None => {
                let b = select_backend(features);
                self.slot = Some(b);
                b
            },
        }
    }
}

/// Runs the backward scan with an explicitly forced backend. Every
/// backend returns exactly what the scalar reference returns: the result
/// does not depend on the choice.
pub fn lines_bwd_with(
    backend: Backend,
    haystack: &[u8],
    offset: usize,
    line: CoordType,
    line_stop: CoordType,
) -> (r: (usize, CoordType))
    ensures
        (r.0 as int, r.1 as int) == crate::lines_bwd_spec(
            haystack@,
            offset as int,
            line as int,
            line_stop as int,
        ),
{
    let len = haystack.len();
    let end = if offset <= len {
        offset
    } else {
        len
    };
    match backend {
        Backend::Scalar => scalar::scan_scalar(haystack, 0, end, line, line_stop),
        Backend::Wide => vector::lines_bwd_wide(haystack, end, line, line_stop),
        Backend::Narrow => vector::lines_bwd_narrow(haystack, end, line, line_stop),
    }
}

} // verus!
