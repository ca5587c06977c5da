//! Which form of the host compiler's intermediate code the extraction works
//! from, and what follows from that choice.

use vstd::prelude::*;

verus! {

/// The level of intermediate code to extract.
#[derive(Debug, Clone, Copy, PartialEq, Eq, Structural)]
pub enum MirLevel {
    /// The code as built, before any optimization.
    Built,
    /// The code after promotion of temporaries.
    Promoted,
    /// The optimized code.
    Optimized,
}

/// The query to fetch a body with, as decided from the declaration's
/// locality and the availability of its code.
#[derive(Debug, Clone, Copy, PartialEq, Eq, Structural)]
pub enum MirQuery {
    /// Fetch the built body of a local declaration.
    Built,
    /// Fetch the promoted body of a local declaration.
    Promoted,
    /// Fetch the optimized body.
    Optimized,
    /// Fetch the compile-time-evaluation body of a foreign global.
    Ctfe,
    /// No body is available.
    Unavailable,
}

/// Whether constants should be extracted in their own identifier rather
/// than evaluated to a value, depending on the extraction level.
pub fn extract_constants_at_top_level(level: MirLevel) -> (r: bool)
    ensures
        r == (level is Built || level is Promoted),
{
    match level {
        MirLevel::Built => true,
        MirLevel::Promoted => true,
        MirLevel::Optimized => false,
    }
}

/// Whether box manipulations are desugared to low-level pointer code,
/// depending on the extraction level.
pub fn boxes_are_desugared(level: MirLevel) -> (r: bool)
    ensures
        r == (level is Optimized),
{
    match level {
        MirLevel::Built => false,
        MirLevel::Promoted => false,
        MirLevel::Optimized => true,
    }
}

/// Which query to fetch a body with.  A local declaration follows the
/// requested level; a foreign body only offers the optimized form, or the
/// compile-time form for globals and const functions, and may offer
/// nothing.
pub fn mir_query_for(
    is_local: bool,
    level: MirLevel,
    mir_available: bool,
    ctfe_mir_available: bool,
) -> (q: MirQuery)
    ensures
        is_local && level is Built ==> q is Built,
        is_local && level is Promoted ==> q is Promoted,
        is_local && level is Optimized ==> q is Optimized,
        !is_local && mir_available ==> q is Optimized,
        !is_local && !mir_available && ctfe_mir_available ==> q is Ctfe,
        !is_local && !mir_available && !ctfe_mir_available ==> q is Unavailable,
{
    if is_local {
        match level {
            MirLevel::Built => MirQuery::Built,
            MirLevel::Promoted => MirQuery::Promoted,
            MirLevel::Optimized => MirQuery::Optimized,
        }
    } else {
        if mir_available {
            MirQuery::Optimized
        } else if ctfe_mir_available {
            MirQuery::Ctfe
        } else {
            MirQuery::Unavailable
        }
    }
}

} // verus!
