//! What holds of the library as a whole, proved from the contracts of its
//! functions.

use vstd::prelude::*;
use crate::digest::md5_digest;
use crate::error::{ConstructionError, LookupError};
use crate::table::{is_first_position, misses, passes_through, selects, TableModel};
use crate::utils::{
    chain_digest, continue_chain, is_chain_result, lemma_continue_reaches_endpoint, reduction,
    reduction_width,
};

verus! {

/// Chain generation is deterministic: two runs on the same seed with the
/// same length of at least one both succeed, with the same endpoint.
pub proof fn law_generate_chain_deterministic(
    seed: Seq<u8>,
    n: u32,
    first: Result<Vec<u8>, ConstructionError>,
    second: Result<Vec<u8>, ConstructionError>,
)
    requires
        n >= 1,
        is_chain_result(seed, n, first),
        is_chain_result(seed, n, second),
    ensures
        first is Ok,
        second is Ok,
        first->Ok_0@ == second->Ok_0@,
{
}

/// Reduction is pure: two reductions of the same digest at the same position
/// are the same plaintext.
pub proof fn law_reduce_pure(hash: Seq<u8>, deriv: u32, first: Vec<u8>, second: Vec<u8>)
    requires
        first@ == reduction(hash, deriv as nat),
        second@ == reduction(hash, deriv as nat),
    ensures
        first@ == second@,
{
}

/// A reduction stays within the plaintext alphabet: at most thirty
/// characters, and no more than the position allows, each from `'0'` to `'y'`.
pub proof fn law_reduction_in_alphabet(hash: Seq<u8>, deriv: nat)
    ensures
        reduction(hash, deriv).len() <= reduction_width(deriv) <= 30,
        forall|i: int|
            0 <= i < reduction(hash, deriv).len() ==> 48 <= #[trigger] reduction(hash, deriv)[i]
                <= 121,
{
}

/// A search settles on one position and one entry at most, so what it
/// returns is determined.
pub proof fn law_selection_is_unique(
    entries: Seq<(Seq<u8>, Seq<u8>)>,
    target: Seq<u8>,
    length: nat,
    k: nat,
    j: int,
    other_k: nat,
    other_j: int,
)
    requires
        selects(entries, target, length, k, j),
        selects(entries, target, length, other_k, other_j),
    ensures
        k == other_k,
        j == other_j,
{
}

/// A replay finds its digest at one position at most, so the password it
/// returns is determined.
pub proof fn law_first_position_is_unique(
    seed: Seq<u8>,
    target: Seq<u8>,
    length: nat,
    i: nat,
    other: nat,
)
    requires
        is_first_position(seed, target, length, i),
        is_first_position(seed, target, length, other),
    ensures
        i == other,
{
}

/// Whether `target` is the digest of no plaintext on any stored chain, the
/// last plaintext of a chain included.
pub open spec fn unreachable(table: TableModel, target: Seq<u8>) -> bool {
    forall|j: int, i: nat|
        0 <= j < table.entries.len() && i <= table.length ==> #[trigger] chain_digest(
            table.entries[j].0,
            i,
        ) != target
}

/// Whether every position from which `target` continues to a stored endpoint
/// is one at which the chain of that entry has the digest `target`: no chain
/// that `target` is not on merges into a stored one.
pub open spec fn merge_free(table: TableModel, target: Seq<u8>) -> bool {
    forall|k: nat, j: int|
        k <= table.length && 0 <= j < table.entries.len() && #[trigger] continue_chain(
            target,
            k,
            table.length,
        ) == (#[trigger] table.entries[j]).1 ==> chain_digest(table.entries[j].0, k) == target
}

/// In a finished table the search never misses a digest that lies on a
/// stored chain, at the position `i` of the chain of entry `j`.
pub proof fn law_stored_digest_is_discovered(table: TableModel, target: Seq<u8>, j: int, i: nat)
    requires
        table.well_formed(),
        0 <= j < table.entries.len(),
        i <= table.length,
        target == chain_digest(table.entries[j].0, i),
    ensures
        !misses(table.entries, target, table.length),
{
    lemma_continue_reaches_endpoint(table.entries[j].0, i, table.length);
}

/// Round trip: in a finished table, decoding a digest that lies on a stored
/// chain before its endpoint gives a password with that digest, provided the
/// chain that the search settles on passes through the digest.
///
/// Without the proviso the search may settle on a chain that only shares its
/// endpoint with the one the digest lies on, and the replay fails.
pub proof fn law_round_trip(
    table: TableModel,
    target: Seq<u8>,
    j: int,
    i: nat,
    r: Result<Vec<u8>, LookupError>,
)
    requires
        table.well_formed(),
        target.len() == 16,
        0 <= j < table.entries.len(),
        i < table.length,
        target == chain_digest(table.entries[j].0, i),
        forall|k: nat, m: int| #[trigger]
            selects(table.entries, target, table.length, k, m) ==> passes_through(
                table.entries[m].0,
                target,
                table.length,
            ),
        table.decodes(target, r),
    ensures
        r is Ok,
        md5_digest(r->Ok_0@) == target,
{
    law_stored_digest_is_discovered(table, target, j, i);
}

/// A digest that lies on no stored chain is never decoded.
pub proof fn law_unreachable_digest_fails(
    table: TableModel,
    target: Seq<u8>,
    r: Result<Vec<u8>, LookupError>,
)
    requires
        target.len() == 16,
        unreachable(table, target),
        table.decodes(target, r),
    ensures
        r is Err,
{
}

/// Negative coverage: decoding a digest that lies on no stored chain, and
/// from which no chain merges into a stored one, fails with `NotFound`, and
/// none of the `length + 1` positions leads to a stored endpoint.
pub proof fn law_negative_coverage(
    table: TableModel,
    target: Seq<u8>,
    r: Result<Vec<u8>, LookupError>,
)
    requires
        target.len() == 16,
        unreachable(table, target),
        merge_free(table, target),
        table.decodes(target, r),
    ensures
        r == Err::<Vec<u8>, LookupError>(LookupError::NotFound),
        misses(table.entries, target, table.length),
{
}

} // verus!
