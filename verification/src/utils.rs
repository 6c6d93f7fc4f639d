//! Reduction and chain generation.

use vstd::prelude::*;
use vstd::slice::slice_to_vec;
use crate::digest::{base64_encoding, base64_fits, base64_text, md5_digest, md5_hash};
use crate::error::ConstructionError;

verus! {

/// How many bytes the reduction at position `deriv` keeps at most.
pub open spec fn reduction_width(deriv: nat) -> nat {
    if deriv % 30 + 1 < 4 { 4 } else { deriv % 30 + 1 }
}

/// One byte of a reduction: moved into the 74 characters from `'0'` to `'y'`.
pub open spec fn shifted(byte: u8, deriv: nat) -> u8 {
    ((byte as nat + deriv) % 74 + 48) as u8
}

/// The bytes the reduction at position `deriv` reads: the base64 text of the
/// digest at even positions, the digest itself at odd ones.
pub open spec fn reduction_source(hash: Seq<u8>, deriv: nat) -> Seq<u8> {
    if deriv % 2 == 0 { base64_encoding(hash) } else { hash }
}

/// The first `width` bytes of `source`, or all of it if it is shorter, each
/// shifted by `deriv`.
pub open spec fn shifted_prefix(source: Seq<u8>, width: nat, deriv: nat) -> Seq<u8> {
    Seq::new(if source.len() < width { source.len() } else { width }, |i: int| shifted(source[i], deriv))
}

/// The plaintext that the reduction at position `deriv` makes of `hash`.
pub open spec fn reduction(hash: Seq<u8>, deriv: nat) -> Seq<u8> {
    shifted_prefix(reduction_source(hash, deriv), reduction_width(deriv), deriv)
}

fn width_of(deriv: u32) -> (width: usize)
    ensures
        width == reduction_width(deriv as nat),
{
    let w: u32 = deriv % 30 + 1;
    if w < 4 { 4 } else { w as usize }
}

fn shift_prefix(source: &[u8], width: usize, deriv: u32) -> (out: Vec<u8>)
    ensures
        out@ == shifted_prefix(source@, width as nat, deriv as nat),
{
    let count: usize = if source.len() < width { source.len() } else { width };
    let mut out: Vec<u8> = Vec::new();
    let mut i: usize = 0;
    while i < count
        invariant
            i <= count,
            count <= source@.len(),
            out@.len() == i,
            forall|j: int| 0 <= j < i ==> out@[j] == shifted(source@[j], deriv as nat),
        decreases count - i,
    {
        let moved: u64 = (source[i] as u64 + deriv as u64) % 74 + 48;
        out.push(moved as u8);
        i += 1;
    }
    out
}

/// Apply the `deriv`-th reduction function upon the digest `hash`
///
/// # Arguments
///
/// * `hash`: a slice of bytes, the source hash
/// * `deriv`: u32 representing the n-th reduce function being called
///
/// # Logic
///
/// 1. At an even `deriv` take the base64 text of the digest, at an odd one
///    the digest itself
/// 2. Keep the first `deriv % 30 + 1` bytes of that, and at least the first
///    4, to prevent high collisions; all of them where there are fewer
/// 3. Take each byte plus `deriv`, mod 74 and add 48 to conform charset; the
///    sum does not wrap
///
/// The base64 text of `hash` has to fit in memory.
pub fn reduce(hash: &[u8], deriv: u32) -> (out: Vec<u8>)
    requires
        base64_fits(hash@.len()),
    ensures
        out@ == reduction(hash@, deriv as nat),
{
    let width = width_of(deriv);
    if deriv % 2 == 0 {
        let text = base64_text(hash);
        shift_prefix(text.as_slice(), width, deriv)
    } else {
        shift_prefix(hash, width, deriv)
    }
}

/// The plaintext at position `step` of the chain that starts at `seed`: the
/// seed itself, then the reduction of the digest of the plaintext before it.
pub open spec fn chain_plain(seed: Seq<u8>, step: nat) -> Seq<u8>
    decreases step,
{
    if step == 0 {
        seed
    } else {
        reduction(md5_digest(chain_plain(seed, (step - 1) as nat)), (step - 1) as nat)
    }
}

/// The digest at position `step` of the chain that starts at `seed`.
pub open spec fn chain_digest(seed: Seq<u8>, step: nat) -> Seq<u8> {
    md5_digest(chain_plain(seed, step))
}

/// The endpoint of the chain of `length` reductions that starts at `seed`.
pub open spec fn chain_endpoint(seed: Seq<u8>, length: nat) -> Seq<u8> {
    chain_digest(seed, length)
}

/// Where a chain of `length` reductions ends if `hash` is its digest at
/// position `start`.
pub open spec fn continue_chain(hash: Seq<u8>, start: nat, length: nat) -> Seq<u8>
    decreases length - start,
{
    if start >= length {
        hash
    } else {
        continue_chain(md5_digest(reduction(hash, start)), start + 1, length)
    }
}

/// A digest taken from inside a chain continues to that chain's endpoint.
pub proof fn lemma_continue_reaches_endpoint(seed: Seq<u8>, step: nat, length: nat)
    requires
        step <= length,
    ensures
        continue_chain(chain_digest(seed, step), step, length) == chain_endpoint(seed, length),
    decreases length - step,
{
    if step < length {
        lemma_continue_reaches_endpoint(seed, step + 1, length);
    }
}

/// What generating the chain of `n` reductions from `seed` gives: its
/// endpoint, or for no reductions at all the refusal.
pub open spec fn is_chain_result(
    seed: Seq<u8>,
    n: u32,
    r: Result<Vec<u8>, ConstructionError>,
) -> bool {
    match r {
        Ok(endpoint) => n >= 1 && endpoint@ == chain_endpoint(seed, n as nat),
        Err(e) => n == 0 && e == ConstructionError::ZeroLengthChain,
    }
}

/// Generates the chain of `n` reductions from `src` and returns its endpoint,
/// after `n + 1` hash evaluations. A chain of length zero is refused before
/// any work is done.
pub fn generate_chain(src: &[u8], n: u32) -> (r: Result<Vec<u8>, ConstructionError>)
    ensures
        is_chain_result(src@, n, r),
{
    if n == 0 {
        return Err(ConstructionError::ZeroLengthChain);
    }
    let mut current: Vec<u8> = slice_to_vec(src);
    let mut i: u32 = 0;
    while i < n
        invariant
            i <= n,
            current@ == chain_plain(src@, i as nat),
        decreases n - i,
    {
        let hash = md5_hash(current.as_slice());
        current = reduce(hash.as_slice(), i);
        i += 1;
    }
    let endpoint = md5_hash(current.as_slice());
    Ok(slice_to_vec(endpoint.as_slice()))
}

/// Continues a chain of `length` reductions from the digest `target` at
/// position `start` to its endpoint, with one hash evaluation for each
/// position that is left. At or past the end, the endpoint is `target` itself.
pub fn finish_chain(target: &[u8; 16], start: u32, length: u32) -> (endpoint: [u8; 16])
    ensures
        endpoint@ == continue_chain(target@, start as nat, length as nat),
{
    let mut hash: [u8; 16] = *target;
    let mut i: u32 = start;
    while i < length
        invariant
            continue_chain(hash@, i as nat, length as nat) == continue_chain(
                target@,
                start as nat,
                length as nat,
            ),
        decreases length - i,
    {
        let plain = reduce(hash.as_slice(), i);
        hash = md5_hash(plain.as_slice());
        i += 1;
    }
    hash
}

} // verus!
