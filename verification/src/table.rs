//! A Rainbow Table!

use vstd::prelude::*;
use vstd::slice::slice_to_vec;
use vstd::string::*;
use crate::digest::{md5_digest, md5_hash};
use crate::error::{ConstructionError, LookupError};
use crate::seeds::{is_random_seed, random_seeds};
use crate::utils::{
    chain_digest, chain_endpoint, chain_plain, continue_chain, finish_chain, generate_chain,
    reduce,
};

verus! {

/// Whether some entry of `entries` ends in `endpoint`.
pub open spec fn has_match(entries: Seq<(Seq<u8>, Seq<u8>)>, endpoint: Seq<u8>) -> bool {
    exists|j: int| 0 <= j < entries.len() && (#[trigger] entries[j]).1 == endpoint
}

/// Whether entry `j` is the first of `entries` that ends in `endpoint`.
pub open spec fn is_first_match(entries: Seq<(Seq<u8>, Seq<u8>)>, endpoint: Seq<u8>, j: int) -> bool {
    &&& 0 <= j < entries.len()
    &&& entries[j].1 == endpoint
    &&& forall|i: int| 0 <= i < j ==> (#[trigger] entries[i]).1 != endpoint
}

/// Whether a search for `target` in a table of chains of `length` reductions
/// settles on position `k` and entry `j`: of all positions from `length` down
/// to zero, `k` is the first from which `target` continues to a stored
/// endpoint, and `j` is the first entry with that endpoint.
pub open spec fn selects(
    entries: Seq<(Seq<u8>, Seq<u8>)>,
    target: Seq<u8>,
    length: nat,
    k: nat,
    j: int,
) -> bool {
    &&& k <= length
    &&& is_first_match(entries, continue_chain(target, k, length), j)
    &&& forall|h: nat|
        k < h <= length ==> !has_match(entries, #[trigger] continue_chain(target, h, length))
}

/// Whether no position at all leads from `target` to a stored endpoint.
pub open spec fn misses(entries: Seq<(Seq<u8>, Seq<u8>)>, target: Seq<u8>, length: nat) -> bool {
    forall|h: nat| h <= length ==> !has_match(entries, #[trigger] continue_chain(target, h, length))
}

/// Whether `target` is the digest at position `i` of the chain from `seed`,
/// and at no earlier position.
pub open spec fn is_first_position(seed: Seq<u8>, target: Seq<u8>, length: nat, i: nat) -> bool {
    &&& i < length
    &&& chain_digest(seed, i) == target
    &&& forall|h: nat| h < i ==> #[trigger] chain_digest(seed, h) != target
}

/// Whether `target` is the digest of one of the first `length` plaintexts of
/// the chain from `seed`.
pub open spec fn passes_through(seed: Seq<u8>, target: Seq<u8>, length: nat) -> bool {
    exists|i: nat| i < length && #[trigger] chain_digest(seed, i) == target
}

/// Whether a corpus, if there is one, holds one seed for each sample.
pub open spec fn seed_count_matches(samples: u32, seeds: Option<&[&str]>) -> bool {
    match seeds {
        Some(given) => given@.len() == samples,
        None => true,
    }
}

/// A table as contracts speak of it.
pub struct TableModel {
    /// The number of samples the table was made for.
    pub samples: nat,
    /// The number of reductions in each chain.
    pub length: nat,
    /// The stored pairs of seed and endpoint, in order.
    pub entries: Seq<(Seq<u8>, Seq<u8>)>,
}

impl TableModel {
    /// A finished table: one entry for each sample, and each endpoint the end
    /// of the chain that starts at its seed.
    pub open spec fn well_formed(self) -> bool {
        &&& self.length >= 1
        &&& self.entries.len() == self.samples
        &&& forall|j: int|
            0 <= j < self.entries.len() ==> (#[trigger] self.entries[j]).1 == chain_endpoint(
                self.entries[j].0,
                self.length,
            )
    }

    /// What decoding `target` gives. A password is the first plaintext with
    /// the digest `target` on the chain that the search settles on; the two
    /// failures of a search tell whether it settled on a chain at all.
    pub open spec fn decodes(self, target: Seq<u8>, r: Result<Vec<u8>, LookupError>) -> bool {
        if target.len() != 16 {
            r matches Err(LookupError::MalformedDigest)
        } else {
            match r {
                Ok(password) => md5_digest(password@) == target && exists|k: nat, j: int, i: nat|
                    #![trigger selects(self.entries, target, self.length, k, j), is_first_position(self.entries[j].0, target, self.length, i)]
                    selects(self.entries, target, self.length, k, j) && is_first_position(
                        self.entries[j].0,
                        target,
                        self.length,
                        i,
                    ) && password@ == chain_plain(self.entries[j].0, i),
                Err(LookupError::NotFound) => misses(self.entries, target, self.length),
                Err(LookupError::NotFoundInChain) => exists|k: nat, j: int|
                    #[trigger] selects(self.entries, target, self.length, k, j) && !passes_through(
                        self.entries[j].0,
                        target,
                        self.length,
                    ),
                Err(LookupError::MalformedDigest) => false,
            }
        }
    }
}

/// Stored pairs as pairs of byte sequences.
pub open spec fn pairs_of(stored: Seq<(Vec<u8>, Vec<u8>)>) -> Seq<(Seq<u8>, Seq<u8>)> {
    Seq::new(stored.len(), |j: int| (stored[j].0@, stored[j].1@))
}

/// Represents a Fully-Hashable Rainbow Table
#[derive(Debug, Hash)]
pub struct Rainbow {
    number_samples: u32,
    chain_length: u32,
    pub rainbow_table: Vec<(Vec<u8>, Vec<u8>)>,
}

fn bytes_equal(a: &[u8], b: &[u8]) -> (same: bool)
    ensures
        same == (a@ == b@),
{
    if a.len() != b.len() {
        return false;
    }
    let mut i: usize = 0;
    while i < a.len()
        invariant
            i <= a@.len() == b@.len(),
            forall|h: int| 0 <= h < i ==> a@[h] == b@[h],
        decreases a@.len() - i,
    {
        if a[i] != b[i] {
            return false;
        }
        i += 1;
    }
    assert(a@ =~= b@);
    true
}

/// Takes `bytes` as a digest, if there are sixteen of them.
pub fn digest_of(bytes: &[u8]) -> (digest: Option<[u8; 16]>)
    ensures
        match digest {
            Some(taken) => bytes@.len() == 16 && taken@ == bytes@,
            None => bytes@.len() != 16,
        },
{
    if bytes.len() != 16 {
        return None;
    }
    let mut digest: [u8; 16] = [0u8; 16];
    let mut i: usize = 0;
    while i < 16
        invariant
            i <= 16 == bytes@.len(),
            forall|h: int| 0 <= h < i ==> digest@[h] == bytes@[h],
        decreases 16 - i,
    {
        digest[i] = bytes[i];
        i += 1;
    }
    Some(digest)
}

impl View for Rainbow {
    type V = TableModel;

    closed spec fn view(&self) -> TableModel {
        TableModel {
            samples: self.number_samples as nat,
            length: self.chain_length as nat,
            entries: pairs_of(self.rainbow_table@),
        }
    }
}

impl Rainbow {
    /// Puts a table together from its parts as they are, for one that was
    /// stored. Nothing is checked: the table is well formed only if the parts
    /// came from one that was.
    pub fn from_parts(
        number_samples: u32,
        chain_length: u32,
        rainbow_table: Vec<(Vec<u8>, Vec<u8>)>,
    ) -> (table: Rainbow)
        ensures
            table@.samples == number_samples,
            table@.length == chain_length,
            table@.entries == pairs_of(rainbow_table@),
    {
        Rainbow { number_samples, chain_length, rainbow_table }
    }

    /// The number of samples the table was made for.
    pub fn number_samples(&self) -> (n: u32)
        ensures
            n == self@.samples,
    {
        self.number_samples
    }

    /// The number of reductions in each chain.
    pub fn chain_length(&self) -> (n: u32)
        ensures
            n == self@.length,
    {
        self.chain_length
    }

    /// Tests what a table is to be built from, before any chain is generated:
    /// `seed_count` seeds for `samples` samples and chains of `length`
    /// reductions. The seed count is tested first.
    pub fn check_request(samples: u32, length: u32, seed_count: usize) -> (r: Result<
        (),
        ConstructionError,
    >)
        ensures
            r == (if seed_count != samples {
                Err::<(), ConstructionError>(ConstructionError::SeedCountMismatch)
            } else if length == 0 {
                Err(ConstructionError::ZeroLengthChain)
            } else {
                Ok(())
            }),
    {
        if seed_count != samples as usize {
            Err(ConstructionError::SeedCountMismatch)
        } else if length == 0 {
            Err(ConstructionError::ZeroLengthChain)
        } else {
            Ok(())
        }
    }

    /// Builds the table of the chains of `length` reductions that start at
    /// `seeds`, one entry for each seed, in the order of the seeds.
    ///
    /// Fails with `SeedCountMismatch` unless there are exactly `samples`
    /// seeds, and otherwise with `ZeroLengthChain` if `length` is zero; in
    /// both cases before any chain is generated.
    pub fn from_seeds(samples: u32, length: u32, seeds: Vec<Vec<u8>>) -> (r: Result<
        Rainbow,
        ConstructionError,
    >)
        ensures
            match r {
                Ok(table) => {
                    &&& seeds@.len() == samples
                    &&& length >= 1
                    &&& table@.well_formed()
                    &&& table@.samples == samples
                    &&& table@.length == length
                    &&& forall|j: int|
                        0 <= j < samples ==> (#[trigger] table@.entries[j]).0 == seeds@[j]@
                },
                Err(e) => if seeds@.len() != samples {
                    e == ConstructionError::SeedCountMismatch
                } else {
                    length == 0 && e == ConstructionError::ZeroLengthChain
                },
            },
    {
        if let Err(e) = Rainbow::check_request(samples, length, seeds.len()) {
            return Err(e);
        }
        let mut rainbow_table: Vec<(Vec<u8>, Vec<u8>)> = Vec::new();
        let mut j: usize = 0;
        while j < seeds.len()
            invariant
                j <= seeds@.len(),
                length >= 1,
                rainbow_table@.len() == j,
                forall|h: int|
                    0 <= h < j ==> (#[trigger] rainbow_table@[h]).0@ == seeds@[h]@
                        && rainbow_table@[h].1@ == chain_endpoint(seeds@[h]@, length as nat),
            decreases seeds@.len() - j,
        {
            let seed = slice_to_vec(seeds[j].as_slice());
            let endpoint = generate_chain(seed.as_slice(), length).unwrap();
            rainbow_table.push((seed, endpoint));
            j += 1;
        }
        Ok(Rainbow { number_samples: samples, chain_length: length, rainbow_table })
    }

    /// Returns a Result containing, when seed size is correct, a Rainbow Table
    /// If `seeds` argument is not passed, random strings of digits and letters,
    /// each shorter than 25 chars, will be generated. The entries stand in the
    /// order of the seeds.
    ///
    /// # Arguments
    ///
    /// * `samples`: a u32 representing the number of seed samples in the table
    /// * `length`: a u32 representing the length of each generated chain
    /// * `seeds`: an Option<&[&str]> perhaps containing a slice of seed strings
    ///
    /// Fails with `SeedCountMismatch` if seeds are passed and there are not
    /// exactly `samples` of them, and otherwise with `ZeroLengthChain` if
    /// `length` is zero; in both cases before any chain is generated.
    pub fn create(samples: u32, length: u32, seeds: Option<&[&str]>) -> (r: Result<
        Rainbow,
        ConstructionError,
    >)
        ensures
            match r {
                Ok(table) => {
                    &&& seed_count_matches(samples, seeds)
                    &&& length >= 1
                    &&& table@.well_formed()
                    &&& table@.samples == samples
                    &&& table@.length == length
                    &&& forall|j: int|
                        0 <= j < samples ==> match seeds {
                            Some(given) => (#[trigger] table@.entries[j]).0
                                == given@[j].spec_bytes(),
                            None => is_random_seed(table@.entries[j].0),
                        }
                },
                Err(e) => if !seed_count_matches(samples, seeds) {
                    e == ConstructionError::SeedCountMismatch
                } else {
                    length == 0 && e == ConstructionError::ZeroLengthChain
                },
            },
    {
        match seeds {
            Some(given) => {
                if let Err(e) = Rainbow::check_request(samples, length, given.len()) {
                    return Err(e);
                }
                let mut plain: Vec<Vec<u8>> = Vec::new();
                let mut j: usize = 0;
                while j < given.len()
                    invariant
                        j <= given@.len(),
                        plain@.len() == j,
                        forall|h: int| 0 <= h < j ==> (#[trigger] plain@[h])@ == given@[h].spec_bytes(),
                    decreases given@.len() - j,
                {
                    plain.push(slice_to_vec(given[j].as_bytes()));
                    j += 1;
                }
                Rainbow::from_seeds(samples, length, plain)
            },
            None => {
                if let Err(e) = Rainbow::check_request(samples, length, samples as usize) {
                    return Err(e);
                }
                Rainbow::from_seeds(samples, length, random_seeds(samples))
            },
        }
    }

    /// Looks for the first entry that ends in `endpoint`.
    pub fn find_endpoint(&self, endpoint: &[u8]) -> (found: Option<usize>)
        ensures
            match found {
                Some(j) => is_first_match(self@.entries, endpoint@, j as int),
                None => !has_match(self@.entries, endpoint@),
            },
    {
        let mut j: usize = 0;
        while j < self.rainbow_table.len()
            invariant
                j <= self.rainbow_table@.len(),
                forall|i: int| 0 <= i < j ==> (#[trigger] self@.entries[i]).1 != endpoint@,
            decreases self.rainbow_table@.len() - j,
        {
            if bytes_equal(self.rainbow_table[j].1.as_slice(), endpoint) {
                return Some(j);
            }
            j += 1;
        }
        None
    }

    /// Tests one hypothesis: that `target` is the digest at position `start`
    /// of a stored chain. Continues the chain from there to its end and looks
    /// for the first entry with that endpoint.
    pub fn probe(&self, target: &[u8; 16], start: u32) -> (found: Option<usize>)
        ensures
            match found {
                Some(j) => is_first_match(
                    self@.entries,
                    continue_chain(target@, start as nat, self@.length),
                    j as int,
                ),
                None => !has_match(
                    self@.entries,
                    continue_chain(target@, start as nat, self@.length),
                ),
            },
    {
        let endpoint = finish_chain(target, start, self.chain_length);
        self.find_endpoint(endpoint.as_slice())
    }

    /// Discovers the chain to replay for a digest: tests every position from
    /// the last down to the first, `chain_length + 1` in all, and returns the
    /// seed and endpoint of the first entry that the first matching position
    /// leads to.
    ///
    /// Fails with `MalformedDigest` if `src_hash` is not sixteen bytes long,
    /// and with `NotFound` if no position leads to a stored endpoint.
    pub fn discover_chain(&self, src_hash: &[u8]) -> (r: Result<(Vec<u8>, Vec<u8>), LookupError>)
        ensures
            src_hash@.len() != 16 ==> r matches Err(LookupError::MalformedDigest),
            src_hash@.len() == 16 ==> match r {
                Ok(pair) => exists|k: nat, j: int|
                    #[trigger] selects(self@.entries, src_hash@, self@.length, k, j)
                        && (pair.0@, pair.1@) == self@.entries[j],
                Err(e) => e == LookupError::NotFound && misses(
                    self@.entries,
                    src_hash@,
                    self@.length,
                ),
            },
    {
        let target = match digest_of(src_hash) {
            Some(digest) => digest,
            None => {
                return Err(LookupError::MalformedDigest);
            },
        };
        let mut start: u32 = self.chain_length;
        loop
            invariant
                start <= self.chain_length,
                target@ == src_hash@,
                forall|h: nat|
                    start < h <= self@.length ==> !has_match(
                        self@.entries,
                        #[trigger] continue_chain(src_hash@, h, self@.length),
                    ),
            decreases start,
        {
            if let Some(j) = self.probe(&target, start) {
                let seed = slice_to_vec(self.rainbow_table[j].0.as_slice());
                let endpoint = slice_to_vec(self.rainbow_table[j].1.as_slice());
                assert(selects(self@.entries, src_hash@, self@.length, start as nat, j as int));
                return Ok((seed, endpoint));
            }
            if start == 0 {
                return Err(LookupError::NotFound);
            }
            start = start - 1;
        }
    }

    /// Regenerates the chain from `chain_src` and recovers the password: the
    /// first of its first `chain_length` plaintexts whose digest is
    /// `target_hash`. The endpoint of the chain is not among the digests that
    /// are compared.
    ///
    /// Fails with `NotFoundInChain` if none of them has that digest.
    pub fn recover_password(&self, chain_src: &[u8], target_hash: &[u8]) -> (r: Result<
        Vec<u8>,
        LookupError,
    >)
        ensures
            match r {
                Ok(password) => md5_digest(password@) == target_hash@ && exists|i: nat|
                    #[trigger] is_first_position(chain_src@, target_hash@, self@.length, i)
                        && password@ == chain_plain(chain_src@, i),
                Err(e) => e == LookupError::NotFoundInChain && !passes_through(
                    chain_src@,
                    target_hash@,
                    self@.length,
                ),
            },
    {
        let mut current: Vec<u8> = slice_to_vec(chain_src);
        let mut i: u32 = 0;
        while i < self.chain_length
            invariant
                i <= self.chain_length,
                current@ == chain_plain(chain_src@, i as nat),
                forall|h: nat| h < i ==> #[trigger] chain_digest(chain_src@, h) != target_hash@,
            decreases self.chain_length - i,
        {
            let hash = md5_hash(current.as_slice());
            if bytes_equal(hash.as_slice(), target_hash) {
                assert(is_first_position(chain_src@, target_hash@, self@.length, i as nat));
                return Ok(current);
            }
            current = reduce(hash.as_slice(), i);
            i += 1;
        }
        Err(LookupError::NotFoundInChain)
    }

    /// Decode a u8 digest of md5 hash from the table. Returns a `Result`
    /// of either the password or the reason why there is none.
    ///
    /// # Arguments
    ///
    /// * `src_hash`: a u8 slice pointer representing the md5 digest
    ///
    /// Discovers the chain, then replays it. A password that is returned has
    /// the digest `src_hash`. Fails with `MalformedDigest` if `src_hash` is not
    /// sixteen bytes long, with `NotFound` if no position leads to a stored
    /// endpoint, and with `NotFoundInChain` if the chain that was discovered
    /// does not pass through `src_hash`.
    pub fn decode(&self, src_hash: &[u8]) -> (r: Result<Vec<u8>, LookupError>)
        ensures
            self@.decodes(src_hash@, r),
    {
        let target_chain = match self.discover_chain(src_hash) {
            Ok(pair) => pair.0,
            Err(e) => {
                return Err(e);
            },
        };
        let ghost (k, j) = choose|k: nat, j: int|
            #[trigger] selects(self@.entries, src_hash@, self@.length, k, j) && target_chain@
                == self@.entries[j].0;
        let recovered = self.recover_password(target_chain.as_slice(), src_hash);
        proof {
            if recovered is Ok {
                let password = recovered->Ok_0;
                let i = choose|i: nat|
                    #[trigger] is_first_position(target_chain@, src_hash@, self@.length, i)
                        && password@ == chain_plain(target_chain@, i);
                assert(selects(self@.entries, src_hash@, self@.length, k, j) && is_first_position(
                    self@.entries[j].0,
                    src_hash@,
                    self@.length,
                    i,
                ) && password@ == chain_plain(self@.entries[j].0, i));
            }
        }
        recovered
    }
}

} // verus!
