//! The calls this library makes into other crates and into parts of std
//! that carry no specification, each with the contract it is trusted to meet.
use vstd::prelude::*;
use vstd::multiset::Multiset;

use sha2::Digest;
use std::collections::hash_map::DefaultHasher;
use cuckoofilter::{CuckooError, CuckooFilter};

verus! {

/// The SHA-256 digest of a byte sequence.
pub uninterp spec fn sha256(data: Seq<u8>) -> Seq<u8>;

/// Calls `sha2::Sha256::digest` (through `sha2::Digest::digest`).
/// Trusted: the digest is the SHA-256 of exactly the bytes given, and it
/// is 32 bytes long (`Sha256`'s output size is `U32`).
#[verifier::external_body]
pub(crate) fn sha256_digest(data: &[u8]) -> (digest: Vec<u8>)
    ensures
        digest@ == sha256(data@),
        digest@.len() == 32,
{
    sha2::Sha256::digest(data).to_vec()
}

/// `local_ip_address::Error`, carried opaquely.
#[verifier::external_type_specification]
#[verifier::external_body]
pub struct ExLocalIpError(local_ip_address::Error);

/// Calls `local_ip_address::local_ip` and renders the address it finds as
/// text (`IpAddr`'s `to_string`). Nothing is stated of the outcome: it
/// depends on the machine's network interfaces.
#[verifier::external_body]
pub(crate) fn local_ip_text() -> (ip: Result<String, local_ip_address::Error>) {
    local_ip_address::local_ip().map(|ip| ip.to_string())
}

/// Calls `nanoid::format` with nanoid's default random source
/// (`nanoid::rngs::default`), as the `nanoid!` macro does.
/// Trusted, from the function's source: it keeps drawing random bytes and
/// keeps those that, masked, index the alphabet, until the id is `size`
/// long, so every character of the id comes from the alphabet. It asserts
/// that the alphabet has at most 255 characters. It never returns for an
/// empty alphabet or a size of 0, and it counts the id's length in bytes,
/// so the alphabet is held to ASCII characters. Which characters come out
/// is left open: they are random.
#[verifier::external_body]
pub(crate) fn nanoid_format(alphabet: &[char], size: usize) -> (id: String)
    requires
        0 < alphabet@.len() <= 255,
        0 < size <= usize::MAX / 8,
        forall|i: int| 0 <= i < alphabet@.len() ==> (#[trigger] alphabet@[i] as u32) < 128,
    ensures
        id@.len() == size,
        forall|i: int| 0 <= i < size ==> alphabet@.contains(#[trigger] id@[i]),
{
    nanoid::format(nanoid::rngs::default, alphabet, size)
}

/// The text `str::to_uppercase` gives for a text: each character mapped to
/// its Unicode uppercase.
pub uninterp spec fn uppercase(s: Seq<char>) -> Seq<char>;

/// Calls `str::to_uppercase`. Trusted: the result depends on the text alone.
#[verifier::external_body]
pub(crate) fn to_uppercase(s: &str) -> (upper: String)
    ensures
        upper@ == uppercase(s@),
{
    s.to_uppercase()
}

/// `cuckoofilter::CuckooFilter`, carried opaquely.
#[verifier::external_type_specification]
#[verifier::external_body]
#[verifier::reject_recursive_types(H)]
pub struct ExCuckooFilter<H>(CuckooFilter<H>);

/// `cuckoofilter::CuckooError`, carried opaquely.
#[verifier::external_type_specification]
#[verifier::external_body]
pub struct ExCuckooError(CuckooError);

/// The fingerprint class of a text in a cuckoo filter with `buckets`
/// buckets: its one-byte fingerprint together with its two candidate
/// buckets. It depends on the text alone, since the filter hashes with
/// `DefaultHasher::default()`, whose keys are fixed, and on the bucket
/// count. Two texts of one class are the same to the filter.
pub uninterp spec fn fingerprint_class(buckets: nat, item: Seq<char>) -> int;

/// The number of buckets a cuckoo filter was made with.
pub uninterp spec fn filter_buckets(filter: CuckooFilter<DefaultHasher>) -> nat;

/// What a cuckoo filter of texts holds: for each fingerprint stored in a
/// bucket, its class (the fingerprint and the pair of buckets it may sit
/// in), as often as it is stored.
pub uninterp spec fn filter_classes(filter: CuckooFilter<DefaultHasher>) -> Multiset<int>;

/// Whether `n` is a power of two.
pub open spec fn is_power_of_two(n: nat) -> bool
    decreases n,
{
    if n <= 1 {
        n == 1
    } else {
        n % 2 == 0 && is_power_of_two(n / 2)
    }
}

/// A bucket count under which the filter's operations are defined and
/// behave as the contracts below say: positive (every operation indexes
/// buckets modulo the count) and a power of two (so that a fingerprint's
/// other bucket follows from the fingerprint and either bucket).
pub open spec fn valid_bucket_count(n: nat) -> bool {
    n > 0 && is_power_of_two(n)
}

/// Calls `CuckooFilter::new`. Trusted, from the source: a new filter holds
/// nothing, and has `DEFAULT_CAPACITY.next_power_of_two() / BUCKET_SIZE`
/// buckets, that is `(1 << 20) / 4`.
#[verifier::external_body]
pub(crate) fn filter_new() -> (filter: CuckooFilter<DefaultHasher>)
    ensures
        filter_classes(filter) == Multiset::<int>::empty(),
        filter_buckets(filter) == 262144,
{
    CuckooFilter::new()
}

/// Calls `CuckooFilter::contains`. Trusted, from the source: it looks for
/// the text's fingerprint in the text's two buckets. The bucket count is a
/// power of two, so the other bucket of a fingerprint follows from the
/// fingerprint and either bucket; a stored fingerprint equal to the text's,
/// in one of the text's buckets, is of the text's class. So the text is
/// found exactly when the filter holds its class.
#[verifier::external_body]
pub(crate) fn filter_contains(filter: &CuckooFilter<DefaultHasher>, item: &String) -> (found: bool)
    requires
        valid_bucket_count(filter_buckets(*filter)),
    ensures
        found == (filter_classes(*filter).count(
            fingerprint_class(filter_buckets(*filter), item@),
        ) > 0),
{
    filter.contains(item)
}

/// Calls `CuckooFilter::add`. Trusted, from the source and its doc comment:
/// the text's fingerprint is stored in one of its buckets, and relocated
/// fingerprints move only between their own two buckets, so on `Ok` the
/// filter holds the text's class once more. `Err(NotEnoughSpace)` comes only
/// after the text's first bucket was found full, with four fingerprints; the
/// text's fingerprint was then stored too, but one relocated fingerprint, of
/// a class the filter then held, was dropped. The bucket count never changes.
#[verifier::external_body]
pub(crate) fn filter_add(filter: &mut CuckooFilter<DefaultHasher>, item: &String) -> (r: Result<
    (),
    CuckooError,
>)
    requires
        valid_bucket_count(filter_buckets(*old(filter))),
    ensures
        filter_buckets(*final(filter)) == filter_buckets(*old(filter)),
        r is Err ==> filter_classes(*old(filter)).len() >= 4,
        r is Ok ==> filter_classes(*final(filter)) == filter_classes(*old(filter)).insert(
            fingerprint_class(filter_buckets(*old(filter)), item@),
        ),
        r is Err ==> exists|evicted: int|
            filter_classes(*old(filter)).insert(
                fingerprint_class(filter_buckets(*old(filter)), item@),
            ).count(evicted) > 0 && filter_classes(*final(filter)) == #[trigger] filter_classes(
                *old(filter),
            ).insert(fingerprint_class(filter_buckets(*old(filter)), item@)).remove(evicted),
{
    filter.add(item)
}

/// Calls `CuckooFilter::delete`. Trusted, from the source: it removes one
/// stored fingerprint equal to the text's from the text's two buckets, that
/// is one fingerprint of the text's class, when there is one, and returns
/// whether it did. The bucket count never changes.
#[verifier::external_body]
pub(crate) fn filter_delete(filter: &mut CuckooFilter<DefaultHasher>, item: &String) -> (removed: bool)
    requires
        valid_bucket_count(filter_buckets(*old(filter))),
    ensures
        filter_buckets(*final(filter)) == filter_buckets(*old(filter)),
        removed == (filter_classes(*old(filter)).count(
            fingerprint_class(filter_buckets(*old(filter)), item@),
        ) > 0),
        filter_classes(*final(filter)) == filter_classes(*old(filter)).remove(
            fingerprint_class(filter_buckets(*old(filter)), item@),
        ),
{
    filter.delete(item)
}

} // verus!
