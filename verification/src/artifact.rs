//! The library that is loaded into child processes, as a file to be written.

use vstd::prelude::*;

use crate::text;

verus! {

/// The result of `xxhash_rust::const_xxh3::xxh3_128` on these bytes.
pub uninterp spec fn xxh3_128_digest(input: Seq<u8>) -> u128;

/// Calls `xxhash_rust::const_xxh3::xxh3_128`.
///
/// Believed of it: the result depends on the bytes alone. Which number it is for given
/// bytes is left unsaid.
#[verifier::external_body]
fn xxh3_128(input: &[u8]) -> (digest: u128)
    ensures
        digest == xxh3_128_digest(input@),
{
    xxhash_rust::const_xxh3::xxh3_128(input)
}

/// A file that is written before it is used. The hash tells one content from another.
#[derive(Debug, PartialEq, Eq)]
pub struct Artifact<'a> {
    pub name: &'static str,
    pub content: &'a [u8],
    pub hash: String,
}

impl<'a> Artifact<'a> {
    /// The artifact with this content, whose digest is already known.
    pub fn with_digest(name: &'static str, content: &'a [u8], digest: u128) -> (artifact: Self)
        ensures
            artifact.name == name,
            artifact.content == content,
            artifact.hash@ == text::digits(digest as nat, 16),
    {
        Artifact { name, content, hash: text::hex_lower(digest) }
    }

    /// The artifact of the library that is loaded into child processes.
    pub fn interpose_cdylib(binary: &'a [u8]) -> (artifact: Self)
        ensures
            artifact.name@ == "fsyp_preload"@,
            artifact.content == binary,
            artifact.hash@ == text::digits(xxh3_128_digest(binary@) as nat, 16),
    {
        Artifact::with_digest("fsyp_preload", binary, xxh3_128(binary))
    }
}

/// Two libraries have the same hash only if they have the same digest: writing the digest
/// out loses nothing of it.
pub proof fn hash_determines_the_digest(first: Seq<u8>, second: Seq<u8>)
    requires
        text::digits(xxh3_128_digest(first) as nat, 16) == text::digits(
            xxh3_128_digest(second) as nat,
            16,
        ),
    ensures
        xxh3_128_digest(first) == xxh3_128_digest(second),
{
    text::digits_are_injective(
        xxh3_128_digest(first) as nat,
        xxh3_128_digest(second) as nat,
        16,
    );
}

/// The hash of an artifact reads back, in base sixteen, to the digest that it was made with;
/// the name and the content are kept.
pub proof fn hash_reads_back_to_the_digest(
    name: &'static str,
    content: &[u8],
    digest: u128,
    artifact: Artifact<'_>,
)
    requires
        call_ensures(Artifact::with_digest, (name, content, digest), artifact),
    ensures
        artifact.name@ == name@,
        artifact.content@ == content@,
        text::value_of(artifact.hash@, 16) == digest,
{
    text::digits_read_back(digest as nat, 16);
}

} // verus!
