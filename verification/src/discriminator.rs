//! Derivation of the 8-byte discriminator tag from a namespace and a type
//! name.
//!
//! The tag is the first 8 bytes of the SHA-256 digest of the UTF-8 bytes of
//! `prefix ++ normalized name`, where the namespace fixes both the prefix
//! (`"account:"` or `"global:"`) and the case convention (PascalCase or
//! snake_case). The exact parameters are a wire-compatibility requirement
//! with the host platform's own tagging scheme.

use vstd::prelude::*;

verus! {

use vstd::string::StrSliceExecFns;
use vstd::string::StringExecFns;
use vstd::utf8::encode_utf8;

/// The tag family a type name belongs to. It fixes the hash prefix and the
/// case convention that discriminator derivation applies to the name.
#[derive(Clone, Copy, Debug, PartialEq, Eq, Structural)]
pub enum Namespace {
    /// Account data layouts; names normalize to PascalCase, prefix "account".
    Account,
    /// Instruction argument shapes; names normalize to snake_case, prefix
    /// "global".
    Instruction,
}

/// The PascalCase form of a string, as heck's `to_pascal_case` computes it.
pub uninterp spec fn pascal_of(s: Seq<char>) -> Seq<char>;

/// The snake_case form of a string, as heck's `to_snake_case` computes it.
pub uninterp spec fn snake_of(s: Seq<char>) -> Seq<char>;

/// The SHA-256 digest of a byte sequence.
pub uninterp spec fn sha256_of(bytes: Seq<u8>) -> Seq<u8>;

/// Relies on heck's `ToPascalCase` for `str`: the PascalCase form of the
/// input, a function of the input characters alone.
#[verifier::external_body]
fn to_pascal_case(name: &str) -> (r: String)
    ensures
        r@ == pascal_of(name@),
{
    heck::ToPascalCase::to_pascal_case(name)
}

/// Relies on heck's `ToSnakeCase` for `str`: the snake_case form of the
/// input, a function of the input characters alone.
#[verifier::external_body]
fn to_snake_case(name: &str) -> (r: String)
    ensures
        r@ == snake_of(name@),
{
    heck::ToSnakeCase::to_snake_case(name)
}

/// Relies on `anchor_lang::solana_program::hash::hash`: the SHA-256 digest
/// of the input bytes, 32 bytes long, a function of the input alone.
#[verifier::external_body]
fn sha256(bytes: &[u8]) -> (r: Vec<u8>)
    ensures
        r@ == sha256_of(bytes@),
        r@.len() == 32,
{
    anchor_lang::solana_program::hash::hash(bytes).to_bytes().to_vec()
}

/// The hash prefix of a namespace, colon included.
pub open spec fn spec_prefix(ns: Namespace) -> Seq<char> {
    match ns {
        Namespace::Account => "account:"@,
        Namespace::Instruction => "global:"@,
    }
}

/// The case-normalized form of a name under a namespace's convention.
pub open spec fn spec_normalized(ns: Namespace, name: Seq<char>) -> Seq<char> {
    match ns {
        Namespace::Account => pascal_of(name),
        Namespace::Instruction => snake_of(name),
    }
}

/// The namespaced string whose digest the discriminator truncates.
pub open spec fn spec_preimage(ns: Namespace, name: Seq<char>) -> Seq<char> {
    spec_prefix(ns) + spec_normalized(ns, name)
}

/// The discriminator of a name under a namespace: the first 8 bytes of the
/// SHA-256 digest of the UTF-8 bytes of the namespaced, case-normalized
/// string.
pub open spec fn spec_discriminator(ns: Namespace, name: Seq<char>) -> Seq<u8> {
    sha256_of(encode_utf8(spec_preimage(ns, name))).take(8)
}

/// Law: the discriminator depends on the name only through its
/// case-normalized form; two names that normalize alike share their
/// discriminator.
pub proof fn lemma_normalization_invariance(ns: Namespace, a: Seq<char>, b: Seq<char>)
    requires
        spec_normalized(ns, a) == spec_normalized(ns, b),
    ensures
        spec_discriminator(ns, a) == spec_discriminator(ns, b),
{
}

/// Derives the 8-byte discriminator of `name` under `ns`.
///
/// The result is a pure function of the two arguments: calling this twice
/// with identical arguments yields byte-identical output.
pub fn derive_discriminator(ns: Namespace, name: &str) -> (r: [u8; 8])
    ensures
        r@ == spec_discriminator(ns, name@),
{
    let normalized: String = match ns {
        Namespace::Account => to_pascal_case(name),
        Namespace::Instruction => to_snake_case(name),
    };
    let prefix: &str = match ns {
        Namespace::Account => "account:",
        Namespace::Instruction => "global:",
    };
    let preimage: String = prefix.to_owned().concat(normalized.as_str());
    assert(preimage@ == spec_preimage(ns, name@));
    let bytes: Vec<u8> = preimage.as_str().as_bytes_vec();
    let digest: Vec<u8> = sha256(bytes.as_slice());
    let r: [u8; 8] = [
        digest[0],
        digest[1],
        digest[2],
        digest[3],
        digest[4],
        digest[5],
        digest[6],
        digest[7],
    ];
    assert(r@ =~= spec_discriminator(ns, name@));
    r
}

/// Derives the account discriminator of `name`: account names normalize to
/// PascalCase and hash under the "account" prefix.
pub fn account_discriminator(name: &str) -> (r: [u8; 8])
    ensures
        r@ == spec_discriminator(Namespace::Account, name@),
{
    derive_discriminator(Namespace::Account, name)
}

/// Derives the instruction discriminator of `name`: instruction names
/// normalize to snake_case and hash under the "global" prefix.
pub fn instruction_discriminator(name: &str) -> (r: [u8; 8])
    ensures
        r@ == spec_discriminator(Namespace::Instruction, name@),
{
    derive_discriminator(Namespace::Instruction, name)
}

} // verus!
