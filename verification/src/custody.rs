//! Derived custody identities and content digests.
//!
//! A custody record is controlled not by any party's key but by an address
//! derived deterministically from a namespace tag, a discriminant and the
//! owning program's identity. Only the owning program can authorize
//! transfers out of such an address, which is what lets the services hold
//! escrowed assets and treasury balances without a signer.

use vstd::prelude::*;

use crate::identity::Identity;

verus! {

/// What `Pubkey::try_find_program_address` returns for a one-byte namespace
/// tag, a discriminant and a program identity: the derived address and its
/// bump nonce. The result depends on the three arguments alone. `None` is
/// the (astronomically improbable) case where no bump nonce yields a valid
/// derived address.
pub uninterp spec fn pda_of(tag: u8, discriminant: Seq<u8>, program: Seq<u8>) -> Option<(Seq<u8>, u8)>;

/// What SHA-256 returns for the UTF-8 encoding of a character sequence.
/// The digest depends on the characters alone and is 32 bytes long.
pub uninterp spec fn sha256_of_chars(s: Seq<char>) -> Seq<u8>;

/// Relies on `Pubkey::try_find_program_address` (through `anchor_lang`):
/// the derived address and bump nonce are a function of the seeds and the
/// program id alone; `None` comes back only when no bump nonce yields a
/// valid address.
#[verifier::external_body]
pub(crate) fn find_derived_address(tag: u8, discriminant: &Vec<u8>, program: &Identity) -> (r: Option<
    (Identity, u8),
>)
    ensures
        match r {
            Some(p) => pda_of(tag, discriminant@, program@) == Some((p.0@, p.1)),
            None => pda_of(tag, discriminant@, program@) is None,
        },
{
    let program_id = anchor_lang::prelude::Pubkey::new_from_array(program.bytes);
    anchor_lang::prelude::Pubkey::try_find_program_address(
        &[&[tag], discriminant.as_slice()],
        &program_id,
    ).map(|p| (Identity { bytes: p.0.to_bytes() }, p.1))
}

/// Relies on `solana_program::hash::hash` (through `anchor_lang`), a
/// SHA-256 digest: the result is a function of the input bytes alone, and
/// the input bytes are the UTF-8 encoding of the given characters.
#[verifier::external_body]
pub(crate) fn hash_chars(chars: &Vec<char>) -> (r: [u8; 32])
    ensures
        r@ == sha256_of_chars(chars@),
{
    let s: String = chars.iter().collect();
    anchor_lang::solana_program::hash::hash(s.as_bytes()).to_bytes()
}

} // verus!
