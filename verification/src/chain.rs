use vstd::prelude::*;
use crate::identity::Identity;

verus! {

/// The program-derived address and nonce that the chain's canonical
/// derivation assigns to `seed` under `program_id`; none in the
/// statistically improbable case that no nonce yields an off-curve address.
pub uninterp spec fn pda_derivation(seed: Seq<u8>, program_id: Seq<u8>) -> Option<(Seq<u8>, u8)>;

/// Relies on Pubkey::try_find_program_address: the result is a SHA-256
/// search over the seed, a nonce byte and the program id, a function of its
/// arguments alone, and the address it returns is 32 bytes.
#[verifier::external_body]
pub(crate) fn try_find_pda(seed: &Vec<u8>, program_id: &Identity) -> (r: Option<(Identity, u8)>)
    ensures
        match r {
            Some(p) => pda_derivation(seed@, program_id@) == Some((p.0@, p.1)),
            None => pda_derivation(seed@, program_id@) is None,
        },
{
    let pid = anchor_lang::prelude::Pubkey::new_from_array(program_id.key);
    anchor_lang::prelude::Pubkey::try_find_program_address(&[seed.as_slice()], &pid)
        .map(|(pda, bump)| (Identity { key: pda.to_bytes() }, bump))
}

/// The canonical associated token account address for an (owner, asset)
/// pair, as the chain's associated-account resolver derives it.
pub uninterp spec fn associated_address(owner: Seq<u8>, asset: Seq<u8>) -> Seq<u8>;

/// Relies on anchor_spl's get_associated_token_address: a program-derived
/// address computed from the owner and mint addresses alone.  It aborts only
/// in the statistically improbable case that no derivation nonce yields an
/// off-curve address.
#[verifier::external_body]
pub(crate) fn associated_token_address(owner: &Identity, asset: &Identity) -> (r: Identity)
    ensures
        r@ == associated_address(owner@, asset@),
{
    let wallet = anchor_lang::prelude::Pubkey::new_from_array(owner.key);
    let mint = anchor_lang::prelude::Pubkey::new_from_array(asset.key);
    let ata = anchor_spl::associated_token::get_associated_token_address(&wallet, &mint);
    Identity { key: ata.to_bytes() }
}

/// The base-58 text of a 32-byte key, as the chain prints addresses.
pub uninterp spec fn base58_text(key: Seq<u8>) -> Seq<char>;

/// Relies on Pubkey's Display impl: base-58 text computed from the 32 key
/// bytes alone.
#[verifier::external_body]
pub(crate) fn identity_text(id: &Identity) -> (r: String)
    ensures
        r@ == base58_text(id@),
{
    format!("{}", anchor_lang::prelude::Pubkey::new_from_array(id.key))
}

} // verus!
