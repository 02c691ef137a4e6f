//! The bookkeeping of the NFT ledger: recording a new token and changing the
//! owner of one.

use crate::actor::ActorId;
use crate::nft::Error;
use crate::tables::{OwnerTable, UriTable};
use vstd::prelude::*;

verus! {

/// Records the new token `token_id` with owner `to` and metadata
/// `metadata_uri`, and counts it. Where the count would leave 64 bits,
/// `SupplyOverflow` is returned and nothing changes.
pub fn mint(
    owners: &mut OwnerTable,
    token_uris: &mut UriTable,
    total_supply: &mut u64,
    to: ActorId,
    token_id: u64,
    metadata_uri: String,
) -> (r: Result<(), Error>)
    ensures
        r == (if *old(total_supply) == u64::MAX {
            Err::<(), Error>(Error::SupplyOverflow)
        } else {
            Ok(())
        }),
        r is Ok ==> {
            &&& final(owners)@ == old(owners)@.insert(token_id, to)
            &&& final(token_uris)@ == old(token_uris)@.insert(token_id, metadata_uri@)
            &&& *final(total_supply) == *old(total_supply) + 1
        },
        r is Err ==> {
            &&& final(owners)@ == old(owners)@
            &&& final(token_uris)@ == old(token_uris)@
            &&& *final(total_supply) == *old(total_supply)
        },
{
    if *total_supply == u64::MAX {
        return Err(Error::SupplyOverflow);
    }
    owners.insert(token_id, to);
    token_uris.insert(token_id, metadata_uri);
    *total_supply = *total_supply + 1;
    Ok(())
}

/// Makes `to` the owner of `token_id`.
pub fn transfer(owners: &mut OwnerTable, token_id: u64, to: ActorId)
    ensures
        final(owners)@ == old(owners)@.insert(token_id, to),
{
    owners.insert(token_id, to);
}

} // verus!
