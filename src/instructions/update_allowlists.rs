use vstd::prelude::*;

use crate::constants::ALLOWLIST_MAX_LEN;
use crate::errors::MMMErrorCode;
use crate::state::{allowlists_valid, Allowlist, Pool, Pubkey};

verus! {

/// The new allowlist rules of a pool.
#[derive(PartialEq, Eq, Clone, Copy, Debug)]
pub struct UpdateAllowlistsArgs {
    pub allowlists: [Allowlist; ALLOWLIST_MAX_LEN],
}

/// The accounts of an allowlist update: the signing co-signer, the owner
/// and the pool.
#[derive(PartialEq, Eq, Clone, Copy, Debug)]
pub struct UpdateAllowlists {
    pub cosigner: Pubkey,
    pub owner: Pubkey,
    pub pool: Pool,
}

/// Checks that every allowlist rule is well formed.
pub fn check_allowlists(allowlists: &[Allowlist; ALLOWLIST_MAX_LEN]) -> (r: Result<(), MMMErrorCode>)
    ensures
        r is Ok <==> allowlists_valid(allowlists@),
        r is Err ==> r == Err::<(), MMMErrorCode>(MMMErrorCode::InvalidAllowLists),
{
    let mut i: usize = 0;
    while i < ALLOWLIST_MAX_LEN
        invariant
            i <= ALLOWLIST_MAX_LEN,
            allowlists@.len() == ALLOWLIST_MAX_LEN,
            forall|j: int| 0 <= j < i ==> (#[trigger] allowlists@[j]).valid_spec(),
        decreases ALLOWLIST_MAX_LEN - i,
    {
        if !allowlists[i].valid() {
            return Err(MMMErrorCode::InvalidAllowLists);
        }
        i = i + 1;
    }
    Ok(())
}

/// Replaces a pool's allowlist rules. The co-signer must be the pool's and
/// differ from the owner, the owner must be the pool's, and every new rule
/// must be well formed; otherwise nothing changes.
pub fn handler(ctx: &mut UpdateAllowlists, args: UpdateAllowlistsArgs) -> (r: Result<(), MMMErrorCode>)
    ensures
        old(ctx).owner.bytes@ == old(ctx).cosigner.bytes@ ==> r == Err::<(), MMMErrorCode>(
            MMMErrorCode::InvalidCosigner,
        ),
        old(ctx).owner.bytes@ != old(ctx).cosigner.bytes@ && old(ctx).pool.cosigner.bytes@
            != old(ctx).cosigner.bytes@ ==> r == Err::<(), MMMErrorCode>(MMMErrorCode::InvalidCosigner),
        old(ctx).owner.bytes@ != old(ctx).cosigner.bytes@ && old(ctx).pool.cosigner.bytes@
            == old(ctx).cosigner.bytes@ && old(ctx).pool.owner.bytes@ != old(ctx).owner.bytes@
            ==> r == Err::<(), MMMErrorCode>(MMMErrorCode::InvalidOwner),
        r is Ok <==> old(ctx).owner.bytes@ != old(ctx).cosigner.bytes@ && old(
            ctx,
        ).pool.cosigner.bytes@ == old(ctx).cosigner.bytes@ && old(ctx).pool.owner.bytes@ == old(
            ctx,
        ).owner.bytes@ && allowlists_valid(args.allowlists@),
        r is Ok ==> *final(ctx) == (UpdateAllowlists {
            pool: Pool { allowlists: args.allowlists, ..old(ctx).pool },
            ..*old(ctx)
        }),
        r is Err ==> *final(ctx) == *old(ctx),
{
    if ctx.owner.same(&ctx.cosigner) {
        return Err(MMMErrorCode::InvalidCosigner);
    }
    if !ctx.pool.cosigner.same(&ctx.cosigner) {
        return Err(MMMErrorCode::InvalidCosigner);
    }
    if !ctx.pool.owner.same(&ctx.owner) {
        return Err(MMMErrorCode::InvalidOwner);
    }
    if let Err(e) = check_allowlists(&args.allowlists) {
        return Err(e);
    }
    ctx.pool.allowlists = args.allowlists;
    Ok(())
}

} // verus!
