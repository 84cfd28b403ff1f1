use vstd::prelude::*;

use crate::error::ErrorCode;
use crate::key::AccountKey;

verus! {

/// A project's listing: who owns it, its token, and how it presents itself.
#[derive(Clone, Debug)]
pub struct ProjectState {
    pub owner: AccountKey,
    pub mint: AccountKey,
    pub name: String,
    pub symbol: String,
    pub created_at: i64,
    pub total_supply: u64,
    pub category: String,
}

impl ProjectState {
    pub const MAX_NAME: usize = 64;
    pub const MAX_SYMBOL: usize = 16;
    pub const MAX_CATEGORY: usize = 32;
    /// Account space: discriminator, two keys, three length-prefixed
    /// strings at their maximum, a timestamp and the supply.
    pub const MAX_SIZE: usize = 8 + 32 + 32 + 4 + 64 + 4 + 16 + 8 + 8 + 4 + 32;
}

/// Registers a project for `owner`, created at `created_at`, with no token yet.
pub fn initialize_project(
    owner: AccountKey,
    name: String,
    symbol: String,
    total_supply: u64,
    category: String,
    created_at: i64,
) -> (r: ProjectState)
    ensures
        r.owner == owner,
        r.mint == (AccountKey { high: 0, low: 0 }),
        r.name@ == name@,
        r.symbol@ == symbol@,
        r.created_at == created_at,
        r.total_supply == total_supply,
        r.category@ == category@,
{
    ProjectState {
        owner,
        mint: AccountKey::zero(),
        name,
        symbol,
        created_at,
        total_supply,
        category,
    }
}

/// Records `mint` as the project's token and returns how many tokens to mint
/// to the owner: the whole supply. Only the owner may do this.
pub fn create_mint(state: &mut ProjectState, owner: AccountKey, mint: AccountKey) -> (r: Result<
    u64,
    ErrorCode,
>)
    ensures
        owner != old(state).owner ==> {
            &&& r == Err::<u64, ErrorCode>(ErrorCode::Unauthorized)
            &&& final(state).mint == old(state).mint
        },
        owner == old(state).owner ==> {
            &&& r == Ok::<u64, ErrorCode>(old(state).total_supply)
            &&& final(state).mint == mint
        },
        final(state).owner == old(state).owner,
        final(state).name@ == old(state).name@,
        final(state).symbol@ == old(state).symbol@,
        final(state).created_at == old(state).created_at,
        final(state).total_supply == old(state).total_supply,
        final(state).category@ == old(state).category@,
{
    if owner != state.owner {
        return Err(ErrorCode::Unauthorized);
    }
    state.mint = mint;
    Ok(state.total_supply)
}

} // verus!
