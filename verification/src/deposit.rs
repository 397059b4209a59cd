//! Balance-proof checking: confirming that the funds a candidate order
//! declares were actually attached to the request (native currency) or
//! pre-authorized as an allowance (contract token).

use vstd::prelude::*;

use crate::asset::{Asset, AssetDescriptor};
use crate::errors::CreateError;

verus! {

/// One attached unit of native funds: a denomination and an amount of it.
#[derive(PartialEq, Eq, Debug)]
pub struct Coin {
    pub denom: String,
    pub amount: u128,
}

/// Evidence, gathered by the host before admission, that the declared funds
/// back the candidate order: the native funds attached to the request, or
/// the token allowance the user granted to this system.
#[derive(PartialEq, Eq, Debug)]
pub enum DepositProof {
    Native { funds: Vec<Coin> },
    Token { allowance: u128 },
}

/// The amount of `denom` attached in `funds`: the amount of the first coin
/// with that denomination, or 0 when none matches (the host hands at most
/// one coin per denomination).
pub open spec fn attached_amount(funds: Seq<Coin>, denom: Seq<char>) -> u128
    decreases funds.len(),
{
    if funds.len() == 0 {
        0
    } else if funds[0].denom@ == denom {
        funds[0].amount
    } else {
        attached_amount(funds.drop_first(), denom)
    }
}

/// Whether the evidence backs the declared asset: a native deposit must
/// attach at least the declared amount of the denomination; a token deposit
/// must carry an allowance equal to the declared amount exactly (a stale or
/// partial allowance is rejected rather than silently under- or
/// over-committing); evidence of the wrong kind backs nothing.
pub open spec fn deposit_ok(asset: Asset, evidence: DepositProof) -> bool {
    match asset.info {
        AssetDescriptor::Native { denom } => match evidence {
            DepositProof::Native { funds } => attached_amount(funds@, denom@) >= asset.amount,
            _ => false,
        },
        AssetDescriptor::Token { .. } => match evidence {
            DepositProof::Token { allowance } => allowance == asset.amount,
            _ => false,
        },
    }
}

/// Finds how much of `denom` the attached funds carry.
pub fn lookup_attached(funds: &Vec<Coin>, denom: &String) -> (r: u128)
    ensures
        r == attached_amount(funds@, denom@),
{
    proof {
        assert(funds@.skip(0) =~= funds@);
    }
    let mut i: usize = 0;
    while i < funds.len()
        invariant
            0 <= i <= funds@.len(),
            attached_amount(funds@, denom@) == attached_amount(
                funds@.skip(i as int),
                denom@,
            ),
        decreases funds@.len() - i,
    {
        let c = &funds[i];
        assert(funds@.skip(i as int)[0] == funds@[i as int]);
        if c.denom == *denom {
            return c.amount;
        }
        proof {
            assert(funds@.skip(i as int).drop_first() =~= funds@.skip(i as int + 1));
        }
        i = i + 1;
    }
    0
}

/// Confirms the deposit evidence backs the asset, or rejects the attempt.
pub fn check_deposit(asset: &Asset, evidence: &DepositProof) -> (r: Result<(), CreateError>)
    ensures
        r == (if deposit_ok(*asset, *evidence) {
            Ok::<(), CreateError>(())
        } else {
            Err::<(), CreateError>(CreateError::InvalidDeposit)
        }),
{
    match (&asset.info, evidence) {
        (AssetDescriptor::Native { denom }, DepositProof::Native { funds }) => {
            let attached: u128 = lookup_attached(funds, denom);
            if attached >= asset.amount {
                Ok(())
            } else {
                Err(CreateError::InvalidDeposit)
            }
        },
        (AssetDescriptor::Token { .. }, DepositProof::Token { allowance }) => {
            if *allowance == asset.amount {
                Ok(())
            } else {
                Err(CreateError::InvalidDeposit)
            }
        },
        _ => Err(CreateError::InvalidDeposit),
    }
}

} // verus!
