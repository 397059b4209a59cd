//! Asset descriptors: the tagged name of an asset (native currency or
//! contract token), and an asset — a descriptor together with an amount.

use vstd::prelude::*;

verus! {

/// Names an asset: either the chain's native currency, identified by its
/// denomination, or a contract token, identified by its contract address.
#[derive(PartialEq, Eq, Debug)]
pub enum AssetDescriptor {
    Native { denom: String },
    Token { contract_addr: String },
}

impl AssetDescriptor {
    /// Two descriptors name the same asset: same kind, same name.
    pub open spec fn same(self, other: AssetDescriptor) -> bool {
        match (self, other) {
            (AssetDescriptor::Native { denom: a }, AssetDescriptor::Native { denom: b }) => a@
                == b@,
            (
                AssetDescriptor::Token { contract_addr: a },
                AssetDescriptor::Token { contract_addr: b },
            ) => a@ == b@,
            _ => false,
        }
    }

    /// Decides whether `self` and `other` name the same asset.
    pub fn is_same(&self, other: &AssetDescriptor) -> (r: bool)
        ensures
            r == self.same(*other),
    {
        match (self, other) {
            (AssetDescriptor::Native { denom: a }, AssetDescriptor::Native { denom: b }) => *a
                == *b,
            (
                AssetDescriptor::Token { contract_addr: a },
                AssetDescriptor::Token { contract_addr: b },
            ) => *a == *b,
            _ => false,
        }
    }
}

impl Clone for AssetDescriptor {
    fn clone(&self) -> (res: AssetDescriptor)
        ensures
            res == *self,
    {
        match self {
            AssetDescriptor::Native { denom } => AssetDescriptor::Native { denom: denom.clone() },
            AssetDescriptor::Token { contract_addr } => AssetDescriptor::Token {
                contract_addr: contract_addr.clone(),
            },
        }
    }
}

/// An asset descriptor together with an amount of that asset.
#[derive(PartialEq, Eq, Debug)]
pub struct Asset {
    pub info: AssetDescriptor,
    pub amount: u128,
}

impl Clone for Asset {
    fn clone(&self) -> (res: Asset)
        ensures
            res == *self,
    {
        Asset { info: self.info.clone(), amount: self.amount }
    }
}

} // verus!
