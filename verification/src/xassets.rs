//! The asset commands of the command line, and what they report.

use crate::render::{decimal, write_decimal};
use vstd::prelude::*;
use vstd::string::StringExecFns;

verus! {

/// A query of asset storage. `A` is the type of an account, `I` that of an
/// asset's number.
#[derive(Clone, Debug, PartialEq, Eq)]
pub enum Storage<A, I> {
    AssetBalance { account_id: A, asset_id: I },
    TotalAssetBalance { asset_id: I },
}

/// An asset command.
#[derive(Clone, Debug, PartialEq, Eq)]
pub enum XAssets<A, I> {
    /// Transfer some assets from signer to another account.
    Transfer { dest: A, asset_id: I, value: u128 },
    Storage(Storage<A, I>),
}

/// A call to the chain's client.
#[derive(Clone, Debug, PartialEq, Eq)]
pub enum AssetsCall<A, I> {
    /// Transfer `value` of the asset to `dest` and wait for the block.
    TransferAndWatch { dest: A, asset_id: I, value: u128 },
    /// Read the balance of an account in an asset, at the latest block.
    AssetBalance { account_id: A, asset_id: I },
    /// Read the total balance of an asset, at the latest block.
    TotalAssetBalance { asset_id: I },
}

impl<A, I> XAssets<A, I> {
    /// The call that this command makes, with the command's own values.
    pub open spec fn call_spec(self) -> AssetsCall<A, I> {
        match self {
            XAssets::Transfer { dest, asset_id, value } => AssetsCall::TransferAndWatch {
                dest,
                asset_id,
                value,
            },
            XAssets::Storage(Storage::AssetBalance { account_id, asset_id }) => {
                AssetsCall::AssetBalance { account_id, asset_id }
            },
            XAssets::Storage(Storage::TotalAssetBalance { asset_id }) => {
                AssetsCall::TotalAssetBalance { asset_id }
            },
        }
    }

    /// Chooses the call that this command makes.
    pub fn call(self) -> (call: AssetsCall<A, I>)
        ensures
            call == self.call_spec(),
    {
        match self {
            XAssets::Transfer { dest, asset_id, value } => AssetsCall::TransferAndWatch {
                dest,
                asset_id,
                value,
            },
            XAssets::Storage(storage) => match storage {
                Storage::AssetBalance { account_id, asset_id } => AssetsCall::AssetBalance {
                    account_id,
                    asset_id,
                },
                Storage::TotalAssetBalance { asset_id } => AssetsCall::TotalAssetBalance {
                    asset_id,
                },
            },
        }
    }
}

/// What is reported of a transfer: the amount of the transfer event that
/// was found, or that none was found.
pub open spec fn transfer_report_spec(amount: Option<u128>) -> Seq<char> {
    match amount {
        Some(value) => "XAssets transfer success: value: "@ + decimal(value as nat),
        None => "Failed to find XAssets::Transfer Event"@,
    }
}

/// Says what came of a transfer, given the amount of its event if one was
/// found.
pub fn transfer_report(amount: Option<u128>) -> (text: String)
    ensures
        text@ == transfer_report_spec(amount),
{
    match amount {
        Some(value) => {
            let mut text = String::from_str("XAssets transfer success: value: ");
            write_decimal(&mut text, value);
            text
        },
        None => String::from_str("Failed to find XAssets::Transfer Event"),
    }
}

} // verus!
