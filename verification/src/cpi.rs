use vstd::prelude::*;

use crate::keys::Pubkey;

verus! {

/// One cross-program call that an instruction issues.
///
/// Signer seeds are given part by part; an empty list means that the call is
/// signed by the transaction's signers alone.
#[derive(Debug, PartialEq, Eq)]
pub enum Cpi {
    /// A lamport transfer by the system program.
    Transfer { program: Pubkey, from: Pubkey, to: Pubkey, lamports: u64 },
    /// A checked token transfer by the token program.
    TransferChecked {
        program: Pubkey,
        from: Pubkey,
        mint: Pubkey,
        to: Pubkey,
        authority: Pubkey,
        amount: u64,
        decimals: u8,
        signer_seeds: Vec<Vec<u8>>,
    },
    /// Closing a token account, its rent going to `destination`.
    CloseAccount {
        program: Pubkey,
        account: Pubkey,
        destination: Pubkey,
        authority: Pubkey,
        signer_seeds: Vec<Vec<u8>>,
    },
    /// Minting new tokens of `mint` into `to`.
    MintTo {
        program: Pubkey,
        mint: Pubkey,
        to: Pubkey,
        authority: Pubkey,
        amount: u64,
        signer_seeds: Vec<Vec<u8>>,
    },
}

/// The mathematical value of a [`Cpi`]: the same call with its seeds as sequences.
pub enum CpiModel {
    Transfer { program: Pubkey, from: Pubkey, to: Pubkey, lamports: u64 },
    TransferChecked {
        program: Pubkey,
        from: Pubkey,
        mint: Pubkey,
        to: Pubkey,
        authority: Pubkey,
        amount: u64,
        decimals: u8,
        signer_seeds: Seq<Seq<u8>>,
    },
    CloseAccount {
        program: Pubkey,
        account: Pubkey,
        destination: Pubkey,
        authority: Pubkey,
        signer_seeds: Seq<Seq<u8>>,
    },
    MintTo {
        program: Pubkey,
        mint: Pubkey,
        to: Pubkey,
        authority: Pubkey,
        amount: u64,
        signer_seeds: Seq<Seq<u8>>,
    },
}

impl DeepView for Cpi {
    type V = CpiModel;

    open spec fn deep_view(&self) -> CpiModel {
        match self {
            Cpi::Transfer { program, from, to, lamports } => CpiModel::Transfer {
                program: *program,
                from: *from,
                to: *to,
                lamports: *lamports,
            },
            Cpi::TransferChecked {
                program,
                from,
                mint,
                to,
                authority,
                amount,
                decimals,
                signer_seeds,
            } => CpiModel::TransferChecked {
                program: *program,
                from: *from,
                mint: *mint,
                to: *to,
                authority: *authority,
                amount: *amount,
                decimals: *decimals,
                signer_seeds: signer_seeds.deep_view(),
            },
            Cpi::CloseAccount { program, account, destination, authority, signer_seeds } =>
                CpiModel::CloseAccount {
                program: *program,
                account: *account,
                destination: *destination,
                authority: *authority,
                signer_seeds: signer_seeds.deep_view(),
            },
            Cpi::MintTo { program, mint, to, authority, amount, signer_seeds } => CpiModel::MintTo {
                program: *program,
                mint: *mint,
                to: *to,
                authority: *authority,
                amount: *amount,
                signer_seeds: signer_seeds.deep_view(),
            },
        }
    }
}

/// Lamports that the transfers of a plan take out of `from`.
pub open spec fn lamports_sent(plan: Seq<CpiModel>, from: Pubkey) -> int
    decreases plan.len(),
{
    if plan.len() == 0 {
        0
    } else {
        lamports_sent(plan.drop_last(), from) + match plan.last() {
            CpiModel::Transfer { from: f, lamports, .. } => if f == from {
                lamports as int
            } else {
                0
            },
            _ => 0,
        }
    }
}

/// Lamports that the transfers of a plan put into `to`.
pub open spec fn lamports_received(plan: Seq<CpiModel>, to: Pubkey) -> int
    decreases plan.len(),
{
    if plan.len() == 0 {
        0
    } else {
        lamports_received(plan.drop_last(), to) + match plan.last() {
            CpiModel::Transfer { to: t, lamports, .. } => if t == to {
                lamports as int
            } else {
                0
            },
            _ => 0,
        }
    }
}

/// Tokens that the mints of a plan create in the account `to`.
pub open spec fn tokens_minted_to(plan: Seq<CpiModel>, to: Pubkey) -> int
    decreases plan.len(),
{
    if plan.len() == 0 {
        0
    } else {
        tokens_minted_to(plan.drop_last(), to) + match plan.last() {
            CpiModel::MintTo { to: t, amount, .. } => if t == to {
                amount as int
            } else {
                0
            },
            _ => 0,
        }
    }
}

/// Tokens that the checked transfers of a plan move out of the account `from`.
pub open spec fn tokens_moved_from(plan: Seq<CpiModel>, from: Pubkey) -> int
    decreases plan.len(),
{
    if plan.len() == 0 {
        0
    } else {
        tokens_moved_from(plan.drop_last(), from) + match plan.last() {
            CpiModel::TransferChecked { from: f, amount, .. } => if f == from {
                amount as int
            } else {
                0
            },
            _ => 0,
        }
    }
}

} // verus!
