use crate::address::{record_address_of, Owner, Pubkey};
use std::collections::HashMap;
use vstd::prelude::*;

verus! {

broadcast use vstd::std_specs::hash::group_hash_axioms;

/// Why a transition was rejected. A rejected transition changes nothing.
#[derive(Clone, Copy, Debug, PartialEq, Eq, Structural)]
pub enum EscrowError {
    /// The supplied record address is not the one derived from `(maker, seed)`.
    AddressMismatch,
    /// A record already exists at the derived address.
    RecordAlreadyExists,
    /// No record exists at the supplied address.
    RecordNotFound,
    /// The caller is not the maker stored in the record.
    MakerMismatch,
    /// An account holds another asset than the one required.
    MintMismatch,
    /// An account has another owner than the one required.
    OwnerMismatch,
    /// A holding account that must exist does not.
    AccountNotFound,
    /// An account address is already taken.
    AccountAlreadyExists,
    /// The source account holds less than the amount to move.
    InsufficientFunds,
    /// The transfer's authorization does not match the source's owner.
    Unauthorized,
    /// The destination balance would exceed `u64::MAX`.
    Overflow,
}

/// A holding account: a balance of one asset, owned by one identity.
#[derive(Clone, Copy, Debug, PartialEq, Eq, Structural)]
pub struct TokenAccount {
    pub owner: Owner,
    pub mint: Pubkey,
    pub amount: u64,
}

/// The durable record of one open offer.
#[derive(Clone, Copy, Debug, PartialEq, Eq, Structural)]
pub struct EscrowState {
    pub maker: Pubkey,
    pub maker_mint: Pubkey,
    pub taker_mint: Pubkey,
    /// Quantity of `maker_mint` held in the vault.
    pub amount: u64,
    /// Quantity of `taker_mint` the taker pays to the maker.
    pub offer_amount: u64,
    pub seed: u64,
    pub auth_bump: u8,
    pub escrow_bump: u8,
    pub vault_bump: u8,
}

/// An escrow record together with its custody vault: they are created and
/// destroyed as one entry.
#[derive(Clone, Copy, Debug, PartialEq, Eq, Structural)]
pub struct Escrow {
    pub state: EscrowState,
    pub vault: TokenAccount,
}

/// The asset ledger as seen by the escrow program: user holding accounts
/// keyed by address, and open escrows keyed by their derived record address.
pub struct Ledger {
    pub program_id: Pubkey,
    pub accounts: HashMap<u64, TokenAccount>,
    pub escrows: HashMap<u128, Escrow>,
}

/// Mathematical model of a [`Ledger`].
pub struct LedgerView {
    pub program_id: Pubkey,
    pub accounts: Map<u64, TokenAccount>,
    pub escrows: Map<u128, Escrow>,
}

impl View for Ledger {
    type V = LedgerView;

    open spec fn view(&self) -> LedgerView {
        LedgerView {
            program_id: self.program_id,
            accounts: self.accounts@,
            escrows: self.escrows@,
        }
    }
}

/// The invariant of one open escrow: it sits at the address derived from its
/// maker and seed, and its vault is owned by the program authority, holds the
/// maker's asset and exactly the recorded amount.
pub open spec fn escrow_wf(program_id: Pubkey, addr: u128, e: Escrow) -> bool {
    &&& addr == record_address_of(e.state.maker, e.state.seed)
    &&& e.vault.owner == Owner::Program(program_id)
    &&& e.vault.mint == e.state.maker_mint
    &&& e.vault.amount == e.state.amount
}

impl LedgerView {
    /// Every open escrow satisfies [`escrow_wf`].
    pub open spec fn wf(self) -> bool {
        forall|a: u128| #[trigger]
            self.escrows.contains_key(a) ==> escrow_wf(self.program_id, a, self.escrows[a])
    }

    /// Balance of a holding account, zero where none exists.
    pub open spec fn balance(self, addr: u64) -> int {
        if self.accounts.contains_key(addr) {
            self.accounts[addr].amount as int
        } else {
            0
        }
    }
}

impl Ledger {
    pub open spec fn wf(&self) -> bool {
        self@.wf()
    }

    /// An empty ledger for the program with the given identity.
    pub fn new(program_id: Pubkey) -> (r: Ledger)
        ensures
            r@.program_id == program_id,
            r@.accounts == Map::<u64, TokenAccount>::empty(),
            r@.escrows == Map::<u128, Escrow>::empty(),
            r.wf(),
    {
        Ledger { program_id, accounts: HashMap::new(), escrows: HashMap::new() }
    }

    /// Creates a holding account at a free address.
    pub fn open_account(&mut self, address: u64, owner: Owner, mint: Pubkey, amount: u64) -> (r:
        Result<(), EscrowError>)
        ensures
            old(self)@.accounts.contains_key(address) ==> r == Err::<(), EscrowError>(
                EscrowError::AccountAlreadyExists,
            ) && final(self)@ == old(self)@,
            !old(self)@.accounts.contains_key(address) ==> r is Ok && final(self)@ == (LedgerView {
                accounts: old(self)@.accounts.insert(
                    address,
                    TokenAccount { owner, mint, amount },
                ),
                ..old(self)@
            }),
            old(self).wf() ==> final(self).wf(),
    {
        if self.accounts.contains_key(&address) {
            return Err(EscrowError::AccountAlreadyExists);
        }
        self.accounts.insert(address, TokenAccount { owner, mint, amount });
        Ok(())
    }

    /// Balance of the holding account at `address`, if it exists.
    pub fn balance(&self, address: u64) -> (r: Option<u64>)
        ensures
            r == (if self@.accounts.contains_key(address) {
                Some(self@.accounts[address].amount)
            } else {
                None
            }),
    {
        match self.accounts.get(&address) {
            Some(a) => Some(a.amount),
            None => None,
        }
    }

    /// The escrow record at `address`, if one is open.
    pub fn escrow(&self, address: u128) -> (r: Option<EscrowState>)
        ensures
            r == (if self@.escrows.contains_key(address) {
                Some(self@.escrows[address].state)
            } else {
                None
            }),
    {
        match self.escrows.get(&address) {
            Some(e) => Some(e.state),
            None => None,
        }
    }

    /// Balance of the vault of the escrow at `address`, if one is open.
    pub fn vault_balance(&self, address: u128) -> (r: Option<u64>)
        ensures
            r == (if self@.escrows.contains_key(address) {
                Some(self@.escrows[address].vault.amount)
            } else {
                None
            }),
    {
        match self.escrows.get(&address) {
            Some(e) => Some(e.vault.amount),
            None => None,
        }
    }
}

} // verus!
