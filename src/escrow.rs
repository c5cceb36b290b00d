use crate::address::{
    authorizes, authorizes_spec, record_address, record_address_of, AuthorityProof,
    Authorization, Owner, Pubkey, CANONICAL_BUMP,
};
use crate::ledger::{Escrow, EscrowError, EscrowState, Ledger, LedgerView, TokenAccount};
use vstd::prelude::*;

verus! {

broadcast use vstd::std_specs::hash::group_hash_axioms;

/// Accounts named by a Make: the maker, the two assets, the maker's holding
/// account of `maker_mint`, and the record address the maker expects.
#[derive(Clone, Copy, Debug, PartialEq, Eq, Structural)]
pub struct MakeContext {
    pub maker: Pubkey,
    pub maker_mint: Pubkey,
    pub taker_mint: Pubkey,
    pub maker_ata: u64,
    pub escrow: u128,
}

/// Accounts named by a Refund: the maker, its holding account of
/// `maker_mint` that receives the deposit back, and the record address.
#[derive(Clone, Copy, Debug, PartialEq, Eq, Structural)]
pub struct RefundContext {
    pub maker: Pubkey,
    pub maker_mint: Pubkey,
    pub maker_ata: u64,
    pub escrow: u128,
}

/// Accounts named by a Take: the taker with its holding account of
/// `taker_mint` (`taker_ata`) and its receiving account of `maker_mint`
/// (`taker_receive_ata`, created if absent), the maker with its receiving
/// account of `taker_mint` (`maker_ata`), the two assets and the record address.
#[derive(Clone, Copy, Debug, PartialEq, Eq, Structural)]
pub struct TakeContext {
    pub taker: Pubkey,
    pub taker_ata: u64,
    pub taker_receive_ata: u64,
    pub maker: Pubkey,
    pub maker_ata: u64,
    pub maker_mint: Pubkey,
    pub taker_mint: Pubkey,
    pub escrow: u128,
}

/// The capability the program presents to move funds out of a vault whose
/// record stores `bump` as its authority bump.
pub open spec fn authority_of(program_id: Pubkey, bump: u8) -> Authorization {
    Authorization::Authority(AuthorityProof { program: program_id, bump })
}

/// Outcome of a Take on ledger `s`: the new ledger, or the error.
///
/// First leg: `offer_amount` of `taker_mint` from the taker to the maker,
/// signed by the taker. Second leg: the whole vault to the taker, authorized
/// by the program authority. Then the record and its vault are closed.
pub open spec fn take_result(s: LedgerView, c: TakeContext) -> Result<LedgerView, EscrowError> {
    if !s.escrows.contains_key(c.escrow) {
        Err(EscrowError::RecordNotFound)
    } else {
        let e = s.escrows[c.escrow];
        if e.state.maker != c.maker {
            Err(EscrowError::MakerMismatch)
        } else if e.state.maker_mint != c.maker_mint || e.state.taker_mint != c.taker_mint {
            Err(EscrowError::MintMismatch)
        } else if !s.accounts.contains_key(c.taker_ata) || !s.accounts.contains_key(c.maker_ata) {
            Err(EscrowError::AccountNotFound)
        } else {
            let from = s.accounts[c.taker_ata];
            let to = s.accounts[c.maker_ata];
            let pay = e.state.offer_amount;
            if from.owner != Owner::Key(c.taker) || to.owner != Owner::Key(c.maker) {
                Err(EscrowError::OwnerMismatch)
            } else if from.mint != c.taker_mint || to.mint != c.taker_mint {
                Err(EscrowError::MintMismatch)
            } else if from.amount < pay {
                Err(EscrowError::InsufficientFunds)
            } else if c.taker_ata != c.maker_ata && to.amount + pay > u64::MAX {
                Err(EscrowError::Overflow)
            } else {
                let accounts1 = if c.taker_ata == c.maker_ata {
                    s.accounts
                } else {
                    s.accounts.insert(
                        c.taker_ata,
                        TokenAccount { amount: (from.amount - pay) as u64, ..from },
                    ).insert(c.maker_ata, TokenAccount { amount: (to.amount + pay) as u64, ..to })
                };
                let recv = if accounts1.contains_key(c.taker_receive_ata) {
                    accounts1[c.taker_receive_ata]
                } else {
                    TokenAccount { owner: Owner::Key(c.taker), mint: c.maker_mint, amount: 0 }
                };
                if recv.owner != Owner::Key(c.taker) {
                    Err(EscrowError::OwnerMismatch)
                } else if recv.mint != e.vault.mint {
                    Err(EscrowError::MintMismatch)
                } else if !authorizes_spec(
                    authority_of(s.program_id, e.state.auth_bump),
                    e.vault.owner,
                ) {
                    Err(EscrowError::Unauthorized)
                } else if recv.amount + e.vault.amount > u64::MAX {
                    Err(EscrowError::Overflow)
                } else {
                    Ok(
                        LedgerView {
                            program_id: s.program_id,
                            accounts: accounts1.insert(
                                c.taker_receive_ata,
                                TokenAccount { amount: (recv.amount + e.vault.amount) as u64, ..recv },
                            ),
                            escrows: s.escrows.remove(c.escrow),
                        },
                    )
                }
            }
        }
    }
}

/// A transition's outcome as an exec function reports it: on success the
/// ledger becomes the new one, on error it is left as it was.
pub open spec fn applied(
    before: LedgerView,
    after: LedgerView,
    r: Result<(), EscrowError>,
    expected: Result<LedgerView, EscrowError>,
) -> bool {
    match expected {
        Ok(s) => r is Ok && after == s,
        Err(e) => r == Err::<(), EscrowError>(e) && after == before,
    }
}

/// Completes the escrow at `ctx.escrow`: the taker pays the maker and receives
/// the vault; the record and the vault are closed. All or nothing.
pub fn take(ledger: &mut Ledger, ctx: &TakeContext) -> (r: Result<(), EscrowError>)
    requires
        old(ledger).wf(),
    ensures
        applied(old(ledger)@, final(ledger)@, r, take_result(old(ledger)@, *ctx)),
        final(ledger).wf(),
{
    let e: Escrow = match ledger.escrows.get(&ctx.escrow) {
        Some(e) => *e,
        None => return Err(EscrowError::RecordNotFound),
    };
    if e.state.maker != ctx.maker {
        return Err(EscrowError::MakerMismatch);
    }
    if e.state.maker_mint != ctx.maker_mint || e.state.taker_mint != ctx.taker_mint {
        return Err(EscrowError::MintMismatch);
    }
    let from: TokenAccount = match ledger.accounts.get(&ctx.taker_ata) {
        Some(a) => *a,
        None => return Err(EscrowError::AccountNotFound),
    };
    let to: TokenAccount = match ledger.accounts.get(&ctx.maker_ata) {
        Some(a) => *a,
        None => return Err(EscrowError::AccountNotFound),
    };
    let pay = e.state.offer_amount;
    if from.owner != Owner::Key(ctx.taker) || to.owner != Owner::Key(ctx.maker) {
        return Err(EscrowError::OwnerMismatch);
    }
    if from.mint != ctx.taker_mint || to.mint != ctx.taker_mint {
        return Err(EscrowError::MintMismatch);
    }
    if from.amount < pay {
        return Err(EscrowError::InsufficientFunds);
    }
    let distinct = ctx.taker_ata != ctx.maker_ata;
    if distinct && to.amount > u64::MAX - pay {
        return Err(EscrowError::Overflow);
    }
    let recv_before: Option<TokenAccount> = if distinct && ctx.taker_receive_ata == ctx.taker_ata {
        Some(TokenAccount { amount: from.amount - pay, ..from })
    } else if distinct && ctx.taker_receive_ata == ctx.maker_ata {
        Some(TokenAccount { amount: to.amount + pay, ..to })
    } else {
        match ledger.accounts.get(&ctx.taker_receive_ata) {
            Some(a) => Some(*a),
            None => None,
        }
    };
    let recv: TokenAccount = match recv_before {
        Some(a) => a,
        None => TokenAccount { owner: Owner::Key(ctx.taker), mint: ctx.maker_mint, amount: 0 },
    };
    if recv.owner != Owner::Key(ctx.taker) {
        return Err(EscrowError::OwnerMismatch);
    }
    if recv.mint != e.vault.mint {
        return Err(EscrowError::MintMismatch);
    }
    let proof = Authorization::Authority(
        AuthorityProof { program: ledger.program_id, bump: e.state.auth_bump },
    );
    if !authorizes(&proof, &e.vault.owner) {
        return Err(EscrowError::Unauthorized);
    }
    if recv.amount > u64::MAX - e.vault.amount {
        return Err(EscrowError::Overflow);
    }
    if distinct {
        ledger.accounts.insert(ctx.taker_ata, TokenAccount { amount: from.amount - pay, ..from });
        ledger.accounts.insert(ctx.maker_ata, TokenAccount { amount: to.amount + pay, ..to });
    }
    ledger.accounts.insert(
        ctx.taker_receive_ata,
        TokenAccount { amount: recv.amount + e.vault.amount, ..recv },
    );
    ledger.escrows.remove(&ctx.escrow);
    Ok(())
}

/// Outcome of a Make on ledger `s`: the record at the address derived from
/// `(maker, seed)` is created with its vault, and `deposit_amount` of
/// `maker_mint` moves from the maker's holding account into the vault.
pub open spec fn make_result(
    s: LedgerView,
    c: MakeContext,
    deposit_amount: u64,
    offer_amount: u64,
    seed: u64,
) -> Result<LedgerView, EscrowError> {
    let addr = record_address_of(c.maker, seed);
    if c.escrow != addr {
        Err(EscrowError::AddressMismatch)
    } else if s.escrows.contains_key(addr) {
        Err(EscrowError::RecordAlreadyExists)
    } else if !s.accounts.contains_key(c.maker_ata) {
        Err(EscrowError::AccountNotFound)
    } else {
        let from = s.accounts[c.maker_ata];
        if from.owner != Owner::Key(c.maker) {
            Err(EscrowError::OwnerMismatch)
        } else if from.mint != c.maker_mint {
            Err(EscrowError::MintMismatch)
        } else if from.amount < deposit_amount {
            Err(EscrowError::InsufficientFunds)
        } else {
            let state = EscrowState {
                maker: c.maker,
                maker_mint: c.maker_mint,
                taker_mint: c.taker_mint,
                amount: deposit_amount,
                offer_amount,
                seed,
                auth_bump: CANONICAL_BUMP,
                escrow_bump: CANONICAL_BUMP,
                vault_bump: CANONICAL_BUMP,
            };
            let vault = TokenAccount {
                owner: Owner::Program(s.program_id),
                mint: c.maker_mint,
                amount: deposit_amount,
            };
            Ok(
                LedgerView {
                    program_id: s.program_id,
                    accounts: s.accounts.insert(
                        c.maker_ata,
                        TokenAccount { amount: (from.amount - deposit_amount) as u64, ..from },
                    ),
                    escrows: s.escrows.insert(addr, Escrow { state, vault }),
                },
            )
        }
    }
}

/// Outcome of a Refund on ledger `s`: the whole vault goes back to the
/// maker's holding account, authorized by the program authority, and the
/// record and its vault are closed.
pub open spec fn refund_result(s: LedgerView, c: RefundContext) -> Result<LedgerView, EscrowError> {
    if !s.escrows.contains_key(c.escrow) {
        Err(EscrowError::RecordNotFound)
    } else {
        let e = s.escrows[c.escrow];
        if e.state.maker != c.maker {
            Err(EscrowError::MakerMismatch)
        } else if e.state.maker_mint != c.maker_mint {
            Err(EscrowError::MintMismatch)
        } else if !s.accounts.contains_key(c.maker_ata) {
            Err(EscrowError::AccountNotFound)
        } else {
            let to = s.accounts[c.maker_ata];
            if to.owner != Owner::Key(c.maker) {
                Err(EscrowError::OwnerMismatch)
            } else if to.mint != e.vault.mint {
                Err(EscrowError::MintMismatch)
            } else if !authorizes_spec(
                authority_of(s.program_id, e.state.auth_bump),
                e.vault.owner,
            ) {
                Err(EscrowError::Unauthorized)
            } else if to.amount + e.vault.amount > u64::MAX {
                Err(EscrowError::Overflow)
            } else {
                Ok(
                    LedgerView {
                        program_id: s.program_id,
                        accounts: s.accounts.insert(
                            c.maker_ata,
                            TokenAccount { amount: (to.amount + e.vault.amount) as u64, ..to },
                        ),
                        escrows: s.escrows.remove(c.escrow),
                    },
                )
            }
        }
    }
}

/// Opens an escrow: creates the record for `(maker, seed)` and its vault, and
/// moves `deposit_amount` from the maker into the vault. The maker asks
/// `offer_amount` of `taker_mint` in return. All or nothing.
pub fn make(
    ledger: &mut Ledger,
    ctx: &MakeContext,
    deposit_amount: u64,
    offer_amount: u64,
    seed: u64,
) -> (r: Result<(), EscrowError>)
    requires
        old(ledger).wf(),
    ensures
        applied(
            old(ledger)@,
            final(ledger)@,
            r,
            make_result(old(ledger)@, *ctx, deposit_amount, offer_amount, seed),
        ),
        final(ledger).wf(),
{
    let addr = record_address(ctx.maker, seed);
    if ctx.escrow != addr {
        return Err(EscrowError::AddressMismatch);
    }
    if ledger.escrows.contains_key(&addr) {
        return Err(EscrowError::RecordAlreadyExists);
    }
    let from: TokenAccount = match ledger.accounts.get(&ctx.maker_ata) {
        Some(a) => *a,
        None => return Err(EscrowError::AccountNotFound),
    };
    if from.owner != Owner::Key(ctx.maker) {
        return Err(EscrowError::OwnerMismatch);
    }
    if from.mint != ctx.maker_mint {
        return Err(EscrowError::MintMismatch);
    }
    if from.amount < deposit_amount {
        return Err(EscrowError::InsufficientFunds);
    }
    let state = EscrowState {
        maker: ctx.maker,
        maker_mint: ctx.maker_mint,
        taker_mint: ctx.taker_mint,
        amount: deposit_amount,
        offer_amount,
        seed,
        auth_bump: CANONICAL_BUMP,
        escrow_bump: CANONICAL_BUMP,
        vault_bump: CANONICAL_BUMP,
    };
    let vault = TokenAccount {
        owner: Owner::Program(ledger.program_id),
        mint: ctx.maker_mint,
        amount: deposit_amount,
    };
    ledger.accounts.insert(ctx.maker_ata, TokenAccount { amount: from.amount - deposit_amount, ..from });
    ledger.escrows.insert(addr, Escrow { state, vault });
    Ok(())
}

/// Cancels the escrow at `ctx.escrow`: the vault goes back to the maker and
/// the record and the vault are closed. All or nothing.
pub fn refund(ledger: &mut Ledger, ctx: &RefundContext) -> (r: Result<(), EscrowError>)
    requires
        old(ledger).wf(),
    ensures
        applied(old(ledger)@, final(ledger)@, r, refund_result(old(ledger)@, *ctx)),
        final(ledger).wf(),
{
    let e: Escrow = match ledger.escrows.get(&ctx.escrow) {
        Some(e) => *e,
        None => return Err(EscrowError::RecordNotFound),
    };
    if e.state.maker != ctx.maker {
        return Err(EscrowError::MakerMismatch);
    }
    if e.state.maker_mint != ctx.maker_mint {
        return Err(EscrowError::MintMismatch);
    }
    let to: TokenAccount = match ledger.accounts.get(&ctx.maker_ata) {
        Some(a) => *a,
        None => return Err(EscrowError::AccountNotFound),
    };
    if to.owner != Owner::Key(ctx.maker) {
        return Err(EscrowError::OwnerMismatch);
    }
    if to.mint != e.vault.mint {
        return Err(EscrowError::MintMismatch);
    }
    let proof = Authorization::Authority(
        AuthorityProof { program: ledger.program_id, bump: e.state.auth_bump },
    );
    if !authorizes(&proof, &e.vault.owner) {
        return Err(EscrowError::Unauthorized);
    }
    if to.amount > u64::MAX - e.vault.amount {
        return Err(EscrowError::Overflow);
    }
    ledger.accounts.insert(ctx.maker_ata, TokenAccount { amount: to.amount + e.vault.amount, ..to });
    ledger.escrows.remove(&ctx.escrow);
    Ok(())
}

} // verus!
