use crate::address::record_address_of;
use crate::escrow::{
    make_result, refund_result, take_result, MakeContext, RefundContext, TakeContext,
};
use crate::ledger::{EscrowError, LedgerView};
use vstd::prelude::*;

verus! {

/// While the record of `(maker, seed)` made by a successful Make is open, a
/// second Make by the same maker with the same seed fails; naming the derived
/// address, it fails because the record already exists.
pub proof fn lemma_no_double_creation(
    s: LedgerView,
    first: MakeContext,
    deposit_amount: u64,
    offer_amount: u64,
    seed: u64,
    second: MakeContext,
    deposit_again: u64,
    offer_again: u64,
)
    requires
        s.wf(),
        make_result(s, first, deposit_amount, offer_amount, seed) is Ok,
        second.maker == first.maker,
    ensures
        make_result(
            make_result(s, first, deposit_amount, offer_amount, seed)->Ok_0,
            second,
            deposit_again,
            offer_again,
            seed,
        ) is Err,
        second.escrow == record_address_of(second.maker, seed) ==> make_result(
            make_result(s, first, deposit_amount, offer_amount, seed)->Ok_0,
            second,
            deposit_again,
            offer_again,
            seed,
        ) == Err::<LedgerView, EscrowError>(EscrowError::RecordAlreadyExists),
{
}

/// Once a Refund has closed the record of `(maker, seed)`, a new Make of the
/// same pair is no longer refused as a collision.
pub proof fn lemma_make_again_after_refund(
    s: LedgerView,
    rc: RefundContext,
    mc: MakeContext,
    deposit_amount: u64,
    offer_amount: u64,
    seed: u64,
)
    requires
        s.wf(),
        refund_result(s, rc) is Ok,
        rc.escrow == record_address_of(mc.maker, seed),
    ensures
        make_result(refund_result(s, rc)->Ok_0, mc, deposit_amount, offer_amount, seed)
            != Err::<LedgerView, EscrowError>(EscrowError::RecordAlreadyExists),
{
}

/// Once a Take has closed the record of `(maker, seed)`, a new Make of the
/// same pair is no longer refused as a collision.
pub proof fn lemma_make_again_after_take(
    s: LedgerView,
    tc: TakeContext,
    mc: MakeContext,
    deposit_amount: u64,
    offer_amount: u64,
    seed: u64,
)
    requires
        s.wf(),
        take_result(s, tc) is Ok,
        tc.escrow == record_address_of(mc.maker, seed),
    ensures
        make_result(take_result(s, tc)->Ok_0, mc, deposit_amount, offer_amount, seed)
            != Err::<LedgerView, EscrowError>(EscrowError::RecordAlreadyExists),
{
}

/// A Make followed by a Take of that escrow moves exactly the deposit from the
/// maker's account to the taker's receiving account, and exactly the offered
/// amount from the taker's account to the maker's receiving account; the
/// record and its vault are gone.
pub proof fn lemma_make_take_conservation(
    s: LedgerView,
    mc: MakeContext,
    deposit_amount: u64,
    offer_amount: u64,
    seed: u64,
    tc: TakeContext,
)
    requires
        s.wf(),
        make_result(s, mc, deposit_amount, offer_amount, seed) is Ok,
        tc.escrow == mc.escrow,
        take_result(make_result(s, mc, deposit_amount, offer_amount, seed)->Ok_0, tc) is Ok,
        mc.maker_ata != tc.taker_ata,
        mc.maker_ata != tc.maker_ata,
        mc.maker_ata != tc.taker_receive_ata,
        tc.taker_ata != tc.maker_ata,
        tc.taker_ata != tc.taker_receive_ata,
        tc.maker_ata != tc.taker_receive_ata,
    ensures
        ({
            let s2 = take_result(
                make_result(s, mc, deposit_amount, offer_amount, seed)->Ok_0,
                tc,
            )->Ok_0;
            &&& s2.balance(mc.maker_ata) == s.balance(mc.maker_ata) - deposit_amount
            &&& s2.balance(tc.taker_receive_ata) == s.balance(tc.taker_receive_ata)
                + deposit_amount
            &&& s2.balance(tc.taker_ata) == s.balance(tc.taker_ata) - offer_amount
            &&& s2.balance(tc.maker_ata) == s.balance(tc.maker_ata) + offer_amount
            &&& !s2.escrows.contains_key(mc.escrow)
        }),
{
}

/// A Make followed by a Refund into the same account restores the ledger
/// exactly: the maker's balance is what it was before the Make, and no
/// record or vault remains.
pub proof fn lemma_make_refund_restores(
    s: LedgerView,
    mc: MakeContext,
    deposit_amount: u64,
    offer_amount: u64,
    seed: u64,
    rc: RefundContext,
)
    requires
        s.wf(),
        make_result(s, mc, deposit_amount, offer_amount, seed) is Ok,
        rc.escrow == mc.escrow,
        rc.maker_ata == mc.maker_ata,
        refund_result(make_result(s, mc, deposit_amount, offer_amount, seed)->Ok_0, rc) is Ok,
    ensures
        ({
            let s2 = refund_result(
                make_result(s, mc, deposit_amount, offer_amount, seed)->Ok_0,
                rc,
            )->Ok_0;
            &&& s2.balance(mc.maker_ata) == s.balance(mc.maker_ata)
            &&& !s2.escrows.contains_key(mc.escrow)
            &&& s2 == s
        }),
{
    let s1 = make_result(s, mc, deposit_amount, offer_amount, seed)->Ok_0;
    let s2 = refund_result(s1, rc)->Ok_0;
    assert(s2.accounts =~= s.accounts);
    assert(s2.escrows =~= s.escrows);
}

/// After a successful Take, both terminal transitions on that record fail
/// with `RecordNotFound`.
pub proof fn lemma_closed_after_take(s: LedgerView, tc: TakeContext, again: TakeContext, rc: RefundContext)
    requires
        s.wf(),
        take_result(s, tc) is Ok,
        again.escrow == tc.escrow,
        rc.escrow == tc.escrow,
    ensures
        take_result(take_result(s, tc)->Ok_0, again) == Err::<LedgerView, EscrowError>(
            EscrowError::RecordNotFound,
        ),
        refund_result(take_result(s, tc)->Ok_0, rc) == Err::<LedgerView, EscrowError>(
            EscrowError::RecordNotFound,
        ),
{
}

/// After a successful Refund, both terminal transitions on that record fail
/// with `RecordNotFound`.
pub proof fn lemma_closed_after_refund(
    s: LedgerView,
    rc: RefundContext,
    again: RefundContext,
    tc: TakeContext,
)
    requires
        s.wf(),
        refund_result(s, rc) is Ok,
        again.escrow == rc.escrow,
        tc.escrow == rc.escrow,
    ensures
        refund_result(refund_result(s, rc)->Ok_0, again) == Err::<LedgerView, EscrowError>(
            EscrowError::RecordNotFound,
        ),
        take_result(refund_result(s, rc)->Ok_0, tc) == Err::<LedgerView, EscrowError>(
            EscrowError::RecordNotFound,
        ),
{
}

/// A Take settles both legs or neither: when it succeeds, the taker has paid
/// the offered amount and received the whole vault, and every other holding
/// account is untouched; when it fails, it yields no ledger at all (and the
/// exec `take` leaves the ledger unchanged).
pub proof fn lemma_take_both_legs_or_neither(s: LedgerView, tc: TakeContext)
    requires
        s.wf(),
        s.escrows.contains_key(tc.escrow),
        tc.taker_ata != tc.maker_ata,
        tc.taker_ata != tc.taker_receive_ata,
        tc.maker_ata != tc.taker_receive_ata,
    ensures
        take_result(s, tc) is Ok ==> ({
            let s2 = take_result(s, tc)->Ok_0;
            let e = s.escrows[tc.escrow];
            &&& s2.balance(tc.taker_ata) == s.balance(tc.taker_ata) - e.state.offer_amount
            &&& s2.balance(tc.maker_ata) == s.balance(tc.maker_ata) + e.state.offer_amount
            &&& s2.balance(tc.taker_receive_ata) == s.balance(tc.taker_receive_ata)
                + e.state.amount
            &&& forall|a: u64|
                a != tc.taker_ata && a != tc.maker_ata && a != tc.taker_receive_ata
                    ==> #[trigger] s2.balance(a) == s.balance(a)
        }),
{
}

} // verus!
