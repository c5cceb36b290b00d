use vstd::prelude::*;

verus! {

/// Identity of a party: a user key, or a token mint.
pub type Pubkey = u64;

/// The bump every deterministic address in this program is derived with.
///
/// An address derived here belongs to no user key by construction (see
/// [`Owner::Program`]), so the first candidate bump is always accepted.
pub const CANONICAL_BUMP: u8 = 255;

/// The declared owner of a holding account.
#[derive(Clone, Copy, Debug, PartialEq, Eq, Structural)]
pub enum Owner {
    /// A user, who authorizes with a signature of this key.
    Key(Pubkey),
    /// The key-less authority of the program with this identity.
    Program(Pubkey),
}

/// Capability that stands in for a signature of the program authority:
/// the program identity and the bump its authority address was derived with.
#[derive(Clone, Copy, Debug, PartialEq, Eq, Structural)]
pub struct AuthorityProof {
    pub program: Pubkey,
    pub bump: u8,
}

/// What authorizes a transfer out of a holding account.
#[derive(Clone, Copy, Debug, PartialEq, Eq, Structural)]
pub enum Authorization {
    Signature(Pubkey),
    Authority(AuthorityProof),
}

/// Address of the escrow record of `(maker, seed)`: the pair packed into one
/// 128-bit word, so that equal pairs give equal addresses and distinct pairs
/// distinct ones.
pub open spec fn record_address_of(maker: Pubkey, seed: u64) -> u128 {
    (maker as int * 0x1_0000_0000_0000_0000 + seed as int) as u128
}

/// An authorization is valid for an account with the given owner.
pub open spec fn authorizes_spec(auth: Authorization, owner: Owner) -> bool {
    match (auth, owner) {
        (Authorization::Signature(k), Owner::Key(o)) => k == o,
        (Authorization::Authority(p), Owner::Program(id)) => p.program == id && p.bump
            == CANONICAL_BUMP,
        _ => false,
    }
}

pub fn record_address(maker: Pubkey, seed: u64) -> (r: u128)
    ensures
        r == record_address_of(maker, seed),
{
    let m: u128 = maker as u128;
    assert(m * 0x1_0000_0000_0000_0000 + seed <= u128::MAX) by (nonlinear_arith)
        requires
            m <= u64::MAX,
            seed <= u64::MAX,
    ;
    m * 0x1_0000_0000_0000_0000 + seed as u128
}

/// Derivation is injective: two pairs share an address only when they are equal.
pub proof fn lemma_record_address_injective(m1: Pubkey, s1: u64, m2: Pubkey, s2: u64)
    ensures
        record_address_of(m1, s1) == record_address_of(m2, s2) <==> (m1 == m2 && s1 == s2),
{
    assert(m1 as int * 0x1_0000_0000_0000_0000 + s1 as int <= u128::MAX) by (nonlinear_arith)
        requires
            m1 <= u64::MAX,
            s1 <= u64::MAX,
    ;
    assert(m2 as int * 0x1_0000_0000_0000_0000 + s2 as int <= u128::MAX) by (nonlinear_arith)
        requires
            m2 <= u64::MAX,
            s2 <= u64::MAX,
    ;
    if record_address_of(m1, s1) == record_address_of(m2, s2) {
        assert(m1 == m2 && s1 == s2) by (nonlinear_arith)
            requires
                m1 as int * 0x1_0000_0000_0000_0000 + s1 as int == m2 as int
                    * 0x1_0000_0000_0000_0000 + s2 as int,
                0 <= s1 < 0x1_0000_0000_0000_0000,
                0 <= s2 < 0x1_0000_0000_0000_0000,
        ;
    }
}

/// Checks an authorization against an account owner.
pub fn authorizes(auth: &Authorization, owner: &Owner) -> (r: bool)
    ensures
        r == authorizes_spec(*auth, *owner),
{
    match (auth, owner) {
        (Authorization::Signature(k), Owner::Key(o)) => *k == *o,
        (Authorization::Authority(p), Owner::Program(id)) => p.program == *id && p.bump
            == CANONICAL_BUMP,
        _ => false,
    }
}

} // verus!
