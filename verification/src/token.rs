use vstd::prelude::*;
use crate::errors::AmmError;
use crate::pubkey::Pubkey;

verus! {

/// The token program that moves a mint's tokens.
#[derive(Debug, Clone, Copy, PartialEq, Eq, Structural)]
pub enum TokenProgram {
    /// The classic SPL token program.
    Token,
    /// The Token-2022 program.
    Token2022,
}

/// The accounts of an instruction that a token movement names.
#[derive(Debug, Clone, Copy, PartialEq, Eq, Structural)]
pub enum AccountRole {
    /// The signer of the instruction (the user, or the pool's initializer).
    User,
    /// The pool's config account, which owns the vaults and the LP mint.
    Config,
    /// The pool's LP mint.
    MintLp,
    /// The pool's vault of token X.
    VaultX,
    /// The pool's vault of token Y.
    VaultY,
    /// The signer's account of token X.
    UserX,
    /// The signer's account of token Y.
    UserY,
    /// The signer's account of LP tokens.
    UserLp,
    /// The LP token account of an address that nobody can sign for, which
    /// holds the pool's locked minimum liquidity for good.
    DeadLp,
    /// The pool's vault of the token a swap takes in.
    VaultFrom,
    /// The pool's vault of the token a swap pays out.
    VaultTo,
    /// The signer's account of the token a swap takes in.
    UserFrom,
    /// The signer's account of the token a swap pays out.
    UserTo,
}

/// What the pool reads of a mint account.
#[derive(Debug, Clone, Copy)]
pub struct MintState {
    /// The mint's address.
    pub key: Pubkey,
    /// Tokens in circulation.
    pub supply: u64,
    /// The mint belongs to the Token-2022 program.
    pub owned_by_token_2022: bool,
}

/// What the pool reads of a token account.
#[derive(Debug, Clone, Copy)]
pub struct TokenAccountState {
    /// Tokens that the account holds.
    pub amount: u64,
}

/// A transfer of tokens that an instruction asks the token program for.
#[derive(Debug)]
pub struct TransferPlan {
    pub program: TokenProgram,
    pub from: AccountRole,
    pub to: AccountRole,
    pub authority: AccountRole,
    pub amount: u64,
    /// The seeds with which the config account signs; empty when the user signs.
    pub signer_seeds: Vec<Vec<u8>>,
}

impl TransferPlan {
    /// The transfer moves `amount` from `from` to `to` through `program`,
    /// authorised by `authority` with the signer seeds `seeds`.
    pub open spec fn moves(
        &self,
        program: TokenProgram,
        from: AccountRole,
        to: AccountRole,
        authority: AccountRole,
        amount: u64,
        seeds: Seq<Seq<u8>>,
    ) -> bool {
        &&& self.program == program
        &&& self.from == from
        &&& self.to == to
        &&& self.authority == authority
        &&& self.amount == amount
        &&& self.signer_seeds.deep_view() == seeds
    }
}

/// A mint of LP tokens, signed by the config account.
#[derive(Debug)]
pub struct MintToPlan {
    pub program: TokenProgram,
    pub mint: AccountRole,
    pub to: AccountRole,
    pub authority: AccountRole,
    pub amount: u64,
    pub signer_seeds: Vec<Vec<u8>>,
}

impl MintToPlan {
    /// The plan mints `amount` LP tokens into the signer's LP account, signed
    /// by the config account with the seeds `seeds`.
    pub open spec fn mints_lp(&self, amount: u64, seeds: Seq<Seq<u8>>) -> bool {
        self.mints_lp_to(AccountRole::UserLp, amount, seeds)
    }

    /// The plan mints `amount` LP tokens into the account `to`, signed by the
    /// config account with the seeds `seeds`.
    pub open spec fn mints_lp_to(&self, to: AccountRole, amount: u64, seeds: Seq<Seq<u8>>) -> bool {
        &&& self.program == TokenProgram::Token
        &&& self.mint == AccountRole::MintLp
        &&& self.to == to
        &&& self.authority == AccountRole::Config
        &&& self.amount == amount
        &&& self.signer_seeds.deep_view() == seeds
    }
}

/// A burn of LP tokens, signed by their holder.
#[derive(Debug, Clone, Copy, PartialEq, Eq, Structural)]
pub struct BurnPlan {
    pub program: TokenProgram,
    pub mint: AccountRole,
    pub from: AccountRole,
    pub authority: AccountRole,
    pub amount: u64,
}

impl BurnPlan {
    /// The plan burns `amount` of the signer's LP tokens, signed by the signer.
    pub open spec fn burns_lp(&self, amount: u64) -> bool {
        &&& self.program == TokenProgram::Token
        &&& self.mint == AccountRole::MintLp
        &&& self.from == AccountRole::UserLp
        &&& self.authority == AccountRole::User
        &&& self.amount == amount
    }
}

/// The burn of `amount` of the signer's LP tokens.
pub fn burn_lp_plan(amount: u64) -> (r: BurnPlan)
    ensures
        r.burns_lp(amount),
{
    BurnPlan {
        program: TokenProgram::Token,
        mint: AccountRole::MintLp,
        from: AccountRole::UserLp,
        authority: AccountRole::User,
        amount,
    }
}

/// The program for a mint owned by Token-2022 when `mint_is_token_2022`,
/// given whether the instruction was handed the Token-2022 program account.
pub open spec fn spec_token_program_for(mint_is_token_2022: bool, token_2022_present: bool) -> Result<
    TokenProgram,
    AmmError,
> {
    if mint_is_token_2022 {
        if token_2022_present {
            Ok(TokenProgram::Token2022)
        } else {
            Err(AmmError::InvalidToken)
        }
    } else {
        Ok(TokenProgram::Token)
    }
}

/// Picks the token program that moves a mint's tokens: Token-2022 for a mint
/// that it owns (which needs that program's account), the classic SPL token program
/// otherwise.
pub fn token_program_for(mint_is_token_2022: bool, token_2022_present: bool) -> (r: Result<
    TokenProgram,
    AmmError,
>)
    ensures
        r == spec_token_program_for(mint_is_token_2022, token_2022_present),
{
    if mint_is_token_2022 {
        if token_2022_present {
            Ok(TokenProgram::Token2022)
        } else {
            Err(AmmError::InvalidToken)
        }
    } else {
        Ok(TokenProgram::Token)
    }
}

/// The ASCII bytes of `config`, the first seed of a pool's config address.
pub open spec fn config_seed_prefix() -> Seq<u8> {
    seq![99u8, 111u8, 110u8, 102u8, 105u8, 103u8]
}

/// The seeds of a pool's config address: `config`, the pool's seed in
/// little-endian bytes, the two mints and the bump.
pub open spec fn spec_config_signer_seeds(seed: u64, mint_x: Pubkey, mint_y: Pubkey, bump: u8) -> Seq<
    Seq<u8>,
> {
    seq![
        config_seed_prefix(),
        vstd::bytes::spec_u64_to_le_bytes(seed),
        mint_x.bytes@,
        mint_y.bytes@,
        seq![bump],
    ]
}

/// A vector that holds an address's bytes.
pub fn key_bytes_vec(key: &Pubkey) -> (r: Vec<u8>)
    ensures
        r@ == key.bytes@,
{
    let mut r: Vec<u8> = Vec::new();
    let mut i: usize = 0;
    while i < 32
        invariant
            0 <= i <= 32,
            r@ == key.bytes@.take(i as int),
        decreases 32 - i,
    {
        r.push(key.bytes[i]);
        i = i + 1;
        assert(r@ =~= key.bytes@.take(i as int));
    }
    assert(key.bytes@.take(32) =~= key.bytes@);
    r
}

/// The seeds with which a pool's config account signs.
pub fn config_signer_seeds(seed: u64, mint_x: &Pubkey, mint_y: &Pubkey, bump: u8) -> (r: Vec<
    Vec<u8>,
>)
    ensures
        r.deep_view() == spec_config_signer_seeds(seed, *mint_x, *mint_y, bump),
{
    let prefix: Vec<u8> = vec![99u8, 111u8, 110u8, 102u8, 105u8, 103u8];
    let seed_bytes = vstd::bytes::u64_to_le_bytes(seed);
    let x_bytes = key_bytes_vec(mint_x);
    let y_bytes = key_bytes_vec(mint_y);
    let bump_bytes: Vec<u8> = vec![bump];
    assert(prefix.deep_view() =~= config_seed_prefix());
    assert(seed_bytes.deep_view() =~= vstd::bytes::spec_u64_to_le_bytes(seed));
    assert(x_bytes.deep_view() =~= mint_x.bytes@);
    assert(y_bytes.deep_view() =~= mint_y.bytes@);
    assert(bump_bytes.deep_view() =~= seq![bump]);
    let mut r: Vec<Vec<u8>> = Vec::new();
    r.push(prefix);
    r.push(seed_bytes);
    r.push(x_bytes);
    r.push(y_bytes);
    r.push(bump_bytes);
    assert(r.deep_view() =~= spec_config_signer_seeds(seed, *mint_x, *mint_y, bump));
    r
}

} // verus!
