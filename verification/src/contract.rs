use vstd::prelude::*;
use crate::account::Account;
use crate::gate::{authorize, eligible, elapsed_blocks, Eligibility};
use crate::ledger::{last_claim_of, Ledger};
use crate::reward::convert;

verus! {

/// Default base reward per valid claim, in program-defined units.
pub const DEFAULT_CLAIM_AMOUNT: u128 = 10;

/// Default multiplier from the program-defined unit to the chain's smallest
/// transferable unit.
pub const DEFAULT_UNIT_CONVERSION_FACTOR: u128 = 1_000_000_000_000;

/// Default minimum number of blocks between two successful claims by the
/// same account.
pub const DEFAULT_COOLDOWN_BLOCKS: u32 = 10;

/// What one claim request directs the hosting environment to do.
#[derive(PartialEq, Eq, Structural, Clone, Copy, Debug)]
pub enum ClaimOutcome {
    /// The request was ineligible: nothing changed, nothing is owed.
    Rejected,
    /// Converting the base amount to smallest units overflowed: the hosting
    /// transaction must abort; the ledger is unchanged.
    AbortedOverflow,
    /// The claim was granted and the ledger updated: the environment must
    /// transfer `amount` to `recipient`, and discard the ledger update if
    /// that transfer fails.
    Transfer { recipient: Account, amount: u128 },
}

/// The reward-claim core: lifetime configuration fixed at construction and
/// the per-account last-claim ledger.
pub struct RewardClaimContract {
    owner: Account,
    last_claimed_block: Ledger,
    claim_amount: u128,
    unit_conversion_factor: u128,
    cooldown_blocks: u32,
}

/// The full effect of one claim request: the ledger afterwards, and the
/// outcome owed to the hosting environment.
pub open spec fn claim_result(
    config_owner: Account,
    base_amount: u128,
    factor: u128,
    cooldown_blocks: u32,
    ledger: Map<Account, u32>,
    owner: Account,
    delegated_validator: Account,
    caller: Account,
    current_block: u32,
) -> (Map<Account, u32>, ClaimOutcome) {
    if !eligible(
        config_owner,
        delegated_validator,
        last_claim_of(ledger, caller),
        current_block,
        cooldown_blocks,
    ) {
        (ledger, ClaimOutcome::Rejected)
    } else if base_amount * factor > u128::MAX {
        (ledger, ClaimOutcome::AbortedOverflow)
    } else {
        (
            ledger.insert(caller, current_block),
            ClaimOutcome::Transfer { recipient: owner, amount: (base_amount * factor) as u128 },
        )
    }
}

impl RewardClaimContract {
    /// The configured owner: the reward-program administrator and the
    /// expected delegation target.
    pub closed spec fn spec_owner(&self) -> Account {
        self.owner
    }

    /// The configured base reward per valid claim.
    pub closed spec fn spec_claim_amount(&self) -> u128 {
        self.claim_amount
    }

    /// The configured multiplier to the smallest transferable unit.
    pub closed spec fn spec_unit_conversion_factor(&self) -> u128 {
        self.unit_conversion_factor
    }

    /// The configured cooldown threshold, in blocks.
    pub closed spec fn spec_cooldown_blocks(&self) -> u32 {
        self.cooldown_blocks
    }

    /// The last-claim mapping the ledger holds.
    pub closed spec fn ledger(&self) -> Map<Account, u32> {
        self.last_claimed_block@
    }

    pub closed spec fn well_formed(&self) -> bool {
        self.last_claimed_block.well_formed()
    }

    /// A fresh instance with the default configuration: base reward 10,
    /// conversion factor 1_000_000_000_000, cooldown 10 blocks, and an empty
    /// ledger.
    pub fn new(owner: Account) -> (c: RewardClaimContract)
        ensures
            c.well_formed(),
            c.spec_owner() == owner,
            c.spec_claim_amount() == DEFAULT_CLAIM_AMOUNT,
            c.spec_unit_conversion_factor() == DEFAULT_UNIT_CONVERSION_FACTOR,
            c.spec_cooldown_blocks() == DEFAULT_COOLDOWN_BLOCKS,
            c.ledger() == Map::<Account, u32>::empty(),
    {
        RewardClaimContract {
            owner,
            last_claimed_block: Ledger::new(),
            claim_amount: DEFAULT_CLAIM_AMOUNT,
            unit_conversion_factor: DEFAULT_UNIT_CONVERSION_FACTOR,
            cooldown_blocks: DEFAULT_COOLDOWN_BLOCKS,
        }
    }

    /// A fresh instance with an explicit configuration and an empty ledger.
    pub fn with_config(
        owner: Account,
        claim_amount: u128,
        unit_conversion_factor: u128,
        cooldown_blocks: u32,
    ) -> (c: RewardClaimContract)
        ensures
            c.well_formed(),
            c.spec_owner() == owner,
            c.spec_claim_amount() == claim_amount,
            c.spec_unit_conversion_factor() == unit_conversion_factor,
            c.spec_cooldown_blocks() == cooldown_blocks,
            c.ledger() == Map::<Account, u32>::empty(),
    {
        RewardClaimContract {
            owner,
            last_claimed_block: Ledger::new(),
            claim_amount,
            unit_conversion_factor,
            cooldown_blocks,
        }
    }

    /// An instance rebuilt from an explicit configuration and an existing
    /// ledger, as a durable host reloads the core between requests.
    pub fn from_parts(
        owner: Account,
        claim_amount: u128,
        unit_conversion_factor: u128,
        cooldown_blocks: u32,
        ledger: Ledger,
    ) -> (c: RewardClaimContract)
        requires
            ledger.well_formed(),
        ensures
            c.well_formed(),
            c.spec_owner() == owner,
            c.spec_claim_amount() == claim_amount,
            c.spec_unit_conversion_factor() == unit_conversion_factor,
            c.spec_cooldown_blocks() == cooldown_blocks,
            c.ledger() == ledger@,
    {
        RewardClaimContract {
            owner,
            last_claimed_block: ledger,
            claim_amount,
            unit_conversion_factor,
            cooldown_blocks,
        }
    }

    /// Runs one claim request through the eligibility decision, the ledger,
    /// and the reward calculator, and says what the hosting environment owes:
    /// nothing, a full transaction abort, or one transfer of the reward in
    /// smallest units. The host supplies the caller identity and the current
    /// block height; the remaining staking inputs play no part in the
    /// decision.
    pub fn claim(
        &mut self,
        owner: Account,
        delegated_validator: Account,
        _delegation_block: u32,
        _reputation: u64,
        _recent_block_height: u32,
        _staking_score: u128,
        caller: Account,
        current_block: u32,
    ) -> (outcome: ClaimOutcome)
        requires
            old(self).well_formed(),
        ensures
            final(self).well_formed(),
            final(self).spec_owner() == old(self).spec_owner(),
            final(self).spec_claim_amount() == old(self).spec_claim_amount(),
            final(self).spec_unit_conversion_factor() == old(self).spec_unit_conversion_factor(),
            final(self).spec_cooldown_blocks() == old(self).spec_cooldown_blocks(),
            (final(self).ledger(), outcome) == claim_result(
                old(self).spec_owner(),
                old(self).spec_claim_amount(),
                old(self).spec_unit_conversion_factor(),
                old(self).spec_cooldown_blocks(),
                old(self).ledger(),
                owner,
                delegated_validator,
                caller,
                current_block,
            ),
    {
        let last_claim = self.last_claimed_block.get_last_claim(&caller);
        match authorize(
            &self.owner,
            &delegated_validator,
            last_claim,
            current_block,
            self.cooldown_blocks,
        ) {
            Eligibility::Ineligible => ClaimOutcome::Rejected,
            Eligibility::Eligible => {
                match convert(self.claim_amount, self.unit_conversion_factor) {
                    Err(_) => ClaimOutcome::AbortedOverflow,
                    Ok(amount) => {
                        self.last_claimed_block.record_claim(&caller, current_block);
                        ClaimOutcome::Transfer { recipient: owner, amount }
                    },
                }
            },
        }
    }

    /// Returns the block height of the last claim recorded for `account`, or
    /// zero if that account has never claimed. Read-only.
    pub fn get_last_claimed_block(&self, account: &Account) -> (height: u32)
        requires
            self.well_formed(),
        ensures
            height == last_claim_of(self.ledger(), *account),
    {
        self.last_claimed_block.get_last_claim(account)
    }

    /// Returns the configured owner account.
    pub fn get_owner(&self) -> (a: Account)
        ensures
            a == self.spec_owner(),
    {
        self.owner
    }
}

/// A first claim succeeds: an account that has never claimed (no recorded
/// height, or height zero), asking with the delegation target equal to the
/// configured owner and a representable reward product, has its ledger entry
/// set to the current block and is owed exactly one transfer of
/// `base_amount * factor`.
pub proof fn lemma_first_claim_succeeds(
    config_owner: Account,
    base_amount: u128,
    factor: u128,
    cooldown_blocks: u32,
    ledger: Map<Account, u32>,
    owner: Account,
    caller: Account,
    current_block: u32,
)
    requires
        last_claim_of(ledger, caller) == 0,
        base_amount * factor <= u128::MAX,
    ensures
        ({
            let (after, outcome) = claim_result(
                config_owner,
                base_amount,
                factor,
                cooldown_blocks,
                ledger,
                owner,
                config_owner,
                caller,
                current_block,
            );
            &&& after == ledger.insert(caller, current_block)
            &&& last_claim_of(after, caller) == current_block
            &&& outcome == (ClaimOutcome::Transfer {
                recipient: owner,
                amount: (base_amount * factor) as u128,
            })
        }),
{
}

/// Rejection during the cooldown is idempotent: an account with a recorded
/// claim (nonzero height) whose elapsed blocks do not exceed the cooldown is
/// rejected and the ledger is left unchanged, whatever the delegation
/// target.
pub proof fn lemma_cooldown_rejects(
    config_owner: Account,
    base_amount: u128,
    factor: u128,
    cooldown_blocks: u32,
    ledger: Map<Account, u32>,
    owner: Account,
    delegated_validator: Account,
    caller: Account,
    current_block: u32,
)
    requires
        last_claim_of(ledger, caller) != 0,
        elapsed_blocks(current_block, last_claim_of(ledger, caller)) <= cooldown_blocks,
    ensures
        claim_result(
            config_owner,
            base_amount,
            factor,
            cooldown_blocks,
            ledger,
            owner,
            delegated_validator,
            caller,
            current_block,
        ) == (ledger, ClaimOutcome::Rejected),
{
}

/// A claim after the cooldown has elapsed: with the delegation target equal
/// to the configured owner, strictly more than `cooldown_blocks` elapsed
/// blocks, and a representable reward product, the ledger entry moves to the
/// current block and exactly one transfer of `base_amount * factor` is owed.
pub proof fn lemma_claim_after_cooldown(
    config_owner: Account,
    base_amount: u128,
    factor: u128,
    cooldown_blocks: u32,
    ledger: Map<Account, u32>,
    owner: Account,
    caller: Account,
    current_block: u32,
)
    requires
        elapsed_blocks(current_block, last_claim_of(ledger, caller)) > cooldown_blocks,
        base_amount * factor <= u128::MAX,
    ensures
        ({
            let (after, outcome) = claim_result(
                config_owner,
                base_amount,
                factor,
                cooldown_blocks,
                ledger,
                owner,
                config_owner,
                caller,
                current_block,
            );
            &&& after == ledger.insert(caller, current_block)
            &&& last_claim_of(after, caller) == current_block
            &&& outcome == (ClaimOutcome::Transfer {
                recipient: owner,
                amount: (base_amount * factor) as u128,
            })
        }),
{
}

/// A wrong delegation target never mutates the ledger, regardless of the
/// caller's cooldown state: the request is rejected and nothing is owed.
pub proof fn lemma_wrong_validator_never_mutates(
    config_owner: Account,
    base_amount: u128,
    factor: u128,
    cooldown_blocks: u32,
    ledger: Map<Account, u32>,
    owner: Account,
    delegated_validator: Account,
    caller: Account,
    current_block: u32,
)
    requires
        delegated_validator != config_owner,
    ensures
        claim_result(
            config_owner,
            base_amount,
            factor,
            cooldown_blocks,
            ledger,
            owner,
            delegated_validator,
            caller,
            current_block,
        ) == (ledger, ClaimOutcome::Rejected),
{
}

/// If converting the base amount to smallest units would overflow, the claim
/// aborts and the ledger is unchanged, even though authorization passed.
pub proof fn lemma_overflow_aborts(
    config_owner: Account,
    base_amount: u128,
    factor: u128,
    cooldown_blocks: u32,
    ledger: Map<Account, u32>,
    owner: Account,
    delegated_validator: Account,
    caller: Account,
    current_block: u32,
)
    requires
        eligible(
            config_owner,
            delegated_validator,
            last_claim_of(ledger, caller),
            current_block,
            cooldown_blocks,
        ),
        base_amount * factor > u128::MAX,
    ensures
        claim_result(
            config_owner,
            base_amount,
            factor,
            cooldown_blocks,
            ledger,
            owner,
            delegated_validator,
            caller,
            current_block,
        ) == (ledger, ClaimOutcome::AbortedOverflow),
{
}

/// Recorded heights never decrease: for every account, the height a claim
/// request leaves in the ledger is at least the height it found there.
pub proof fn lemma_ledger_monotonic(
    config_owner: Account,
    base_amount: u128,
    factor: u128,
    cooldown_blocks: u32,
    ledger: Map<Account, u32>,
    owner: Account,
    delegated_validator: Account,
    caller: Account,
    current_block: u32,
)
    ensures
        forall|a: Account|
            last_claim_of(
                claim_result(
                    config_owner,
                    base_amount,
                    factor,
                    cooldown_blocks,
                    ledger,
                    owner,
                    delegated_validator,
                    caller,
                    current_block,
                ).0,
                a,
            ) >= last_claim_of(ledger, a),
{
    let after = claim_result(
        config_owner,
        base_amount,
        factor,
        cooldown_blocks,
        ledger,
        owner,
        delegated_validator,
        caller,
        current_block,
    ).0;
    let last = last_claim_of(ledger, caller);
    if eligible(config_owner, delegated_validator, last, current_block, cooldown_blocks)
        && base_amount * factor <= u128::MAX {
        assert(last == 0 || elapsed_blocks(current_block, last) > cooldown_blocks);
        assert(last_claim_of(after, caller) == current_block);
        assert(current_block >= last);
    }
}

} // verus!
