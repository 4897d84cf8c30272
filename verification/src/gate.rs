use vstd::prelude::*;
use crate::account::Account;

verus! {

/// The decision of the claim gate for one request.
#[derive(PartialEq, Eq, Structural, Clone, Copy, Debug)]
pub enum Eligibility {
    Eligible,
    Ineligible,
}

/// Blocks elapsed since the last claim, clamped at zero should the recorded
/// height ever exceed the current block.
pub open spec fn elapsed_blocks(current_block: u32, last_claim: u32) -> int {
    if current_block >= last_claim {
        current_block - last_claim
    } else {
        0
    }
}

/// The authorization policy: the delegation target must equal the configured
/// owner, and the claimant must either never have claimed (recorded height
/// zero) or have waited strictly more than `cooldown_blocks` blocks since its
/// last claim.
pub open spec fn eligible(
    config_owner: Account,
    delegated_validator: Account,
    last_claim: u32,
    current_block: u32,
    cooldown_blocks: u32,
) -> bool {
    &&& delegated_validator == config_owner
    &&& (last_claim == 0 || elapsed_blocks(current_block, last_claim) > cooldown_blocks)
}

/// Decides eligibility of a claim request. A wrong delegation target or an
/// unexpired cooldown yields `Ineligible`; the subtraction saturates, so a
/// current block below the recorded height counts as no elapsed blocks.
pub fn authorize(
    config_owner: &Account,
    delegated_validator: &Account,
    last_claim: u32,
    current_block: u32,
    cooldown_blocks: u32,
) -> (e: Eligibility)
    ensures
        (e == Eligibility::Eligible) == eligible(
            *config_owner,
            *delegated_validator,
            last_claim,
            current_block,
            cooldown_blocks,
        ),
{
    if delegated_validator == config_owner {
        if last_claim == 0 {
            Eligibility::Eligible
        } else {
            let elapsed = current_block.saturating_sub(last_claim);
            if elapsed > cooldown_blocks {
                Eligibility::Eligible
            } else {
                Eligibility::Ineligible
            }
        }
    } else {
        Eligibility::Ineligible
    }
}

} // verus!
