//! Setting up and changing the incense rule table.
use vstd::prelude::*;

use crate::pubkey::Pubkey;
use crate::solji::errors::{ErrorCode, SolJiError};
use crate::solji::states::incense_config::{
    spec_incense_index,
    IncenseRule,
    IncenseRulesConfig,
    IncenseType,
};

verus! {

/// The rule table a new configuration starts with: price in lamports, merit
/// and incense value of each kind, in kind order.
pub open spec fn spec_default_rules() -> Seq<IncenseRule> {
    seq![
        IncenseRule { incense_price: 10_000_000, merit_value: 10, incense_value: 100 },
        IncenseRule { incense_price: 50_000_000, merit_value: 65, incense_value: 600 },
        IncenseRule { incense_price: 100_000_000, merit_value: 1200, incense_value: 3100 },
        IncenseRule { incense_price: 300_000_000, merit_value: 3400, incense_value: 9000 },
        IncenseRule { incense_price: 0, merit_value: 5000, incense_value: 15000 },
        IncenseRule { incense_price: 0, merit_value: 10000, incense_value: 30000 },
    ]
}

/// The rule configuration created by `authority`, who becomes its admin.
pub fn initialize(authority: Pubkey) -> (c: IncenseRulesConfig)
    ensures
        c.admin == authority,
        c.rules@ == spec_default_rules(),
{
    let c = IncenseRulesConfig::new(
        authority,
        [
            IncenseRule::new(10_000_000, 10, 100),
            IncenseRule::new(50_000_000, 65, 600),
            IncenseRule::new(100_000_000, 1200, 3100),
            IncenseRule::new(300_000_000, 3400, 9000),
            IncenseRule::new(0, 5000, 15000),
            IncenseRule::new(0, 10000, 30000),
        ],
    );
    assert(c.rules@ =~= spec_default_rules());
    c
}

/// Replaces the rule of one incense kind; only the admin may.
pub fn update_incense(
    authority: Pubkey,
    config: &mut IncenseRulesConfig,
    incense_type: IncenseType,
    incense_rule: IncenseRule,
) -> (r: Result<(), SolJiError>)
    ensures
        authority != old(config).admin ==> r == Err::<(), SolJiError>(
            SolJiError::Admin(ErrorCode::NonAdministrator),
        ) && *final(config) == *old(config),
        authority == old(config).admin ==> r == Ok::<(), SolJiError>(()) && final(config).admin
            == old(config).admin && final(config).rules@ == old(config).rules@.update(
            spec_incense_index(incense_type),
            incense_rule,
        ),
{
    if !authority.key_eq(&config.admin) {
        return Err(SolJiError::Admin(ErrorCode::NonAdministrator));
    }
    config.update_rule(incense_type, incense_rule);
    Ok(())
}

} // verus!
