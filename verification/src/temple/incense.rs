//! Buying and burning incense at the temple.
use vstd::prelude::*;

use crate::pubkey::Pubkey;
use crate::temple::config::IncenseType;
use crate::temple::state::{spec_stats_earn, spec_user_earn, GlobalStats, UserIncenseState, UserState};
use crate::temple::errors::{
    BurnIncenseError,
    BuyIncenseError,
    ErrorCode,
    TempleProgramError,
};

verus! {

/// The incense kinds a new temple starts with: id, name, price in lamports,
/// merit, incense points, and whether only donations give it.
pub open spec fn spec_default_incense(i: int) -> (u8, Seq<char>, u64, u32, u32, bool) {
    if i == 0 {
        (1, "Fresh"@, 10_000_000, 10, 100, false)
    } else if i == 1 {
        (2, "Sandalwood"@, 50_000_000, 65, 600, false)
    } else if i == 2 {
        (3, "Ambergris"@, 100_000_000, 1200, 3100, false)
    } else if i == 3 {
        (4, "Supreme Spirit"@, 300_000_000, 3400, 9000, false)
    } else if i == 4 {
        (5, "Secret"@, 10_000_000_000, 5000, 15000, true)
    } else {
        (6, "Heavenly"@, 50_000_000_000, 10000, 30000, true)
    }
}

/// Whether `t` is the default incense kind `d`.
pub open spec fn is_incense(t: IncenseType, d: (u8, Seq<char>, u64, u32, u32, bool)) -> bool {
    &&& t.id == d.0
    &&& t.name@ == d.1
    &&& t.price_lamports == d.2
    &&& t.merit == d.3
    &&& t.incense_points == d.4
    &&& t.is_donation == d.5
}

fn incense(id: u8, name: &str, price_lamports: u64, merit: u32, incense_points: u32, is_donation: bool) -> (t: IncenseType)
    ensures
        is_incense(t, (id, name@, price_lamports, merit, incense_points, is_donation)),
{
    IncenseType { id, name: String::from_str(name), price_lamports, merit, incense_points, is_donation }
}

/// The incense kinds a new temple configuration starts with.
pub fn default_incense_types() -> (v: Vec<IncenseType>)
    ensures
        v@.len() == 6,
        forall|i: int| 0 <= i < 6 ==> is_incense(#[trigger] v@[i], spec_default_incense(i)),
{
    let mut v: Vec<IncenseType> = Vec::new();
    v.push(incense(1, "Fresh", 10_000_000, 10, 100, false));
    v.push(incense(2, "Sandalwood", 50_000_000, 65, 600, false));
    v.push(incense(3, "Ambergris", 100_000_000, 1200, 3100, false));
    v.push(incense(4, "Supreme Spirit", 300_000_000, 3400, 9000, false));
    v.push(incense(5, "Secret", 10_000_000_000, 5000, 15000, true));
    v.push(incense(6, "Heavenly", 50_000_000_000, 10000, 30000, true));
    v
}

/// What a checked incense burn asks for.
#[derive(Clone, Copy, Debug, PartialEq, Eq, Structural)]
pub struct BurnIncensePlan {
    /// Lamports to transfer from the user to the treasury.
    pub total_fee: u64,
    /// Sticks to add to the user's burn counter, cut to a byte.
    pub incense_number_added: u8,
    /// Incense points for the user and the temple statistics.
    pub incense_points: u64,
    /// Merit for the user and the temple statistics.
    pub merit: u64,
    /// Whether an amulet dropped, and its type (0 fortune, 2 merit).
    pub amulet_dropped: bool,
    pub amulet_type: u8,
}

/// The amulet roll of a burn at `now` by `authority`: the time plus the
/// first byte of the signer's address, modulo 100. Incense 1 drops the
/// fortune amulet (0) below 5, incense 5 the merit amulet (2) below 10.
pub open spec fn spec_amulet_drop(incense_id: u8, now: u64, authority: Pubkey) -> (bool, u8) {
    let roll = (now + authority.bytes@[0]) % 100;
    if incense_id == 1 && roll < 5 {
        (true, 0)
    } else if incense_id == 5 && roll < 10 {
        (true, 2)
    } else {
        (false, 0)
    }
}

/// Position of the first incense kind with id `incense_id` (meaningful when
/// one exists).
pub open spec fn first_kind(types: Seq<IncenseType>, incense_id: u8) -> int {
    choose|i: int|
        0 <= i < types.len() && types[i].id == incense_id && forall|j: int|
            0 <= j < i ==> types[j].id != incense_id
}

/// Outcome of burning `amount` sticks of incense `incense_id` at `now` by
/// `authority`, who holds `balance` lamports, at `fee_per_incense` lamports a
/// stick: the temple must allow burning (`status_check`, its outcome), the
/// kind must be configured (`InvalidIncenseId`), the user's daily limit must
/// allow it (`daily_limit`, its outcome), the amount must not be zero, and
/// the fee must fit and be affordable.
pub open spec fn spec_burn_incense(
    status_check: Result<(), TempleProgramError>,
    types: Seq<IncenseType>,
    incense_id: u8,
    daily_limit: Result<(), TempleProgramError>,
    amount: u64,
    fee_per_incense: u64,
    balance: u64,
    now: u64,
    authority: Pubkey,
) -> Result<BurnIncensePlan, TempleProgramError> {
    if status_check is Err {
        Err(status_check->Err_0)
    } else if !exists|i: int| 0 <= i < types.len() && types[i].id == incense_id {
        Err(TempleProgramError::Code(ErrorCode::InvalidIncenseId))
    } else {
        let t = types[first_kind(types, incense_id)];
        let fee = fee_per_incense * amount;
        if daily_limit is Err {
            Err(daily_limit->Err_0)
        } else if amount == 0 {
            Err(TempleProgramError::Code(ErrorCode::InvalidAmount))
        } else if fee > u64::MAX {
            Err(TempleProgramError::Code(ErrorCode::MathOverflow))
        } else if balance < fee {
            Err(TempleProgramError::Code(ErrorCode::InsufficientSolBalance))
        } else {
            let drop = spec_amulet_drop(incense_id, now, authority);
            Ok(
                BurnIncensePlan {
                    total_fee: fee as u64,
                    incense_number_added: amount as u8,
                    incense_points: (t.incense_points * amount) as u64,
                    merit: (t.merit * amount) as u64,
                    amulet_dropped: drop.0,
                    amulet_type: drop.1,
                },
            )
        }
    }
}

/// Burns `amount` sticks of incense `incense_id`: checks the burn, works out
/// its fee, rewards and amulet drop, counts the sticks burned (cut to a
/// byte), and credits the incense points and merit to the user and the
/// temple statistics. `status_check` is the outcome of the temple's check
/// that burning is open and `daily_limit` that of the user's daily limit
/// for this kind and amount. On error nothing changes.
pub fn burn_incense(
    status_check: Result<(), TempleProgramError>,
    types: &Vec<IncenseType>,
    incense_id: u8,
    daily_limit: Result<(), TempleProgramError>,
    amount: u64,
    fee_per_incense: u64,
    balance: u64,
    now: u64,
    authority: Pubkey,
    incense_state: &mut UserIncenseState,
    global_stats: &mut GlobalStats,
) -> (r: Result<BurnIncensePlan, TempleProgramError>)
    requires
        spec_burn_incense(
            status_check,
            types@,
            incense_id,
            daily_limit,
            amount,
            fee_per_incense,
            balance,
            now,
            authority,
        ) is Ok
            ==> ({
            let t = types@[first_kind(types@, incense_id)];
            &&& t.incense_points * amount <= u64::MAX
            &&& t.merit * amount <= u64::MAX
            &&& now + 255 <= u64::MAX
            &&& old(incense_state).incense_number + (amount as u8) <= u8::MAX
        }),
    ensures
        r == spec_burn_incense(
            status_check,
            types@,
            incense_id,
            daily_limit,
            amount,
            fee_per_incense,
            balance,
            now,
            authority,
        ),
        r is Err ==> *final(incense_state) == *old(incense_state) && *final(global_stats) == *old(
            global_stats,
        ),
        r matches Ok(p) ==> *final(incense_state) == spec_user_earn(
            UserIncenseState {
                incense_number: (old(incense_state).incense_number + (amount as u8)) as u8,
                ..*old(incense_state)
            },
            p.incense_points,
            p.merit,
        ) && *final(global_stats) == spec_stats_earn(*old(global_stats), p.incense_points, p.merit),
{
    let ghost ts = types@;
    match status_check {
        Ok(()) => {},
        Err(e) => {
            return Err(e);
        },
    }
    let idx = match crate::temple::config::find_incense_type(types, incense_id) {
        Some(i) => i,
        None => {
            return Err(TempleProgramError::Code(ErrorCode::InvalidIncenseId));
        },
    };
    proof {
        let c = first_kind(ts, incense_id);
        assert(ts[idx as int].id == incense_id);
        if c < idx {
            assert(ts[c].id != incense_id);
        } else if c > idx {
            assert(ts[idx as int].id != incense_id);
        }
        assert(c == idx);
    }
    let t = &types[idx];
    match daily_limit {
        Ok(()) => {},
        Err(e) => {
            return Err(e);
        },
    }
    if amount == 0 {
        return Err(TempleProgramError::Code(ErrorCode::InvalidAmount));
    }
    let total_fee = match fee_per_incense.checked_mul(amount) {
        Some(f) => f,
        None => {
            return Err(TempleProgramError::Code(ErrorCode::MathOverflow));
        },
    };
    if balance < total_fee {
        return Err(TempleProgramError::Code(ErrorCode::InsufficientSolBalance));
    }
    let incense_points = (t.incense_points as u64) * amount;
    let merit = (t.merit as u64) * amount;
    let roll = (now + authority.bytes[0] as u64) % 100;
    let (amulet_dropped, amulet_type) = if incense_id == 1 && roll < 5 {
        (true, 0u8)
    } else if incense_id == 5 && roll < 10 {
        (true, 2u8)
    } else {
        (false, 0u8)
    };
    incense_state.incense_number = incense_state.incense_number + (amount as u8);
    incense_state.add_incense_value_and_merit(incense_points, merit);
    global_stats.add_incense_value_and_merit(incense_points, merit);
    Ok(
        BurnIncensePlan {
            total_fee,
            incense_number_added: amount as u8,
            incense_points,
            merit,
            amulet_dropped,
            amulet_type,
        },
    )
}

/// An incense kind's sale and burn settings.
#[derive(Clone, Copy, Debug, PartialEq, Eq, Structural)]
pub struct IncenseTypeConfig {
    pub incense_type_id: u8,
    /// Price of one stick, in lamports.
    pub price_per_unit: u64,
    /// Merit a burn earns.
    pub karma_reward: u32,
    /// Incense value a burn adds.
    pub incense_value: u32,
    pub is_active: bool,
    /// Most sticks one purchase may buy.
    pub max_buy_per_transaction: u32,
    /// Sticks of this kind sold so far.
    pub minted_count: u64,
}

/// What a checked burn by incense configuration asks for.
#[derive(Clone, Copy, Debug, PartialEq, Eq, Structural)]
pub struct BurnSimpliedPlan {
    /// Lamports to transfer from the user to the temple.
    pub total_paid: u64,
    pub karma_reward: u32,
    pub incense_value: u32,
    /// Sticks burned, also added to the kind's minted count.
    pub amount: u8,
}

/// Checks a burn of `amount` sticks (1 to 10) of the kind `config` for which
/// the user announces `payment_amount` lamports and holds `balance`;
/// `available_burn_operations` is what the user's daily limit leaves.
pub fn burn_incense_simplied(
    config: &IncenseTypeConfig,
    amount: u8,
    payment_amount: u64,
    balance: u64,
    available_burn_operations: u64,
) -> (r: Result<BurnSimpliedPlan, TempleProgramError>)
    requires
        1 <= amount <= 10 ==> config.price_per_unit * amount <= u64::MAX,
    ensures
        !(1 <= amount <= 10) ==> r == Err::<BurnSimpliedPlan, TempleProgramError>(
            TempleProgramError::BurnIncense(BurnIncenseError::InvalidAmount),
        ),
        1 <= amount <= 10 && !config.is_active ==> r == Err::<BurnSimpliedPlan, TempleProgramError>(
            TempleProgramError::BurnIncense(BurnIncenseError::InactiveIncenseType),
        ),
        1 <= amount <= 10 && config.is_active && payment_amount != config.price_per_unit * amount
            ==> r == Err::<BurnSimpliedPlan, TempleProgramError>(
            TempleProgramError::BurnIncense(BurnIncenseError::InvalidPaymentAmount),
        ),
        1 <= amount <= 10 && config.is_active && payment_amount == config.price_per_unit * amount
            && balance < payment_amount ==> r == Err::<BurnSimpliedPlan, TempleProgramError>(
            TempleProgramError::BurnIncense(BurnIncenseError::NotEnoughSol),
        ),
        1 <= amount <= 10 && config.is_active && payment_amount == config.price_per_unit * amount
            && balance >= payment_amount && available_burn_operations == 0 ==> r == Err::<
            BurnSimpliedPlan,
            TempleProgramError,
        >(TempleProgramError::BurnIncense(BurnIncenseError::DailyBurnLimitExceeded)),
        r matches Ok(p) ==> p == (BurnSimpliedPlan {
            total_paid: payment_amount,
            karma_reward: config.karma_reward,
            incense_value: config.incense_value,
            amount,
        }),
        1 <= amount <= 10 && config.is_active && payment_amount == config.price_per_unit * amount
            && balance >= payment_amount && available_burn_operations > 0 ==> r is Ok,
{
    if !(amount > 0 && amount <= 10) {
        return Err(TempleProgramError::BurnIncense(BurnIncenseError::InvalidAmount));
    }
    if !config.is_active {
        return Err(TempleProgramError::BurnIncense(BurnIncenseError::InactiveIncenseType));
    }
    let total_paid = config.price_per_unit * (amount as u64);
    if payment_amount != total_paid {
        return Err(TempleProgramError::BurnIncense(BurnIncenseError::InvalidPaymentAmount));
    }
    if balance < total_paid {
        return Err(TempleProgramError::BurnIncense(BurnIncenseError::NotEnoughSol));
    }
    if available_burn_operations == 0 {
        return Err(TempleProgramError::BurnIncense(BurnIncenseError::DailyBurnLimitExceeded));
    }
    Ok(
        BurnSimpliedPlan {
            total_paid,
            karma_reward: config.karma_reward,
            incense_value: config.incense_value,
            amount,
        },
    )
}

/// One line of an incense purchase.
#[derive(Clone, Copy, Debug, PartialEq, Eq, Structural)]
pub struct BuyIncenseItem {
    pub incense_type_id: u8,
    pub quantity: u32,
    /// Price of one stick, in lamports, as the buyer saw it.
    pub unit_price: u64,
    /// Lamports the line costs.
    pub subtotal: u64,
}

/// Checks purchase line `item` against its kind's configuration.
pub open spec fn spec_check_line(item: BuyIncenseItem, config: IncenseTypeConfig) -> Result<
    (),
    TempleProgramError,
> {
    if !config.is_active {
        Err(TempleProgramError::BuyIncense(BuyIncenseError::IncenseTypeNotAvailable))
    } else if config.incense_type_id != item.incense_type_id {
        Err(TempleProgramError::BuyIncense(BuyIncenseError::InvalidIncenseType))
    } else if item.quantity > config.max_buy_per_transaction {
        Err(TempleProgramError::BuyIncense(BuyIncenseError::InvalidQuantity))
    } else if item.unit_price != config.price_per_unit {
        Err(TempleProgramError::BuyIncense(BuyIncenseError::InvalidPrice))
    } else {
        Ok(())
    }
}

/// Incense balances (kinds 1 to 6) after `quantity` sticks of kind
/// `incense_id` are added: the kind must be one of the six
/// (`InvalidIncenseId`) and its balance must fit (`MathOverflow`).
pub open spec fn spec_add_balance(balances: Seq<u64>, incense_id: u8, quantity: u64) -> Result<
    Seq<u64>,
    TempleProgramError,
> {
    if incense_id < 1 || incense_id > 6 {
        Err(TempleProgramError::Code(ErrorCode::InvalidIncenseId))
    } else if balances[incense_id - 1] + quantity > u64::MAX {
        Err(TempleProgramError::Code(ErrorCode::MathOverflow))
    } else {
        Ok(balances.update(incense_id - 1, (balances[incense_id - 1] + quantity) as u64))
    }
}

/// The first `n` purchase lines applied in order: each line's own check
/// (`checks`) must pass and it must match the configuration at its position;
/// the running total must fit (`InvalidSubtotal`); its sticks go to the
/// buyer's balances and to its configuration's minted count
/// (`MathOverflow` when either does not fit). The result is the total, the
/// balances and the configurations.
pub open spec fn spec_lines(
    items: Seq<BuyIncenseItem>,
    checks: Seq<Result<(), TempleProgramError>>,
    configs: Seq<IncenseTypeConfig>,
    balances: Seq<u64>,
    n: nat,
) -> Result<(u64, Seq<u64>, Seq<IncenseTypeConfig>), TempleProgramError>
    decreases n,
{
    if n == 0 {
        Ok((0u64, balances, configs))
    } else {
        match spec_lines(items, checks, configs, balances, (n - 1) as nat) {
            Err(e) => Err(e),
            Ok((t, b, c)) => {
                let item = items[n - 1];
                let k = n - 1;
                if checks[k] is Err {
                    Err(checks[k]->Err_0)
                } else if spec_check_line(item, c[k]) is Err {
                    Err(spec_check_line(item, c[k])->Err_0)
                } else if t + item.subtotal > u64::MAX {
                    Err(TempleProgramError::BuyIncense(BuyIncenseError::InvalidSubtotal))
                } else {
                    match spec_add_balance(b, item.incense_type_id, item.quantity as u64) {
                        Err(e) => Err(e),
                        Ok(b2) => if c[k].minted_count + item.quantity > u64::MAX {
                            Err(TempleProgramError::Code(ErrorCode::MathOverflow))
                        } else {
                            Ok(
                                (
                                    (t + item.subtotal) as u64,
                                    b2,
                                    c.update(
                                        k,
                                        IncenseTypeConfig {
                                            minted_count: (c[k].minted_count + item.quantity) as u64,
                                            ..c[k]
                                        },
                                    ),
                                ),
                            )
                        },
                    }
                }
            },
        }
    }
}

/// Once the lines fail, they fail the same way for every longer prefix.
proof fn lemma_lines_err(
    items: Seq<BuyIncenseItem>,
    checks: Seq<Result<(), TempleProgramError>>,
    configs: Seq<IncenseTypeConfig>,
    balances: Seq<u64>,
    k: nat,
    m: nat,
)
    requires
        k <= m,
        spec_lines(items, checks, configs, balances, k) is Err,
    ensures
        spec_lines(items, checks, configs, balances, m) == spec_lines(
            items,
            checks,
            configs,
            balances,
            k,
        ),
    decreases m - k,
{
    if k < m {
        lemma_lines_err(items, checks, configs, balances, k, (m - 1) as nat);
    }
}

/// Outcome of buying the lines `items` (at least one, at most six) by a
/// buyer holding `balance` lamports whose incense balances are `balances`:
/// the daily reset (`daily_reset`) must pass, then every line as in
/// `spec_lines`, and the buyer must afford the total. The result is the
/// total to pay, the new balances and the new configurations.
pub open spec fn spec_buy_incense(
    items: Seq<BuyIncenseItem>,
    checks: Seq<Result<(), TempleProgramError>>,
    configs: Seq<IncenseTypeConfig>,
    daily_reset: Result<(), TempleProgramError>,
    balance: u64,
    balances: Seq<u64>,
) -> Result<(u64, Seq<u64>, Seq<IncenseTypeConfig>), TempleProgramError> {
    if items.len() == 0 {
        Err(TempleProgramError::BuyIncense(BuyIncenseError::EmptyBuyIncenseList))
    } else if items.len() > 6 {
        Err(TempleProgramError::BuyIncense(BuyIncenseError::TooManyBuyIncenseItems))
    } else if daily_reset is Err {
        Err(daily_reset->Err_0)
    } else {
        match spec_lines(items, checks, configs, balances, items.len()) {
            Err(e) => Err(e),
            Ok((t, b, c)) => if balance < t {
                Err(TempleProgramError::BuyIncense(BuyIncenseError::InsufficientPayment))
            } else {
                Ok((t, b, c))
            },
        }
    }
}

fn copy_configs(v: &Vec<IncenseTypeConfig>) -> (r: Vec<IncenseTypeConfig>)
    ensures
        r@ == v@,
{
    let mut r: Vec<IncenseTypeConfig> = Vec::new();
    let mut i: usize = 0;
    while i < v.len()
        invariant
            0 <= i <= v@.len(),
            r@ == v@.subrange(0, i as int),
        decreases v@.len() - i,
    {
        r.push(v[i]);
        i = i + 1;
        proof {
            assert(r@ =~= v@.subrange(0, i as int));
        }
    }
    proof {
        assert(v@.subrange(0, v@.len() as int) =~= v@);
    }
    r
}

/// Buys incense: `items` are the purchase lines, `item_checks[i]` the outcome
/// of line `i`'s own check, `configs[i]` the configuration of its kind, and
/// `daily_reset` the outcome of the buyer's daily reset. The sticks go to the
/// buyer's balances and to the kinds' minted counts, and the buyer's spending
/// and purchase count grow (`MathOverflow` when they do not fit). Returns the
/// lamports to pay; on error nothing changes.
pub fn buy_incense(
    items: &Vec<BuyIncenseItem>,
    item_checks: &Vec<Result<(), TempleProgramError>>,
    configs: &mut Vec<IncenseTypeConfig>,
    daily_reset: Result<(), TempleProgramError>,
    balance: u64,
    user_state: &mut UserState,
    incense_state: &mut UserIncenseState,
) -> (r: Result<u64, TempleProgramError>)
    requires
        1 <= items@.len() <= 6 ==> old(configs)@.len() >= items@.len() && item_checks@.len()
            >= items@.len(),
    ensures
        ({
            let s = spec_buy_incense(
                items@,
                item_checks@,
                old(configs)@,
                daily_reset,
                balance,
                old(incense_state).incense_balance@,
            );
            &&& s is Err ==> r == Err::<u64, TempleProgramError>(s->Err_0)
            &&& s matches Ok((t, b, c)) ==> {
                ||| {
                    &&& (old(user_state).total_spending + t > u64::MAX || old(user_state).buy_count
                        == u64::MAX)
                    &&& r == Err::<u64, TempleProgramError>(
                        TempleProgramError::Code(ErrorCode::MathOverflow),
                    )
                }
                ||| {
                    &&& old(user_state).total_spending + t <= u64::MAX
                    &&& old(user_state).buy_count < u64::MAX
                    &&& r == Ok::<u64, TempleProgramError>(t)
                    &&& final(incense_state).incense_balance@ == b
                    &&& *final(incense_state) == (UserIncenseState {
                        incense_balance: final(incense_state).incense_balance,
                        ..*old(incense_state)
                    })
                    &&& final(configs)@ == c
                    &&& *final(user_state) == (UserState {
                        total_spending: (old(user_state).total_spending + t) as u64,
                        buy_count: (old(user_state).buy_count + 1) as u64,
                        ..*old(user_state)
                    })
                }
            }
        }),
        r is Err ==> *final(user_state) == *old(user_state) && *final(incense_state) == *old(
            incense_state,
        ) && final(configs)@ == old(configs)@,
{
    if items.len() == 0 {
        return Err(TempleProgramError::BuyIncense(BuyIncenseError::EmptyBuyIncenseList));
    }
    if items.len() > 6 {
        return Err(TempleProgramError::BuyIncense(BuyIncenseError::TooManyBuyIncenseItems));
    }
    match daily_reset {
        Ok(()) => {},
        Err(e) => {
            return Err(e);
        },
    }
    let ghost cfg0 = configs@;
    let ghost bal0 = incense_state.incense_balance@;
    let mut cfgs = copy_configs(configs);
    let mut bal = incense_state.incense_balance;
    let mut total: u64 = 0;
    let mut i: usize = 0;
    while i < items.len()
        invariant
            0 <= i <= items@.len(),
            1 <= items@.len() <= 6,
            cfg0.len() >= items@.len(),
            item_checks@.len() >= items@.len(),
            cfgs@.len() == cfg0.len(),
            bal@.len() == 6,
            daily_reset is Ok,
            cfg0 == old(configs)@,
            bal0 == old(incense_state).incense_balance@,
            spec_lines(items@, item_checks@, cfg0, bal0, i as nat) == Ok::<
                (u64, Seq<u64>, Seq<IncenseTypeConfig>),
                TempleProgramError,
            >((total, bal@, cfgs@)),
        decreases items@.len() - i,
    {
        let item = items[i];
        proof {
            if spec_lines(items@, item_checks@, cfg0, bal0, (i + 1) as nat) is Err {
                lemma_lines_err(items@, item_checks@, cfg0, bal0, (i + 1) as nat, items@.len());
            }
        }
        match &item_checks[i] {
            Ok(()) => {},
            Err(e) => {
                return Err(*e);
            },
        }
        let config = cfgs[i];
        if !config.is_active {
            return Err(TempleProgramError::BuyIncense(BuyIncenseError::IncenseTypeNotAvailable));
        }
        if config.incense_type_id != item.incense_type_id {
            return Err(TempleProgramError::BuyIncense(BuyIncenseError::InvalidIncenseType));
        }
        if item.quantity > config.max_buy_per_transaction {
            return Err(TempleProgramError::BuyIncense(BuyIncenseError::InvalidQuantity));
        }
        if item.unit_price != config.price_per_unit {
            return Err(TempleProgramError::BuyIncense(BuyIncenseError::InvalidPrice));
        }
        let new_total = match total.checked_add(item.subtotal) {
            Some(t) => t,
            None => {
                return Err(TempleProgramError::BuyIncense(BuyIncenseError::InvalidSubtotal));
            },
        };
        if item.incense_type_id < 1 || item.incense_type_id > 6 {
            return Err(TempleProgramError::Code(ErrorCode::InvalidIncenseId));
        }
        let slot = (item.incense_type_id - 1) as usize;
        let new_balance = match bal[slot].checked_add(item.quantity as u64) {
            Some(b) => b,
            None => {
                return Err(TempleProgramError::Code(ErrorCode::MathOverflow));
            },
        };
        let new_minted = match config.minted_count.checked_add(item.quantity as u64) {
            Some(m) => m,
            None => {
                return Err(TempleProgramError::Code(ErrorCode::MathOverflow));
            },
        };
        bal[slot] = new_balance;
        cfgs.set(i, IncenseTypeConfig { minted_count: new_minted, ..config });
        total = new_total;
        i = i + 1;
    }
    if balance < total {
        return Err(TempleProgramError::BuyIncense(BuyIncenseError::InsufficientPayment));
    }
    match user_state.record_purchase(total) {
        Ok(()) => {},
        Err(e) => {
            return Err(e);
        },
    }
    incense_state.incense_balance = bal;
    *configs = cfgs;
    Ok(total)
}

/// Name of the NFT of incense kind `t`: its name and " NFT".
pub open spec fn spec_incense_nft_name(t: IncenseType) -> Seq<char> {
    t.name@ + " NFT"@
}

/// Name of the NFT collection of the first incense kind with id
/// `incense_id` (`InvalidIncenseId` when none).
pub fn create_nft_mint(types: &Vec<IncenseType>, incense_id: u8) -> (r: Result<String, TempleProgramError>)
    ensures
        (forall|j: int| 0 <= j < types@.len() ==> types@[j].id != incense_id) ==> r == Err::<
            String,
            TempleProgramError,
        >(TempleProgramError::Code(ErrorCode::InvalidIncenseId)),
        r matches Ok(name) ==> exists|j: int|
            0 <= j < types@.len() && types@[j].id == incense_id && (forall|k: int|
                0 <= k < j ==> types@[k].id != incense_id) && name@ == spec_incense_nft_name(
                types@[j],
            ),
        (exists|j: int| 0 <= j < types@.len() && types@[j].id == incense_id) ==> r is Ok,
{
    match crate::temple::config::find_incense_type(types, incense_id) {
        Some(i) => {
            let mut name = types[i].name.clone();
            name.append(" NFT");
            Ok(name)
        },
        None => Err(TempleProgramError::Code(ErrorCode::InvalidIncenseId)),
    }
}

/// New metadata of the NFT collection of incense kind `incense_id`: its
/// name and the address `new_uri` (`InvalidIncenseId` when the kind is not
/// configured).
pub fn update_nft_uri(types: &Vec<IncenseType>, incense_id: u8, new_uri: String) -> (r: Result<
    (String, String),
    TempleProgramError,
>)
    ensures
        (forall|j: int| 0 <= j < types@.len() ==> types@[j].id != incense_id) ==> r is Err
            && r->Err_0 == TempleProgramError::Code(ErrorCode::InvalidIncenseId),
        r matches Ok(p) ==> p.1@ == new_uri@ && exists|j: int|
            0 <= j < types@.len() && types@[j].id == incense_id && (forall|k: int|
                0 <= k < j ==> types@[k].id != incense_id) && p.0@ == spec_incense_nft_name(
                types@[j],
            ),
        (exists|j: int| 0 <= j < types@.len() && types@[j].id == incense_id) ==> r is Ok,
{
    match create_nft_mint(types, incense_id) {
        Ok(name) => Ok((name, new_uri)),
        Err(e) => Err(e),
    }
}

/// Checks that the temple owner `owner` mints one NFT of a configured
/// incense kind: the signer must be the owner (`InvalidOwner`) and the kind
/// configured (`InvalidIncenseId`).
pub fn mint_nft_to_user(owner: Pubkey, authority: Pubkey, types: &Vec<IncenseType>, incense_id: u8) -> (r:
    Result<(), TempleProgramError>)
    ensures
        owner != authority ==> r == Err::<(), TempleProgramError>(
            TempleProgramError::Code(ErrorCode::InvalidOwner),
        ),
        owner == authority ==> (r is Ok <==> exists|j: int|
            0 <= j < types@.len() && types@[j].id == incense_id),
        r is Err && owner == authority ==> r == Err::<(), TempleProgramError>(
            TempleProgramError::Code(ErrorCode::InvalidIncenseId),
        ),
{
    if !owner.key_eq(&authority) {
        return Err(TempleProgramError::Code(ErrorCode::InvalidOwner));
    }
    match crate::temple::config::find_incense_type(types, incense_id) {
        Some(_) => Ok(()),
        None => Err(TempleProgramError::Code(ErrorCode::InvalidIncenseId)),
    }
}

/// Name of the NFT collection of an incense kind named `name`.
pub fn init_incense_nft(name: &String) -> (r: String)
    ensures
        r@ == name@ + " NFT"@,
{
    let mut r = name.clone();
    r.append(" NFT");
    r
}

} // verus!
