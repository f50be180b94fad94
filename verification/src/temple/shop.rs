//! The temple shop: its items, buying them and listing them.
use vstd::prelude::*;

use crate::temple::errors::{ErrorCode, TempleProgramError};
use crate::temple::incense::spec_add_balance;
use crate::temple::state::UserIncenseState;

verus! {

/// Kinds of shop items.
#[derive(Clone, Copy, Debug, PartialEq, Eq, Structural)]
pub enum ShopItemType {
    Incense,
    Amulet,
    Prop,
    Special,
}

/// An item of the shop.
#[derive(Clone, Debug)]
pub struct ShopItem {
    pub id: u8,
    pub name: String,
    pub description: String,
    /// Price of one unit, in lamports.
    pub price: u64,
    pub stock: u64,
    pub is_available: bool,
    pub item_type: ShopItemType,
    /// Whether the item carries an incense configuration (incense items
    /// must).
    pub has_incense_config: bool,
}

/// Whether a shop item may be configured: a non-zero id, a name and a price.
pub open spec fn valid_shop_item(i: ShopItem) -> bool {
    i.id > 0 && i.name@.len() > 0 && i.price > 0
}

/// Checks a list of shop items: each must be valid, else `InvalidShopItemId`.
pub fn validate_shop_items(items: &Vec<ShopItem>) -> (r: Result<(), TempleProgramError>)
    ensures
        r is Ok <==> forall|j: int| 0 <= j < items@.len() ==> valid_shop_item(#[trigger] items@[j]),
        r is Err ==> r == Err::<(), TempleProgramError>(
            TempleProgramError::Code(ErrorCode::InvalidShopItemId),
        ),
{
    let mut i: usize = 0;
    while i < items.len()
        invariant
            0 <= i <= items@.len(),
            forall|j: int| 0 <= j < i ==> valid_shop_item(#[trigger] items@[j]),
        decreases items@.len() - i,
    {
        let it = &items[i];
        if it.id == 0 || it.name.unicode_len() == 0 || it.price == 0 {
            return Err(TempleProgramError::Code(ErrorCode::InvalidShopItemId));
        }
        i = i + 1;
    }
    Ok(())
}

/// The shop's item list and when it last changed.
#[derive(Clone, Debug)]
pub struct ShopConfig {
    pub shop_items: Vec<ShopItem>,
    pub updated_at: i64,
}

/// Replaces the shop's items at `now`, when every new item is valid;
/// otherwise the shop is unchanged.
pub fn update_shop_items(shop_config: &mut ShopConfig, shop_items: Vec<ShopItem>, now: i64) -> (r:
    Result<(), TempleProgramError>)
    ensures
        r is Ok <==> forall|j: int|
            0 <= j < shop_items@.len() ==> valid_shop_item(#[trigger] shop_items@[j]),
        r is Err ==> r == Err::<(), TempleProgramError>(
            TempleProgramError::Code(ErrorCode::InvalidShopItemId),
        ),
        r is Err ==> final(shop_config).shop_items@ == old(shop_config).shop_items@,
        r is Err ==> final(shop_config).updated_at == old(shop_config).updated_at,
        r is Ok ==> final(shop_config).shop_items@ == shop_items@,
        r is Ok ==> final(shop_config).updated_at == now,
{
    match validate_shop_items(&shop_items) {
        Ok(()) => {},
        Err(e) => {
            return Err(e);
        },
    }
    shop_config.shop_items = shop_items;
    shop_config.updated_at = now;
    Ok(())
}

/// What a purchase does beyond the payment.
#[derive(Clone, Copy, Debug, PartialEq, Eq, Structural)]
pub enum PurchaseEffect {
    /// Add `quantity` sticks of incense `item_id` to the buyer's balance.
    AddIncense { item_id: u8, quantity: u64 },
    /// Announce an amulet of this type (0 fortune, 1 protection, 2 merit).
    AmuletDropped { amulet_type: u8 },
    /// Nothing more (props and special items).
    NoEffect,
}

/// A checked purchase.
#[derive(Clone, Copy, Debug, PartialEq, Eq, Structural)]
pub struct Purchase {
    /// Lamports to transfer from the buyer to the treasury.
    pub total_price: u64,
    pub effect: PurchaseEffect,
}

/// Amulet type sold as shop item `item_id` (100 fortune, 101 protection, 102
/// merit).
pub open spec fn spec_amulet_of_item(item_id: u8) -> Option<u8> {
    if item_id == 100 {
        Some(0u8)
    } else if item_id == 101 {
        Some(1u8)
    } else if item_id == 102 {
        Some(2u8)
    } else {
        None
    }
}

/// Outcome of buying `quantity` of shop item `item_id` by a buyer holding
/// `balance` lamports: the first item with that id is bought; it must be
/// available, in stock, affordable, and an incense item must carry its
/// configuration and an amulet item be one of the three amulets.
pub open spec fn spec_purchase(items: Seq<ShopItem>, item_id: u8, quantity: u64, balance: u64) -> Result<
    Purchase,
    TempleProgramError,
> {
    if quantity == 0 {
        Err(TempleProgramError::Code(ErrorCode::InvalidAmount))
    } else if !exists|i: int| 0 <= i < items.len() && items[i].id == item_id {
        Err(TempleProgramError::Code(ErrorCode::InvalidShopItemId))
    } else {
        let i = choose|i: int|
            0 <= i < items.len() && items[i].id == item_id && forall|j: int|
                0 <= j < i ==> items[j].id != item_id;
        let item = items[i];
        let total = item.price * quantity;
        if !item.is_available {
            Err(TempleProgramError::Code(ErrorCode::ShopItemNotAvailable))
        } else if item.stock < quantity {
            Err(TempleProgramError::Code(ErrorCode::InsufficientStock))
        } else if total > u64::MAX {
            Err(TempleProgramError::Code(ErrorCode::MathOverflow))
        } else if balance < total {
            Err(TempleProgramError::Code(ErrorCode::InsufficientSolBalance))
        } else {
            match item.item_type {
                ShopItemType::Incense => if item.has_incense_config {
                    Ok(
                        Purchase {
                            total_price: total as u64,
                            effect: PurchaseEffect::AddIncense { item_id, quantity },
                        },
                    )
                } else {
                    Err(TempleProgramError::Code(ErrorCode::InvalidShopItemId))
                },
                ShopItemType::Amulet => match spec_amulet_of_item(item_id) {
                    Some(a) => Ok(
                        Purchase {
                            total_price: total as u64,
                            effect: PurchaseEffect::AmuletDropped { amulet_type: a },
                        },
                    ),
                    None => Err(TempleProgramError::Code(ErrorCode::InvalidShopItemId)),
                },
                _ => Ok(Purchase { total_price: total as u64, effect: PurchaseEffect::NoEffect }),
            }
        }
    }
}

/// Position of the first item with id `item_id`.
fn find_item(items: &Vec<ShopItem>, item_id: u8) -> (r: Option<usize>)
    ensures
        r matches Some(i) ==> i < items@.len() && items@[i as int].id == item_id && forall|j: int|
            0 <= j < i ==> items@[j].id != item_id,
        r is None ==> forall|j: int| 0 <= j < items@.len() ==> items@[j].id != item_id,
{
    let mut i: usize = 0;
    while i < items.len()
        invariant
            0 <= i <= items@.len(),
            forall|j: int| 0 <= j < i ==> items@[j].id != item_id,
        decreases items@.len() - i,
    {
        if items[i].id == item_id {
            return Some(i);
        }
        i = i + 1;
    }
    None
}

/// The buyer's incense stock after purchase `r` of `quantity` of item
/// `item_id`: an incense purchase adds the sticks to the kind numbered like
/// the item when that addition succeeds; the stock is otherwise kept, for the
/// outcome of that addition does not decide the purchase.
pub open spec fn spec_purchase_stock(
    r: Result<Purchase, TempleProgramError>,
    stock: Seq<u64>,
    item_id: u8,
    quantity: u64,
) -> Seq<u64> {
    match r {
        Ok(p) => match p.effect {
            PurchaseEffect::AddIncense { .. } => match spec_add_balance(stock, item_id, quantity) {
                Ok(b) => b,
                Err(_) => stock,
            },
            _ => stock,
        },
        Err(_) => stock,
    }
}

/// Buys `quantity` of shop item `item_id`; `balance` is the buyer's lamports
/// and `status_check` the outcome of the temple's check that purchases are
/// open. An incense item's sticks go to the buyer's stock (`incense_state`).
pub fn purchase_item(
    status_check: Result<(), TempleProgramError>,
    shop_config: &ShopConfig,
    item_id: u8,
    quantity: u64,
    balance: u64,
    incense_state: &mut UserIncenseState,
) -> (r: Result<Purchase, TempleProgramError>)
    ensures
        status_check matches Err(e) ==> r == Err::<Purchase, TempleProgramError>(e),
        status_check is Ok ==> r == spec_purchase(shop_config.shop_items@, item_id, quantity, balance),
        final(incense_state).incense_balance@ == spec_purchase_stock(
            r,
            old(incense_state).incense_balance@,
            item_id,
            quantity,
        ),
        *final(incense_state) == (UserIncenseState {
            incense_balance: final(incense_state).incense_balance,
            ..*old(incense_state)
        }),
{
    match status_check {
        Ok(()) => {},
        Err(e) => {
            return Err(e);
        },
    }
    let r = purchase_checked(shop_config, item_id, quantity, balance);
    match &r {
        Ok(p) => match p.effect {
            PurchaseEffect::AddIncense { .. } => {
                let _ = incense_state.add_incense_balance(item_id, quantity);
            },
            _ => {},
        },
        Err(_) => {},
    }
    r
}

/// The checks and price of a purchase, as `spec_purchase` states them.
fn purchase_checked(shop_config: &ShopConfig, item_id: u8, quantity: u64, balance: u64) -> (r:
    Result<Purchase, TempleProgramError>)
    ensures
        r == spec_purchase(shop_config.shop_items@, item_id, quantity, balance),
{
    let ghost items = shop_config.shop_items@;
    if quantity == 0 {
        return Err(TempleProgramError::Code(ErrorCode::InvalidAmount));
    }
    let idx = match find_item(&shop_config.shop_items, item_id) {
        Some(i) => i,
        None => {
            return Err(TempleProgramError::Code(ErrorCode::InvalidShopItemId));
        },
    };
    proof {
        let c = choose|i: int|
            0 <= i < items.len() && items[i].id == item_id && forall|j: int|
                0 <= j < i ==> items[j].id != item_id;
        assert(0 <= idx < items.len() && items[idx as int].id == item_id);
        if c < idx {
            assert(items[c].id != item_id);
        } else if c > idx {
            assert(items[idx as int].id != item_id);
        }
        assert(c == idx);
    }
    let item = &shop_config.shop_items[idx];
    if !item.is_available {
        return Err(TempleProgramError::Code(ErrorCode::ShopItemNotAvailable));
    }
    if item.stock < quantity {
        return Err(TempleProgramError::Code(ErrorCode::InsufficientStock));
    }
    let total_price = match item.price.checked_mul(quantity) {
        Some(t) => t,
        None => {
            return Err(TempleProgramError::Code(ErrorCode::MathOverflow));
        },
    };
    if balance < total_price {
        return Err(TempleProgramError::Code(ErrorCode::InsufficientSolBalance));
    }
    match item.item_type {
        ShopItemType::Incense => {
            if item.has_incense_config {
                Ok(
                    Purchase {
                        total_price,
                        effect: PurchaseEffect::AddIncense { item_id, quantity },
                    },
                )
            } else {
                Err(TempleProgramError::Code(ErrorCode::InvalidShopItemId))
            }
        },
        ShopItemType::Amulet => {
            let amulet_type: u8 = if item_id == 100 {
                0
            } else if item_id == 101 {
                1
            } else if item_id == 102 {
                2
            } else {
                return Err(TempleProgramError::Code(ErrorCode::InvalidShopItemId));
            };
            Ok(Purchase { total_price, effect: PurchaseEffect::AmuletDropped { amulet_type } })
        },
        _ => Ok(Purchase { total_price, effect: PurchaseEffect::NoEffect }),
    }
}

/// A shop item as listed to buyers.
#[derive(Clone, Debug)]
pub struct ShopItemInfo {
    pub id: u8,
    pub name: String,
    pub description: String,
    pub price: u64,
    pub item_type: ShopItemType,
    pub stock: u64,
    pub is_available: bool,
}

/// Whether a listed entry shows shop item `i`.
pub open spec fn lists(info: ShopItemInfo, i: ShopItem) -> bool {
    &&& info.id == i.id
    &&& info.name@ == i.name@
    &&& info.description@ == i.description@
    &&& info.price == i.price
    &&& info.item_type == i.item_type
    &&& info.stock == i.stock
    &&& info.is_available == i.is_available
}

/// The available items of `items`, in order.
pub open spec fn available_items(items: Seq<ShopItem>) -> Seq<ShopItem> {
    items.filter(|i: ShopItem| i.is_available)
}

/// Lists the shop's available items, in shop order.
pub fn get_shop_items(shop_config: &ShopConfig) -> (r: Vec<ShopItemInfo>)
    ensures
        r@.len() == available_items(shop_config.shop_items@).len(),
        forall|k: int|
            0 <= k < r@.len() ==> lists(#[trigger] r@[k], available_items(shop_config.shop_items@)[k]),
{
    let mut out: Vec<ShopItemInfo> = Vec::new();
    let mut i: usize = 0;
    let ghost items = shop_config.shop_items@;
    while i < shop_config.shop_items.len()
        invariant
            0 <= i <= items.len(),
            items == shop_config.shop_items@,
            out@.len() == available_items(items.subrange(0, i as int)).len(),
            forall|k: int|
                0 <= k < out@.len() ==> lists(
                    #[trigger] out@[k],
                    available_items(items.subrange(0, i as int))[k],
                ),
        decreases items.len() - i,
    {
        let it = &shop_config.shop_items[i];
        proof {
            reveal(Seq::filter);
            assert(items.subrange(0, i + 1).drop_last() =~= items.subrange(0, i as int));
            assert(items.subrange(0, i + 1).last() == items[i as int]);
        }
        if it.is_available {
            let info = ShopItemInfo {
                id: it.id,
                name: it.name.clone(),
                description: it.description.clone(),
                price: it.price,
                item_type: it.item_type,
                stock: it.stock,
                is_available: it.is_available,
            };
            out.push(info);
        }
        i = i + 1;
    }
    proof {
        assert(items.subrange(0, items.len() as int) =~= items);
    }
    out
}

} // verus!
