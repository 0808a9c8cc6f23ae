//! The sale engine: creation of a sale and settlement of purchases.
//!
//! A sale exchanges a native-asset payment for units of a fungible asset,
//! under a soft/hard funding cap and an inclusive time window. The engine
//! here makes every decision; the ledger that actually moves balances is a
//! collaborator of the host, so balances enter as plain values and the moves
//! to make leave as a [`Receipt`].

use vstd::prelude::*;

use crate::errors::SaleError;

verus! {

/// The persistent record of one sale: its configuration and running total.
///
/// Identities (creator, asset, vault) are opaque handles the host assigns;
/// the engine only ever compares them.
#[derive(Clone, Copy, Debug, PartialEq, Eq, Structural)]
pub struct SaleConfig {
    /// Who created the sale and receives the payments.
    pub creator: u64,
    /// The fungible asset on sale.
    pub asset: u64,
    /// Minimum funding target. Never read after creation; kept for the host.
    pub soft_cap: u64,
    /// Cap on the total number of units ever sold.
    pub hard_cap: u64,
    /// First second (inclusive) at which purchases are accepted.
    pub start_time: i64,
    /// Last second (inclusive) at which purchases are accepted.
    pub end_time: i64,
    /// The escrow account that holds the inventory.
    pub vault_reference: u64,
    /// Units sold so far. Only a successful purchase may raise it.
    pub total_raised: u64,
    /// Native-asset cost of one unit.
    pub price_per_unit: u64,
}

/// Write-once record of the inventory deposited into escrow at creation.
#[derive(Clone, Copy, Debug, PartialEq, Eq, Structural)]
pub struct VaultRecord {
    /// The asset held in escrow.
    pub asset: u64,
    /// Who deposited the inventory.
    pub creator: u64,
    /// How many units were deposited.
    pub deposited_amount: u64,
}

impl SaleConfig {
    /// Well-formedness: established by [`create_sale`] and preserved by every
    /// later operation on the record.
    pub open spec fn wf(self) -> bool {
        &&& self.soft_cap <= self.hard_cap
        &&& self.hard_cap > 0
        &&& self.start_time < self.end_time
        &&& self.total_raised <= self.hard_cap
    }

    /// The sale accepts purchases at `now`: the window is inclusive on both
    /// ends.
    pub open spec fn active(self, now: i64) -> bool {
        self.start_time <= now <= self.end_time
    }
}

/// What [`create_sale`] returns for given inputs: the new records, or the
/// first failing check in the order the engine makes them.
pub open spec fn create_sale_outcome(
    creator: u64,
    asset: u64,
    soft_cap: u64,
    hard_cap: u64,
    start_time: i64,
    end_time: i64,
    price_per_unit: u64,
    deposit_amount: u64,
    vault_reference: u64,
    now: i64,
) -> Result<(SaleConfig, VaultRecord), SaleError> {
    if soft_cap > hard_cap {
        Err(SaleError::InvalidCapRange)
    } else if hard_cap == 0 {
        Err(SaleError::ZeroCap)
    } else if start_time >= end_time {
        Err(SaleError::InvalidTimeWindow)
    } else if end_time <= now {
        Err(SaleError::TimeInPast)
    } else if deposit_amount == 0 {
        Err(SaleError::AmountCannotBeZero)
    } else {
        Ok((
            SaleConfig {
                creator,
                asset,
                soft_cap,
                hard_cap,
                start_time,
                end_time,
                vault_reference,
                total_raised: 0,
                price_per_unit,
            },
            VaultRecord { asset, creator, deposited_amount: deposit_amount },
        ))
    }
}

/// Validates a new sale and writes its records.
///
/// On success the host must, as one unit, move `deposit_amount` of `asset`
/// from the creator into the vault and persist both returned records; on any
/// error nothing may be persisted.
pub fn create_sale(
    creator: u64,
    asset: u64,
    soft_cap: u64,
    hard_cap: u64,
    start_time: i64,
    end_time: i64,
    price_per_unit: u64,
    deposit_amount: u64,
    vault_reference: u64,
    now: i64,
) -> (r: Result<(SaleConfig, VaultRecord), SaleError>)
    ensures
        r == create_sale_outcome(
            creator,
            asset,
            soft_cap,
            hard_cap,
            start_time,
            end_time,
            price_per_unit,
            deposit_amount,
            vault_reference,
            now,
        ),
        r matches Ok(sv) ==> sv.0.wf() && sv.0.total_raised == 0,
{
    if soft_cap > hard_cap {
        return Err(SaleError::InvalidCapRange);
    }
    if hard_cap == 0 {
        return Err(SaleError::ZeroCap);
    }
    if start_time >= end_time {
        return Err(SaleError::InvalidTimeWindow);
    }
    if end_time <= now {
        return Err(SaleError::TimeInPast);
    }
    if deposit_amount == 0 {
        return Err(SaleError::AmountCannotBeZero);
    }
    let config = SaleConfig {
        creator,
        asset,
        soft_cap,
        hard_cap,
        start_time,
        end_time,
        vault_reference,
        total_raised: 0,
        price_per_unit,
    };
    let vault = VaultRecord { asset, creator, deposited_amount: deposit_amount };
    Ok((config, vault))
}

/// The two transfers a settled purchase obliges the host to make, and the
/// accounting total to commit once both have gone through.
#[derive(Clone, Copy, Debug, PartialEq, Eq, Structural)]
pub struct Receipt {
    /// Who pays and receives the units.
    pub buyer: u64,
    /// Who is paid: the sale's creator.
    pub payee: u64,
    /// Native-asset payment, buyer to payee.
    pub payment: u64,
    /// The escrow the units leave.
    pub vault: u64,
    /// Units of the asset, vault to buyer.
    pub units: u64,
    /// The running total the sale record must carry afterwards.
    pub new_total: u64,
}

/// What a purchase does to the sale record for given inputs: the updated
/// record, or the first failing check in the order the engine makes them.
///
/// `vault_balance` and `buyer_balance` are the ledger's readings at the time
/// of the request. A zero `amount` is not rejected: it settles as a purchase
/// of nothing.
pub open spec fn purchase_outcome(
    sale: SaleConfig,
    amount: u64,
    now: i64,
    vault_balance: u64,
    buyer_balance: u64,
) -> Result<SaleConfig, SaleError> {
    if !sale.active(now) {
        Err(SaleError::SaleNotActive)
    } else if amount * sale.price_per_unit > u64::MAX {
        Err(SaleError::ArithmeticOverflow)
    } else if sale.total_raised + amount > u64::MAX {
        Err(SaleError::ArithmeticOverflow)
    } else if sale.total_raised + amount > sale.hard_cap {
        Err(SaleError::HardCapReached)
    } else if vault_balance < amount {
        Err(SaleError::InsufficientInventory)
    } else if buyer_balance < amount * sale.price_per_unit {
        Err(SaleError::InsufficientFunds)
    } else {
        Ok(SaleConfig { total_raised: (sale.total_raised + amount) as u64, ..sale })
    }
}

/// The receipt a settled purchase hands the host, as a function of the
/// request.
pub open spec fn purchase_receipt(sale: SaleConfig, buyer: u64, amount: u64) -> Receipt {
    Receipt {
        buyer,
        payee: sale.creator,
        payment: (amount * sale.price_per_unit) as u64,
        vault: sale.vault_reference,
        units: amount,
        new_total: (sale.total_raised + amount) as u64,
    }
}

/// Checks a purchase request against the sale without touching it.
///
/// Ok comes back exactly when [`purchase_outcome`] settles, and the receipt
/// then names the payment, the delivery and the total to commit.
pub fn plan_purchase(
    sale: &SaleConfig,
    buyer: u64,
    amount: u64,
    now: i64,
    vault_balance: u64,
    buyer_balance: u64,
) -> (r: Result<Receipt, SaleError>)
    ensures
        match purchase_outcome(*sale, amount, now, vault_balance, buyer_balance) {
            Ok(updated) => r matches Ok(rec) && rec == purchase_receipt(*sale, buyer, amount)
                && rec.new_total == updated.total_raised,
            Err(e) => r == Err::<Receipt, SaleError>(e),
        },
{
    if !(sale.start_time <= now && now <= sale.end_time) {
        return Err(SaleError::SaleNotActive);
    }
    let payment = match amount.checked_mul(sale.price_per_unit) {
        Some(p) => p,
        None => {
            return Err(SaleError::ArithmeticOverflow);
        },
    };
    let new_total = match sale.total_raised.checked_add(amount) {
        Some(t) => t,
        None => {
            return Err(SaleError::ArithmeticOverflow);
        },
    };
    if new_total > sale.hard_cap {
        return Err(SaleError::HardCapReached);
    }
    if vault_balance < amount {
        return Err(SaleError::InsufficientInventory);
    }
    if buyer_balance < payment {
        return Err(SaleError::InsufficientFunds);
    }
    Ok(Receipt {
        buyer,
        payee: sale.creator,
        payment,
        vault: sale.vault_reference,
        units: amount,
        new_total,
    })
}

/// Commits the accounting of a settled purchase.
///
/// The host calls this only after both transfers of the receipt's plan have
/// gone through, so no record ever reflects a sale that did not move funds;
/// the `requires` restate what [`plan_purchase`] established.
pub fn commit_purchase(sale: &mut SaleConfig, receipt: &Receipt)
    requires
        receipt.new_total == old(sale).total_raised + receipt.units,
        receipt.new_total <= old(sale).hard_cap,
    ensures
        *final(sale) == (SaleConfig { total_raised: receipt.new_total, ..*old(sale) }),
{
    sale.total_raised = receipt.new_total;
}

/// Settles a purchase against the sale record in one call.
///
/// This is the whole engine-side sequence: the checks of [`plan_purchase`],
/// then the commit of [`commit_purchase`]. The host performs the receipt's
/// two transfers between the two halves; it may call this combined form when
/// its ledger discards the transfers of a failed operation as a unit.
pub fn purchase(
    sale: &mut SaleConfig,
    buyer: u64,
    amount: u64,
    now: i64,
    vault_balance: u64,
    buyer_balance: u64,
) -> (r: Result<Receipt, SaleError>)
    ensures
        match purchase_outcome(*old(sale), amount, now, vault_balance, buyer_balance) {
            Ok(updated) => r matches Ok(rec) && *final(sale) == updated
                && rec == purchase_receipt(*old(sale), buyer, amount),
            Err(e) => r == Err::<Receipt, SaleError>(e) && *final(sale) == *old(sale),
        },
{
    let receipt = match plan_purchase(sale, buyer, amount, now, vault_balance, buyer_balance) {
        Ok(rec) => rec,
        Err(e) => {
            return Err(e);
        },
    };
    commit_purchase(sale, &receipt);
    Ok(receipt)
}

/// One entry of a purchase history: a request together with the ledger's
/// readings at the time it arrived.
#[derive(Clone, Copy, Debug, PartialEq, Eq, Structural)]
pub struct PurchaseRequest {
    /// Units asked for.
    pub amount: u64,
    /// The clock's reading.
    pub now: i64,
    /// The vault's balance as the ledger reported it.
    pub vault_balance: u64,
    /// The buyer's balance as the ledger reported it.
    pub buyer_balance: u64,
}

/// The record after one request: updated when the purchase settles,
/// untouched when any check refuses it.
pub open spec fn purchase_step(sale: SaleConfig, req: PurchaseRequest) -> SaleConfig {
    match purchase_outcome(sale, req.amount, req.now, req.vault_balance, req.buyer_balance) {
        Ok(updated) => updated,
        Err(_) => sale,
    }
}

/// The record after a whole history of requests, settled or refused, in
/// order.
pub open spec fn run_purchases(sale: SaleConfig, reqs: Seq<PurchaseRequest>) -> SaleConfig
    decreases reqs.len(),
{
    if reqs.len() == 0 {
        sale
    } else {
        run_purchases(purchase_step(sale, reqs[0]), reqs.subrange(1, reqs.len() as int))
    }
}

/// Law: creation succeeds exactly when the caps are ordered, the hard cap is
/// positive, the window is ordered, and the window has not already closed.
/// (A zero deposit is refused whatever else holds, so it is left out here.)
pub proof fn lemma_create_sale_succeeds_iff(
    creator: u64,
    asset: u64,
    soft_cap: u64,
    hard_cap: u64,
    start_time: i64,
    end_time: i64,
    price_per_unit: u64,
    deposit_amount: u64,
    vault_reference: u64,
    now: i64,
)
    requires
        deposit_amount != 0,
    ensures
        create_sale_outcome(
            creator,
            asset,
            soft_cap,
            hard_cap,
            start_time,
            end_time,
            price_per_unit,
            deposit_amount,
            vault_reference,
            now,
        ) is Ok <==> soft_cap <= hard_cap && hard_cap > 0 && start_time < end_time && end_time
            > now,
{
}

/// Law: a settled purchase never lowers the running total, never carries it
/// past the hard cap, and touches no other field; well-formedness survives.
pub proof fn lemma_purchase_preserves_invariant(
    sale: SaleConfig,
    amount: u64,
    now: i64,
    vault_balance: u64,
    buyer_balance: u64,
)
    requires
        sale.wf(),
    ensures
        purchase_step(
            sale,
            PurchaseRequest { amount, now, vault_balance, buyer_balance },
        ).wf(),
        purchase_step(
            sale,
            PurchaseRequest { amount, now, vault_balance, buyer_balance },
        ).total_raised >= sale.total_raised,
        purchase_step(sale, PurchaseRequest { amount, now, vault_balance, buyer_balance })
            == (SaleConfig {
            total_raised: purchase_step(
                sale,
                PurchaseRequest { amount, now, vault_balance, buyer_balance },
            ).total_raised,
            ..sale
        }),
{
}

/// Law: over every reachable history of requests, the running total is
/// non-decreasing and stays within the hard cap, and the configuration
/// fields never change.
pub proof fn lemma_total_raised_monotone_and_capped(sale: SaleConfig, reqs: Seq<PurchaseRequest>)
    requires
        sale.wf(),
    ensures
        run_purchases(sale, reqs).wf(),
        run_purchases(sale, reqs).total_raised >= sale.total_raised,
        run_purchases(sale, reqs).total_raised <= sale.hard_cap,
        run_purchases(sale, reqs) == (SaleConfig {
            total_raised: run_purchases(sale, reqs).total_raised,
            ..sale
        }),
    decreases reqs.len(),
{
    if reqs.len() > 0 {
        let stepped = purchase_step(sale, reqs[0]);
        lemma_purchase_preserves_invariant(
            sale,
            reqs[0].amount,
            reqs[0].now,
            reqs[0].vault_balance,
            reqs[0].buyer_balance,
        );
        lemma_total_raised_monotone_and_capped(stepped, reqs.subrange(1, reqs.len() as int));
    }
}

/// Law: whenever the cost or the new total would leave the unsigned 64-bit
/// range, an active sale refuses the purchase with exactly
/// [`SaleError::ArithmeticOverflow`].
pub proof fn lemma_purchase_overflow_refused(
    sale: SaleConfig,
    amount: u64,
    now: i64,
    vault_balance: u64,
    buyer_balance: u64,
)
    ensures
        sale.active(now) && (amount * sale.price_per_unit > u64::MAX || sale.total_raised + amount
            > u64::MAX) ==> purchase_outcome(sale, amount, now, vault_balance, buyer_balance)
            == Err::<SaleConfig, SaleError>(SaleError::ArithmeticOverflow),
{
}

/// Law: outside the sale window the purchase fails with
/// [`SaleError::SaleNotActive`], whatever the caps and balances hold.
pub proof fn lemma_purchase_outside_window_refused(
    sale: SaleConfig,
    amount: u64,
    now: i64,
    vault_balance: u64,
    buyer_balance: u64,
)
    requires
        !sale.active(now),
    ensures
        purchase_outcome(sale, amount, now, vault_balance, buyer_balance) == Err::<
            SaleConfig,
            SaleError,
        >(SaleError::SaleNotActive),
{
}

} // verus!
