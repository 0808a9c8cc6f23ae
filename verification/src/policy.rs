//! The transfer-policy evaluator: four toggleable gates over one asset.

use vstd::prelude::*;

use crate::errors::PolicyError;

verus! {

/// The persistent policy of one governed asset: which gates are on, and the
/// parameters each gate reads.
#[derive(Clone, Copy, Debug, PartialEq, Eq)]
pub struct PolicyConfig {
    /// Who alone may mutate the policy and its allow-list.
    pub owner: u64,
    /// The governed asset.
    pub asset: u64,
    /// The asset a wallet must hold when the holding gate is on.
    pub gating_asset: u64,
    /// Gate toggle: allow-list membership.
    pub whitelist_enabled: bool,
    /// Gate toggle: time-of-day trading window.
    pub trading_time_enabled: bool,
    /// Gate toggle: min/max transfer bounds.
    pub max_transfer_enabled: bool,
    /// Gate toggle: holding of the gating asset.
    pub nft_gated: bool,
    /// Minute of day at which trading opens, if set. In `[0, 1440)`.
    pub open_minute: Option<u16>,
    /// Minute of day at which trading closes, if set. In `[0, 1440)`.
    pub close_minute: Option<u16>,
    /// Largest amount the bounds gate lets through.
    pub max_transfer_amount: u64,
    /// Smallest amount the bounds gate lets through.
    pub min_transfer_amount: u64,
}

/// The minute of day a clock reading falls in: `(now mod 86400) div 60`,
/// with the mathematical (Euclidean) modulus, so always in `[0, 1440)`.
pub open spec fn minute_of_day_spec(now: i64) -> int {
    ((now as int) % 86400) / 60
}

/// Computes [`minute_of_day_spec`] for any clock reading.
pub fn minute_of_day(now: i64) -> (m: u16)
    ensures
        m == minute_of_day_spec(now),
        0 <= m < 1440,
{
    let rem: i64 = now % 86400;
    let seconds_since_midnight: i64 = if rem < 0 {
        rem + 86400
    } else {
        rem
    };
    assert(seconds_since_midnight == (now as int) % 86400) by {
        vstd::arithmetic::div_mod::lemma_fundamental_div_mod(now as int, 86400);
    };
    (seconds_since_midnight / 60) as u16
}

/// The trading window contains `minute`. A window that wraps midnight
/// (`open > close`) is open from `open` to the end of the day and again
/// from midnight up to `close`; one with `open == close` is never open.
pub open spec fn window_open(open_minute: u16, close_minute: u16, minute: int) -> bool {
    if open_minute < close_minute {
        open_minute <= minute < close_minute
    } else if open_minute > close_minute {
        minute >= open_minute || minute < close_minute
    } else {
        false
    }
}

/// Decides [`window_open`] for the window and minute given.
pub fn is_window_open(open_minute: u16, close_minute: u16, minute: u16) -> (r: bool)
    ensures
        r == window_open(open_minute, close_minute, minute as int),
{
    if open_minute < close_minute {
        open_minute <= minute && minute < close_minute
    } else if open_minute > close_minute {
        minute >= open_minute || minute < close_minute
    } else {
        false
    }
}

/// Checks the trading window against the clock: Ok exactly when the minute
/// of day of `now` falls inside the window.
pub fn validate_trading_hours(open_minute: u16, close_minute: u16, now: i64) -> (r: Result<
    (),
    PolicyError,
>)
    ensures
        r is Ok <==> window_open(open_minute, close_minute, minute_of_day_spec(now)),
        r is Err ==> r == Err::<(), PolicyError>(PolicyError::TradingClosed),
{
    let minute = minute_of_day(now);
    if is_window_open(open_minute, close_minute, minute) {
        Ok(())
    } else {
        Err(PolicyError::TradingClosed)
    }
}

/// Law: a degenerate window whose open and close minutes coincide is closed
/// at every minute of the day.
pub proof fn lemma_equal_minutes_always_closed(open_minute: u16, minute: int)
    ensures
        !window_open(open_minute, open_minute, minute),
{
}

/// The unsigned 64-bit value little-endian-encoded at bytes 64..72 of a
/// holding account's raw data. This byte offset is the external layout of a
/// token holding account: the balance field sits there, least significant
/// byte first.
pub open spec fn holding_units_spec(data: Seq<u8>) -> int {
    data[64] + data[65] * 0x100 + data[66] * 0x1_0000 + data[67] * 0x100_0000 + data[68]
        * 0x1_0000_0000 + data[69] * 0x100_0000_0000 + data[70] * 0x1_0000_0000_0000 + data[71]
        * 0x100_0000_0000_0000
}

/// Reads the balance field of a holding account's raw data: bytes 64..72,
/// little-endian. None when the data is too short to carry the field.
pub fn holding_units(data: &Vec<u8>) -> (r: Option<u64>)
    ensures
        data@.len() >= 72 ==> r == Some(holding_units_spec(data@) as u64) && holding_units_spec(
            data@,
        ) <= u64::MAX,
        data@.len() < 72 ==> r is None,
{
    if data.len() < 72 {
        return None;
    }
    let b0 = data[64] as u64;
    let b1 = data[65] as u64;
    let b2 = data[66] as u64;
    let b3 = data[67] as u64;
    let b4 = data[68] as u64;
    let b5 = data[69] as u64;
    let b6 = data[70] as u64;
    let b7 = data[71] as u64;
    Some(
        b0 + b1 * 0x100 + b2 * 0x1_0000 + b3 * 0x100_0000 + b4 * 0x1_0000_0000 + b5
            * 0x100_0000_0000 + b6 * 0x1_0000_0000_0000 + b7 * 0x100_0000_0000_0000,
    )
}

/// One asset's policy together with its allow-list markers.
///
/// A marker is a presence-only record for a (asset, wallet) pair; the
/// registry is the per-asset store, so a marker here is just the wallet.
pub struct PolicyRegistry {
    config: PolicyConfig,
    allow: Vec<u64>,
}

impl PolicyRegistry {
    /// A marker exists for `wallet` under this registry's asset.
    pub closed spec fn has_marker_spec(self, wallet: u64) -> bool {
        self.allow@.contains(wallet)
    }

    /// The policy the gates read.
    pub closed spec fn policy(self) -> PolicyConfig {
        self.config
    }

    /// Hands the stored policy out.
    pub fn config(&self) -> (c: PolicyConfig)
        ensures
            c == self.policy(),
    {
        self.config
    }

    /// Creates the registry for one asset. Every gate starts toggled off;
    /// each gate's parameters are stored as given, unvalidated, and no wallet
    /// holds a marker yet.
    pub fn new(
        owner: u64,
        asset: u64,
        gating_asset: u64,
        open_minute: Option<u16>,
        close_minute: Option<u16>,
        max_transfer_amount: u64,
        min_transfer_amount: u64,
    ) -> (r: PolicyRegistry)
        ensures
            r.policy() == (PolicyConfig {
                owner,
                asset,
                gating_asset,
                whitelist_enabled: false,
                trading_time_enabled: false,
                max_transfer_enabled: false,
                nft_gated: false,
                open_minute,
                close_minute,
                max_transfer_amount,
                min_transfer_amount,
            }),
            forall|w: u64| !r.has_marker_spec(w),
    {
        PolicyRegistry {
            config: PolicyConfig {
                owner,
                asset,
                gating_asset,
                whitelist_enabled: false,
                trading_time_enabled: false,
                max_transfer_enabled: false,
                nft_gated: false,
                open_minute,
                close_minute,
                max_transfer_amount,
                min_transfer_amount,
            },
            allow: Vec::new(),
        }
    }

    /// Looks an allow-list marker up for the exact wallet.
    pub fn has_marker(&self, wallet: u64) -> (r: bool)
        ensures
            r == self.has_marker_spec(wallet),
    {
        let mut i: usize = 0;
        while i < self.allow.len()
            invariant
                i <= self.allow@.len(),
                forall|j: int| 0 <= j < i ==> self.allow@[j] != wallet,
            decreases self.allow@.len() - i,
        {
            if self.allow[i] == wallet {
                return true;
            }
            i += 1;
        }
        false
    }

    /// Grants a marker to `wallet`. Owner-only; granting a marker that
    /// already exists leaves the store as it is. No other wallet's marker
    /// and no field of the policy changes.
    pub fn add_to_whitelist(&mut self, caller: u64, wallet: u64) -> (r: Result<(), PolicyError>)
        ensures
            caller != old(self).policy().owner ==> r == Err::<(), PolicyError>(
                PolicyError::Unauthorized,
            ) && *final(self) == *old(self),
            caller == old(self).policy().owner ==> r == Ok::<(), PolicyError>(())
                && final(self).has_marker_spec(wallet),
            final(self).policy() == old(self).policy(),
            forall|w: u64|
                w != wallet ==> final(self).has_marker_spec(w) == old(self).has_marker_spec(w),
    {
        if caller != self.config.owner {
            return Err(PolicyError::Unauthorized);
        }
        if !self.has_marker(wallet) {
            let ghost before = self.allow@;
            self.allow.push(wallet);
            proof {
                broadcast use vstd::seq_lib::lemma_seq_contains_after_push;

                assert forall|w: u64|
                    self.allow@.contains(w) == (w == wallet || before.contains(w)) by {
                    assert(self.allow@ == before.push(wallet));
                };
            }
        }
        Ok(())
    }

    /// Revokes the marker of `wallet`. Owner-only; revoking a marker that
    /// does not exist leaves the store as it is. No other wallet's marker
    /// and no field of the policy changes.
    pub fn remove_from_whitelist(&mut self, caller: u64, wallet: u64) -> (r: Result<
        (),
        PolicyError,
    >)
        ensures
            caller != old(self).policy().owner ==> r == Err::<(), PolicyError>(
                PolicyError::Unauthorized,
            ) && *final(self) == *old(self),
            caller == old(self).policy().owner ==> r == Ok::<(), PolicyError>(())
                && !(final(self).has_marker_spec(wallet)),
            final(self).policy() == old(self).policy(),
            forall|w: u64|
                w != wallet ==> final(self).has_marker_spec(w) == old(self).has_marker_spec(w),
    {
        if caller != self.config.owner {
            return Err(PolicyError::Unauthorized);
        }
        let mut kept: Vec<u64> = Vec::new();
        let mut i: usize = 0;
        while i < self.allow.len()
            invariant
                i <= self.allow@.len(),
                forall|w: u64| #[trigger]
                    kept@.contains(w) ==> w != wallet && self.allow@.contains(w),
                forall|j: int|
                    0 <= j < i && self.allow@[j] != wallet ==> kept@.contains(#[trigger] self.allow@[j]),
            decreases self.allow@.len() - i,
        {
            let entry = self.allow[i];
            if entry != wallet {
                let ghost kept_before = kept@;
                kept.push(entry);
                proof {
                    broadcast use vstd::seq_lib::lemma_seq_contains_after_push;

                    assert(self.allow@[i as int] == entry);
                    assert forall|w: u64|
                        kept@.contains(w) == (w == entry || kept_before.contains(w)) by {
                        assert(kept@ == kept_before.push(entry));
                    };
                }
            }
            i += 1;
        }
        assert forall|w: u64|
            w != wallet implies kept@.contains(w) == self.allow@.contains(w) by {
            if self.allow@.contains(w) {
                let k = choose|k: int| 0 <= k < self.allow@.len() && self.allow@[k] == w;
                assert(kept@.contains(self.allow@[k]));
            }
        };
        self.allow = kept;
        Ok(())
    }

    /// Sets the four gate toggles. Owner-only; each gate's parameters, the
    /// identities and the allow-list stay as they are.
    pub fn update_flags(
        &mut self,
        caller: u64,
        whitelist_enabled: bool,
        trading_time_enabled: bool,
        max_transfer_enabled: bool,
        nft_gated: bool,
    ) -> (r: Result<(), PolicyError>)
        ensures
            caller != old(self).policy().owner ==> r == Err::<(), PolicyError>(
                PolicyError::Unauthorized,
            ) && *final(self) == *old(self),
            caller == old(self).policy().owner ==> r == Ok::<(), PolicyError>(())
                && final(self).policy() == (PolicyConfig {
                whitelist_enabled,
                trading_time_enabled,
                max_transfer_enabled,
                nft_gated,
                ..old(self).policy()
            }),
            forall|w: u64| final(self).has_marker_spec(w) == old(self).has_marker_spec(w),
    {
        if caller != self.config.owner {
            return Err(PolicyError::Unauthorized);
        }
        self.config.whitelist_enabled = whitelist_enabled;
        self.config.trading_time_enabled = trading_time_enabled;
        self.config.max_transfer_enabled = max_transfer_enabled;
        self.config.nft_gated = nft_gated;
        Ok(())
    }

    /// Evaluates the four gates, in their fixed order, for a transfer of
    /// `amount` by `wallet` at time `now`. Pure: nothing is mutated.
    ///
    /// `holding_data` is the raw data of the wallet's holding account for
    /// the gating asset, as the host read it; `None` stands for an account
    /// that does not exist. Only the holding gate looks at it.
    pub fn evaluate(
        &self,
        wallet: u64,
        amount: u64,
        now: i64,
        holding_data: Option<&Vec<u8>>,
    ) -> (r: Result<(), PolicyError>)
        ensures
            r == evaluate_outcome(
                self.policy(),
                |w: u64| self.has_marker_spec(w),
                wallet,
                amount,
                now,
                match holding_data {
                    Some(d) => Some(d@),
                    None => None,
                },
            ),
    {
        if self.config.nft_gated {
            let units = match holding_data {
                Some(data) => holding_units(data),
                None => None,
            };
            match units {
                Some(u) if u > 0 => (),
                _ => {
                    return Err(PolicyError::MissingRequiredHolding);
                },
            }
        }
        if self.config.trading_time_enabled {
            if let (Some(open), Some(close)) = (self.config.open_minute, self.config.close_minute) {
                match validate_trading_hours(open, close, now) {
                    Ok(()) => (),
                    Err(e) => {
                        return Err(e);
                    },
                }
            }
        }
        if self.config.max_transfer_enabled {
            if amount > self.config.max_transfer_amount {
                return Err(PolicyError::ExceedsMaxTransfer);
            }
            if amount < self.config.min_transfer_amount {
                return Err(PolicyError::BelowMinTransfer);
            }
        }
        if self.config.whitelist_enabled {
            if !self.has_marker(wallet) {
                return Err(PolicyError::NotWhitelisted);
            }
        }
        Ok(())
    }
}

/// The holding gate passes: off, or the holding account exists, carries the
/// balance field, and the balance is non-zero.
pub open spec fn holding_gate_passes(config: PolicyConfig, holding_data: Option<Seq<u8>>) -> bool {
    !config.nft_gated || (holding_data matches Some(d) && d.len() >= 72 && holding_units_spec(d)
        != 0)
}

/// The trading-window gate passes: off, a boundary minute unset, or the
/// minute of day of `now` inside the window.
pub open spec fn window_gate_passes(config: PolicyConfig, now: i64) -> bool {
    !config.trading_time_enabled || !(config.open_minute is Some && config.close_minute is Some)
        || window_open(
        config.open_minute->Some_0,
        config.close_minute->Some_0,
        minute_of_day_spec(now),
    )
}

/// The bounds gate passes: off, or the amount within the closed interval.
pub open spec fn bounds_gate_passes(config: PolicyConfig, amount: u64) -> bool {
    !config.max_transfer_enabled || (config.min_transfer_amount <= amount
        <= config.max_transfer_amount)
}

/// The allow-list gate passes: off, or a marker exists for the wallet.
pub open spec fn allow_gate_passes(
    config: PolicyConfig,
    has_marker: spec_fn(u64) -> bool,
    wallet: u64,
) -> bool {
    !config.whitelist_enabled || has_marker(wallet)
}

/// What [`PolicyRegistry::evaluate`] returns: the first failing gate's
/// error, in the order holding, window, bounds (maximum before minimum),
/// allow-list; Ok when every enabled gate passes.
pub open spec fn evaluate_outcome(
    config: PolicyConfig,
    has_marker: spec_fn(u64) -> bool,
    wallet: u64,
    amount: u64,
    now: i64,
    holding_data: Option<Seq<u8>>,
) -> Result<(), PolicyError> {
    if !holding_gate_passes(config, holding_data) {
        Err(PolicyError::MissingRequiredHolding)
    } else if !window_gate_passes(config, now) {
        Err(PolicyError::TradingClosed)
    } else if config.max_transfer_enabled && amount > config.max_transfer_amount {
        Err(PolicyError::ExceedsMaxTransfer)
    } else if config.max_transfer_enabled && amount < config.min_transfer_amount {
        Err(PolicyError::BelowMinTransfer)
    } else if !allow_gate_passes(config, has_marker, wallet) {
        Err(PolicyError::NotWhitelisted)
    } else {
        Ok(())
    }
}

/// Law: the gates are independent conjuncts — the evaluation passes exactly
/// when each of the four gates passes on its own reading of the request.
pub proof fn lemma_evaluation_is_conjunction(
    config: PolicyConfig,
    has_marker: spec_fn(u64) -> bool,
    wallet: u64,
    amount: u64,
    now: i64,
    holding_data: Option<Seq<u8>>,
)
    ensures
        evaluate_outcome(config, has_marker, wallet, amount, now, holding_data) is Ok
            <==> holding_gate_passes(config, holding_data) && window_gate_passes(config, now)
            && bounds_gate_passes(config, amount) && allow_gate_passes(config, has_marker, wallet),
{
}

/// Law: with the allow-list gate on, a marker for the exact wallet decides
/// that gate and nothing else does — the evaluation ever reports
/// [`PolicyError::NotWhitelisted`] exactly against a wallet with no marker,
/// and when the three other gates pass, the evaluation passes exactly when
/// the marker exists.
pub proof fn lemma_allow_list_gate_decides(
    config: PolicyConfig,
    has_marker: spec_fn(u64) -> bool,
    wallet: u64,
    amount: u64,
    now: i64,
    holding_data: Option<Seq<u8>>,
)
    ensures
        evaluate_outcome(config, has_marker, wallet, amount, now, holding_data) == Err::<
            (),
            PolicyError,
        >(PolicyError::NotWhitelisted) ==> !has_marker(wallet),
        config.whitelist_enabled && holding_gate_passes(config, holding_data)
            && window_gate_passes(config, now) && bounds_gate_passes(config, amount) ==> (
        evaluate_outcome(config, has_marker, wallet, amount, now, holding_data) is Ok <==> has_marker(
            wallet,
        )),
{
}

} // verus!
