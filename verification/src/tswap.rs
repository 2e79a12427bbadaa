//! Staged swap scheduler: the core of the bot.
//!
//! A total swap amount is executed as `max_step` partial swaps spaced in
//! time. Every step is quoted afresh on chain; the quoted output bounds the
//! acceptable output through the slippage formula; gas limit and gas price
//! come from estimates with documented fallbacks and margins. A failed step
//! is recorded and the schedule continues: the run always ends after exactly
//! `max_step` steps.

use vstd::prelude::*;

verus! {

use crate::config::Config;
use crate::gas::{or_default, or_default_spec, scale_bps, scale_bps_spec};

/// Margin multiplier, in basis points, on estimated gas for swap and
/// approval calls (130%).
pub const GAS_MULTIPLIER: u64 = 13000;

/// Gas price used when the network reading failed (50 gwei).
pub const DEFAULT_GAS_PRICE: u64 = 50000000000;

/// Gas limit used when estimating an approval call failed.
pub const DEFAULT_APPROVE_CALL_GAS: u64 = 40000;

/// Gas limit used when estimating a swap call failed.
pub const DEFAULT_SWAP_CALL_GAS: u64 = 200000;

/// How far in the future, in milliseconds, each swap's deadline lies.
pub const SWAP_DEADLINE: u128 = 120000;

/// The largest reading the wall clock can yield: the whole-second part of a
/// Duration is a u64, so the milliseconds since the Unix epoch are at most
/// u64::MAX * 1000 + 999.
pub const MAX_UNIX_MILLIS: u128 = 18446744073709551615999;

/// The staged swap scheduler with its run-long surroundings: the owner
/// account the swaps pay out to and the loaded configuration.
#[derive(Debug, Clone)]
pub struct Tswap {
    pub owner: String,
    pub config: Config,
}

/// One approval call, ready for submission.
#[derive(Debug, Clone, Copy, PartialEq, Eq, Structural)]
pub struct ApproveCall {
    /// The exact amount approved — never an unlimited approval.
    pub value: u128,
    /// Gas limit: the estimate or its fallback, scaled by the margin.
    pub gas_limit: u128,
    /// Gas price: the network reading or its fallback, scaled by the
    /// configured multiplier.
    pub gas_price: u128,
}

/// One partial swap, ready for submission: exact input, minimum output,
/// deadline, gas parameters.
#[derive(Debug, Clone, Copy, PartialEq, Eq, Structural)]
pub struct SwapCall {
    /// Exact input amount of this step.
    pub amount_in: u128,
    /// Least acceptable output under the slippage formula.
    pub amount_out_min: u128,
    /// Wall-clock deadline of the swap, in milliseconds.
    pub deadline: u128,
    /// Gas limit: the estimate or its fallback, scaled by the margin.
    pub gas_limit: u128,
    /// Gas price: the network reading or its fallback, scaled by the
    /// configured multiplier.
    pub gas_price: u128,
}

/// What one finished step reported.
#[derive(Debug, Clone, Copy, PartialEq, Eq, Structural)]
pub struct StepReport {
    /// Position of the step in the schedule, counted from one.
    pub step: u64,
    /// Input amount the step swapped.
    pub amount: u128,
    /// Whether the submission succeeded; a failure never aborts the run.
    pub ok: bool,
}

/// The input amount of step `step_count` (counted from one) of a schedule
/// that splits `total` over `max_step` steps: every step swaps the
/// truncating quotient, and the last step also absorbs the remainder, so
/// the steps sum to `total` exactly.
pub open spec fn step_amount_spec(total: u128, max_step: u64, step_count: u64) -> int {
    let per = total as int / max_step as int;
    if step_count == max_step {
        total - per * (max_step - 1)
    } else {
        per
    }
}

/// Sum of the first `k` step amounts of the schedule.
pub open spec fn sum_step_amounts(total: u128, max_step: u64, k: u64) -> int
    decreases k,
{
    if k == 0 {
        0
    } else {
        sum_step_amounts(total, max_step, (k - 1) as u64) + step_amount_spec(total, max_step, k)
    }
}

/// Sum of the amounts a run's reports say were swapped.
pub open spec fn sum_report_amounts(s: Seq<StepReport>) -> int
    decreases s.len(),
{
    if s.len() == 0 {
        0
    } else {
        sum_report_amounts(s.drop_last()) + s.last().amount
    }
}

proof fn lemma_partial_sum(total: u128, max_step: u64, k: u64)
    requires
        1 <= max_step,
        k < max_step,
    ensures
        sum_step_amounts(total, max_step, k) == k * (total as int / max_step as int),
    decreases k,
{
    let per = total as int / max_step as int;
    if k == 0 {
        assert(0int * per == 0) by (nonlinear_arith);
    } else {
        lemma_partial_sum(total, max_step, (k - 1) as u64);
        assert((k - 1) * per + per == k * per) by (nonlinear_arith);
    }
}

/// The remainder-absorption law of the schedule: the `max_step` step
/// amounts sum to the total exactly, and every step but the last swaps the
/// truncating quotient `total / max_step`.
pub proof fn lemma_step_amounts_cover_total(total: u128, max_step: u64)
    requires
        max_step >= 1,
    ensures
        sum_step_amounts(total, max_step, max_step) == total,
        forall|i: u64|
            1 <= i < max_step ==> step_amount_spec(total, max_step, i) == total as int
                / max_step as int,
{
    let per = total as int / max_step as int;
    lemma_partial_sum(total, max_step, (max_step - 1) as u64);
    assert((max_step - 1) * per == per * (max_step - 1)) by (nonlinear_arith);
}

/// The input amount of one step, executable form.
pub fn step_amount(total: u128, max_step: u64, step_count: u64) -> (r: u128)
    requires
        1 <= step_count <= max_step,
    ensures
        r == step_amount_spec(total, max_step, step_count),
{
    let per: u128 = total / (max_step as u128);
    if step_count == max_step {
        proof {
            let t = total as int;
            let m = max_step as int;
            let p = t / m;
            vstd::arithmetic::div_mod::lemma_fundamental_div_mod(t, m);
            vstd::arithmetic::div_mod::lemma_mod_bound(t, m);
            vstd::arithmetic::div_mod::lemma_div_pos_is_pos(t, m);
            assert(p * (m - 1) <= m * p) by (nonlinear_arith)
                requires
                    p >= 0,
                    m >= 1,
            ;
        }
        total - per * ((max_step - 1) as u128)
    } else {
        per
    }
}

/// The minimum acceptable output for a quoted output: literally
/// `quoted * slippage_bps / 10000`, truncating. The slippage tolerance
/// acts as a bare multiplier on the quote — deliberately not the inverted
/// `(10000 - slippage) / 10000` reading.
pub fn minimum_output(quoted: u128, slippage_bps: u64) -> (r: u128)
    requires
        quoted * slippage_bps <= u128::MAX,
    ensures
        r == scale_bps_spec(quoted, slippage_bps),
{
    scale_bps(quoted, slippage_bps)
}

/// The last element of an amounts path, zero for an empty path.
pub open spec fn last_or_zero(s: Seq<u128>) -> u128 {
    if s.len() == 0 {
        0
    } else {
        s[s.len() - 1]
    }
}

/// The output a quote call yields: the last amount of the returned path,
/// or zero when the call failed or returned nothing.
pub open spec fn quoted_output_spec(quote: Option<Seq<u128>>) -> u128 {
    match quote {
        Some(s) => last_or_zero(s),
        None => 0,
    }
}

/// View of a quote outcome as the sequence it carries.
pub open spec fn quote_view(quote: Option<Vec<u128>>) -> Option<Seq<u128>> {
    match quote {
        Some(v) => Some(v@),
        None => None,
    }
}

/// The output a quote call yields, executable form: failed quotes count as
/// a zero output and never propagate.
pub fn quoted_output(quote: &Option<Vec<u128>>) -> (r: u128)
    ensures
        r == quoted_output_spec(quote_view(*quote)),
{
    match quote {
        Some(v) => {
            if v.len() == 0 {
                0
            } else {
                v[v.len() - 1]
            }
        },
        None => 0,
    }
}

impl Tswap {
    /// A scheduler for one run, owned by `owner` under `config`.
    pub fn new(owner: String, config: Config) -> (t: Tswap)
        ensures
            t.owner == owner,
            t.config == config,
    {
        Tswap { owner, config }
    }

    /// Build the approval call for exactly `value`: gas limit from the
    /// estimate or its fallback with the 130% margin, gas price from the
    /// network reading or its fallback scaled by the configured multiplier.
    pub fn approve_token(
        &self,
        value: u128,
        gas_estimate: Option<u128>,
        gas_price_reading: Option<u128>,
    ) -> (c: ApproveCall)
        requires
            or_default_spec(gas_estimate, DEFAULT_APPROVE_CALL_GAS as u128) * GAS_MULTIPLIER
                <= u128::MAX,
            or_default_spec(gas_price_reading, DEFAULT_GAS_PRICE as u128)
                * self.config.network.gas_price_multipler <= u128::MAX,
        ensures
            c.value == value,
            c.gas_limit == scale_bps_spec(
                or_default_spec(gas_estimate, DEFAULT_APPROVE_CALL_GAS as u128),
                GAS_MULTIPLIER,
            ),
            c.gas_price == scale_bps_spec(
                or_default_spec(gas_price_reading, DEFAULT_GAS_PRICE as u128),
                self.config.network.gas_price_multipler,
            ),
    {
        let gas_limit = scale_bps(
            or_default(gas_estimate, DEFAULT_APPROVE_CALL_GAS as u128),
            GAS_MULTIPLIER,
        );
        let gas_price = scale_bps(
            or_default(gas_price_reading, DEFAULT_GAS_PRICE as u128),
            self.config.network.gas_price_multipler,
        );
        ApproveCall { value, gas_limit, gas_price }
    }

    /// Build one step's swap call from the fresh quote outcome: exact input
    /// `amount_in`, minimum output from the slippage formula over the
    /// quoted output, a deadline 120 seconds past `now_millis`, and gas
    /// parameters from the estimates with their documented fallbacks.
    pub fn swap(
        &self,
        amount_in: u128,
        quote: &Option<Vec<u128>>,
        gas_estimate: Option<u128>,
        gas_price_reading: Option<u128>,
        now_millis: u128,
    ) -> (c: SwapCall)
        requires
            quoted_output_spec(quote_view(*quote)) * self.config.trade.slippage <= u128::MAX,
            or_default_spec(gas_estimate, DEFAULT_SWAP_CALL_GAS as u128) * GAS_MULTIPLIER
                <= u128::MAX,
            or_default_spec(gas_price_reading, DEFAULT_GAS_PRICE as u128)
                * self.config.network.gas_price_multipler <= u128::MAX,
            now_millis + SWAP_DEADLINE <= u128::MAX,
        ensures
            c.amount_in == amount_in,
            c.amount_out_min == scale_bps_spec(
                quoted_output_spec(quote_view(*quote)),
                self.config.trade.slippage,
            ),
            c.deadline == now_millis + SWAP_DEADLINE,
            c.gas_limit == scale_bps_spec(
                or_default_spec(gas_estimate, DEFAULT_SWAP_CALL_GAS as u128),
                GAS_MULTIPLIER,
            ),
            c.gas_price == scale_bps_spec(
                or_default_spec(gas_price_reading, DEFAULT_GAS_PRICE as u128),
                self.config.network.gas_price_multipler,
            ),
    {
        let amount_out = quoted_output(quote);
        let amount_out_min = minimum_output(amount_out, self.config.trade.slippage);
        let deadline = now_millis + SWAP_DEADLINE;
        let gas_limit = scale_bps(
            or_default(gas_estimate, DEFAULT_SWAP_CALL_GAS as u128),
            GAS_MULTIPLIER,
        );
        let gas_price = scale_bps(
            or_default(gas_price_reading, DEFAULT_GAS_PRICE as u128),
            self.config.network.gas_price_multipler,
        );
        SwapCall { amount_in, amount_out_min, deadline, gas_limit, gas_price }
    }

    /// Run a whole schedule over the submission outcomes of its steps: step
    /// `i` swaps its schedule amount and reports `outcomes[i - 1]`. The run
    /// always produces exactly `max_step` reports — a failed step is
    /// recorded, never aborts the schedule — and the reported amounts sum
    /// to `amount` exactly.
    pub fn tswap(&self, amount: u128, max_step: u64, outcomes: &Vec<bool>) -> (reports: Vec<
        StepReport,
    >)
        requires
            max_step >= 1,
            outcomes@.len() == max_step,
        ensures
            reports@.len() == max_step,
            forall|i: int|
                0 <= i < max_step ==> reports@[i] == (StepReport {
                    step: (i + 1) as u64,
                    amount: step_amount_spec(amount, max_step, (i + 1) as u64) as u128,
                    ok: outcomes@[i],
                }),
            sum_report_amounts(reports@) == amount,
    {
        let mut reports: Vec<StepReport> = Vec::new();
        let mut idx: usize = 0;
        while idx < outcomes.len()
            invariant
                idx <= outcomes@.len(),
                outcomes@.len() == max_step,
                max_step >= 1,
                reports@.len() == idx,
                forall|i: int|
                    0 <= i < idx ==> reports@[i] == (StepReport {
                        step: (i + 1) as u64,
                        amount: step_amount_spec(amount, max_step, (i + 1) as u64) as u128,
                        ok: outcomes@[i],
                    }),
                sum_report_amounts(reports@) == sum_step_amounts(amount, max_step, idx as u64),
            decreases outcomes@.len() - idx,
        {
            let ghost pre = reports@;
            let step_count: u64 = (idx as u64) + 1;
            let samount = step_amount(amount, max_step, step_count);
            let ok = outcomes[idx];
            reports.push(StepReport { step: step_count, amount: samount, ok });
            proof {
                assert(step_amount_spec(amount, max_step, step_count) as u128 == samount);
                assert(reports@[idx as int] == (StepReport {
                    step: ((idx as int) + 1) as u64,
                    amount: step_amount_spec(amount, max_step, ((idx as int) + 1) as u64) as u128,
                    ok: outcomes@[idx as int],
                }));
                assert(reports@.drop_last() =~= pre);
                assert(sum_report_amounts(reports@) == sum_report_amounts(pre) + samount);
            }
            idx = idx + 1;
        }
        proof {
            lemma_step_amounts_cover_total(amount, max_step);
        }
        reports
    }
}

/// Timing state of one staged swap run: a step fires immediately at the
/// start and then whenever more than `step_interval` seconds have passed
/// since the last firing.
#[derive(Debug, Clone, Copy)]
pub struct StepSchedule {
    /// Steps fired so far.
    pub step_count: u64,
    /// Steps the run must fire in all.
    pub max_step: u64,
    /// Seconds that must pass between firings.
    pub step_interval: i64,
    /// Second timestamp of the last firing.
    pub last_tick: i64,
}

impl StepSchedule {
    /// Timestamps the schedule works with: nonnegative seconds.
    pub open spec fn wf(&self) -> bool {
        &&& self.last_tick >= 0
        &&& self.step_interval >= 0
        &&& self.step_count <= self.max_step
    }

    /// Whether a step fires at `now`: the first step immediately, every
    /// later one once more than the interval has passed since the last.
    pub open spec fn fires(&self, now: i64) -> bool {
        self.step_count == 0 || now - self.last_tick > self.step_interval
    }

    /// A run of `max_step` steps, `step_interval` seconds apart, starting
    /// at `now`.
    pub fn new(max_step: u64, step_interval: i64, now: i64) -> (s: StepSchedule)
        requires
            max_step >= 1,
            step_interval >= 0,
            now >= 0,
        ensures
            s.step_count == 0,
            s.max_step == max_step,
            s.step_interval == step_interval,
            s.last_tick == now,
            s.wf(),
    {
        StepSchedule { step_count: 0, max_step, step_interval, last_tick: now }
    }

    /// Whether a step fires at `now`.
    pub fn should_fire(&self, now: i64) -> (b: bool)
        requires
            self.wf(),
            now >= 0,
        ensures
            b == self.fires(now),
    {
        self.step_count == 0 || now - self.last_tick > self.step_interval
    }

    /// Fire one step at `now`: the tick moves to `now` and the step count
    /// advances. The outcome of the step does not touch this state: failed
    /// and successful steps advance the schedule alike.
    pub fn fire(&mut self, now: i64)
        requires
            old(self).wf(),
            now >= 0,
            old(self).step_count < old(self).max_step,
        ensures
            final(self).step_count == old(self).step_count + 1,
            final(self).last_tick == now,
            final(self).max_step == old(self).max_step,
            final(self).step_interval == old(self).step_interval,
            final(self).wf(),
    {
        self.last_tick = now;
        self.step_count = self.step_count + 1;
    }

    /// Whether the run is over: exactly `max_step` steps have fired,
    /// whatever each step reported.
    pub fn done(&self) -> (b: bool)
        ensures
            b == (self.step_count == self.max_step),
    {
        self.step_count == self.max_step
    }
}

/// Relies on std::time::SystemTime::now for the wall-clock reading. The
/// milliseconds since the Unix epoch fit the documented Duration range (a
/// u64 of whole seconds plus the millisecond part); a clock before the
/// epoch reads as zero.
#[verifier::external_body]
fn now_unix_millis() -> (r: u128)
    ensures
        r <= MAX_UNIX_MILLIS,
{
    std::time::SystemTime::now().duration_since(std::time::UNIX_EPOCH).map(
        |d| d.as_millis(),
    ).unwrap_or(0)
}

/// A wall-clock timestamp `future_millis` milliseconds from now, in
/// milliseconds since the Unix epoch: what a swap call's deadline is made
/// of.
pub fn get_valid_timestamp(future_millis: u128) -> (r: u128)
    requires
        future_millis <= u128::MAX - MAX_UNIX_MILLIS,
    ensures
        future_millis <= r <= MAX_UNIX_MILLIS + future_millis,
{
    let start = now_unix_millis();
    start + future_millis
}

} // verus!
