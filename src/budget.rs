use vstd::prelude::*;
use crate::fee::FeeQuote;

verus! {

/// The most compute units the network allows one transaction.
pub const MAX_COMPUTE_UNITS: u64 = 1_400_000;

/// Sum of the per-instruction costs.
pub open spec fn cost_sum(costs: Seq<u64>) -> nat
    decreases costs.len(),
{
    if costs.len() == 0 {
        0
    } else {
        cost_sum(costs.drop_last()) + costs.last() as nat
    }
}

/// `units` raised by `margin_percent` percent, rounded up.
pub open spec fn with_margin(units: nat, margin_percent: nat) -> nat {
    (units * (100 + margin_percent) + 99) / 100
}

/// The unit limit for instructions of the given costs: their sum plus the
/// safety margin, capped at the network maximum.
pub open spec fn unit_limit_for(costs: Seq<u64>, margin_percent: nat) -> nat {
    let u = with_margin(cost_sum(costs), margin_percent);
    if u <= MAX_COMPUTE_UNITS {
        u
    } else {
        MAX_COMPUTE_UNITS as nat
    }
}

/// Compute-unit limit and price for one transaction.
#[derive(PartialEq, Eq, Structural, Clone, Copy, Debug)]
pub struct ComputeBudget {
    pub unit_limit: u32,
    pub unit_price: u64,
}

/// A budget-setting instruction; both precede every other instruction.
#[derive(PartialEq, Eq, Structural, Clone, Copy, Debug)]
pub enum BudgetInstruction {
    SetComputeUnitLimit(u32),
    SetComputeUnitPrice(u64),
}

proof fn lemma_margin_grows(s: nat, m: nat)
    ensures
        with_margin(s, m) >= s,
{
    assert(s * (100 + m) >= s * 100) by (nonlinear_arith);
    assert((s * 100 + 99) / 100 >= s) by (nonlinear_arith);
    assert((s * (100 + m) + 99) / 100 >= (s * 100 + 99) / 100) by (nonlinear_arith)
        requires s * (100 + m) >= s * 100;
}

/// Plans the budget for instructions whose costs are `costs`: the unit limit
/// is their sum raised by `margin_percent` (rounded up) and capped at
/// `MAX_COMPUTE_UNITS`; the unit price is the quoted fee.
pub fn plan(costs: &Vec<u64>, margin_percent: u32, fee: &FeeQuote) -> (r: ComputeBudget)
    ensures
        r.unit_limit == unit_limit_for(costs@, margin_percent as nat),
        r.unit_price == fee.micro_lamports,
{
    let cap: u64 = MAX_COMPUTE_UNITS + 1;
    let mut acc: u64 = 0;
    let mut i: usize = 0;
    while i < costs.len()
        invariant
            i <= costs@.len(),
            cap == MAX_COMPUTE_UNITS + 1,
            acc == if cost_sum(costs@.subrange(0, i as int)) < cap {
                cost_sum(costs@.subrange(0, i as int))
            } else {
                cap as nat
            },
        decreases costs@.len() - i,
    {
        let ghost pre = costs@.subrange(0, i as int);
        let ghost next = costs@.subrange(0, i + 1);
        assert(next.drop_last() =~= pre);
        let c = costs[i];
        if acc == cap || c >= cap - acc {
            acc = cap;
        } else {
            acc = acc + c;
        }
        i = i + 1;
    }
    assert(costs@.subrange(0, costs@.len() as int) =~= costs@);
    let m = margin_percent as u64;
    let limit: u64 = if acc == cap {
        proof {
            lemma_margin_grows(cost_sum(costs@), m as nat);
        }
        MAX_COMPUTE_UNITS
    } else {
        assert(acc * (100 + m) <= 1_400_000 * (100 + 0xffff_ffff)) by (nonlinear_arith)
            requires acc <= 1_400_000, m <= 0xffff_ffff;
        let u = (acc * (100 + m) + 99) / 100;
        if u <= MAX_COMPUTE_UNITS {
            u
        } else {
            MAX_COMPUTE_UNITS
        }
    };
    ComputeBudget { unit_limit: limit as u32, unit_price: fee.micro_lamports }
}

/// The two budget-setting instructions, limit first, that must open the transaction.
pub fn prefix_instructions(budget: &ComputeBudget) -> (r: Vec<BudgetInstruction>)
    ensures
        r@ == seq![
            BudgetInstruction::SetComputeUnitLimit(budget.unit_limit),
            BudgetInstruction::SetComputeUnitPrice(budget.unit_price),
        ],
{
    let r = vec![
        BudgetInstruction::SetComputeUnitLimit(budget.unit_limit),
        BudgetInstruction::SetComputeUnitPrice(budget.unit_price),
    ];
    assert(r@ =~= seq![
        BudgetInstruction::SetComputeUnitLimit(budget.unit_limit),
        BudgetInstruction::SetComputeUnitPrice(budget.unit_price),
    ]);
    r
}

} // verus!
