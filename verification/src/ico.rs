//! The sale commands, and the workflows they begin.

use vstd::prelude::*;

use crate::amount::CurrencyKind;
use crate::claim_flow::{ClaimFlowStage, ClaimWorkflow};
use crate::cli::Eth;
use crate::conditioning::ConditioningOptions;
use crate::erc20::{or_own, own_or};
use crate::exchange::{Effect, Outcome};
use crate::finish_wait::{FinishWait, FinishWaitStage};
use crate::funding::FundingPolicy;
use crate::funding_flow::{FundingFlowStage, FundingWorkflow};
use crate::info_query::{InfoQuery, InfoStage};
use crate::ledger::{Address, Query, Read};
use crate::phase::phase_of;
use crate::report::WorkflowReport;
use crate::script::{Script, ScriptStage, Shown};

verus! {

/// A command on the sale.
#[derive(Clone, Copy, Debug, PartialEq, Eq)]
pub enum IcoCommand {
    /// Show the status of the sale.
    Info,
    /// Show what an account holds in the sale, in tokens or, if `eth` is
    /// set, in ether; the caller's own account by default.
    Balance { address: Option<Address>, eth: bool },
    /// Buy tokens for `funds`, wrapping ether and raising the allowance
    /// first where that is permitted and needed.
    Fund { wrap_weth: bool, approve_weth: bool, funds: Eth },
    /// Take out the tokens bought, waiting for the sale to finish first if
    /// `wait` is set.
    Claim { wait: bool },
    /// Wait for the sale to finish.
    Wait,
}

/// A workflow on the sale, under way.
#[derive(Clone, Copy, Debug, PartialEq, Eq)]
pub enum Workflow {
    /// The status query.
    Info(InfoQuery),
    /// The showing of a holding.
    Balance(Script),
    /// The funding workflow.
    Fund(FundingWorkflow),
    /// The claim workflow.
    Claim(ClaimWorkflow),
    /// The wait for the finish.
    Wait(FinishWait),
}

/// The read of what a holder holds in the sale.
pub open spec fn holding_query(sale: Address, holder: Address, eth: bool) -> Query {
    Query {
        to: sale,
        read: if eth {
            Read::BalanceEth { holder }
        } else {
            Read::BalanceScm { holder }
        },
        block: None,
    }
}

/// The funding workflow of an account: it pays `amount` into the sale under
/// a policy, wrapping and approving first as far as permitted.
pub open spec fn funding_workflow(
    account: Address,
    sale: Address,
    amount: Eth,
    policy: FundingPolicy,
    wrap: bool,
    approve: bool,
) -> Workflow {
    Workflow::Fund(
        FundingWorkflow::begin(
            account,
            sale,
            amount.0,
            policy,
            ConditioningOptions { allow_wrap: wrap, allow_approve: approve },
        ),
    )
}

impl IcoCommand {
    /// The workflow that the command begins for an account on a sale. A
    /// funding by command is strict.
    pub open spec fn workflow(self, account: Address, sale: Address) -> Workflow {
        match self {
            IcoCommand::Info => Workflow::Info(InfoQuery::begin(sale)),
            IcoCommand::Balance { address, eth } => Workflow::Balance(
                Script::begin(
                    None,
                    Some(holding_query(sale, or_own(address, account), eth)),
                    if eth {
                        CurrencyKind::Eth
                    } else {
                        CurrencyKind::Scm
                    },
                    Shown::IcoBalance,
                ),
            ),
            IcoCommand::Fund { wrap_weth, approve_weth, funds } => funding_workflow(
                account,
                sale,
                funds,
                FundingPolicy::Strict,
                wrap_weth,
                approve_weth,
            ),
            IcoCommand::Claim { wait } => Workflow::Claim(ClaimWorkflow::begin(account, sale, wait)),
            IcoCommand::Wait => Workflow::Wait(FinishWait::begin(sale)),
        }
    }

    /// Begins the command for an account on a sale, and names the first
    /// effect.
    pub fn invoke(&self, account: Address, sale: Address) -> (r: (Workflow, Effect))
        ensures
            r.0 == self.workflow(account, sale),
            r.1 == r.0.effect(),
    {
        match *self {
            IcoCommand::Info => run_info_query(sale),
            IcoCommand::Balance { address, eth } => {
                let holder = own_or(address, account);
                let (read, currency) = if eth {
                    (Read::BalanceEth { holder }, CurrencyKind::Eth)
                } else {
                    (Read::BalanceScm { holder }, CurrencyKind::Scm)
                };
                let (script, effect) = Script::start(
                    None,
                    Some(Query::latest(sale, read)),
                    currency,
                    Shown::IcoBalance,
                );
                (Workflow::Balance(script), effect)
            },
            IcoCommand::Fund { wrap_weth, approve_weth, funds } => run_funding_workflow(
                account,
                sale,
                funds,
                FundingPolicy::Strict,
                wrap_weth,
                approve_weth,
            ),
            IcoCommand::Claim { wait } => run_claim_workflow(account, sale, wait),
            IcoCommand::Wait => run_wait_workflow(sale),
        }
    }
}

impl Workflow {
    /// What the workflow asks of its driver at its stage.
    pub open spec fn effect(self) -> Effect {
        match self {
            Workflow::Info(query) => query.effect(),
            Workflow::Balance(script) => script.effect(),
            Workflow::Fund(workflow) => workflow.effect(),
            Workflow::Claim(workflow) => workflow.effect(),
            Workflow::Wait(wait) => wait.effect(),
        }
    }

    /// The workflow after the outcome of its effect.
    pub open spec fn after(self, outcome: Outcome) -> Workflow {
        match self {
            Workflow::Info(query) => Workflow::Info(query.after(outcome)),
            Workflow::Balance(script) => Workflow::Balance(script.after(outcome)),
            Workflow::Fund(workflow) => Workflow::Fund(workflow.after(outcome)),
            Workflow::Claim(workflow) => Workflow::Claim(workflow.after(outcome)),
            Workflow::Wait(wait) => Workflow::Wait(wait.after(outcome)),
        }
    }

    /// Whether the workflow has ended.
    pub open spec fn is_over(self) -> bool {
        match self {
            Workflow::Info(query) => query.stage == InfoStage::Over,
            Workflow::Balance(script) => script.stage == ScriptStage::Over,
            Workflow::Fund(workflow) => workflow.stage == FundingFlowStage::Over,
            Workflow::Claim(workflow) => workflow.stage == ClaimFlowStage::Over,
            Workflow::Wait(wait) => wait.is_over(),
        }
    }

    /// What the workflow did and saw, once it has ended.
    pub open spec fn report_spec(self) -> Option<WorkflowReport> {
        if self.is_over() {
            Some(
                match self {
                    Workflow::Info(query) => WorkflowReport {
                        phase: match query.values {
                            Some(values) => match values.state {
                                Ok(code) => Some(phase_of(code)),
                                Err(_) => None,
                            },
                            None => None,
                        },
                        error: query.error,
                        ..WorkflowReport::blank()
                    },
                    Workflow::Balance(script) => script.report,
                    Workflow::Fund(workflow) => workflow.report,
                    Workflow::Claim(workflow) => workflow.report,
                    Workflow::Wait(wait) => WorkflowReport {
                        phase: wait.phase,
                        error: match wait.stage {
                            FinishWaitStage::Failed(e) => Some(e),
                            _ => None,
                        },
                        ..WorkflowReport::blank()
                    },
                },
            )
        } else {
            None
        }
    }

    /// Takes the outcome of the effect last named, and names the next.
    pub fn advance(self, outcome: Outcome) -> (r: (Workflow, Effect))
        ensures
            r.0 == self.after(outcome),
            r.1 == r.0.effect(),
    {
        match self {
            Workflow::Info(query) => {
                let (next, effect) = query.advance(outcome);
                (Workflow::Info(next), effect)
            },
            Workflow::Balance(script) => {
                let (next, effect) = script.advance(outcome);
                (Workflow::Balance(next), effect)
            },
            Workflow::Fund(workflow) => {
                let (next, effect) = workflow.advance(outcome);
                (Workflow::Fund(next), effect)
            },
            Workflow::Claim(workflow) => {
                let (next, effect) = workflow.advance(outcome);
                (Workflow::Claim(next), effect)
            },
            Workflow::Wait(wait) => {
                let (next, effect) = wait.advance(outcome);
                (Workflow::Wait(next), effect)
            },
        }
    }

    /// What the workflow did and saw, once it has ended.
    pub fn report(&self) -> (r: Option<WorkflowReport>)
        ensures
            r == self.report_spec(),
    {
        match self {
            Workflow::Info(query) => match query.stage {
                InfoStage::Over => {
                    let phase = match query.values {
                        Some(values) => match values.state {
                            Ok(code) => Some(crate::phase::SalePhase::from_code(code)),
                            Err(_) => None,
                        },
                        None => None,
                    };
                    Some(WorkflowReport { phase, error: query.error, ..WorkflowReport::new() })
                },
                _ => None,
            },
            Workflow::Balance(script) => if script.is_over() {
                Some(script.report)
            } else {
                None
            },
            Workflow::Fund(workflow) => workflow.report(),
            Workflow::Claim(workflow) => workflow.report(),
            Workflow::Wait(wait) => match wait.stage {
                FinishWaitStage::Over => Some(
                    WorkflowReport { phase: wait.phase, ..WorkflowReport::new() },
                ),
                FinishWaitStage::Failed(e) => Some(
                    WorkflowReport { phase: wait.phase, error: Some(e), ..WorkflowReport::new() },
                ),
                _ => None,
            },
        }
    }
}

/// Begins the funding of a sale by an account, and names the first effect.
pub fn run_funding_workflow(
    account: Address,
    sale: Address,
    amount: Eth,
    policy: FundingPolicy,
    wrap: bool,
    approve: bool,
) -> (r: (Workflow, Effect))
    ensures
        r.0 == funding_workflow(account, sale, amount, policy, wrap, approve),
        r.1 == r.0.effect(),
{
    let (workflow, effect) = FundingWorkflow::start(
        account,
        sale,
        amount.0,
        policy,
        ConditioningOptions { allow_wrap: wrap, allow_approve: approve },
    );
    (Workflow::Fund(workflow), effect)
}

/// Begins the claim of an account on a sale, and names the first effect.
pub fn run_claim_workflow(account: Address, sale: Address, wait_for_finish: bool) -> (r: (
    Workflow,
    Effect,
))
    ensures
        r.0 == Workflow::Claim(ClaimWorkflow::begin(account, sale, wait_for_finish)),
        r.1 == r.0.effect(),
{
    let (workflow, effect) = ClaimWorkflow::start(account, sale, wait_for_finish);
    (Workflow::Claim(workflow), effect)
}

/// Begins the status query of a sale, and names the first effect.
pub fn run_info_query(sale: Address) -> (r: (Workflow, Effect))
    ensures
        r.0 == Workflow::Info(InfoQuery::begin(sale)),
        r.1 == r.0.effect(),
{
    let (query, effect) = InfoQuery::start(sale);
    (Workflow::Info(query), effect)
}

/// Begins the wait for the finish of a sale, and names the first effect.
pub fn run_wait_workflow(sale: Address) -> (r: (Workflow, Effect))
    ensures
        r.0 == Workflow::Wait(FinishWait::begin(sale)),
        r.1 == r.0.effect(),
{
    let (wait, effect) = FinishWait::start(sale);
    (Workflow::Wait(wait), effect)
}

} // verus!
