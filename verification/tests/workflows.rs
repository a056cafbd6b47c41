use scm_ico::amount::{AmountValue, CurrencyKind};
use scm_ico::claim_flow::ClaimWorkflow;
use scm_ico::cli::{Currency, Eth, Scm};
use scm_ico::clock::{Instant, Span};
use scm_ico::conditioning::{
    ceiling, ConditioningError, ConditioningOptions, ConditioningSequence, StepRecord, SubStep,
};
use scm_ico::erc20::{ScmCommand, WethCommand};
use scm_ico::exchange::{ContractName, Detail, Effect, Note, Outcome, StatusValues};
use scm_ico::finish_wait::FinishWait;
use scm_ico::funding::{FundingError, FundingExecutor, FundingPolicy};
use scm_ico::funding_flow::FundingWorkflow;
use scm_ico::ico::{
    run_claim_workflow, run_funding_workflow, run_info_query, run_wait_workflow, IcoCommand,
    Workflow,
};
use scm_ico::info_query::{InfoQuery, LedgerState};
use scm_ico::ledger::{
    Address, EventKind, Failure, Query, Read, Transaction, TransactionReceipt, TxHash, Value,
    Write,
};
use scm_ico::phase::SalePhase;
use scm_ico::report::{WorkflowError, WorkflowReport};
use scm_ico::script::Script;
use scm_ico::snapshot::{status_batch, status_values, Answer, HeightRange, PendingRead};
use scm_ico::wait::{WaitCondition, WaitEngine, WaitState};
use scm_ico::word::Word256;

const ACCOUNT: Address = Address { bytes: [0xaa; 20] };
const OTHER: Address = Address { bytes: [0xbb; 20] };
const SALE: Address = Address { bytes: [0x01; 20] };
const WETH: Address = Address { bytes: [0x02; 20] };
const SCM: Address = Address { bytes: [0x03; 20] };
const ETHER: u128 = 1_000_000_000_000_000_000;

fn word(n: u128) -> Word256 {
    Word256::from_limbs([n as u64, (n >> 64) as u64, 0, 0])
}

fn number(w: Word256) -> u128 {
    let limbs = w.to_limbs();
    assert_eq!((limbs[2], limbs[3]), (0, 0));
    limbs[0] as u128 | (limbs[1] as u128) << 64
}

fn at(secs: i64) -> Instant {
    Instant::new(secs, 0).unwrap()
}

/// A ledger with one sale, its two tokens and one account, and a log of
/// everything that was asked of it.
struct Mock {
    head: u64,
    phase: u8,
    left_eth: u128,
    left_scm: u128,
    weth_balance: u128,
    allowance: u128,
    paid: u128,
    bought: u128,
    scm_balance: u128,
    close_time: u128,
    finish_time: u128,
    now: Instant,
    broken: Vec<Effect>,
    answer_height: Option<u64>,
    failing_status: Vec<Read>,
    reads: Vec<Query>,
    submitted: Vec<Transaction>,
    told: Vec<Note>,
    slept: Vec<Span>,
    awaited: Vec<(Address, EventKind, u64)>,
    effects: Vec<Effect>,
}

impl Mock {
    fn new() -> Mock {
        Mock {
            head: 1000,
            phase: 0,
            left_eth: 100 * ETHER,
            left_scm: 5000 * ETHER,
            weth_balance: 0,
            allowance: 0,
            paid: 0,
            bought: 0,
            scm_balance: 0,
            close_time: 1_700_000_000,
            finish_time: 1_700_003_600,
            now: at(1_700_000_000),
            broken: Vec::new(),
            answer_height: None,
            failing_status: Vec::new(),
            reads: Vec::new(),
            submitted: Vec::new(),
            told: Vec::new(),
            slept: Vec::new(),
            awaited: Vec::new(),
            effects: Vec::new(),
        }
    }

    fn read(&self, query: &Query) -> Value {
        match query.read {
            Read::State => Value::Code(self.phase),
            Read::LeftEth => Value::Word(word(self.left_eth)),
            Read::LeftScm => Value::Word(word(self.left_scm)),
            Read::ScmToken => Value::Address(SCM),
            Read::WethToken => Value::Address(WETH),
            Read::CloseTime => Value::Word(word(self.close_time)),
            Read::FinishTime => Value::Word(word(self.finish_time)),
            Read::BalanceEth { .. } => Value::Word(word(self.paid)),
            Read::BalanceScm { .. } => Value::Word(word(self.bought)),
            Read::BalanceOf { .. } => {
                if query.to == WETH {
                    Value::Word(word(self.weth_balance))
                } else {
                    Value::Word(word(self.scm_balance))
                }
            }
            Read::Allowance { .. } => Value::Word(word(self.allowance)),
        }
    }

    fn receipt(&self, amount: Word256) -> Outcome {
        Outcome::Mined(TransactionReceipt {
            tx: TxHash { bytes: [self.submitted.len() as u8; 32] },
            amount,
        })
    }

    fn submit(&mut self, transaction: &Transaction) -> Outcome {
        self.submitted.push(*transaction);
        match transaction.write {
            Write::Deposit { value } => {
                self.weth_balance += number(value);
                self.receipt(value)
            }
            Write::Withdraw { amount } => {
                if number(amount) > self.weth_balance {
                    return Outcome::Failed(Failure::Reverted);
                }
                self.weth_balance -= number(amount);
                self.receipt(amount)
            }
            Write::Approve { amount, .. } => {
                self.allowance = number(amount);
                self.receipt(amount)
            }
            Write::TransferFrom { amount, .. } => {
                if number(amount) > self.scm_balance {
                    return Outcome::Failed(Failure::Reverted);
                }
                self.scm_balance -= number(amount);
                self.receipt(amount)
            }
            Write::Fund { amount } => {
                let amount = number(amount);
                if self.phase != 0
                    || amount > self.left_eth
                    || amount > self.allowance
                    || amount > self.weth_balance
                {
                    return Outcome::Failed(Failure::Reverted);
                }
                self.take(amount)
            }
            Write::FundAvailable { limit } => {
                if self.phase != 0 || self.left_eth == 0 {
                    return Outcome::Failed(Failure::Reverted);
                }
                let amount = number(limit).min(self.left_eth);
                self.take(amount)
            }
            Write::Claim => {
                if self.phase != 2 {
                    return Outcome::Failed(Failure::Reverted);
                }
                let bought = self.bought;
                self.scm_balance += bought;
                self.bought = 0;
                self.receipt(word(bought))
            }
        }
    }

    fn take(&mut self, amount: u128) -> Outcome {
        self.left_eth -= amount;
        self.weth_balance = self.weth_balance.saturating_sub(amount);
        self.allowance = self.allowance.saturating_sub(amount);
        self.paid += amount;
        self.bought += amount * 50;
        self.receipt(word(amount))
    }

    fn status(&mut self, sale: Address, height: u64) -> Outcome {
        let range = HeightRange { oldest: 0, newest: self.head };
        let (mut batch, reads) = match status_batch(sale, height, range) {
            Ok(pair) => pair,
            Err(_) => return Outcome::Failed(Failure::HeightUnavailable),
        };
        let mut slot = 0;
        for chunk in batch.execute(2).unwrap() {
            for query in chunk {
                self.reads.push(query);
                let value = if self.failing_status.contains(&query.read) {
                    Err(Failure::Remote)
                } else {
                    Ok(self.read(&query))
                };
                let tag = self.answer_height.unwrap_or(query.block.unwrap());
                let answer = Answer { height: tag, value };
                batch = batch.deliver(PendingRead { slot }, answer).0;
                slot += 1;
            }
        }
        Outcome::Status(status_values(&batch, &reads))
    }

    fn perform(&mut self, effect: Effect) -> Outcome {
        self.effects.push(effect);
        if self.broken.contains(&effect) {
            return Outcome::Failed(Failure::Remote);
        }
        match effect {
            Effect::Head => Outcome::Head(self.head),
            Effect::Read(query) => {
                self.reads.push(query);
                Outcome::Value(self.read(&query))
            }
            Effect::Status { sale, height } => self.status(sale, height),
            Effect::Submit(transaction) => self.submit(&transaction),
            Effect::AwaitEvent { sale, kind, from_block } => {
                self.awaited.push((sale, kind, from_block));
                self.phase = 1;
                Outcome::Event
            }
            Effect::Clock => Outcome::Now(self.now),
            Effect::Sleep(span) => {
                self.slept.push(span);
                self.phase = 2;
                Outcome::Woke
            }
            Effect::Tell(note) => {
                self.told.push(note);
                Outcome::Told
            }
            Effect::Finish => panic!("a finished workflow has nothing to perform"),
        }
    }

    fn drive(&mut self, start: (Workflow, Effect)) -> Workflow {
        let (mut workflow, mut effect) = start;
        let mut steps = 0;
        while effect != Effect::Finish {
            let outcome = self.perform(effect);
            let next = workflow.advance(outcome);
            workflow = next.0;
            effect = next.1;
            steps += 1;
            assert!(steps < 100);
        }
        assert!(workflow.report().is_some());
        workflow
    }

    fn condition(&mut self, start: (ConditioningSequence, Effect)) -> ConditioningSequence {
        let (mut sequence, mut effect) = start;
        while effect != Effect::Finish {
            let outcome = self.perform(effect);
            let next = sequence.advance(outcome);
            sequence = next.0;
            effect = next.1;
        }
        sequence
    }

    fn run_script(&mut self, start: (Script, Effect)) -> Script {
        let (mut script, mut effect) = start;
        while effect != Effect::Finish {
            let outcome = self.perform(effect);
            let next = script.advance(outcome);
            script = next.0;
            effect = next.1;
        }
        assert!(script.is_over());
        script
    }

    fn deposits(&self) -> Vec<Word256> {
        self.submitted
            .iter()
            .filter_map(|t| match t.write {
                Write::Deposit { value } => Some(value),
                _ => None,
            })
            .collect()
    }

    fn approvals(&self) -> Vec<Word256> {
        self.submitted
            .iter()
            .filter_map(|t| match t.write {
                Write::Approve { amount, .. } => Some(amount),
                _ => None,
            })
            .collect()
    }
}

fn options(allow_wrap: bool, allow_approve: bool) -> ConditioningOptions {
    ConditioningOptions { allow_wrap, allow_approve }
}

fn deposit(value: Word256) -> Transaction {
    Transaction { from: ACCOUNT, to: WETH, write: Write::Deposit { value } }
}

fn approve(amount: Word256) -> Transaction {
    Transaction { from: ACCOUNT, to: WETH, write: Write::Approve { spender: SALE, amount } }
}

fn balance_read() -> Query {
    Query { to: WETH, read: Read::BalanceOf { owner: ACCOUNT }, block: None }
}

fn allowance_read() -> Query {
    Query { to: WETH, read: Read::Allowance { owner: ACCOUNT, spender: SALE }, block: None }
}

// Conditioning

#[test]
fn an_empty_account_wraps_once_and_then_approves_once() {
    let amount = word(3 * ETHER);
    let mut mock = Mock::new();
    let end = mock.condition(ConditioningSequence::prepare(
        ACCOUNT,
        WETH,
        SALE,
        amount,
        options(true, false),
    ));
    assert_eq!(end.result(), Some(Ok(())));
    assert_eq!(mock.submitted, vec![deposit(amount), approve(word(10 * ETHER))]);
    assert_eq!(mock.deposits(), vec![amount]);
    assert_eq!(mock.approvals(), vec![ceiling()]);
    assert_eq!(mock.reads, vec![balance_read(), allowance_read()]);
    assert_eq!(mock.told, vec![Note::WrappingWeth, Note::ApprovingWeth]);
    assert_eq!(
        mock.effects,
        vec![
            Effect::Read(balance_read()),
            Effect::Tell(Note::WrappingWeth),
            Effect::Submit(deposit(amount)),
            Effect::Read(allowance_read()),
            Effect::Tell(Note::ApprovingWeth),
            Effect::Submit(approve(word(10 * ETHER))),
        ]
    );
    assert_eq!(end.wrap, StepRecord::Submitted(TxHash { bytes: [1; 32] }));
    assert_eq!(end.approve, StepRecord::Submitted(TxHash { bytes: [2; 32] }));
}

#[test]
fn a_covered_balance_is_not_wrapped() {
    for balance in [3 * ETHER, 3 * ETHER + 1, 900 * ETHER] {
        for allow_approve in [false, true] {
            let mut mock = Mock::new();
            mock.weth_balance = balance;
            let end = mock.condition(ConditioningSequence::prepare(
                ACCOUNT,
                WETH,
                SALE,
                word(3 * ETHER),
                options(true, allow_approve),
            ));
            assert_eq!(end.result(), Some(Ok(())));
            assert_eq!(mock.deposits(), Vec::<Word256>::new());
            assert_eq!(end.wrap, StepRecord::Skipped);
            assert_eq!(mock.told[0], Note::WethBalanceSufficient);
            if allow_approve {
                assert_eq!(mock.approvals(), vec![ceiling()]);
                assert_eq!(mock.reads, vec![balance_read(), allowance_read()]);
            } else {
                assert_eq!(mock.submitted, Vec::new());
                assert_eq!(mock.reads, vec![balance_read()]);
                assert_eq!(end.approve, StepRecord::NotConsidered);
            }
        }
    }
}

#[test]
fn a_short_balance_wraps_the_full_amount() {
    let mut mock = Mock::new();
    mock.weth_balance = 3 * ETHER - 1;
    mock.allowance = 50 * ETHER;
    let end = mock.condition(ConditioningSequence::prepare(
        ACCOUNT,
        WETH,
        SALE,
        word(3 * ETHER),
        options(true, true),
    ));
    assert_eq!(end.result(), Some(Ok(())));
    assert_eq!(mock.submitted, vec![deposit(word(3 * ETHER))]);
    assert_eq!(mock.told, vec![Note::WrappingWeth, Note::WethAllowanceSufficient]);
    assert_eq!(end.approve, StepRecord::Skipped);
    assert_eq!(mock.weth_balance, 6 * ETHER - 1);
}

#[test]
fn approval_alone_reads_the_allowance_only() {
    let mut mock = Mock::new();
    mock.allowance = 2 * ETHER;
    let end = mock.condition(ConditioningSequence::prepare(
        ACCOUNT,
        WETH,
        SALE,
        word(2 * ETHER),
        options(false, true),
    ));
    assert_eq!(end.result(), Some(Ok(())));
    assert_eq!(mock.reads, vec![allowance_read()]);
    assert_eq!(mock.submitted, Vec::new());
    assert_eq!(mock.told, vec![Note::WethAllowanceSufficient]);

    let mut mock = Mock::new();
    mock.allowance = 2 * ETHER - 1;
    let end = mock.condition(ConditioningSequence::prepare(
        ACCOUNT,
        WETH,
        SALE,
        word(2 * ETHER),
        options(false, true),
    ));
    assert_eq!(end.result(), Some(Ok(())));
    assert_eq!(mock.submitted, vec![approve(ceiling())]);
    assert_eq!(end.wrap, StepRecord::NotConsidered);
}

#[test]
fn nothing_permitted_is_nothing_done() {
    let (sequence, effect) =
        ConditioningSequence::prepare(ACCOUNT, WETH, SALE, word(ETHER), options(false, false));
    assert_eq!(effect, Effect::Finish);
    assert_eq!(sequence.result(), Some(Ok(())));
    let (after, effect) = sequence.advance(Outcome::Told);
    assert_eq!(after, sequence);
    assert_eq!(effect, Effect::Finish);
}

#[test]
fn a_failed_step_ends_the_conditioning() {
    let amount = word(ETHER);
    let start = || ConditioningSequence::prepare(ACCOUNT, WETH, SALE, amount, options(true, true));

    let mut mock = Mock::new();
    mock.broken.push(Effect::Submit(deposit(amount)));
    let end = mock.condition(start());
    assert_eq!(
        end.result(),
        Some(Err(ConditioningError::StepFailed(SubStep::Wrap, Failure::Remote)))
    );
    assert_eq!(mock.submitted, Vec::new());
    assert_eq!(mock.reads, vec![balance_read()]);

    let (sequence, _) = start();
    let (sequence, _) = sequence.advance(Outcome::Value(Value::Word(Word256::zero())));
    let (sequence, effect) = sequence.advance(Outcome::Told);
    assert_eq!(effect, Effect::Submit(deposit(amount)));
    let (sequence, effect) = sequence.advance(Outcome::Failed(Failure::Reverted));
    assert_eq!(effect, Effect::Finish);
    assert_eq!(
        sequence.result(),
        Some(Err(ConditioningError::StepFailed(SubStep::Wrap, Failure::Reverted)))
    );
    let (again, effect) = sequence.advance(Outcome::Mined(TransactionReceipt {
        tx: TxHash { bytes: [9; 32] },
        amount,
    }));
    assert_eq!(again, sequence);
    assert_eq!(effect, Effect::Finish);

    let mut mock = Mock::new();
    mock.broken.push(Effect::Read(balance_read()));
    let end = mock.condition(start());
    assert_eq!(end.result(), Some(Err(ConditioningError::RemoteCallFailed(SubStep::Wrap))));

    let mut mock = Mock::new();
    mock.broken.push(Effect::Read(allowance_read()));
    let end = mock.condition(start());
    assert_eq!(end.result(), Some(Err(ConditioningError::RemoteCallFailed(SubStep::Approve))));
    assert_eq!(mock.submitted, vec![deposit(amount)]);

    let mut mock = Mock::new();
    mock.broken.push(Effect::Submit(approve(ceiling())));
    let end = mock.condition(start());
    assert_eq!(
        end.result(),
        Some(Err(ConditioningError::StepFailed(SubStep::Approve, Failure::Remote)))
    );

    let (sequence, _) = start();
    let (sequence, _) = sequence.advance(Outcome::Value(Value::Address(OTHER)));
    assert_eq!(sequence.result(), Some(Err(ConditioningError::RemoteCallFailed(SubStep::Wrap))));
}

#[test]
fn the_ceiling_is_ten_whole_units() {
    assert_eq!(ceiling(), word(10 * ETHER));
    assert_eq!(ceiling(), Eth::from_str("10eth").unwrap().as_inner());
}

// Funding

fn fund(mock: &mut Mock, amount: u128, policy: FundingPolicy) -> FundingExecutor {
    let (executor, effect) = FundingExecutor::fund(ACCOUNT, SALE, word(amount), policy);
    assert_eq!(executor.result(), None);
    let outcome = mock.perform(effect);
    let (executor, effect) = executor.advance(outcome);
    assert_eq!(effect, Effect::Finish);
    let (again, effect) = executor.advance(outcome);
    assert_eq!(again, executor);
    assert_eq!(effect, Effect::Finish);
    executor
}

#[test]
fn strict_funding_reverts_where_best_effort_is_clamped() {
    let mut mock = Mock::new();
    mock.left_eth = 4 * ETHER;
    mock.weth_balance = 10 * ETHER;
    mock.allowance = 10 * ETHER;
    let strict = fund(&mut mock, 7 * ETHER, FundingPolicy::Strict);
    assert_eq!(strict.result(), Some(Err(FundingError::Reverted)));
    assert_eq!(mock.left_eth, 4 * ETHER);

    let best = fund(&mut mock, 7 * ETHER, FundingPolicy::BestEffort);
    let receipt = best.result().unwrap().unwrap();
    assert_eq!(receipt.amount, word(4 * ETHER));
    assert_eq!(mock.left_eth, 0);
    assert_eq!(mock.paid, 4 * ETHER);

    assert_eq!(
        mock.submitted,
        vec![
            Transaction { from: ACCOUNT, to: SALE, write: Write::Fund { amount: word(7 * ETHER) } },
            Transaction {
                from: ACCOUNT,
                to: SALE,
                write: Write::FundAvailable { limit: word(7 * ETHER) }
            },
        ]
    );
}

#[test]
fn funding_within_capacity_succeeds_either_way() {
    for policy in [FundingPolicy::Strict, FundingPolicy::BestEffort] {
        let mut mock = Mock::new();
        mock.weth_balance = 10 * ETHER;
        mock.allowance = 10 * ETHER;
        let executor = fund(&mut mock, 7 * ETHER, policy);
        assert_eq!(executor.result().unwrap().unwrap().amount, word(7 * ETHER));
        assert_eq!(mock.left_eth, 93 * ETHER);
        assert_eq!(mock.submitted.len(), 1);
    }
}

#[test]
fn a_closed_sale_refuses_best_effort() {
    let mut mock = Mock::new();
    mock.phase = 1;
    let executor = fund(&mut mock, ETHER, FundingPolicy::BestEffort);
    assert_eq!(executor.result(), Some(Err(FundingError::SaleClosed)));
    let executor = fund(&mut mock, ETHER, FundingPolicy::Strict);
    assert_eq!(executor.result(), Some(Err(FundingError::Reverted)));
}

#[test]
fn a_lost_funding_is_not_a_refusal() {
    for policy in [FundingPolicy::Strict, FundingPolicy::BestEffort] {
        let (executor, _) = FundingExecutor::fund(ACCOUNT, SALE, word(ETHER), policy);
        let (failed, _) = executor.advance(Outcome::Failed(Failure::Remote));
        assert_eq!(failed.result(), Some(Err(FundingError::RemoteCallFailed)));
        let (odd, _) = executor.advance(Outcome::Told);
        assert_eq!(odd.result(), Some(Err(FundingError::RemoteCallFailed)));
    }
}

// Waiting

#[test]
fn a_past_deadline_is_not_slept_towards() {
    for (deadline, now) in [(100, 101), (100, 100), (-5, 0), (0, i64::MAX), (i64::MIN, i64::MAX)] {
        let (engine, effect) = WaitEngine::await_deadline(SALE, at(deadline), at(now));
        assert_eq!(effect, Effect::Finish);
        assert_eq!(engine.state, WaitState::Resolved);
        assert!(engine.is_resolved());
        assert_eq!(engine.condition, WaitCondition::AwaitDeadline(at(deadline)));
    }
    let just_past = Instant::new(100, 1).unwrap();
    let (engine, effect) = WaitEngine::await_deadline(SALE, at(100), just_past);
    assert_eq!((engine.state, effect), (WaitState::Resolved, Effect::Finish));
}

#[test]
fn a_coming_deadline_is_slept_towards_once() {
    let now = Instant::new(1_000, 400_000_000).unwrap();
    let (engine, effect) = WaitEngine::await_deadline(SALE, at(1_090), now);
    assert_eq!(engine.state, WaitState::Sleeping);
    let span = match effect {
        Effect::Sleep(span) => span,
        other => panic!("{:?}", other),
    };
    assert_eq!((span.secs(), span.subsec_nanos()), (89, 600_000_000));
    let (woken, effect) = engine.advance(Outcome::Woke);
    assert_eq!((woken.state, effect), (WaitState::Resolved, Effect::Finish));
    let (still, effect) = woken.advance(Outcome::Woke);
    assert_eq!((still, effect), (woken, Effect::Finish));
    let (broken, _) = engine.advance(Outcome::Failed(Failure::Remote));
    assert_eq!(broken.state, WaitState::Broken);
    assert!(!broken.is_resolved());
}

#[test]
fn an_event_is_waited_for_without_a_deadline() {
    let (engine, effect) = WaitEngine::await_event(SALE, EventKind::IcoClosed, 77);
    assert_eq!(engine.state, WaitState::Subscribed);
    assert_eq!(effect, Effect::AwaitEvent { sale: SALE, kind: EventKind::IcoClosed, from_block: 77 });
    let (resolved, effect) = engine.advance(Outcome::Event);
    assert_eq!((resolved.state, effect), (WaitState::Resolved, Effect::Finish));
    let (broken, _) = engine.advance(Outcome::Woke);
    assert_eq!(broken.state, WaitState::Broken);

    let idle = WaitEngine::idle(SALE, WaitCondition::AwaitEvent(EventKind::IcoClosed, 77));
    assert_eq!(idle.state, WaitState::Idle);
    assert_eq!(idle.advance(Outcome::Event).0, idle);
    assert_eq!(idle.start(at(0)), (engine, effect_of(engine)));
    assert_eq!(engine.start(at(0)), (engine, Effect::Finish));
}

fn effect_of(engine: WaitEngine) -> Effect {
    match engine.condition {
        WaitCondition::AwaitEvent(kind, from_block) => {
            Effect::AwaitEvent { sale: engine.sale, kind, from_block }
        }
        WaitCondition::AwaitDeadline(_) => Effect::Finish,
    }
}

#[test]
fn the_wait_for_the_finish_waits_for_close_and_then_sleeps() {
    let mut mock = Mock::new();
    mock.now = at(1_700_000_100);
    let end = mock.drive(run_wait_workflow(SALE));
    let report = end.report().unwrap();
    assert_eq!(report.error, None);
    assert_eq!(report.phase, Some(SalePhase::Ongoing));
    assert_eq!(mock.awaited, vec![(SALE, EventKind::IcoClosed, 1000)]);
    assert_eq!(mock.slept.len(), 1);
    assert_eq!((mock.slept[0].secs(), mock.slept[0].subsec_nanos()), (3500, 0));
    assert_eq!(
        mock.told,
        vec![
            Note::WaitingForClose,
            Note::IcoClosed,
            Note::FinishesAt(word(1_700_003_600)),
            Note::WaitingForFinish,
            Note::IcoFinished,
        ]
    );
    assert_eq!(
        mock.reads,
        vec![
            Query { to: SALE, read: Read::State, block: Some(1000) },
            Query { to: SALE, read: Read::FinishTime, block: None },
        ]
    );
    assert_eq!(mock.effects[0], Effect::Head);
}

#[test]
fn a_closed_sale_is_not_waited_for_to_close() {
    let mut mock = Mock::new();
    mock.phase = 1;
    mock.now = at(1_700_003_599);
    let end = mock.drive(run_wait_workflow(SALE));
    assert_eq!(end.report().unwrap().phase, Some(SalePhase::Closed));
    assert_eq!(mock.awaited, Vec::new());
    assert_eq!(mock.slept.len(), 1);
    assert_eq!(mock.slept[0].secs(), 1);
    assert_eq!(
        mock.told,
        vec![Note::FinishesAt(word(1_700_003_600)), Note::WaitingForFinish, Note::IcoFinished]
    );
}

#[test]
fn a_finished_sale_is_not_slept_for() {
    for now in [1_700_003_600, 1_700_003_601, 2_000_000_000] {
        let mut mock = Mock::new();
        mock.phase = 2;
        mock.now = at(now);
        let end = mock.drive(run_wait_workflow(SALE));
        let report = end.report().unwrap();
        assert_eq!(report.phase, Some(SalePhase::Finished));
        assert_eq!(report.error, None);
        assert_eq!(mock.slept, Vec::new());
        assert_eq!(mock.told, Vec::new());
        assert_eq!(mock.effects.last(), Some(&Effect::Clock));
    }
}

#[test]
fn a_broken_wait_reports_the_effect() {
    let subscription = Effect::AwaitEvent { sale: SALE, kind: EventKind::IcoClosed, from_block: 1000 };
    let finish = Effect::Read(Query { to: SALE, read: Read::FinishTime, block: None });
    for effect in [Effect::Head, subscription, finish, Effect::Clock] {
        let mut mock = Mock::new();
        mock.broken.push(effect);
        let end = mock.drive(run_wait_workflow(SALE));
        assert_eq!(end.report().unwrap().error, Some(WorkflowError::Remote(effect, Failure::Remote)));
        assert_eq!(mock.effects.last(), Some(&effect));
        assert_eq!(mock.slept, Vec::new());
    }
    let mut mock = Mock::new();
    mock.finish_time = i64::MAX as u128 + 1;
    let end = mock.drive(run_wait_workflow(SALE));
    assert_eq!(
        end.report().unwrap().error,
        Some(WorkflowError::Timestamp(word(i64::MAX as u128 + 1)))
    );
    let (wait, _) = FinishWait::start(SALE);
    assert_eq!(wait.result(), None);
}

// Workflows

#[test]
fn funding_conditions_then_funds_then_reads_back() {
    let funds = Eth::from_str("10eth").unwrap();
    let mut mock = Mock::new();
    let end = mock.drive(run_funding_workflow(ACCOUNT, SALE, funds, FundingPolicy::Strict, true, false));
    let amount = word(10 * ETHER);
    let fund_tx = Transaction { from: ACCOUNT, to: SALE, write: Write::Fund { amount } };
    assert_eq!(mock.submitted, vec![deposit(amount), approve(ceiling()), fund_tx]);
    assert_eq!(
        mock.told,
        vec![
            Note::WrappingWeth,
            Note::ApprovingWeth,
            Note::Done,
            Note::IcoBalance(AmountValue::new(CurrencyKind::Scm, word(500 * ETHER))),
        ]
    );
    assert_eq!(mock.told[3].text(), "ICO balance: 500.000000000000000000scm");
    assert_eq!(
        end.report(),
        Some(WorkflowReport {
            wrap: StepRecord::Submitted(TxHash { bytes: [1; 32] }),
            approve: StepRecord::Submitted(TxHash { bytes: [2; 32] }),
            receipt: Some(TransactionReceipt { tx: TxHash { bytes: [3; 32] }, amount }),
            balance: Some(AmountValue::new(CurrencyKind::Scm, word(500 * ETHER))),
            phase: None,
            error: None,
        })
    );
    assert_eq!(mock.reads[0], Query { to: SALE, read: Read::WethToken, block: None });
    assert_eq!(
        mock.reads.last(),
        Some(&Query { to: SALE, read: Read::BalanceScm { holder: ACCOUNT }, block: None })
    );
}

#[test]
fn funding_by_command_is_strict() {
    let funds = Eth::from_str("7eth").unwrap();
    let command = IcoCommand::Fund { wrap_weth: true, approve_weth: true, funds };
    assert_eq!(
        command.invoke(ACCOUNT, SALE),
        run_funding_workflow(ACCOUNT, SALE, funds, FundingPolicy::Strict, true, true)
    );
    let mut mock = Mock::new();
    mock.left_eth = 4 * ETHER;
    let end = mock.drive(command.invoke(ACCOUNT, SALE));
    let report = end.report().unwrap();
    assert_eq!(report.error, Some(WorkflowError::Funding(FundingError::Reverted)));
    assert_eq!(report.receipt, None);
    assert_eq!(report.balance, None);
    assert!(matches!(report.wrap, StepRecord::Submitted(_)));
    assert_eq!(mock.told, vec![Note::WrappingWeth, Note::ApprovingWeth]);
    assert!(matches!(mock.effects.last(), Some(Effect::Submit(t)) if t.write == Write::Fund { amount: funds.as_inner() }));

    let mut mock = Mock::new();
    mock.left_eth = 4 * ETHER;
    let end = mock.drive(run_funding_workflow(
        ACCOUNT,
        SALE,
        funds,
        FundingPolicy::BestEffort,
        true,
        true,
    ));
    let report = end.report().unwrap();
    assert_eq!(report.error, None);
    assert_eq!(report.receipt.unwrap().amount, word(4 * ETHER));
    assert_eq!(report.balance, Some(AmountValue::new(CurrencyKind::Scm, word(200 * ETHER))));
}

#[test]
fn funding_without_conditioning_goes_straight_to_the_sale() {
    let mut mock = Mock::new();
    mock.weth_balance = 5 * ETHER;
    mock.allowance = 5 * ETHER;
    let funds = Eth::new(word(5 * ETHER));
    let end = mock.drive(run_funding_workflow(ACCOUNT, SALE, funds, FundingPolicy::Strict, false, false));
    let report = end.report().unwrap();
    assert_eq!(report.error, None);
    assert_eq!((report.wrap, report.approve), (StepRecord::NotConsidered, StepRecord::NotConsidered));
    assert_eq!(mock.submitted.len(), 1);
    assert_eq!(mock.told.len(), 2);
}

#[test]
fn a_failed_conditioning_funds_nothing() {
    let amount = word(2 * ETHER);
    let mut mock = Mock::new();
    mock.broken.push(Effect::Submit(deposit(amount)));
    let end = mock.drive(run_funding_workflow(
        ACCOUNT,
        SALE,
        Eth::new(amount),
        FundingPolicy::Strict,
        true,
        true,
    ));
    assert_eq!(
        end.report().unwrap().error,
        Some(WorkflowError::Conditioning(ConditioningError::StepFailed(
            SubStep::Wrap,
            Failure::Remote
        )))
    );
    assert_eq!(mock.submitted, Vec::new());

    let token = Effect::Read(Query { to: SALE, read: Read::WethToken, block: None });
    let mut mock = Mock::new();
    mock.broken.push(token);
    let end = mock.drive(run_funding_workflow(
        ACCOUNT,
        SALE,
        Eth::new(amount),
        FundingPolicy::Strict,
        true,
        true,
    ));
    assert_eq!(end.report().unwrap().error, Some(WorkflowError::Remote(token, Failure::Remote)));
    let (workflow, _) = FundingWorkflow::start(
        ACCOUNT,
        SALE,
        amount,
        FundingPolicy::Strict,
        options(true, true),
    );
    assert_eq!(workflow.report(), None);
}

#[test]
fn claiming_reads_back_the_token_balance() {
    let mut mock = Mock::new();
    mock.phase = 2;
    mock.bought = 40 * ETHER;
    let end = mock.drive(IcoCommand::Claim { wait: false }.invoke(ACCOUNT, SALE));
    let report = end.report().unwrap();
    assert_eq!(report.error, None);
    assert_eq!(report.balance, Some(AmountValue::new(CurrencyKind::Scm, word(40 * ETHER))));
    assert_eq!(
        mock.submitted,
        vec![Transaction { from: ACCOUNT, to: SALE, write: Write::Claim }]
    );
    assert_eq!(
        mock.reads,
        vec![
            Query { to: SALE, read: Read::ScmToken, block: None },
            Query { to: SCM, read: Read::BalanceOf { owner: ACCOUNT }, block: None },
        ]
    );
    assert_eq!(mock.told[0], Note::Done);
    assert_eq!(mock.told[1].text(), "SCM balance: 40.000000000000000000scm");
    assert_eq!(mock.effects[0], Effect::Submit(mock.submitted[0]));
}

#[test]
fn claiming_can_wait_for_the_finish() {
    let mut mock = Mock::new();
    mock.bought = ETHER;
    mock.now = at(1_700_000_000);
    let end = mock.drive(run_claim_workflow(ACCOUNT, SALE, true));
    let report = end.report().unwrap();
    assert_eq!(report.error, None);
    assert_eq!(report.phase, Some(SalePhase::Ongoing));
    assert_eq!(mock.awaited.len(), 1);
    assert_eq!(mock.slept.len(), 1);
    assert_eq!(mock.slept[0].secs(), 3600);
    assert_eq!(mock.submitted.len(), 1);
    assert_eq!(mock.scm_balance, ETHER);

    let mut mock = Mock::new();
    let end = mock.drive(run_claim_workflow(ACCOUNT, SALE, false));
    let claim = Effect::Submit(Transaction { from: ACCOUNT, to: SALE, write: Write::Claim });
    assert_eq!(end.report().unwrap().error, Some(WorkflowError::Remote(claim, Failure::Reverted)));
    assert_eq!(mock.told, Vec::new());

    let mut mock = Mock::new();
    mock.broken.push(Effect::Head);
    let end = mock.drive(run_claim_workflow(ACCOUNT, SALE, true));
    assert_eq!(
        end.report().unwrap().error,
        Some(WorkflowError::Remote(Effect::Head, Failure::Remote))
    );
    assert_eq!(mock.submitted, Vec::new());
    assert_eq!(ClaimWorkflow::start(ACCOUNT, SALE, true).0.report(), None);
}

fn info(mock: &mut Mock) -> InfoQuery {
    match mock.drive(IcoCommand::Info.invoke(ACCOUNT, SALE)) {
        Workflow::Info(query) => query,
        other => panic!("{:?}", other),
    }
}

#[test]
fn the_status_of_an_ongoing_sale_has_no_times() {
    let mut mock = Mock::new();
    let query = info(&mut mock);
    assert_eq!(
        query.result(),
        Some(LedgerState {
            height: 1000,
            phase: SalePhase::Ongoing,
            left_eth: AmountValue::new(CurrencyKind::Eth, word(100 * ETHER)),
            left_scm: AmountValue::new(CurrencyKind::Scm, word(5000 * ETHER)),
            ico: SALE,
            scm: SCM,
            weth: WETH,
            close_time: None,
            finish_time: None,
        })
    );
    let lines: Vec<String> = mock.told.iter().map(|n| n.text()).collect();
    assert_eq!(
        lines,
        vec![
            "State: Ongoing",
            "Left ETH: 100.000000000000000000eth",
            "Left SCM: 5000.000000000000000000scm",
            "ICO: ",
            "SCM: ",
            "WETH: ",
        ]
    );
    assert_eq!(mock.told[3].detail(), Detail::Address(SALE));
    assert_eq!(mock.told[4].detail(), Detail::Address(SCM));
    assert_eq!(mock.told[5].detail(), Detail::Address(WETH));
    assert_eq!(mock.told[0].detail(), Detail::Nothing);
    assert_eq!(mock.effects[0], Effect::Head);
    assert_eq!(mock.effects[1], Effect::Status { sale: SALE, height: 1000 });
    assert_eq!(mock.reads.len(), 5);
    assert!(mock.reads.iter().all(|q| q.block == Some(1000) && q.to == SALE));
}

#[test]
fn the_status_of_a_closed_sale_has_its_times_from_the_same_height() {
    for phase in [1u8, 2, 9] {
        let mut mock = Mock::new();
        mock.phase = phase;
        mock.head = 31337;
        let query = info(&mut mock);
        let state = query.result().unwrap();
        assert_eq!(state.height, 31337);
        assert_eq!(state.phase, SalePhase::from_code(phase));
        assert_eq!(state.close_time, Some(word(1_700_000_000)));
        assert_eq!(state.finish_time, Some(word(1_700_003_600)));
        assert_eq!(mock.reads.len(), 7);
        assert!(mock.reads.iter().all(|q| q.block == Some(31337)));
        assert_eq!(mock.reads[5].read, Read::CloseTime);
        assert_eq!(mock.reads[6].read, Read::FinishTime);
        assert_eq!(mock.told[6], Note::CloseTime(word(1_700_000_000)));
        assert_eq!(mock.told[7], Note::FinishTime(word(1_700_003_600)));
        assert_eq!(mock.told[6].text(), "Close time: ");
        assert_eq!(mock.told[7].detail(), Detail::Time(word(1_700_003_600)));
    }
    let mut mock = Mock::new();
    mock.phase = 9;
    info(&mut mock);
    assert_eq!(mock.told[0].text(), "State: Unknown (9)");
}

#[test]
fn a_status_value_that_failed_ends_the_query_at_its_line() {
    let cases = [
        (Read::State, 0),
        (Read::LeftEth, 1),
        (Read::LeftScm, 2),
        (Read::ScmToken, 4),
        (Read::WethToken, 5),
    ];
    for (read, shown) in cases {
        let mut mock = Mock::new();
        mock.failing_status.push(read);
        let query = info(&mut mock);
        assert_eq!(query.result(), None);
        assert_eq!(
            query.error,
            Some(WorkflowError::Remote(
                Effect::Read(Query { to: SALE, read, block: Some(1000) }),
                Failure::Remote
            ))
        );
        assert_eq!(mock.told.len(), shown);
    }
}

#[test]
fn a_status_from_another_height_is_refused() {
    let mut mock = Mock::new();
    mock.answer_height = Some(999);
    let query = info(&mut mock);
    assert_eq!(query.result(), None);
    assert_eq!(
        query.error,
        Some(WorkflowError::Remote(
            Effect::Read(Query { to: SALE, read: Read::State, block: Some(1000) }),
            Failure::Remote
        ))
    );

    let (query, _) = InfoQuery::start(SALE);
    let (query, effect) = query.advance(Outcome::Head(5));
    assert_eq!(effect, Effect::Status { sale: SALE, height: 5 });
    let elsewhere = StatusValues {
        height: 6,
        state: Ok(0),
        left_eth: Ok(word(1)),
        left_scm: Ok(word(1)),
        scm: Ok(SCM),
        weth: Ok(WETH),
    };
    let (query, effect) = query.advance(Outcome::Status(elsewhere));
    assert_eq!(effect, Effect::Finish);
    assert_eq!(
        query.error,
        Some(WorkflowError::Remote(
            Effect::Status { sale: SALE, height: 5 },
            Failure::HeightUnavailable
        ))
    );
    assert_eq!(run_info_query(SALE).1, Effect::Head);
}

#[test]
fn holdings_are_shown_in_either_currency() {
    let mut mock = Mock::new();
    mock.paid = 2 * ETHER;
    mock.bought = 100 * ETHER;
    let end = mock.drive(IcoCommand::Balance { address: None, eth: true }.invoke(ACCOUNT, SALE));
    assert_eq!(
        end.report().unwrap().balance,
        Some(AmountValue::new(CurrencyKind::Eth, word(2 * ETHER)))
    );
    assert_eq!(mock.reads, vec![Query { to: SALE, read: Read::BalanceEth { holder: ACCOUNT }, block: None }]);
    assert_eq!(mock.told[0].text(), "ICO balance: 2.000000000000000000eth");

    let mut mock = Mock::new();
    mock.bought = 100 * ETHER;
    let command = IcoCommand::Balance { address: Some(OTHER), eth: false };
    mock.drive(command.invoke(ACCOUNT, SALE));
    assert_eq!(mock.reads, vec![Query { to: SALE, read: Read::BalanceScm { holder: OTHER }, block: None }]);
    assert_eq!(mock.told[0].text(), "ICO balance: 100.000000000000000000scm");
}

// Token commands

#[test]
fn token_balances_are_read_and_shown() {
    let mut mock = Mock::new();
    mock.scm_balance = 3 * ETHER;
    let end = mock.run_script(ScmCommand::Balance { address: None }.invoke(ACCOUNT, SCM));
    assert_eq!(end.report.balance, Some(AmountValue::new(CurrencyKind::Scm, word(3 * ETHER))));
    assert_eq!(mock.reads, vec![Query { to: SCM, read: Read::BalanceOf { owner: ACCOUNT }, block: None }]);
    assert_eq!(mock.told[0].text(), "SCM balance: 3.000000000000000000scm");
    assert_eq!(mock.submitted, Vec::new());

    let mut mock = Mock::new();
    mock.weth_balance = ETHER / 2;
    mock.run_script(WethCommand::Balance { address: Some(OTHER) }.invoke(ACCOUNT, WETH));
    assert_eq!(mock.reads, vec![Query { to: WETH, read: Read::BalanceOf { owner: OTHER }, block: None }]);
    assert_eq!(mock.told[0].text(), "WETH balance: 0.500000000000000000eth");
}

#[test]
fn transfers_submit_and_then_show_the_callers_balance() {
    let mut mock = Mock::new();
    mock.scm_balance = 5 * ETHER;
    let funds = Scm::from_str("2scm").unwrap();
    let command = ScmCommand::Transfer { recipient: OTHER, funds, owner: None };
    let end = mock.run_script(command.invoke(ACCOUNT, SCM));
    assert_eq!(end.report.error, None);
    assert_eq!(
        mock.submitted,
        vec![Transaction {
            from: ACCOUNT,
            to: SCM,
            write: Write::TransferFrom { owner: ACCOUNT, recipient: OTHER, amount: word(2 * ETHER) },
        }]
    );
    assert_eq!(mock.told[0], Note::Done);
    assert_eq!(mock.told[1].text(), "SCM balance: 3.000000000000000000scm");

    let mut mock = Mock::new();
    let funds = Eth::from_str("1gwei").unwrap();
    let command = WethCommand::Transfer { recipient: ACCOUNT, funds, owner: Some(OTHER) };
    let (script, effect) = command.invoke(ACCOUNT, WETH);
    assert_eq!(
        effect,
        Effect::Submit(Transaction {
            from: ACCOUNT,
            to: WETH,
            write: Write::TransferFrom {
                owner: OTHER,
                recipient: ACCOUNT,
                amount: word(1_000_000_000)
            },
        })
    );
    let end = mock.run_script((script, effect));
    assert_eq!(end.report.error, Some(WorkflowError::Remote(effect, Failure::Reverted)));
    assert_eq!(mock.told, Vec::new());
    assert_eq!(mock.reads, Vec::new());
}

#[test]
fn allowances_are_read_and_set() {
    let mut mock = Mock::new();
    mock.allowance = 7;
    mock.run_script(ScmCommand::Allowance { owner: OTHER, spender: SALE }.invoke(ACCOUNT, SCM));
    assert_eq!(
        mock.reads,
        vec![Query { to: SCM, read: Read::Allowance { owner: OTHER, spender: SALE }, block: None }]
    );
    assert_eq!(mock.told[0].text(), "Allowance: 0.000000000000000007scm");

    let mut mock = Mock::new();
    mock.allowance = ETHER;
    mock.run_script(WethCommand::Allowance { owner: ACCOUNT, spender: SALE }.invoke(ACCOUNT, WETH));
    assert_eq!(mock.told[0].text(), "Allowance: 1.000000000000000000eth");

    let mut mock = Mock::new();
    let value = Eth::from_str("3eth").unwrap();
    mock.run_script(WethCommand::Approve { spender: SALE, value }.invoke(ACCOUNT, WETH));
    assert_eq!(mock.submitted, vec![approve(word(3 * ETHER))]);
    assert_eq!(mock.told, vec![Note::Done]);
    assert_eq!(mock.reads, Vec::new());
    assert_eq!(mock.allowance, 3 * ETHER);

    let mut mock = Mock::new();
    let value = Scm::from_str("3scm").unwrap();
    mock.run_script(ScmCommand::Approve { spender: OTHER, value }.invoke(ACCOUNT, SCM));
    assert_eq!(
        mock.submitted,
        vec![Transaction {
            from: ACCOUNT,
            to: SCM,
            write: Write::Approve { spender: OTHER, amount: word(3 * ETHER) }
        }]
    );
}

#[test]
fn ether_is_wrapped_and_unwrapped() {
    let mut mock = Mock::new();
    let amount = Eth::from_str("4eth").unwrap();
    mock.run_script(WethCommand::Deposit { amount }.invoke(ACCOUNT, WETH));
    assert_eq!(mock.submitted, vec![deposit(word(4 * ETHER))]);
    assert_eq!(mock.told[0], Note::Done);
    assert_eq!(mock.told[1].text(), "WETH balance: 4.000000000000000000eth");

    let amount = Eth::from_str("1500pwei").unwrap();
    mock.told.clear();
    mock.run_script(WethCommand::Withdraw { amount }.invoke(ACCOUNT, WETH));
    assert_eq!(
        mock.submitted[1],
        Transaction { from: ACCOUNT, to: WETH, write: Write::Withdraw { amount: word(3 * ETHER / 2) } }
    );
    assert_eq!(mock.told[1].text(), "WETH balance: 2.500000000000000000eth");
}

#[test]
fn notes_read_as_lines() {
    let eth = AmountValue::new(CurrencyKind::Eth, word(ETHER));
    let cases = [
        (Note::WrappingWeth, "Wrapping WETH"),
        (Note::WethBalanceSufficient, "WETH balance is sufficient, no need to wrap more"),
        (Note::ApprovingWeth, "Approving WETH"),
        (Note::WethAllowanceSufficient, "WETH allowance is sufficient, no need to approve more"),
        (Note::Done, "Done"),
        (Note::IcoBalance(eth), "ICO balance: 1.000000000000000000eth"),
        (Note::TokenBalance(eth), "WETH balance: 1.000000000000000000eth"),
        (Note::Allowance(eth), "Allowance: 1.000000000000000000eth"),
        (Note::Left(eth), "Left ETH: 1.000000000000000000eth"),
        (Note::State(SalePhase::Finished), "State: Finished"),
        (Note::ContractAddress(ContractName::Ico, SALE), "ICO: "),
        (Note::ContractAddress(ContractName::Scm, SCM), "SCM: "),
        (Note::ContractAddress(ContractName::Weth, WETH), "WETH: "),
        (Note::CloseTime(word(5)), "Close time: "),
        (Note::FinishTime(word(5)), "Finish time: "),
        (Note::WaitingForClose, "Waiting for ICO to close"),
        (Note::IcoClosed, "ICO closed"),
        (Note::FinishesAt(word(5)), "ICO will finish on "),
        (Note::WaitingForFinish, "Waiting for ICO to finish"),
        (Note::IcoFinished, "ICO finished"),
    ];
    for (note, line) in cases {
        assert_eq!(note.text(), line);
    }
    assert_eq!(Note::FinishesAt(word(5)).detail(), Detail::Time(word(5)));
    assert_eq!(Note::CloseTime(word(6)).detail(), Detail::Time(word(6)));
    assert_eq!(Note::Done.detail(), Detail::Nothing);
}

#[test]
fn an_unserved_height_is_told_apart() {
    let mut mock = Mock::new();
    mock.head = 10;
    let (query, _) = InfoQuery::start(SALE);
    let (query, effect) = query.advance(Outcome::Head(11));
    let outcome = mock.perform(effect);
    assert_eq!(outcome, Outcome::Failed(Failure::HeightUnavailable));
    let (query, effect) = query.advance(outcome);
    assert_eq!(effect, Effect::Finish);
    assert_eq!(
        query.error,
        Some(WorkflowError::Remote(
            Effect::Status { sale: SALE, height: 11 },
            Failure::HeightUnavailable
        ))
    );
}

#[test]
fn errors_say_which_call_failed() {
    let read = |read: Read| Effect::Read(Query { to: SALE, read, block: None });
    let send = |write: Write| Effect::Submit(Transaction { from: ACCOUNT, to: WETH, write });
    let remote = |effect: Effect| WorkflowError::Remote(effect, Failure::Remote);
    let cases = [
        (remote(Effect::Head), "block number call failed"),
        (remote(read(Read::State)), "state call failed"),
        (remote(read(Read::LeftEth)), "left_eth call failed"),
        (remote(read(Read::LeftScm)), "left_scm call failed"),
        (remote(read(Read::ScmToken)), "scm call failed"),
        (remote(read(Read::WethToken)), "weth call failed"),
        (remote(read(Read::CloseTime)), "close_time call failed"),
        (remote(read(Read::FinishTime)), "finish_time call failed"),
        (remote(read(Read::BalanceEth { holder: ACCOUNT })), "balance_eth call failed"),
        (remote(read(Read::BalanceScm { holder: ACCOUNT })), "balance_scm call failed"),
        (remote(read(Read::BalanceOf { owner: ACCOUNT })), "balance_of call failed"),
        (
            remote(read(Read::Allowance { owner: ACCOUNT, spender: SALE })),
            "allowance call failed",
        ),
        (remote(Effect::Status { sale: SALE, height: 3 }), "status call failed"),
        (remote(send(Write::Deposit { value: word(1) })), "deposit failed"),
        (remote(send(Write::Withdraw { amount: word(1) })), "withdraw failed"),
        (remote(send(Write::Approve { spender: SALE, amount: word(1) })), "approve failed"),
        (
            remote(send(Write::TransferFrom { owner: ACCOUNT, recipient: OTHER, amount: word(1) })),
            "transfer failed",
        ),
        (remote(send(Write::Fund { amount: word(1) })), "fund failed"),
        (remote(send(Write::FundAvailable { limit: word(1) })), "fund failed"),
        (remote(send(Write::Claim)), "claim failed"),
        (
            remote(Effect::AwaitEvent { sale: SALE, kind: EventKind::IcoClosed, from_block: 1 }),
            "event subscription failed",
        ),
        (remote(Effect::Clock), "clock failed"),
        (remote(Effect::Sleep(Span::zero())), "sleep failed"),
        (remote(Effect::Tell(Note::Done)), "output failed"),
        (remote(Effect::Finish), "nothing failed"),
        (
            WorkflowError::Conditioning(ConditioningError::StepFailed(
                SubStep::Wrap,
                Failure::Reverted,
            )),
            "deposit failed",
        ),
        (
            WorkflowError::Conditioning(ConditioningError::StepFailed(
                SubStep::Approve,
                Failure::Remote,
            )),
            "approve failed",
        ),
        (
            WorkflowError::Conditioning(ConditioningError::RemoteCallFailed(SubStep::Wrap)),
            "balance_of call failed",
        ),
        (
            WorkflowError::Conditioning(ConditioningError::RemoteCallFailed(SubStep::Approve)),
            "allowance call failed",
        ),
        (
            WorkflowError::Funding(FundingError::Reverted),
            "fund call failed: the sale cannot take the full amount",
        ),
        (WorkflowError::Funding(FundingError::SaleClosed), "fund call failed: the sale is closed"),
        (WorkflowError::Funding(FundingError::RemoteCallFailed), "fund call failed"),
        (WorkflowError::Timestamp(word(5)), "finish_time is out of range"),
    ];
    for (error, text) in cases {
        assert_eq!(error.message(), text);
    }
    assert_eq!(remote(Effect::Head).failure(), Some(Failure::Remote));
    assert_eq!(
        WorkflowError::Remote(Effect::Clock, Failure::HeightUnavailable).failure(),
        Some(Failure::HeightUnavailable)
    );
    assert_eq!(
        WorkflowError::Conditioning(ConditioningError::StepFailed(
            SubStep::Wrap,
            Failure::Reverted
        ))
        .failure(),
        Some(Failure::Reverted)
    );
    assert_eq!(WorkflowError::Funding(FundingError::Reverted).failure(), None);
    assert_eq!(WorkflowError::Timestamp(word(5)).failure(), None);
}
