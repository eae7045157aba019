//! Evaluation of one transfer. The extension decides; the caller talks to
//! the ledger. An evaluation either finishes, or stops at a question for the
//! ledger and goes on when it is handed the answer.

use crate::composer::{
    admin_share, compose, composed, operation_amount, self_recipient, self_recipient_response,
};
use crate::engine::{Engine, EngineView};
use crate::error::ContractError;
use crate::guards::{
    assert_block_smart_contracts, assert_freezing, assert_ibc, assert_whitelisting,
    first_rejection, freezing_violated, guard_order, guard_verdict, ibc_verdict,
    smart_contract_verdict, whitelisting_violated, Guard,
};
use crate::ledger::{Ledger, LedgerAnswer, LedgerAnswerView, LedgerSnapshot, Query, QueryView};
use crate::msg::{TransferRequest, TransferRequestView};
use crate::response::{outcome_view, Response, ResponseView};
use crate::text::same_text;
use crate::token::{Token, TokenView};
use vstd::prelude::*;

verus! {

/// What the policy decides on a request, given the answers that the ledger
/// would give: a transfer of nothing is rejected; a transfer to the extension
/// itself is accepted with nothing to apply; else the token's descriptor is
/// needed, the first guard that rejects decides, and a transfer that passes
/// them all is composed.
pub open spec fn transfer_outcome(
    engine: EngineView,
    request: TransferRequestView,
    ledger: Ledger,
) -> Result<ResponseView, ContractError> {
    if request.transfer_amount == 0 {
        Err(ContractError::InvalidAmount)
    } else if request.recipient == engine.address {
        Ok(self_recipient_response())
    } else {
        match ledger.token(engine.denom) {
            None => Err(ContractError::QueryFailure),
            Some(token) => match first_rejection(engine, request, token, ledger, 0) {
                Some(e) => Err(e),
                None => composed(engine, request, token),
            },
        }
    }
}

/// The question that an evaluation is waiting on.
#[derive(Clone, Debug)]
pub enum Stage {
    /// The token's descriptor.
    Token,
    /// For the freezing guard, the sender's available balance.
    FreezingAvailable { token: Token },
    /// For the freezing guard, the sender's frozen balance.
    FreezingFrozen { token: Token, available: u128 },
    /// For the whitelisting guard, the recipient's available balance.
    WhitelistingAvailable { token: Token },
    /// For the whitelisting guard, the recipient's whitelisted limit.
    WhitelistingLimit { token: Token, available: u128 },
}

/// The mathematical content of a [`Stage`].
pub enum StageView {
    Token,
    FreezingAvailable { token: TokenView },
    FreezingFrozen { token: TokenView, available: nat },
    WhitelistingAvailable { token: TokenView },
    WhitelistingLimit { token: TokenView, available: nat },
}

impl View for Stage {
    type V = StageView;

    open spec fn view(&self) -> StageView {
        match self {
            Stage::Token => StageView::Token,
            Stage::FreezingAvailable { token } => StageView::FreezingAvailable { token: token@ },
            Stage::FreezingFrozen { token, available } => StageView::FreezingFrozen {
                token: token@,
                available: *available as nat,
            },
            Stage::WhitelistingAvailable { token } => StageView::WhitelistingAvailable {
                token: token@,
            },
            Stage::WhitelistingLimit { token, available } => StageView::WhitelistingLimit {
                token: token@,
                available: *available as nat,
            },
        }
    }
}

/// An evaluation that waits on an answer from the ledger.
#[derive(Clone, Debug)]
pub struct Evaluation {
    pub engine: Engine,
    pub request: TransferRequest,
    pub stage: Stage,
}

/// The mathematical content of an [`Evaluation`].
pub struct EvaluationView {
    pub engine: EngineView,
    pub request: TransferRequestView,
    pub stage: StageView,
}

impl View for Evaluation {
    type V = EvaluationView;

    open spec fn view(&self) -> EvaluationView {
        EvaluationView { engine: self.engine@, request: self.request@, stage: self.stage@ }
    }
}

/// Where an evaluation stands after a step.
#[derive(Debug)]
pub enum Step {
    /// It needs the answer to the evaluation's question.
    Ask(Evaluation),
    /// It is over, with this outcome.
    Finish(Result<Response, ContractError>),
}

/// The mathematical content of a [`Step`].
pub enum StepView {
    Ask(EvaluationView),
    Finish(Result<ResponseView, ContractError>),
}

impl View for Step {
    type V = StepView;

    open spec fn view(&self) -> StepView {
        match self {
            Step::Ask(pending) => StepView::Ask(pending@),
            Step::Finish(outcome) => StepView::Finish(outcome_view(*outcome)),
        }
    }
}

/// The step after the whitelisting guard: the two guards that need no
/// balance, then the composition.
pub open spec fn after_balances(
    engine: EngineView,
    request: TransferRequestView,
    token: TokenView,
) -> StepView {
    StepView::Finish(
        match smart_contract_verdict(engine, request, token) {
            Some(e) => Err(e),
            None => match ibc_verdict(engine, request, token) {
                Some(e) => Err(e),
                None => composed(engine, request, token),
            },
        },
    )
}

/// The step at the whitelisting guard: a question where the guard applies.
pub open spec fn at_whitelisting(
    engine: EngineView,
    request: TransferRequestView,
    token: TokenView,
) -> StepView {
    if Guard::Whitelisting.applies(engine, request, token) {
        StepView::Ask(
            EvaluationView { engine, request, stage: StageView::WhitelistingAvailable { token } },
        )
    } else {
        after_balances(engine, request, token)
    }
}

/// The step at the freezing guard: a rejection where the guard applies and
/// the token is frozen globally, a question where it applies otherwise.
pub open spec fn at_freezing(
    engine: EngineView,
    request: TransferRequestView,
    token: TokenView,
) -> StepView {
    if Guard::Freezing.applies(engine, request, token) {
        if token.globally_frozen {
            StepView::Finish(Err(ContractError::FreezingError))
        } else {
            StepView::Ask(
                EvaluationView { engine, request, stage: StageView::FreezingAvailable { token } },
            )
        }
    } else {
        at_whitelisting(engine, request, token)
    }
}

/// The first step of an evaluation: the two checks that need no ledger, then
/// the question for the token's descriptor.
pub open spec fn first_step(engine: EngineView, request: TransferRequestView) -> StepView {
    if request.transfer_amount == 0 {
        StepView::Finish(Err(ContractError::InvalidAmount))
    } else if request.recipient == engine.address {
        StepView::Finish(Ok(self_recipient_response()))
    } else {
        StepView::Ask(EvaluationView { engine, request, stage: StageView::Token })
    }
}

impl EvaluationView {
    /// The question that the evaluation waits on.
    pub open spec fn question(self) -> QueryView {
        match self.stage {
            StageView::Token => QueryView::Token { denom: self.engine.denom },
            StageView::FreezingAvailable { token } => QueryView::AvailableBalance {
                account: self.request.sender,
                denom: token.denom,
            },
            StageView::FreezingFrozen { token, .. } => QueryView::FrozenBalance {
                account: self.request.sender,
                denom: token.denom,
            },
            StageView::WhitelistingAvailable { token } => QueryView::AvailableBalance {
                account: self.request.recipient,
                denom: token.denom,
            },
            StageView::WhitelistingLimit { token, .. } => QueryView::WhitelistedBalance {
                account: self.request.recipient,
                denom: token.denom,
            },
        }
    }

    /// How many questions the evaluation may still put, this one included.
    pub open spec fn rank(self) -> nat {
        match self.stage {
            StageView::Token => 5,
            StageView::FreezingAvailable { .. } => 4,
            StageView::FreezingFrozen { .. } => 3,
            StageView::WhitelistingAvailable { .. } => 2,
            StageView::WhitelistingLimit { .. } => 1,
        }
    }
}

impl EvaluationView {
    /// The step that follows when the ledger's answer is `answer`. An answer
    /// of the wrong kind, like no answer, ends the evaluation with
    /// `QueryFailure`.
    pub open spec fn resume(self, answer: LedgerAnswerView) -> StepView {
        match (self.stage, answer) {
            (StageView::Token, LedgerAnswerView::Token(token)) => at_freezing(
                self.engine,
                self.request,
                token,
            ),
            (StageView::FreezingAvailable { token }, LedgerAnswerView::Amount(available)) => {
                StepView::Ask(
                    EvaluationView {
                        engine: self.engine,
                        request: self.request,
                        stage: StageView::FreezingFrozen { token, available },
                    },
                )
            },
            (StageView::FreezingFrozen { token, available }, LedgerAnswerView::Amount(frozen)) => {
                if freezing_violated(available, frozen) {
                    StepView::Finish(Err(ContractError::FreezingError))
                } else {
                    at_whitelisting(self.engine, self.request, token)
                }
            },
            (StageView::WhitelistingAvailable { token }, LedgerAnswerView::Amount(available)) => {
                StepView::Ask(
                    EvaluationView {
                        engine: self.engine,
                        request: self.request,
                        stage: StageView::WhitelistingLimit { token, available },
                    },
                )
            },
            (StageView::WhitelistingLimit { token, available }, LedgerAnswerView::Amount(limit)) => {
                if whitelisting_violated(self.request.transfer_amount, available, limit) {
                    StepView::Finish(Err(ContractError::WhitelistingError))
                } else {
                    after_balances(self.engine, self.request, token)
                }
            },
            _ => StepView::Finish(Err(ContractError::QueryFailure)),
        }
    }
}

impl StepView {
    /// How many questions may still be put from this step on.
    pub open spec fn rank(self) -> nat {
        match self {
            StepView::Ask(pending) => pending.rank(),
            StepView::Finish(_) => 0,
        }
    }

    /// The outcome that is reached from this step when every question is
    /// answered as `ledger` answers it.
    pub open spec fn run(self, ledger: Ledger) -> Result<ResponseView, ContractError>
        decreases self.rank(),
    {
        match self {
            StepView::Finish(outcome) => outcome,
            StepView::Ask(pending) => pending.resume((ledger.answer)(pending.question())).run(
                ledger,
            ),
        }
    }
}

fn finish(engine: &Engine, request: &TransferRequest, token: &Token) -> (r: Step)
    ensures
        r@ == after_balances(engine@, request@, token@),
{
    match assert_block_smart_contracts(engine, request, token) {
        Err(e) => Step::Finish(Err(e)),
        Ok(()) => match assert_ibc(engine, request, token) {
            Err(e) => Step::Finish(Err(e)),
            Ok(()) => Step::Finish(compose(engine, request, token)),
        },
    }
}

fn check_whitelisting(engine: Engine, request: TransferRequest, token: Token) -> (r: Step)
    ensures
        r@ == at_whitelisting(engine@, request@, token@),
{
    if Guard::Whitelisting.does_apply(&engine, &request, &token) {
        Step::Ask(Evaluation { engine, request, stage: Stage::WhitelistingAvailable { token } })
    } else {
        finish(&engine, &request, &token)
    }
}

fn check_freezing(engine: Engine, request: TransferRequest, token: Token) -> (r: Step)
    ensures
        r@ == at_freezing(engine@, request@, token@),
{
    if Guard::Freezing.does_apply(&engine, &request, &token) {
        if token.globally_frozen {
            Step::Finish(Err(ContractError::FreezingError))
        } else {
            Step::Ask(Evaluation { engine, request, stage: Stage::FreezingAvailable { token } })
        }
    } else {
        check_whitelisting(engine, request, token)
    }
}

/// Begins the evaluation of a transfer. A transfer of nothing is rejected
/// and a transfer to the extension itself is accepted at once, whatever the
/// ledger holds; every other transfer asks for the token's descriptor.
pub fn sudo_extension_transfer(engine: &Engine, request: TransferRequest) -> (r: Step)
    ensures
        r@ == first_step(engine@, request@),
{
    if request.transfer_amount == 0 {
        return Step::Finish(Err(ContractError::InvalidAmount));
    }
    if same_text(&request.recipient, &engine.address) {
        return Step::Finish(Ok(self_recipient()));
    }
    Step::Ask(Evaluation { engine: engine.duplicate(), request, stage: Stage::Token })
}

impl Evaluation {
    /// The question that the evaluation waits on.
    pub fn question(&self) -> (r: Query)
        ensures
            r@ == self@.question(),
    {
        match &self.stage {
            Stage::Token => Query::Token { denom: self.engine.denom.clone() },
            Stage::FreezingAvailable { token } => Query::AvailableBalance {
                account: self.request.sender.clone(),
                denom: token.denom.clone(),
            },
            Stage::FreezingFrozen { token, .. } => Query::FrozenBalance {
                account: self.request.sender.clone(),
                denom: token.denom.clone(),
            },
            Stage::WhitelistingAvailable { token } => Query::AvailableBalance {
                account: self.request.recipient.clone(),
                denom: token.denom.clone(),
            },
            Stage::WhitelistingLimit { token, .. } => Query::WhitelistedBalance {
                account: self.request.recipient.clone(),
                denom: token.denom.clone(),
            },
        }
    }

    /// Goes on with the ledger's answer to the evaluation's question.
    pub fn resume(self, answer: LedgerAnswer) -> (r: Step)
        ensures
            r@ == self@.resume(answer@),
    {
        let Evaluation { engine, request, stage } = self;
        match stage {
            Stage::Token => match answer {
                LedgerAnswer::Token(token) => check_freezing(engine, request, token),
                _ => Step::Finish(Err(ContractError::QueryFailure)),
            },
            Stage::FreezingAvailable { token } => match answer {
                LedgerAnswer::Amount(available) => Step::Ask(
                    Evaluation { engine, request, stage: Stage::FreezingFrozen { token, available } },
                ),
                _ => Step::Finish(Err(ContractError::QueryFailure)),
            },
            Stage::FreezingFrozen { token, available } => match answer {
                LedgerAnswer::Amount(frozen) => match assert_freezing(available, frozen) {
                    Err(e) => Step::Finish(Err(e)),
                    Ok(()) => check_whitelisting(engine, request, token),
                },
                _ => Step::Finish(Err(ContractError::QueryFailure)),
            },
            Stage::WhitelistingAvailable { token } => match answer {
                LedgerAnswer::Amount(available) => Step::Ask(
                    Evaluation {
                        engine,
                        request,
                        stage: Stage::WhitelistingLimit { token, available },
                    },
                ),
                _ => Step::Finish(Err(ContractError::QueryFailure)),
            },
            Stage::WhitelistingLimit { token, available } => match answer {
                LedgerAnswer::Amount(limit) => match assert_whitelisting(
                    request.transfer_amount,
                    available,
                    limit,
                ) {
                    Err(e) => Step::Finish(Err(e)),
                    Ok(()) => finish(&engine, &request, &token),
                },
                _ => Step::Finish(Err(ContractError::QueryFailure)),
            },
        }
    }
}

/// Evaluates a transfer against answers gathered beforehand: begins the
/// evaluation and hands it the snapshot's answer to each question until it
/// finishes. The outcome is what the policy decides for the ledger that
/// answers as the snapshot does.
pub fn evaluate(
    engine: &Engine,
    request: TransferRequest,
    snapshot: &LedgerSnapshot,
) -> (r: Result<Response, ContractError>)
    ensures
        outcome_view(r) == transfer_outcome(engine@, request@, snapshot@.ledger()),
{
    let ghost ledger = snapshot@.ledger();
    let ghost decided = transfer_outcome(engine@, request@, ledger);
    proof {
        theorem_evaluation_decides(engine@, request@, ledger);
    }
    let mut step = sudo_extension_transfer(engine, request);
    loop
        invariant
            ledger == snapshot@.ledger(),
            decided == transfer_outcome(engine@, request@, ledger),
            step@.run(ledger) == decided,
        decreases step@.rank(),
    {
        match step {
            Step::Finish(outcome) => {
                return outcome;
            },
            Step::Ask(pending) => {
                let query = pending.question();
                let answer = snapshot.answer(&query);
                step = pending.resume(answer);
            },
        }
    }
}

/// Driving an evaluation from its first step, with every question answered
/// as the ledger answers it, ends in the outcome that the policy decides.
pub proof fn theorem_evaluation_decides(
    engine: EngineView,
    request: TransferRequestView,
    ledger: Ledger,
)
    ensures
        first_step(engine, request).run(ledger) == transfer_outcome(engine, request, ledger),
{
    reveal_with_fuel(StepView::run, 6);
    reveal_with_fuel(first_rejection, 5);
}

/// The first guard in the order that rejects decides the outcome: where the
/// guards before position `k` let the request through and the guard at `k`
/// rejects, the transfer is rejected with that guard's error.
pub proof fn first_rejecting_guard_decides(
    engine: EngineView,
    request: TransferRequestView,
    token: TokenView,
    ledger: Ledger,
    k: int,
)
    requires
        request.transfer_amount != 0,
        request.recipient != engine.address,
        ledger.token(engine.denom) == Some(token),
        0 <= k < guard_order().len(),
        forall|j: int|
            0 <= j < k ==> (#[trigger] guard_verdict(
                guard_order()[j],
                engine,
                request,
                token,
                ledger,
            )) is None,
        guard_verdict(guard_order()[k], engine, request, token, ledger) is Some,
    ensures
        transfer_outcome(engine, request, ledger) == Err::<ResponseView, ContractError>(
            guard_verdict(guard_order()[k], engine, request, token, ledger)->0,
        ),
{
    reveal_with_fuel(first_rejection, 5);
    if k >= 1 {
        assert(guard_verdict(guard_order()[0], engine, request, token, ledger) is None);
    }
    if k >= 2 {
        assert(guard_verdict(guard_order()[1], engine, request, token, ledger) is None);
    }
    if k >= 3 {
        assert(guard_verdict(guard_order()[2], engine, request, token, ledger) is None);
    }
}

/// A transfer that every guard lets through comes to what the composer
/// makes of it.
pub proof fn passing_transfer_is_composed(
    engine: EngineView,
    request: TransferRequestView,
    token: TokenView,
    ledger: Ledger,
)
    requires
        request.transfer_amount != 0,
        request.recipient != engine.address,
        ledger.token(engine.denom) == Some(token),
        forall|j: int|
            0 <= j < guard_order().len() ==> (#[trigger] guard_verdict(
                guard_order()[j],
                engine,
                request,
                token,
                ledger,
            )) is None,
    ensures
        transfer_outcome(engine, request, ledger) == composed(engine, request, token),
{
    reveal_with_fuel(first_rejection, 5);
    assert(guard_verdict(guard_order()[0], engine, request, token, ledger) is None);
    assert(guard_verdict(guard_order()[1], engine, request, token, ledger) is None);
    assert(guard_verdict(guard_order()[2], engine, request, token, ledger) is None);
    assert(guard_verdict(guard_order()[3], engine, request, token, ledger) is None);
}

/// Every amount in the operations of an accepted transfer is the transfer
/// amount, the administrator's share of the commission, or the burn amount:
/// the extension makes up no amount of its own.
pub proof fn amounts_come_from_the_request(
    engine: EngineView,
    request: TransferRequestView,
    ledger: Ledger,
    i: int,
)
    requires
        transfer_outcome(engine, request, ledger) is Ok,
        0 <= i < transfer_outcome(engine, request, ledger)->Ok_0.operations.len(),
    ensures
        ({
            let amount = operation_amount(
                transfer_outcome(engine, request, ledger)->Ok_0.operations[i],
            );
            amount == request.transfer_amount || amount == admin_share(request.commission_amount)
                || amount == request.burn_amount
        }),
{
}

/// A transfer that needs the token's descriptor is rejected with
/// `QueryFailure` where the ledger does not give one.
pub proof fn missing_token_fails_closed(
    engine: EngineView,
    request: TransferRequestView,
    ledger: Ledger,
)
    requires
        request.transfer_amount != 0,
        request.recipient != engine.address,
        ledger.token(engine.denom) is None,
    ensures
        transfer_outcome(engine, request, ledger) == Err::<ResponseView, ContractError>(
            ContractError::QueryFailure,
        ),
{
}

/// A transfer of nothing is rejected with `InvalidAmount`, whatever else the
/// request, the configuration and the ledger hold, and without a question to
/// the ledger.
pub proof fn zero_amount_is_rejected(
    engine: EngineView,
    request: TransferRequestView,
    ledger: Ledger,
)
    requires
        request.transfer_amount == 0,
    ensures
        transfer_outcome(engine, request, ledger) == Err::<ResponseView, ContractError>(
            ContractError::InvalidAmount,
        ),
        first_step(engine, request) == StepView::Finish(Err(ContractError::InvalidAmount)),
{
}

/// A transfer of something to the extension itself is accepted with no
/// operation at all, whatever the token's flags and the balances are, and
/// without a question to the ledger.
pub proof fn self_recipient_bypasses(
    engine: EngineView,
    request: TransferRequestView,
    ledger: Ledger,
)
    requires
        request.transfer_amount != 0,
        request.recipient == engine.address,
    ensures
        transfer_outcome(engine, request, ledger) == Ok::<ResponseView, ContractError>(
            self_recipient_response(),
        ),
        self_recipient_response().operations.len() == 0,
        first_step(engine, request) == StepView::Finish(Ok(self_recipient_response())),
{
}

} // verus!
