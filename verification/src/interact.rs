//! The workflow over one contract: which request each operation sends, and
//! what becomes of the record when the contract is deployed.

use vstd::prelude::*;
use crate::address::{address_from_bytes, AddressError, AddressView, Bech32Address};
use crate::outcome::{checked, classified, value_views, Mismatch, OutcomeView, RawResult, RemoteOutcome, ResponseClassifier};
use crate::request::{
    argument_views,
    deploy_request,
    invocation_request,
    payment_views,
    query_request,
    Argument,
    ArgumentView,
    Payment,
    PaymentView,
    RequestKind,
    RequestView,
    TransactionBuilder,
    TransactionRequest,
};
use crate::state::{loaded, stored_text, text_view, State, StateError};

verus! {

/// Gas budget of the creation request.
pub const DEPLOY_GAS: u64 = 35_000_000;

/// Gas budget of every call.
pub const CALL_GAS: u64 = 30_000_000;

/// Status with which the contract declares a failure of its own.
pub const USER_ERROR: u64 = 4;

/// One operation on the contract, with its parameters.
#[derive(Debug, Clone, PartialEq, Eq)]
pub enum Call {
    /// Creates the contract.
    Deploy,
    /// Sets a fee of `fee_amount` of `fee_token` on transfers of `token`.
    SetExactValueFee { fee_token: String, fee_amount: u128, token: String },
    /// Sets a fee that is a share of the amount on transfers of `token`.
    SetPercentageFee { fee: u32, token: String },
    /// Sweeps the fees paid so far to the owner.
    ClaimFees,
    /// Transfers what is attached: token payments, or a native amount.
    Transfer { payments: Vec<Payment>, native_amount: u128 },
    /// Reads the fee set on `token`.
    TokenFee { token: String },
    /// Reads the fees paid and not yet claimed.
    PaidFees,
}

/// A call with every text and payment seen through its view.
pub enum CallView {
    Deploy,
    SetExactValueFee { fee_token: Seq<char>, fee_amount: u128, token: Seq<char> },
    SetPercentageFee { fee: u32, token: Seq<char> },
    ClaimFees,
    Transfer { payments: Seq<PaymentView>, native_amount: u128 },
    TokenFee { token: Seq<char> },
    PaidFees,
}

impl View for Call {
    type V = CallView;

    open spec fn view(&self) -> CallView {
        match *self {
            Call::Deploy => CallView::Deploy,
            Call::SetExactValueFee { fee_token, fee_amount, token } => CallView::SetExactValueFee {
                fee_token: fee_token@,
                fee_amount,
                token: token@,
            },
            Call::SetPercentageFee { fee, token } => CallView::SetPercentageFee {
                fee,
                token: token@,
            },
            Call::ClaimFees => CallView::ClaimFees,
            Call::Transfer { payments, native_amount } => CallView::Transfer {
                payments: payment_views(payments@),
                native_amount,
            },
            Call::TokenFee { token } => CallView::TokenFee { token: token@ },
            Call::PaidFees => CallView::PaidFees,
        }
    }
}

/// A failure that a caller expects: its code and its message.
#[derive(Debug, Clone, PartialEq, Eq)]
pub struct ExpectError {
    pub code: u64,
    pub message: String,
}

/// A request together with the failure that its sender expects, if any.
#[derive(Debug, Clone, PartialEq, Eq)]
pub struct Exchange {
    pub request: TransactionRequest,
    pub expected: Option<ExpectError>,
}

/// Name of the remote operation that a call selects.
pub open spec fn operation_name(call: CallView) -> Seq<char> {
    match call {
        CallView::Deploy => "init"@,
        CallView::SetExactValueFee { .. } => "setExactValueFee"@,
        CallView::SetPercentageFee { .. } => "setPercentageFee"@,
        CallView::ClaimFees => "claimFees"@,
        CallView::Transfer { .. } => "transfer"@,
        CallView::TokenFee { .. } => "tokenFee"@,
        CallView::PaidFees => "paidFees"@,
    }
}

/// Arguments of the remote operation. A transfer names the sender's own
/// address as the one to receive the tokens.
pub open spec fn call_arguments(wallet: Seq<u8>, call: CallView) -> Seq<ArgumentView> {
    match call {
        CallView::SetExactValueFee { fee_token, fee_amount, token } => seq![
            ArgumentView::Token(fee_token),
            ArgumentView::Amount(fee_amount),
            ArgumentView::Token(token),
        ],
        CallView::SetPercentageFee { fee, token } => seq![
            ArgumentView::Number(fee),
            ArgumentView::Token(token),
        ],
        CallView::Transfer { .. } => seq![ArgumentView::Address(wallet)],
        CallView::TokenFee { token } => seq![ArgumentView::Token(token)],
        _ => Seq::empty(),
    }
}

/// Token payments that go with a call, in order.
pub open spec fn call_payments(call: CallView) -> Seq<PaymentView> {
    match call {
        CallView::Transfer { payments, .. } => payments,
        _ => Seq::empty(),
    }
}

/// Native-currency amount that goes with a call.
pub open spec fn call_native(call: CallView) -> u128 {
    match call {
        CallView::Transfer { native_amount, .. } => native_amount,
        _ => 0,
    }
}

/// Whether a call only reads.
pub open spec fn is_query(call: CallView) -> bool {
    call is TokenFee || call is PaidFees
}

/// The request that a call becomes, given the sender, the contract code and
/// the recorded address. Only a deploy goes without a recorded address.
pub open spec fn request_for(
    wallet: Seq<u8>,
    code: Seq<u8>,
    state: Option<AddressView>,
    call: CallView,
) -> Result<RequestView, StateError> {
    if call is Deploy {
        Ok(deploy_request(wallet, DEPLOY_GAS, code))
    } else {
        match state {
            None => Err(StateError::NotDeployed),
            Some(destination) => if is_query(call) {
                Ok(query_request(destination, operation_name(call), call_arguments(wallet, call)))
            } else {
                Ok(
                    invocation_request(
                        wallet,
                        destination,
                        CALL_GAS,
                        operation_name(call),
                        call_arguments(wallet, call),
                        call_payments(call),
                        call_native(call),
                    ),
                )
            },
        }
    }
}

/// The transfer that pays a token and its fee: two payments, the token
/// first, the fee second, both of sub-unit zero.
pub open spec fn fee_transfer(
    token: Seq<char>,
    amount: u128,
    fee_token: Seq<char>,
    fee_amount: u128,
) -> Seq<PaymentView> {
    seq![
        PaymentView { token, nonce: 0, amount },
        PaymentView { token: fee_token, nonce: 0, amount: fee_amount },
    ]
}

/// Same outcome, with the request seen through its view.
pub open spec fn request_result_view(r: Result<TransactionRequest, StateError>) -> Result<
    RequestView,
    StateError,
> {
    match r {
        Ok(q) => Ok(q@),
        Err(e) => Err(e),
    }
}

/// The expected code and message, if any.
pub open spec fn expected_view(expected: Option<ExpectError>) -> Option<(u64, Seq<char>)> {
    match expected {
        Some(e) => Some((e.code, e.message@)),
        None => None,
    }
}

/// Same outcome, with the request and the expectation seen through their views.
pub open spec fn exchange_result_view(r: Result<Exchange, StateError>) -> Result<
    (RequestView, Option<(u64, Seq<char>)>),
    StateError,
> {
    match r {
        Ok(x) => Ok((x.request@, expected_view(x.expected))),
        Err(e) => Err(e),
    }
}

/// A request and an expectation, where the request could be made.
pub open spec fn exchange_for(
    request: Result<RequestView, StateError>,
    expected: Option<(u64, Seq<char>)>,
) -> Result<(RequestView, Option<(u64, Seq<char>)>), StateError> {
    match request {
        Ok(q) => Ok((q, expected)),
        Err(e) => Err(e),
    }
}

/// What becomes of an answer: with nothing expected it is classified and
/// handed on, whatever it is; with a failure expected, it must be that one.
pub open spec fn concluded(expected: Option<(u64, Seq<char>)>, outcome: OutcomeView) -> Result<
    OutcomeView,
    Mismatch,
> {
    match expected {
        None => Ok(outcome),
        Some((code, message)) => match checked(outcome, code, message) {
            Ok(_) => Ok(outcome),
            Err(m) => Err(m),
        },
    }
}

/// Same outcome, with the answer seen through its view.
pub open spec fn outcome_result_view(r: Result<RemoteOutcome, Mismatch>) -> Result<
    OutcomeView,
    Mismatch,
> {
    match r {
        Ok(o) => Ok(o@),
        Err(m) => Err(m),
    }
}

/// The client of one contract: who sends, what code is deployed, and the
/// record of where the contract lives.
#[derive(Debug)]
pub struct ContractInteract {
    wallet_address: Vec<u8>,
    contract_code: Vec<u8>,
    state: State,
}

impl ContractInteract {
    /// The address that signs and pays.
    pub closed spec fn wallet(&self) -> Seq<u8> {
        self.wallet_address@
    }

    /// The contract code that a deploy sends.
    pub closed spec fn code(&self) -> Seq<u8> {
        self.contract_code@
    }

    /// The recorded contract address, if any.
    pub closed spec fn recorded(&self) -> Option<AddressView> {
        self.state@
    }

    /// The recorded address, if any, is well formed.
    pub closed spec fn wf(&self) -> bool {
        self.state.wf()
    }

    /// The request that this client sends for a call.
    pub open spec fn request(&self, call: CallView) -> Result<RequestView, StateError> {
        request_for(self.wallet(), self.code(), self.recorded(), call)
    }

    /// Sets up the client from the sender's address, the contract code and
    /// what storage held of an earlier run.
    pub fn new(wallet_address: Vec<u8>, contract_code: Vec<u8>, stored: Option<String>) -> (r:
        Result<Self, StateError>)
        ensures
            match loaded(text_view(stored)) {
                Ok(state) => r is Ok && r.unwrap().wallet() == wallet_address@
                    && r.unwrap().code() == contract_code@ && r.unwrap().recorded() == state
                    && r.unwrap().wf(),
                Err(e) => r is Err && r->Err_0 == e,
            },
    {
        match State::load_state(stored) {
            Ok(state) => Ok(ContractInteract { wallet_address, contract_code, state }),
            Err(e) => Err(e),
        }
    }

    /// Whether a contract address is recorded.
    pub fn is_deployed(&self) -> (r: bool)
        ensures
            r == (self.recorded() is Some),
    {
        self.state.is_deployed()
    }

    /// The record of this client.
    pub fn state(&self) -> (r: &State)
        ensures
            r@ == self.recorded(),
            self.wf() ==> r.wf(),
    {
        &self.state
    }

    /// Builds the request for any call. Every call but a deploy needs a
    /// recorded address and fails with `NotDeployed` without one.
    pub fn prepare(&self, call: Call) -> (r: Result<TransactionRequest, StateError>)
        ensures
            request_result_view(r) == self.request(call@),
    {
        if let Call::Deploy = call {
            return Ok(self.deploy());
        }
        let destination = match self.state.current_address() {
            Ok(address) => address.duplicate(),
            Err(e) => {
                return Err(e);
            },
        };
        let operation = call.operation().to_owned();
        let arguments = call.arguments(&self.wallet_address);
        if call.is_query() {
            Ok(TransactionBuilder::build_query(destination, operation, arguments))
        } else {
            let (payments, native_amount) = call.into_payments();
            Ok(
                TransactionBuilder::build_invocation(
                    self.wallet_address.clone(),
                    destination,
                    CALL_GAS,
                    operation,
                    arguments,
                    payments,
                    native_amount,
                ),
            )
        }
    }
}

impl Call {
    /// Name of the remote operation that this call selects.
    pub fn operation(&self) -> (r: &'static str)
        ensures
            r@ == operation_name(self@),
    {
        match self {
            Call::Deploy => "init",
            Call::SetExactValueFee { .. } => "setExactValueFee",
            Call::SetPercentageFee { .. } => "setPercentageFee",
            Call::ClaimFees => "claimFees",
            Call::Transfer { .. } => "transfer",
            Call::TokenFee { .. } => "tokenFee",
            Call::PaidFees => "paidFees",
        }
    }

    /// Whether this call only reads.
    pub fn is_query(&self) -> (r: bool)
        ensures
            r == is_query(self@),
    {
        match self {
            Call::TokenFee { .. } => true,
            Call::PaidFees => true,
            _ => false,
        }
    }

    /// Arguments of the remote operation, for a given sender.
    pub fn arguments(&self, wallet: &Vec<u8>) -> (r: Vec<Argument>)
        ensures
            argument_views(r@) == call_arguments(wallet@, self@),
    {
        let mut arguments: Vec<Argument> = Vec::new();
        match self {
            Call::SetExactValueFee { fee_token, fee_amount, token } => {
                arguments.push(Argument::Token(fee_token.clone()));
                arguments.push(Argument::Amount(*fee_amount));
                arguments.push(Argument::Token(token.clone()));
            },
            Call::SetPercentageFee { fee, token } => {
                arguments.push(Argument::Number(*fee));
                arguments.push(Argument::Token(token.clone()));
            },
            Call::Transfer { .. } => {
                arguments.push(Argument::Address(wallet.clone()));
            },
            Call::TokenFee { token } => {
                arguments.push(Argument::Token(token.clone()));
            },
            _ => {},
        }
        assert(argument_views(arguments@) =~= call_arguments(wallet@, self@));
        arguments
    }

    /// The token payments and the native amount that go with this call.
    pub fn into_payments(self) -> (r: (Vec<Payment>, u128))
        ensures
            payment_views(r.0@) == call_payments(self@),
            r.1 == call_native(self@),
    {
        match self {
            Call::Transfer { payments, native_amount } => (payments, native_amount),
            _ => {
                let payments: Vec<Payment> = Vec::new();
                assert(payment_views(payments@) =~= Seq::empty());
                (payments, 0)
            },
        }
    }
}

/// A single payment of sub-unit `nonce`.
pub open spec fn single_payment(token: Seq<char>, nonce: u64, amount: u128) -> Seq<PaymentView> {
    seq![PaymentView { token, nonce, amount }]
}

/// A transfer call with token payments and no native amount.
pub open spec fn token_transfer(payments: Seq<PaymentView>) -> CallView {
    CallView::Transfer { payments, native_amount: 0 }
}

/// A transfer call that carries a native amount and no token payment.
pub open spec fn native_transfer(amount: u128) -> CallView {
    CallView::Transfer { payments: Seq::empty(), native_amount: amount }
}

/// The token that the fixed mismatching transfer pays with.
pub open spec fn sample_token() -> Seq<char> {
    "TOKENTEST-b0b548"@
}

/// Message with which the contract refuses a native-currency transfer.
pub open spec fn native_refusal() -> Seq<char> {
    "Native transfers not allowed"@
}

fn two_payments(token: String, amount: u128, fee_token: String, fee_amount: u128) -> (r: Vec<Payment>)
    ensures
        payment_views(r@) == fee_transfer(token@, amount, fee_token@, fee_amount),
{
    let mut payments: Vec<Payment> = Vec::new();
    payments.push(Payment::new(token, 0, amount));
    payments.push(Payment::new(fee_token, 0, fee_amount));
    assert(payment_views(payments@) =~= fee_transfer(token@, amount, fee_token@, fee_amount));
    payments
}

fn one_payment(token: String, nonce: u64, amount: u128) -> (r: Vec<Payment>)
    ensures
        payment_views(r@) == single_payment(token@, nonce, amount),
{
    let mut payments: Vec<Payment> = Vec::new();
    payments.push(Payment::new(token, nonce, amount));
    assert(payment_views(payments@) =~= single_payment(token@, nonce, amount));
    payments
}

impl Exchange {
    /// Classifies the answer to this exchange and holds it against what was
    /// expected.
    pub fn conclude(&self, raw: RawResult) -> (r: Result<RemoteOutcome, Mismatch>)
        ensures
            outcome_result_view(r) == concluded(
                expected_view(self.expected),
                classified(raw.status, raw.message@, value_views(raw.values@)),
            ),
    {
        let outcome = ResponseClassifier::classify(raw);
        match &self.expected {
            None => Ok(outcome),
            Some(e) => match ResponseClassifier::assert_expected(
                &outcome,
                e.code,
                e.message.as_str(),
            ) {
                Ok(_) => Ok(outcome),
                Err(m) => Err(m),
            },
        }
    }
}

impl ContractInteract {
    fn exchange(&self, call: Call, expected: Option<ExpectError>) -> (r: Result<
        Exchange,
        StateError,
    >)
        ensures
            exchange_result_view(r) == exchange_for(self.request(call@), expected_view(expected)),
    {
        match self.prepare(call) {
            Ok(request) => Ok(Exchange { request, expected }),
            Err(e) => Err(e),
        }
    }

    /// The request that creates the contract. It needs no recorded address.
    pub fn deploy(&self) -> (r: TransactionRequest)
        ensures
            r@ == deploy_request(self.wallet(), DEPLOY_GAS, self.code()),
            self.request(CallView::Deploy) == Ok::<RequestView, StateError>(r@),
    {
        TransactionBuilder::build_deploy(
            self.wallet_address.clone(),
            DEPLOY_GAS,
            self.contract_code.clone(),
        )
    }

    /// Records the address that a deploy gave, and returns its text.
    /// Anything but 32 bytes is refused and leaves the record as it was.
    pub fn record_deployment(&mut self, new_address: &[u8]) -> (r: Result<String, AddressError>)
        requires
            old(self).wf(),
        ensures
            final(self).wf(),
            final(self).wallet() == old(self).wallet(),
            final(self).code() == old(self).code(),
            match address_from_bytes(new_address@) {
                Ok(a) => r is Ok && r.unwrap()@ == a.text && final(self).recorded() == Some(a),
                Err(e) => r is Err && r->Err_0 == e && final(self).recorded() == old(
                    self,
                ).recorded(),
            },
    {
        match Bech32Address::from_address(new_address) {
            Ok(address) => {
                let text = address.to_bech32_string();
                self.state.set_address(address);
                Ok(text)
            },
            Err(e) => Err(e),
        }
    }

    /// Sets a fee of a fixed amount of one token on transfers of `token`.
    pub fn set_exact_value_fee(&self, fee_token: String, fee_amount: u128, token: String) -> (r:
        Result<Exchange, StateError>)
        ensures
            exchange_result_view(r) == exchange_for(
                self.request(
                    CallView::SetExactValueFee { fee_token: fee_token@, fee_amount, token: token@ },
                ),
                None,
            ),
    {
        self.exchange(Call::SetExactValueFee { fee_token, fee_amount, token }, None)
    }

    /// Sets a fee that is a share of the amount on transfers of `token`.
    pub fn set_percentage_fee(&self, fee: u32, token: String) -> (r: Result<Exchange, StateError>)
        ensures
            exchange_result_view(r) == exchange_for(
                self.request(CallView::SetPercentageFee { fee, token: token@ }),
                None,
            ),
    {
        self.exchange(Call::SetPercentageFee { fee, token }, None)
    }

    /// Claims the fees paid so far: a call without any payment.
    pub fn claim_fees(&self) -> (r: Result<Exchange, StateError>)
        ensures
            exchange_result_view(r) == exchange_for(self.request(CallView::ClaimFees), None),
    {
        self.exchange(Call::ClaimFees, None)
    }

    /// Claims the fees, expecting the contract to refuse.
    pub fn claim_fees_error(&self, expected_result: ExpectError) -> (r: Result<Exchange, StateError>)
        ensures
            exchange_result_view(r) == exchange_for(
                self.request(CallView::ClaimFees),
                Some((expected_result.code, expected_result.message@)),
            ),
    {
        self.exchange(Call::ClaimFees, Some(expected_result))
    }

    /// Transfers a token and pays its fee: two payments, the token first
    /// and the fee second.
    pub fn transfer_with_fee(
        &self,
        token_identifier: String,
        token_amount: u128,
        fee_token_identifier: String,
        fee_amount: u128,
    ) -> (r: Result<Exchange, StateError>)
        ensures
            exchange_result_view(r) == exchange_for(
                self.request(
                    token_transfer(
                        fee_transfer(
                            token_identifier@,
                            token_amount,
                            fee_token_identifier@,
                            fee_amount,
                        ),
                    ),
                ),
                None,
            ),
    {
        let payments = two_payments(
            token_identifier,
            token_amount,
            fee_token_identifier,
            fee_amount,
        );
        self.exchange(Call::Transfer { payments, native_amount: 0 }, None)
    }

    /// Transfers 13 of the sample token with a fee of 9 of it, expecting
    /// the contract to refuse.
    pub fn transfer_with_miss_fee(&self, expected_result: ExpectError) -> (r: Result<
        Exchange,
        StateError,
    >)
        ensures
            exchange_result_view(r) == exchange_for(
                self.request(token_transfer(fee_transfer(sample_token(), 13, sample_token(), 9))),
                Some((expected_result.code, expected_result.message@)),
            ),
    {
        let payments = two_payments(
            "TOKENTEST-b0b548".to_owned(),
            13,
            "TOKENTEST-b0b548".to_owned(),
            9,
        );
        self.exchange(Call::Transfer { payments, native_amount: 0 }, Some(expected_result))
    }

    /// Transfers a token without any fee payment, expecting the contract
    /// to refuse.
    pub fn transfer_without_fee(&self, expected_result: ExpectError, token: String, token_amount: u128) -> (r:
        Result<Exchange, StateError>)
        ensures
            exchange_result_view(r) == exchange_for(
                self.request(token_transfer(single_payment(token@, 0, token_amount))),
                Some((expected_result.code, expected_result.message@)),
            ),
    {
        let payments = one_payment(token, 0, token_amount);
        self.exchange(Call::Transfer { payments, native_amount: 0 }, Some(expected_result))
    }

    /// Transfers a token with a fee payment that is not the one set,
    /// expecting the contract to refuse.
    pub fn transfer_without_proper_fee(
        &self,
        expected_result: ExpectError,
        token_identifier: String,
        token_amount: u128,
        fee_token_identifier: String,
        fee_amount: u128,
    ) -> (r: Result<Exchange, StateError>)
        ensures
            exchange_result_view(r) == exchange_for(
                self.request(
                    token_transfer(
                        fee_transfer(
                            token_identifier@,
                            token_amount,
                            fee_token_identifier@,
                            fee_amount,
                        ),
                    ),
                ),
                Some((expected_result.code, expected_result.message@)),
            ),
    {
        let payments = two_payments(
            token_identifier,
            token_amount,
            fee_token_identifier,
            fee_amount,
        );
        self.exchange(Call::Transfer { payments, native_amount: 0 }, Some(expected_result))
    }

    /// Asks for the fee set on a token.
    pub fn token_fee(&self, token: String) -> (r: Result<Exchange, StateError>)
        ensures
            exchange_result_view(r) == exchange_for(
                self.request(CallView::TokenFee { token: token@ }),
                None,
            ),
    {
        self.exchange(Call::TokenFee { token }, None)
    }

    /// Asks for the fees paid and not yet claimed.
    pub fn paid_fees(&self) -> (r: Result<Exchange, StateError>)
        ensures
            exchange_result_view(r) == exchange_for(self.request(CallView::PaidFees), None),
    {
        self.exchange(Call::PaidFees, None)
    }

    /// Transfers with one payment of any sub-unit.
    pub fn transfer(&self, token_id: String, token_nonce: u64, token_amount: u128) -> (r: Result<
        Exchange,
        StateError,
    >)
        ensures
            exchange_result_view(r) == exchange_for(
                self.request(token_transfer(single_payment(token_id@, token_nonce, token_amount))),
                None,
            ),
    {
        let payments = one_payment(token_id, token_nonce, token_amount);
        self.exchange(Call::Transfer { payments, native_amount: 0 }, None)
    }

    /// Transfers native currency and no token, expecting the contract to
    /// refuse with its declared message.
    pub fn transfer_with_egld(&self, token_amount: u128) -> (r: Result<Exchange, StateError>)
        ensures
            exchange_result_view(r) == exchange_for(
                self.request(native_transfer(token_amount)),
                Some((USER_ERROR, native_refusal())),
            ),
    {
        let payments: Vec<Payment> = Vec::new();
        assert(payment_views(payments@) =~= Seq::empty());
        let expected = ExpectError {
            code: USER_ERROR,
            message: "Native transfers not allowed".to_owned(),
        };
        self.exchange(Call::Transfer { payments, native_amount: token_amount }, Some(expected))
    }

    /// Ends the workflow: the address text to write back to storage, or
    /// `None` where no contract was ever deployed.
    pub fn close(self) -> (r: Option<String>)
        ensures
            text_view(r) == stored_text(self.recorded()),
    {
        self.state.save()
    }
}

/// Without a recorded address every call but a deploy is refused as not
/// deployed, whoever sends it and whatever it carries. The record that is
/// loaded where storage holds nothing is such a one.
pub proof fn lemma_undeployed_refuses(wallet: Seq<u8>, code: Seq<u8>, call: CallView)
    requires
        !(call is Deploy),
    ensures
        request_for(wallet, code, None, call) == Err::<RequestView, StateError>(
            StateError::NotDeployed,
        ),
        loaded(None) == Ok::<Option<AddressView>, StateError>(None),
        request_for(wallet, code, loaded(None).unwrap(), call) == Err::<RequestView, StateError>(
            StateError::NotDeployed,
        ),
{
}

/// A deploy is never refused, and once an address is recorded no call is.
pub proof fn lemma_deployed_accepts(
    wallet: Seq<u8>,
    code: Seq<u8>,
    state: Option<AddressView>,
    call: CallView,
)
    requires
        call is Deploy || state is Some,
    ensures
        request_for(wallet, code, state, call) is Ok,
        !(call is Deploy) ==> request_for(wallet, code, state, call).unwrap().destination == state,
        call is Deploy ==> request_for(wallet, code, state, call).unwrap().destination is None
            && request_for(wallet, code, state, call).unwrap().payable
            && request_for(wallet, code, state, call).unwrap().payments.len() == 0,
{
}

/// The fee-paying transfer carries exactly two payments in a fixed order:
/// the token at position 0, the fee at position 1. Leaving the fee out
/// gives a request of one payment, and a native transfer one of none.
pub proof fn lemma_payment_order(
    wallet: Seq<u8>,
    code: Seq<u8>,
    destination: AddressView,
    token: Seq<char>,
    amount: u128,
    fee_token: Seq<char>,
    fee_amount: u128,
)
    ensures
        ({
            let q = request_for(
                wallet,
                code,
                Some(destination),
                token_transfer(fee_transfer(token, amount, fee_token, fee_amount)),
            ).unwrap();
            &&& q.payments.len() == 2
            &&& q.payments[0] == (PaymentView { token, nonce: 0, amount })
            &&& q.payments[1] == (PaymentView { token: fee_token, nonce: 0, amount: fee_amount })
            &&& q.native_amount == 0
        }),
        ({
            let q = request_for(
                wallet,
                code,
                Some(destination),
                token_transfer(single_payment(token, 0, amount)),
            ).unwrap();
            &&& q.payments.len() == 1
            &&& q.payments[0] == (PaymentView { token, nonce: 0, amount })
            &&& q.native_amount == 0
        }),
        ({
            let q = request_for(wallet, code, Some(destination), native_transfer(amount)).unwrap();
            &&& q.payments.len() == 0
            &&& q.native_amount == amount
        }),
{
}

/// A query names no sender, has no gas budget and carries no payment; a
/// call names the sender and has the call budget.
pub proof fn lemma_request_shape(
    wallet: Seq<u8>,
    code: Seq<u8>,
    destination: AddressView,
    call: CallView,
)
    requires
        !(call is Deploy),
    ensures
        ({
            let q = request_for(wallet, code, Some(destination), call).unwrap();
            &&& is_query(call) ==> q.kind == RequestKind::Query && q.sender is None && q.gas == 0
                && q.payments.len() == 0 && q.native_amount == 0
            &&& !is_query(call) ==> q.kind == RequestKind::Call && q.sender == Some(wallet)
                && q.gas == CALL_GAS
            &&& q.operation == operation_name(call)
            &&& !(call is Transfer) ==> q.payments.len() == 0 && q.native_amount == 0
        }),
{
}

/// With a failure expected, an answer is handed on exactly when it is a
/// failure of that code and that message; with nothing expected, always.
pub proof fn lemma_conclusion(expected: Option<(u64, Seq<char>)>, outcome: OutcomeView)
    ensures
        concluded(expected, outcome) is Ok <==> (expected matches Some((code, message))
            ==> outcome == (OutcomeView::Failure { code, message })),
        concluded(expected, outcome) matches Ok(o) ==> o == outcome,
{
}


} // verus!
