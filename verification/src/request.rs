//! Outbound requests and the builder that shapes them.

use vstd::prelude::*;
use crate::address::{AddressView, Bech32Address};

verus! {

/// One token payment attached to a request.
#[derive(Debug, Clone, PartialEq, Eq)]
pub struct Payment {
    pub token: String,
    pub nonce: u64,
    pub amount: u128,
}

/// A payment with its token name as a sequence of characters.
pub struct PaymentView {
    pub token: Seq<char>,
    pub nonce: u64,
    pub amount: u128,
}

impl View for Payment {
    type V = PaymentView;

    open spec fn view(&self) -> PaymentView {
        PaymentView { token: self.token@, nonce: self.nonce, amount: self.amount }
    }
}

/// One argument of a remote operation.
#[derive(Debug, Clone, PartialEq, Eq)]
pub enum Argument {
    /// A token identifier.
    Token(String),
    /// An amount of a token.
    Amount(u128),
    /// A small number, such as a share.
    Number(u32),
    /// A raw address.
    Address(Vec<u8>),
}

/// An argument with its text or bytes as a sequence.
pub enum ArgumentView {
    Token(Seq<char>),
    Amount(u128),
    Number(u32),
    Address(Seq<u8>),
}

impl View for Argument {
    type V = ArgumentView;

    open spec fn view(&self) -> ArgumentView {
        match *self {
            Argument::Token(t) => ArgumentView::Token(t@),
            Argument::Amount(a) => ArgumentView::Amount(a),
            Argument::Number(n) => ArgumentView::Number(n),
            Argument::Address(b) => ArgumentView::Address(b@),
        }
    }
}

/// The three shapes of a request.
#[derive(Debug, Clone, Copy, PartialEq, Eq, Structural)]
pub enum RequestKind {
    /// Creates the contract.
    Deploy,
    /// Calls the contract in a signed transaction.
    Call,
    /// Reads from the contract without a transaction.
    Query,
}

/// A request as handed to the network layer.
#[derive(Debug, Clone, PartialEq, Eq)]
pub struct TransactionRequest {
    pub kind: RequestKind,
    pub sender: Option<Vec<u8>>,
    pub destination: Option<Bech32Address>,
    pub operation: String,
    pub arguments: Vec<Argument>,
    pub payments: Vec<Payment>,
    pub native_amount: u128,
    pub gas: u64,
    pub code: Vec<u8>,
    pub payable: bool,
}

/// A request with every field seen through its view.
pub struct RequestView {
    pub kind: RequestKind,
    pub sender: Option<Seq<u8>>,
    pub destination: Option<AddressView>,
    pub operation: Seq<char>,
    pub arguments: Seq<ArgumentView>,
    pub payments: Seq<PaymentView>,
    pub native_amount: u128,
    pub gas: u64,
    pub code: Seq<u8>,
    pub payable: bool,
}

/// The payments of a request, in order, each through its view.
pub open spec fn payment_views(payments: Seq<Payment>) -> Seq<PaymentView> {
    payments.map_values(|p: Payment| p@)
}

/// The arguments of a request, in order, each through its view.
pub open spec fn argument_views(arguments: Seq<Argument>) -> Seq<ArgumentView> {
    arguments.map_values(|a: Argument| a@)
}

impl View for TransactionRequest {
    type V = RequestView;

    open spec fn view(&self) -> RequestView {
        RequestView {
            kind: self.kind,
            sender: match self.sender {
                Some(s) => Some(s@),
                None => None,
            },
            destination: match self.destination {
                Some(d) => Some(d@),
                None => None,
            },
            operation: self.operation@,
            arguments: argument_views(self.arguments@),
            payments: payment_views(self.payments@),
            native_amount: self.native_amount,
            gas: self.gas,
            code: self.code@,
            payable: self.payable,
        }
    }
}

/// Name of the operation that runs when the contract is created.
pub open spec fn init_name() -> Seq<char> {
    "init"@
}

/// The creation request: no destination, no payments, and the contract
/// marked payable, since transfers and fees are sent to it directly.
pub open spec fn deploy_request(sender: Seq<u8>, gas: u64, code: Seq<u8>) -> RequestView {
    RequestView {
        kind: RequestKind::Deploy,
        sender: Some(sender),
        destination: None,
        operation: init_name(),
        arguments: Seq::empty(),
        payments: Seq::empty(),
        native_amount: 0,
        gas,
        code,
        payable: true,
    }
}

/// A call request: everything as given, no code.
pub open spec fn invocation_request(
    sender: Seq<u8>,
    destination: AddressView,
    gas: u64,
    operation: Seq<char>,
    arguments: Seq<ArgumentView>,
    payments: Seq<PaymentView>,
    native_amount: u128,
) -> RequestView {
    RequestView {
        kind: RequestKind::Call,
        sender: Some(sender),
        destination: Some(destination),
        operation,
        arguments,
        payments,
        native_amount,
        gas,
        code: Seq::empty(),
        payable: false,
    }
}

/// A read-only request: no sender, no gas, no payments.
pub open spec fn query_request(
    destination: AddressView,
    operation: Seq<char>,
    arguments: Seq<ArgumentView>,
) -> RequestView {
    RequestView {
        kind: RequestKind::Query,
        sender: None,
        destination: Some(destination),
        operation,
        arguments,
        payments: Seq::empty(),
        native_amount: 0,
        gas: 0,
        code: Seq::empty(),
        payable: false,
    }
}

impl Payment {
    /// A payment of `amount` of sub-unit `nonce` of a token.
    pub fn new(token: String, nonce: u64, amount: u128) -> (r: Self)
        ensures
            r@ == (PaymentView { token: token@, nonce, amount }),
    {
        Payment { token, nonce, amount }
    }
}

/// Shapes requests. It checks no amount, token or fee: that is the
/// contract's part.
pub struct TransactionBuilder;

impl TransactionBuilder {
    /// Builds the request that creates the contract.
    pub fn build_deploy(sender: Vec<u8>, gas: u64, code: Vec<u8>) -> (r: TransactionRequest)
        ensures
            r@ == deploy_request(sender@, gas, code@),
    {
        let r = TransactionRequest {
            kind: RequestKind::Deploy,
            sender: Some(sender),
            destination: None,
            operation: "init".to_owned(),
            arguments: Vec::new(),
            payments: Vec::new(),
            native_amount: 0,
            gas,
            code,
            payable: true,
        };
        assert(r@.arguments =~= Seq::empty());
        assert(r@.payments =~= Seq::empty());
        r
    }

    /// Builds a call of one operation, with its payments in the order given.
    pub fn build_invocation(
        sender: Vec<u8>,
        destination: Bech32Address,
        gas: u64,
        operation: String,
        arguments: Vec<Argument>,
        payments: Vec<Payment>,
        native_amount: u128,
    ) -> (r: TransactionRequest)
        ensures
            r@ == invocation_request(
                sender@,
                destination@,
                gas,
                operation@,
                argument_views(arguments@),
                payment_views(payments@),
                native_amount,
            ),
    {
        TransactionRequest {
            kind: RequestKind::Call,
            sender: Some(sender),
            destination: Some(destination),
            operation,
            arguments,
            payments,
            native_amount,
            gas,
            code: Vec::new(),
            payable: false,
        }
    }

    /// Builds a read-only request.
    pub fn build_query(destination: Bech32Address, operation: String, arguments: Vec<Argument>) -> (r:
        TransactionRequest)
        ensures
            r@ == query_request(destination@, operation@, argument_views(arguments@)),
    {
        let r = TransactionRequest {
            kind: RequestKind::Query,
            sender: None,
            destination: Some(destination),
            operation,
            arguments,
            payments: Vec::new(),
            native_amount: 0,
            gas: 0,
            code: Vec::new(),
            payable: false,
        };
        assert(r@.payments =~= Seq::empty());
        r
    }
}

} // verus!
