use interactor::interact::{Call, ContractInteract, Exchange, ExpectError};
use interactor::outcome::{Mismatch, RawResult, RemoteOutcome};
use interactor::request::{Argument, Payment, RequestKind, TransactionRequest};
use interactor::state::StateError;

const TOKEN: &str = "TOKENTEST-b0b548";
const OTHER: &str = "XMAS-43a751";

enum Fee {
    Exact { token: String, amount: u128 },
    Percentage(u32),
}

/// Stands in for the remote side: the fee rules of the contract, applied
/// to the requests that the client builds.
struct Remote {
    address: Vec<u8>,
    deployed: bool,
    fees: Vec<(String, Fee)>,
    paid: Vec<(String, u128)>,
}

fn ok(values: Vec<Vec<u8>>) -> RawResult {
    RawResult { status: 0, message: String::new(), values }
}

fn refuse(message: &str) -> RawResult {
    RawResult { status: 4, message: message.to_string(), values: vec![] }
}

fn entry(token: &str, amount: u128) -> Vec<u8> {
    format!("{}:{}", token, amount).into_bytes()
}

impl Remote {
    fn new() -> Remote {
        Remote { address: vec![3u8; 32], deployed: false, fees: vec![], paid: vec![] }
    }

    fn fee_of(&self, token: &str) -> Option<&Fee> {
        self.fees.iter().rev().find(|(t, _)| t == token).map(|(_, f)| f)
    }

    fn transfer(&mut self, q: &TransactionRequest) -> RawResult {
        if q.payments.is_empty() {
            return refuse("Native transfers not allowed");
        }
        let mut collected: Vec<(String, u128)> = vec![];
        let mut i = 0;
        while i < q.payments.len() {
            let p: &Payment = &q.payments[i];
            match self.fee_of(&p.token) {
                None => {}
                Some(Fee::Exact { token, amount }) => {
                    i += 1;
                    if i >= q.payments.len() {
                        return refuse("Fee payment missing");
                    }
                    let fee: &Payment = &q.payments[i];
                    if &fee.token != token {
                        return refuse("Wrong fee token");
                    }
                    if fee.amount != *amount {
                        return refuse("Mismatching payment for covering fees");
                    }
                    collected.push((fee.token.clone(), fee.amount));
                }
                Some(Fee::Percentage(share)) => {
                    let fee = p.amount * (*share as u128) / 10_000;
                    if fee > 0 {
                        collected.push((p.token.clone(), fee));
                    }
                }
            }
            i += 1;
        }
        self.paid.extend(collected);
        ok(vec![])
    }

    fn answer(&mut self, q: &TransactionRequest) -> RawResult {
        if q.kind == RequestKind::Deploy {
            assert!(q.destination.is_none());
            assert!(q.payable);
            self.deployed = true;
            return ok(vec![self.address.clone()]);
        }
        assert!(self.deployed);
        assert_eq!(q.destination.as_ref().unwrap().as_bytes(), &self.address[..]);
        match (q.operation.as_str(), q.arguments.as_slice()) {
            ("setExactValueFee", [Argument::Token(fee_token), Argument::Amount(amount), Argument::Token(token)]) => {
                self.fees.push((token.clone(), Fee::Exact { token: fee_token.clone(), amount: *amount }));
                ok(vec![])
            }
            ("setPercentageFee", [Argument::Number(share), Argument::Token(token)]) => {
                self.fees.push((token.clone(), Fee::Percentage(*share)));
                ok(vec![])
            }
            ("claimFees", []) => {
                if self.paid.is_empty() {
                    refuse("There is nothing to claim")
                } else {
                    self.paid.clear();
                    ok(vec![])
                }
            }
            ("transfer", [Argument::Address(_)]) => self.transfer(q),
            ("tokenFee", [Argument::Token(token)]) => match self.fee_of(token) {
                None => ok(vec![b"unset".to_vec()]),
                Some(Fee::Exact { token, amount }) => ok(vec![entry(token, *amount)]),
                Some(Fee::Percentage(share)) => ok(vec![format!("{}", share).into_bytes()]),
            },
            ("paidFees", []) => ok(self.paid.iter().map(|(t, a)| entry(t, *a)).collect()),
            _ => panic!("malformed request: {:?}", q),
        }
    }
}

fn wallet() -> Vec<u8> {
    vec![1u8; 32]
}

fn client() -> ContractInteract {
    ContractInteract::new(wallet(), vec![0, 97, 115, 109], None).unwrap()
}

fn deploy(client: &mut ContractInteract, remote: &mut Remote) {
    let request = client.deploy();
    let raw = remote.answer(&request);
    assert_eq!(raw.status, 0);
    let text = client.record_deployment(&raw.values[0]).unwrap();
    assert!(text.starts_with("erd1"));
    assert!(client.is_deployed());
}

fn run(remote: &mut Remote, exchange: Result<Exchange, StateError>) -> Result<RemoteOutcome, Mismatch> {
    let exchange = exchange.unwrap();
    let raw = remote.answer(&exchange.request);
    exchange.conclude(raw)
}

fn success(values: Vec<Vec<u8>>) -> Result<RemoteOutcome, Mismatch> {
    Ok(RemoteOutcome::Success(values))
}

fn failure(message: &str) -> Result<RemoteOutcome, Mismatch> {
    Ok(RemoteOutcome::Failure { code: 4, message: message.to_string() })
}

fn expect(message: &str) -> ExpectError {
    ExpectError { code: 4, message: message.to_string() }
}

#[test]
fn test_set_exact_value() {
    let mut interactor = client();
    let mut remote = Remote::new();
    deploy(&mut interactor, &mut remote);

    assert_eq!(run(&mut remote, interactor.paid_fees()), success(vec![]));
    let set = interactor.set_exact_value_fee(TOKEN.to_string(), 1, TOKEN.to_string());
    assert_eq!(run(&mut remote, set), success(vec![]));
    let fee = interactor.token_fee(TOKEN.to_string());
    assert_eq!(run(&mut remote, fee), success(vec![entry(TOKEN, 1)]));
}

#[test]
fn test_a_happy_transfer() {
    let mut interactor = client();
    let mut remote = Remote::new();
    deploy(&mut interactor, &mut remote);

    let set = interactor.set_exact_value_fee(TOKEN.to_string(), 1, TOKEN.to_string());
    assert_eq!(run(&mut remote, set), success(vec![]));
    assert_eq!(run(&mut remote, interactor.paid_fees()), success(vec![]));

    let transfer = interactor
        .transfer_with_fee(TOKEN.to_string(), 1000, TOKEN.to_string(), 2)
        .unwrap();
    assert_eq!(
        transfer.request.payments,
        vec![Payment::new(TOKEN.to_string(), 0, 1000), Payment::new(TOKEN.to_string(), 0, 2)]
    );
    assert_eq!(transfer.expected, None);
    // nothing is expected of the answer, so it is handed on whatever it is
    let raw = remote.answer(&transfer.request);
    assert!(transfer.conclude(raw).is_ok());
    assert!(run(&mut remote, interactor.paid_fees()).is_ok());
}

#[test]
fn test_a_happy_transfer_with_claim() {
    let mut interactor = client();
    let mut remote = Remote::new();
    deploy(&mut interactor, &mut remote);

    assert_eq!(run(&mut remote, interactor.paid_fees()), success(vec![]));
    let set = interactor.set_exact_value_fee(TOKEN.to_string(), 1, TOKEN.to_string());
    assert_eq!(run(&mut remote, set), success(vec![]));

    let transfer = interactor.transfer_with_fee(TOKEN.to_string(), 1000, TOKEN.to_string(), 2);
    assert!(run(&mut remote, transfer).is_ok());
    assert!(run(&mut remote, interactor.paid_fees()).is_ok());
    assert!(run(&mut remote, interactor.claim_fees()).is_ok());
    assert_eq!(run(&mut remote, interactor.paid_fees()), success(vec![]));
}

#[test]
fn test_a_failed_transfer() {
    let mut interactor = client();
    let mut remote = Remote::new();
    deploy(&mut interactor, &mut remote);

    assert_eq!(run(&mut remote, interactor.paid_fees()), success(vec![]));
    let set = interactor.set_exact_value_fee(TOKEN.to_string(), 1, TOKEN.to_string());
    assert_eq!(run(&mut remote, set), success(vec![]));

    let transfer =
        interactor.transfer_without_fee(expect("Fee payment missing"), TOKEN.to_string(), 1000);
    assert_eq!(
        transfer.as_ref().unwrap().request.payments,
        vec![Payment::new(TOKEN.to_string(), 0, 1000)]
    );
    assert_eq!(run(&mut remote, transfer), failure("Fee payment missing"));
}

#[test]
fn test_simple_transfer_with_egld() {
    let mut interactor = client();
    let mut remote = Remote::new();
    deploy(&mut interactor, &mut remote);

    assert_eq!(run(&mut remote, interactor.paid_fees()), success(vec![]));
    let set = interactor.set_exact_value_fee(TOKEN.to_string(), 1, TOKEN.to_string());
    assert_eq!(run(&mut remote, set), success(vec![]));

    let transfer = interactor.transfer_with_egld(1000).unwrap();
    assert!(transfer.request.payments.is_empty());
    assert_eq!(transfer.request.native_amount, 1000);
    assert_eq!(transfer.expected, Some(expect("Native transfers not allowed")));
    assert_eq!(run(&mut remote, Ok(transfer)), failure("Native transfers not allowed"));
}

#[test]
fn test_claim_with_no_fees() {
    let mut interactor = client();
    let mut remote = Remote::new();
    deploy(&mut interactor, &mut remote);

    let claim = interactor.claim_fees_error(expect("There is nothing to claim"));
    assert_eq!(run(&mut remote, claim), failure("There is nothing to claim"));
}

#[test]
fn test_transfer_with_wrong_fee_token() {
    let mut interactor = client();
    let mut remote = Remote::new();
    deploy(&mut interactor, &mut remote);

    let set = interactor.set_exact_value_fee(TOKEN.to_string(), 1, TOKEN.to_string());
    assert_eq!(run(&mut remote, set), success(vec![]));

    let transfer = interactor.transfer_without_proper_fee(
        expect("Wrong fee token"),
        TOKEN.to_string(),
        1000,
        OTHER.to_string(),
        2,
    );
    assert_eq!(run(&mut remote, transfer), failure("Wrong fee token"));
}

#[test]
fn test_transfer_percentage_fee() {
    let mut interactor = client();
    let mut remote = Remote::new();
    deploy(&mut interactor, &mut remote);

    assert_eq!(run(&mut remote, interactor.paid_fees()), success(vec![]));
    let set = interactor.set_percentage_fee(10, TOKEN.to_string()).unwrap();
    assert_eq!(set.request.operation, "setPercentageFee");
    assert_eq!(
        set.request.arguments,
        vec![Argument::Number(10), Argument::Token(TOKEN.to_string())]
    );
    assert_eq!(run(&mut remote, Ok(set)), success(vec![]));

    let transfer = interactor.transfer_with_fee(TOKEN.to_string(), 1000, TOKEN.to_string(), 2);
    assert_eq!(run(&mut remote, transfer), success(vec![]));
    assert_eq!(run(&mut remote, interactor.paid_fees()), success(vec![entry(TOKEN, 1)]));
    assert_eq!(run(&mut remote, interactor.claim_fees()), success(vec![]));
    assert_eq!(run(&mut remote, interactor.paid_fees()), success(vec![]));
}

#[test]
fn test_missmatching_payment_fee() {
    let mut interactor = client();
    let mut remote = Remote::new();
    deploy(&mut interactor, &mut remote);

    let set = interactor.set_exact_value_fee(TOKEN.to_string(), 10, TOKEN.to_string());
    assert_eq!(run(&mut remote, set), success(vec![]));
    let transfer = interactor
        .transfer_with_miss_fee(expect("Mismatching payment for covering fees"))
        .unwrap();
    assert_eq!(
        transfer.request.payments,
        vec![Payment::new(TOKEN.to_string(), 0, 13), Payment::new(TOKEN.to_string(), 0, 9)]
    );
    assert_eq!(run(&mut remote, Ok(transfer)), failure("Mismatching payment for covering fees"));
}

#[test]
fn test_fee_not_set() {
    let mut interactor = client();
    let mut remote = Remote::new();
    deploy(&mut interactor, &mut remote);

    let transfer = interactor.transfer_with_fee(TOKEN.to_string(), 1000, TOKEN.to_string(), 2);
    assert_eq!(run(&mut remote, transfer), success(vec![]));
}

#[test]
fn fresh_client_refuses_everything_but_deploy() {
    let c = client();
    assert!(!c.is_deployed());
    let e = Some(StateError::NotDeployed);
    assert_eq!(c.set_exact_value_fee(TOKEN.to_string(), 1, TOKEN.to_string()).err(), e);
    assert_eq!(c.set_percentage_fee(10, TOKEN.to_string()).err(), e);
    assert_eq!(c.claim_fees().err(), e);
    assert_eq!(c.claim_fees_error(expect("x")).err(), e);
    assert_eq!(c.transfer_with_fee(TOKEN.to_string(), 1, TOKEN.to_string(), 1).err(), e);
    assert_eq!(c.transfer_with_miss_fee(expect("x")).err(), e);
    assert_eq!(c.transfer_without_fee(expect("x"), TOKEN.to_string(), 1).err(), e);
    assert_eq!(
        c.transfer_without_proper_fee(expect("x"), TOKEN.to_string(), 1, OTHER.to_string(), 1).err(),
        e
    );
    assert_eq!(c.token_fee(TOKEN.to_string()).err(), e);
    assert_eq!(c.paid_fees().err(), e);
    assert_eq!(c.transfer(TOKEN.to_string(), 0, 1).err(), e);
    assert_eq!(c.transfer_with_egld(1).err(), e);
    for call in [
        Call::ClaimFees,
        Call::PaidFees,
        Call::TokenFee { token: TOKEN.to_string() },
        Call::Transfer { payments: vec![], native_amount: 0 },
    ] {
        assert_eq!(c.prepare(call).err(), e);
    }
    assert!(c.prepare(Call::Deploy).is_ok());
    assert_eq!(c.close(), None);
}

#[test]
fn deploy_request_is_payable_and_records_the_address() {
    let mut c = client();
    let q = c.deploy();
    assert_eq!(q.kind, RequestKind::Deploy);
    assert_eq!(q.sender, Some(wallet()));
    assert_eq!(q.gas, 35_000_000);
    assert_eq!(q.code, vec![0, 97, 115, 109]);
    assert!(q.payable);
    assert!(q.payments.is_empty());
    assert_eq!(Ok(q), c.prepare(Call::Deploy));

    let text = c.record_deployment(&[0u8; 32]).unwrap();
    assert_eq!(text, format!("erd1{}6gq4hu", "q".repeat(52)));
    assert_eq!(c.state().current_address().unwrap().as_bytes(), &[0u8; 32][..]);
    assert_eq!(c.close(), Some(text));
}

#[test]
fn record_deployment_refuses_a_short_address() {
    let mut c = client();
    assert!(c.record_deployment(&[0u8; 20]).is_err());
    assert!(!c.is_deployed());
    c.record_deployment(&[1u8; 32]).unwrap();
    let before = c.state().save();
    assert!(c.record_deployment(&[0u8; 33]).is_err());
    assert_eq!(c.state().save(), before);
}

#[test]
fn address_survives_a_restart() {
    let mut first = client();
    first.record_deployment(&[8u8; 32]).unwrap();
    let stored = first.close();
    let second = ContractInteract::new(wallet(), vec![], stored.clone()).unwrap();
    assert!(second.is_deployed());
    let q = second.paid_fees().unwrap().request;
    assert_eq!(q.destination.unwrap().as_bytes(), &[8u8; 32][..]);
    assert_eq!(second.close(), stored);
}

#[test]
fn new_refuses_a_malformed_record() {
    let r = ContractInteract::new(wallet(), vec![], Some("erd1nonsense".to_string()));
    assert!(matches!(r.err(), Some(StateError::Malformed(_))));
}

#[test]
fn call_requests_have_the_call_budget_and_the_sender() {
    let mut c = client();
    c.record_deployment(&[3u8; 32]).unwrap();
    let q = c.transfer("ABC-123456".to_string(), 5, 77).unwrap().request;
    assert_eq!(q.kind, RequestKind::Call);
    assert_eq!(q.gas, 30_000_000);
    assert_eq!(q.sender, Some(wallet()));
    assert_eq!(q.operation, "transfer");
    assert_eq!(q.arguments, vec![Argument::Address(wallet())]);
    assert_eq!(q.payments, vec![Payment::new("ABC-123456".to_string(), 5, 77)]);
    let q = c.claim_fees().unwrap().request;
    assert_eq!(q.operation, "claimFees");
    assert!(q.arguments.is_empty());
    assert!(q.payments.is_empty());
    assert_eq!(q.native_amount, 0);
    let q = c.set_exact_value_fee("F-1".to_string(), 9, "T-2".to_string()).unwrap().request;
    assert_eq!(q.operation, "setExactValueFee");
    assert_eq!(
        q.arguments,
        vec![
            Argument::Token("F-1".to_string()),
            Argument::Amount(9),
            Argument::Token("T-2".to_string())
        ]
    );
    let q = c.paid_fees().unwrap().request;
    assert_eq!(q.kind, RequestKind::Query);
    assert_eq!(q.operation, "paidFees");
    assert_eq!(q.sender, None);
    assert_eq!(q.gas, 0);
}

#[test]
fn an_unmet_expectation_is_a_mismatch() {
    let mut interactor = client();
    let mut remote = Remote::new();
    deploy(&mut interactor, &mut remote);
    // no fee is set, so the transfer goes through where a refusal was expected
    let transfer =
        interactor.transfer_without_fee(expect("Fee payment missing"), TOKEN.to_string(), 1000);
    assert_eq!(run(&mut remote, transfer), Err(Mismatch::UnexpectedSuccess));
    let claim = interactor.claim_fees_error(expect("Nothing"));
    assert_eq!(run(&mut remote, claim), Err(Mismatch::WrongMessage));
    let claim = interactor.claim_fees_error(ExpectError {
        code: 5,
        message: "There is nothing to claim".to_string(),
    });
    assert_eq!(run(&mut remote, claim), Err(Mismatch::WrongCode));
}

#[test]
fn exact_fee_is_paid_then_claimed() {
    let mut interactor = client();
    let mut remote = Remote::new();
    deploy(&mut interactor, &mut remote);

    let set = interactor.set_exact_value_fee("TOKENTEST".to_string(), 1, "TOKENTEST".to_string());
    assert_eq!(run(&mut remote, set), success(vec![]));
    let transfer =
        interactor.transfer_with_fee("TOKENTEST".to_string(), 1000, "TOKENTEST".to_string(), 1);
    assert_eq!(run(&mut remote, transfer), success(vec![]));
    assert_eq!(run(&mut remote, interactor.paid_fees()), success(vec![entry("TOKENTEST", 1)]));
    assert_eq!(run(&mut remote, interactor.claim_fees()), success(vec![]));
    assert_eq!(run(&mut remote, interactor.paid_fees()), success(vec![]));
    // a second claim finds nothing
    assert_eq!(run(&mut remote, interactor.claim_fees()), failure("There is nothing to claim"));
}

#[test]
fn each_call_names_its_operation_and_arguments() {
    let w = wallet();
    let set = Call::SetExactValueFee {
        fee_token: "F-1".to_string(),
        fee_amount: 3,
        token: "T-2".to_string(),
    };
    assert_eq!(set.operation(), "setExactValueFee");
    assert!(!set.is_query());
    assert_eq!(
        set.arguments(&w),
        vec![
            Argument::Token("F-1".to_string()),
            Argument::Amount(3),
            Argument::Token("T-2".to_string())
        ]
    );
    assert_eq!(set.into_payments(), (vec![], 0));

    let share = Call::SetPercentageFee { fee: 250, token: "T-2".to_string() };
    assert_eq!(share.operation(), "setPercentageFee");
    assert_eq!(
        share.arguments(&w),
        vec![Argument::Number(250), Argument::Token("T-2".to_string())]
    );

    let transfer = Call::Transfer {
        payments: vec![Payment::new("T-2".to_string(), 1, 5)],
        native_amount: 9,
    };
    assert_eq!(transfer.operation(), "transfer");
    assert!(!transfer.is_query());
    assert_eq!(transfer.arguments(&w), vec![Argument::Address(w.clone())]);
    assert_eq!(transfer.into_payments(), (vec![Payment::new("T-2".to_string(), 1, 5)], 9));

    assert_eq!(Call::Deploy.operation(), "init");
    assert_eq!(Call::ClaimFees.operation(), "claimFees");
    assert!(Call::ClaimFees.arguments(&w).is_empty());
    assert!(!Call::ClaimFees.is_query());
    assert_eq!(Call::PaidFees.operation(), "paidFees");
    assert!(Call::PaidFees.is_query());
    assert!(Call::PaidFees.arguments(&w).is_empty());
    let fee = Call::TokenFee { token: "T-2".to_string() };
    assert_eq!(fee.operation(), "tokenFee");
    assert!(fee.is_query());
    assert_eq!(fee.arguments(&w), vec![Argument::Token("T-2".to_string())]);
}

#[test]
fn prepare_passes_a_mixed_transfer_through() {
    let mut c = client();
    c.record_deployment(&[3u8; 32]).unwrap();
    let q = c
        .prepare(Call::Transfer {
            payments: vec![Payment::new("T-2".to_string(), 0, 5)],
            native_amount: 9,
        })
        .unwrap();
    assert_eq!(q.payments, vec![Payment::new("T-2".to_string(), 0, 5)]);
    assert_eq!(q.native_amount, 9);
}
