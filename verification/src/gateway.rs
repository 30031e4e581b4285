//! The ledger's face towards a gateway: requests as a gateway reads them
//! from the wire, the first step of each, and the status that reports how an
//! operation ended.
use vstd::prelude::*;
use vstd::string::StringExecFns;
use crate::codec::{id_from_value, id_of_value};
use crate::document::{Document, Value, ValueView};
use crate::engine::{
    account_deposit_with,
    account_history,
    account_operations,
    account_transfer_with,
    account_withdraw_with,
    create_account_with,
    get_account,
    new_stamp,
};
use crate::entity::text_view;
use crate::error::LedgerError;
use crate::ident::{fresh_id, is_hyphenated_uuid, is_well_formed_id, well_formed_id};
use crate::model::{
    create_account_step,
    deposit_step,
    get_account_step,
    history_step,
    operations_step,
    transfer_step,
    withdraw_step,
};
use crate::state::{Stamp, StampView, Step, StepView};

verus! {

/// One request to the ledger.
#[derive(Clone, Debug, PartialEq, Eq)]
pub enum Request {
    CreateAccount { initial_balance: u64 },
    GetAccount { id: String },
    Deposit { id: String, amount: u64 },
    Withdraw { id: String, amount: u64 },
    Transfer { source_id: String, target_id: String, amount: u64 },
    AccountHistory { id: String },
    AccountOperations { id: String },
}

/// What a [`Request`] stands for.
pub enum RequestView {
    CreateAccount { initial_balance: nat },
    GetAccount { id: Seq<char> },
    Deposit { id: Seq<char>, amount: nat },
    Withdraw { id: Seq<char>, amount: nat },
    Transfer { source_id: Seq<char>, target_id: Seq<char>, amount: nat },
    AccountHistory { id: Seq<char> },
    AccountOperations { id: Seq<char> },
}

impl View for Request {
    type V = RequestView;

    open spec fn view(&self) -> RequestView {
        match self {
            Request::CreateAccount { initial_balance } => RequestView::CreateAccount {
                initial_balance: *initial_balance as nat,
            },
            Request::GetAccount { id } => RequestView::GetAccount { id: id@ },
            Request::Deposit { id, amount } => RequestView::Deposit {
                id: id@,
                amount: *amount as nat,
            },
            Request::Withdraw { id, amount } => RequestView::Withdraw {
                id: id@,
                amount: *amount as nat,
            },
            Request::Transfer { source_id, target_id, amount } => RequestView::Transfer {
                source_id: source_id@,
                target_id: target_id@,
                amount: *amount as nat,
            },
            Request::AccountHistory { id } => RequestView::AccountHistory { id: id@ },
            Request::AccountOperations { id } => RequestView::AccountOperations { id: id@ },
        }
    }
}

/// The field of a request's body that holds an amount.
pub open spec fn body_amount_key() -> Seq<char> {
    ":amount"@
}

/// The field of a request's body that holds the id of a transfer's target.
pub open spec fn body_target_key() -> Seq<char> {
    ":target-account-id"@
}

/// The amount that a value spells, if it spells one: a non-negative
/// integer, or an integer spelled with a sign that is positive.
pub open spec fn amount_of_value(value: ValueView) -> Option<nat> {
    match value {
        ValueView::UInt(u) => Some(u as nat),
        ValueView::Int(i) => if i > 0 {
            Some(i as nat)
        } else {
            None
        },
        _ => None,
    }
}

/// The amount that a body names, if it names one.
pub open spec fn body_amount(body: Map<Seq<char>, ValueView>) -> Option<nat> {
    if body.contains_key(body_amount_key()) {
        amount_of_value(body[body_amount_key()])
    } else {
        None
    }
}

/// The id that a value of a body spells, if it spells one: a string that is
/// a well-formed id, or the keyword of one.
pub open spec fn target_of_value(value: ValueView) -> Option<Seq<char>> {
    match value {
        ValueView::Text(t) => if well_formed_id(t) {
            Some(t)
        } else {
            None
        },
        other => id_of_value(other),
    }
}

/// The target that a body names, if it names one.
pub open spec fn body_target(body: Map<Seq<char>, ValueView>) -> Option<Seq<char>> {
    if body.contains_key(body_target_key()) {
        target_of_value(body[body_target_key()])
    } else {
        None
    }
}

/// The request to open an account that a body spells. A body without an
/// amount spells none.
pub open spec fn create_request_of(body: Map<Seq<char>, ValueView>) -> Result<
    RequestView,
    LedgerError,
> {
    match body_amount(body) {
        Some(initial_balance) => Ok(RequestView::CreateAccount { initial_balance }),
        None => Err(LedgerError::InvalidArgument),
    }
}

/// The amount to move that a body spells: the amount it names, or zero,
/// which no operation accepts.
pub open spec fn moved_amount(body: Map<Seq<char>, ValueView>) -> nat {
    match body_amount(body) {
        Some(amount) => amount,
        None => 0,
    }
}

/// The request for a transfer from `source_id` that a body spells. A body
/// without a target spells none.
pub open spec fn transfer_request_of(
    source_id: Seq<char>,
    body: Map<Seq<char>, ValueView>,
) -> Result<RequestView, LedgerError> {
    match body_target(body) {
        Some(target_id) => Ok(
            RequestView::Transfer { source_id, target_id, amount: moved_amount(body) },
        ),
        None => Err(LedgerError::InvalidArgument),
    }
}

/// The view of a request or of the error in its place.
pub open spec fn request_view(request: Result<Request, LedgerError>) -> Result<
    RequestView,
    LedgerError,
> {
    match request {
        Ok(r) => Ok(r@),
        Err(e) => Err(e),
    }
}

/// The amount that `body` names, if it names one.
fn amount_from(body: &Document) -> (amount: Option<u64>)
    ensures
        match amount {
            Some(a) => body_amount(body@) == Some(a as nat),
            None => body_amount(body@) is None,
        },
{
    match body.get(":amount") {
        Some(Value::UInt(u)) => Some(*u),
        Some(Value::Int(i)) => {
            if *i > 0 {
                Some(*i as u64)
            } else {
                None
            }
        },
        _ => None,
    }
}

/// The target that `body` names, if it names one.
fn target_from(body: &Document) -> (target: Option<String>)
    ensures
        text_view(target) == body_target(body@),
{
    match body.get(":target-account-id") {
        Some(Value::Text(t)) => {
            if is_well_formed_id(t.as_str()) {
                Some(t.clone())
            } else {
                None
            }
        },
        Some(value) => id_from_value(value),
        None => None,
    }
}

/// The request to open an account that `body` spells.
pub fn create_request(body: &Document) -> (request: Result<Request, LedgerError>)
    ensures
        request_view(request) == create_request_of(body@),
{
    match amount_from(body) {
        Some(initial_balance) => Ok(Request::CreateAccount { initial_balance }),
        None => Err(LedgerError::InvalidArgument),
    }
}

/// The request for a deposit into the account `id` that `body` spells.
pub fn deposit_request(id: &str, body: &Document) -> (request: Request)
    ensures
        request@ == (RequestView::Deposit { id: id@, amount: moved_amount(body@) }),
{
    let amount = match amount_from(body) {
        Some(a) => a,
        None => 0,
    };
    Request::Deposit { id: String::from_str(id), amount }
}

/// The request for a withdrawal from the account `id` that `body` spells.
pub fn withdraw_request(id: &str, body: &Document) -> (request: Request)
    ensures
        request@ == (RequestView::Withdraw { id: id@, amount: moved_amount(body@) }),
{
    let amount = match amount_from(body) {
        Some(a) => a,
        None => 0,
    };
    Request::Withdraw { id: String::from_str(id), amount }
}

/// The request for a transfer from the account `source_id` that `body`
/// spells.
pub fn transfer_request(source_id: &str, body: &Document) -> (request: Result<
    Request,
    LedgerError,
>)
    ensures
        request_view(request) == transfer_request_of(source_id@, body@),
{
    let amount = match amount_from(body) {
        Some(a) => a,
        None => 0,
    };
    match target_from(body) {
        Some(target_id) => Ok(
            Request::Transfer { source_id: String::from_str(source_id), target_id, amount },
        ),
        None => Err(LedgerError::InvalidArgument),
    }
}

/// The first step of a request. The id of a new account and the stamp of
/// the operation count only where the request needs them.
pub open spec fn first_step(request: RequestView, account_id: Seq<char>, stamp: StampView) -> StepView {
    match request {
        RequestView::CreateAccount { initial_balance } => create_account_step(
            initial_balance,
            account_id,
            stamp,
        ),
        RequestView::GetAccount { id } => get_account_step(id),
        RequestView::Deposit { id, amount } => deposit_step(id, amount, stamp),
        RequestView::Withdraw { id, amount } => withdraw_step(id, amount, stamp),
        RequestView::Transfer { source_id, target_id, amount } => transfer_step(
            source_id,
            target_id,
            amount,
            stamp,
        ),
        RequestView::AccountHistory { id } => history_step(id),
        RequestView::AccountOperations { id } => operations_step(id),
    }
}

/// Starts `request`; a new account is opened under `account_id`, and the
/// operation is recorded under `stamp`.
pub fn begin_with(request: Request, account_id: &str, stamp: Stamp) -> (step: Step)
    ensures
        step@ == first_step(request@, account_id@, stamp@),
{
    match request {
        Request::CreateAccount { initial_balance } => create_account_with(
            initial_balance,
            account_id,
            stamp,
        ),
        Request::GetAccount { id } => get_account(id.as_str()),
        Request::Deposit { id, amount } => account_deposit_with(id.as_str(), amount, stamp),
        Request::Withdraw { id, amount } => account_withdraw_with(id.as_str(), amount, stamp),
        Request::Transfer { source_id, target_id, amount } => account_transfer_with(
            source_id.as_str(),
            target_id.as_str(),
            amount,
            stamp,
        ),
        Request::AccountHistory { id } => account_history(id.as_str()),
        Request::AccountOperations { id } => account_operations(id.as_str()),
    }
}

/// Starts `request`, with a random id for a new account and a new stamp.
/// Whatever was drawn, the step is the first step of the request under what
/// was drawn.
pub fn begin(request: Request) -> (step: Step)
    ensures
        exists|account_id: Seq<char>, stamp: StampView|
            is_hyphenated_uuid(account_id) && is_hyphenated_uuid(stamp.operation_id) && step@
                == #[trigger] first_step(request@, account_id, stamp),
{
    let account_id = fresh_id();
    let stamp = new_stamp();
    let ghost drawn = stamp@;
    let ghost asked = request@;
    let step = begin_with(request, account_id.as_str(), stamp);
    assert(step@ == first_step(asked, account_id@, drawn));
    step
}

/// The HTTP status that reports how an operation ended: 201 for an account
/// that was opened, 200 for any other success, and the status of the error
/// for a failure.
pub open spec fn status_of(creating: bool, step: StepView) -> Option<u16> {
    match step {
        StepView::Call { .. } => None,
        StepView::Done(_) => Some(
            if creating {
                201u16
            } else {
                200u16
            },
        ),
        StepView::Failed(e) => Some(e.spec_status_code()),
    }
}

/// The HTTP status that reports how an operation ended, or `None` while it
/// has not ended. `creating` says whether the operation opens an account.
pub fn response_status(creating: bool, step: &Step) -> (code: Option<u16>)
    ensures
        code == status_of(creating, step@),
{
    match step {
        Step::Call { .. } => None,
        Step::Done(_) => Some(
            if creating {
                201
            } else {
                200
            },
        ),
        Step::Failed(e) => Some(e.status_code()),
    }
}

} // verus!
