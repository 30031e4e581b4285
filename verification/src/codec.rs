//! The mapping between entities and the documents that hold them.
//!
//! Every entity is one document, its attributes under fixed field names. What
//! is encoded here decodes to itself; a document that does not spell an
//! entity decodes to nothing.
use vstd::prelude::*;
use vstd::string::{StrSliceExecFns, StringExecFns};
use crate::document::{Document, Value, ValueView};
use crate::entity::{
    text_view,
    time_view,
    Account,
    AccountView,
    Operation,
    OperationType,
    OperationView,
};
use crate::ident::{
    document_key,
    is_well_formed_id,
    key_text,
    lemma_key_of_well_formed,
    well_formed_id,
};

verus! {

/// The field that holds a document's id.
pub open spec fn id_key() -> Seq<char> {
    ":crux.db/id"@
}

/// The field that holds an account's balance.
pub open spec fn balance_key() -> Seq<char> {
    ":account/amount"@
}

/// The field that holds a document's id.
pub fn id_field() -> (name: &'static str)
    ensures
        name@ == id_key(),
{
    ":crux.db/id"
}

/// The field that holds an account's balance.
pub fn balance_field() -> (name: &'static str)
    ensures
        name@ == balance_key(),
{
    ":account/amount"
}

/// The id that a value spells: the text of a keyword behind its colon, where
/// that text is a well-formed id.
pub open spec fn id_of_value(value: ValueView) -> Option<Seq<char>> {
    match value {
        ValueView::Keyword(k) => if k.len() > 0 && k[0] == ':' && well_formed_id(k.skip(1)) {
            Some(k.skip(1))
        } else {
            None
        },
        _ => None,
    }
}

/// The number that a value spells, where it is a non-negative integer.
pub open spec fn uint_of_value(value: ValueView) -> Option<nat> {
    match value {
        ValueView::UInt(u) => Some(u as nat),
        _ => None,
    }
}

/// The document that holds an account.
pub open spec fn account_document(account: AccountView) -> Map<Seq<char>, ValueView> {
    map![
        id_key() => ValueView::Keyword(key_text(account.id)),
        balance_key() => ValueView::UInt(account.balance as u64),
    ]
}

/// The account that a document holds, if it holds one: its id field spells an
/// id and its balance field a non-negative integer.
pub open spec fn account_of(doc: Map<Seq<char>, ValueView>) -> Option<AccountView> {
    if doc.contains_key(id_key()) && doc.contains_key(balance_key()) {
        match (id_of_value(doc[id_key()]), uint_of_value(doc[balance_key()])) {
            (Some(id), Some(balance)) => Some(AccountView { id, balance }),
            _ => None,
        }
    } else {
        None
    }
}

/// The view of an optional account.
pub open spec fn account_view(account: Option<Account>) -> Option<AccountView> {
    match account {
        Some(a) => Some(a@),
        None => None,
    }
}

/// The field that holds what an operation did.
pub open spec fn kind_key() -> Seq<char> {
    ":account-operation/type"@
}

/// The field that holds the amount that an operation moved.
pub open spec fn amount_key() -> Seq<char> {
    ":account-operation/amount"@
}

/// The field that holds the id of the account that an operation drew on.
pub open spec fn source_key() -> Seq<char> {
    ":account-operation/source-account-id"@
}

/// The field that holds the id of the account that a transfer paid into.
pub open spec fn target_key() -> Seq<char> {
    ":account-operation/target-account-id"@
}

/// The field that holds the time at which an operation was committed.
pub open spec fn time_key() -> Seq<char> {
    ":tx/tx-time"@
}

/// The field that holds what an operation did.
pub fn kind_field() -> (name: &'static str)
    ensures
        name@ == kind_key(),
{
    ":account-operation/type"
}

/// The field that holds the amount that an operation moved.
pub fn amount_field() -> (name: &'static str)
    ensures
        name@ == amount_key(),
{
    ":account-operation/amount"
}

/// The field that holds the id of the account that an operation drew on.
pub fn source_field() -> (name: &'static str)
    ensures
        name@ == source_key(),
{
    ":account-operation/source-account-id"
}

/// The field that holds the id of the account that a transfer paid into.
pub fn target_field() -> (name: &'static str)
    ensures
        name@ == target_key(),
{
    ":account-operation/target-account-id"
}

/// The field that holds the time at which an operation was committed.
pub fn time_field() -> (name: &'static str)
    ensures
        name@ == time_key(),
{
    ":tx/tx-time"
}

/// The keyword that stands for a kind of operation.
pub open spec fn kind_keyword(kind: OperationType) -> Seq<char> {
    match kind {
        OperationType::Create => ":operation-type/create"@,
        OperationType::Deposit => ":operation-type/deposit"@,
        OperationType::Withdraw => ":operation-type/withdraw"@,
        OperationType::Transfer => ":operation-type/transfer"@,
    }
}

/// The keyword that stands for a kind of operation.
pub fn kind_name(kind: OperationType) -> (name: &'static str)
    ensures
        name@ == kind_keyword(kind),
{
    match kind {
        OperationType::Create => ":operation-type/create",
        OperationType::Deposit => ":operation-type/deposit",
        OperationType::Withdraw => ":operation-type/withdraw",
        OperationType::Transfer => ":operation-type/transfer",
    }
}

/// The kind of operation that a value spells, if it spells one.
pub open spec fn kind_of_value(value: ValueView) -> Option<OperationType> {
    match value {
        ValueView::Keyword(k) => if k == kind_keyword(OperationType::Create) {
            Some(OperationType::Create)
        } else if k == kind_keyword(OperationType::Deposit) {
            Some(OperationType::Deposit)
        } else if k == kind_keyword(OperationType::Withdraw) {
            Some(OperationType::Withdraw)
        } else if k == kind_keyword(OperationType::Transfer) {
            Some(OperationType::Transfer)
        } else {
            None
        },
        _ => None,
    }
}

/// The value that holds an optional id: the id's key, or the empty value.
pub open spec fn optional_id_value(id: Option<Seq<char>>) -> ValueView {
    match id {
        Some(id) => ValueView::Keyword(key_text(id)),
        None => ValueView::Nil,
    }
}

/// The value that holds an optional time: the number of milliseconds, or the
/// empty value.
pub open spec fn time_value(time: Option<int>) -> ValueView {
    match time {
        Some(t) => if t >= 0 {
            ValueView::UInt(t as u64)
        } else {
            ValueView::Int(t as i64)
        },
        None => ValueView::Nil,
    }
}

/// The optional id that a field holds. A field that is missing or empty holds
/// none; a field that holds anything but an id holds nothing that can be read.
pub open spec fn optional_id_of(doc: Map<Seq<char>, ValueView>, key: Seq<char>) -> Option<
    Option<Seq<char>>,
> {
    if !doc.contains_key(key) || doc[key] == ValueView::Nil {
        Some(None)
    } else {
        match id_of_value(doc[key]) {
            Some(id) => Some(Some(id)),
            None => None,
        }
    }
}

/// The optional time that a field holds. A field that is missing or empty
/// holds none; a field that holds anything but an integer within the range of
/// a time holds nothing that can be read.
pub open spec fn optional_time_of(doc: Map<Seq<char>, ValueView>, key: Seq<char>) -> Option<
    Option<int>,
> {
    if !doc.contains_key(key) {
        Some(None)
    } else {
        match doc[key] {
            ValueView::Nil => Some(None),
            ValueView::UInt(u) => if u <= i64::MAX {
                Some(Some(u as int))
            } else {
                None
            },
            ValueView::Int(i) => Some(Some(i as int)),
            _ => None,
        }
    }
}

/// The document that holds an operation.
pub open spec fn operation_document(operation: OperationView) -> Map<Seq<char>, ValueView> {
    map![
        id_key() => ValueView::Keyword(key_text(operation.id)),
        kind_key() => ValueView::Keyword(kind_keyword(operation.kind)),
        amount_key() => ValueView::UInt(operation.amount as u64),
        source_key() => ValueView::Keyword(key_text(operation.source_account_id)),
        target_key() => optional_id_value(operation.target_account_id),
        time_key() => time_value(operation.tx_time),
    ]
}

/// The operation that a document holds, if it holds one: its id and source
/// fields spell ids, its kind field a kind, its amount field a non-negative
/// integer, and its target and time fields are missing, empty, or spell an
/// id and a time.
pub open spec fn operation_of(doc: Map<Seq<char>, ValueView>) -> Option<OperationView> {
    if doc.contains_key(id_key()) && doc.contains_key(kind_key()) && doc.contains_key(amount_key())
        && doc.contains_key(source_key()) {
        match (
            id_of_value(doc[id_key()]),
            kind_of_value(doc[kind_key()]),
            uint_of_value(doc[amount_key()]),
            id_of_value(doc[source_key()]),
            optional_id_of(doc, target_key()),
            optional_time_of(doc, time_key()),
        ) {
            (
                Some(id),
                Some(kind),
                Some(amount),
                Some(source_account_id),
                Some(target_account_id),
                Some(tx_time),
            ) => Some(
                OperationView { id, kind, amount, source_account_id, target_account_id, tx_time },
            ),
            _ => None,
        }
    } else {
        None
    }
}

/// The view of an optional operation.
pub open spec fn operation_view(operation: Option<Operation>) -> Option<OperationView> {
    match operation {
        Some(o) => Some(o@),
        None => None,
    }
}

/// The id that `value` spells, if it spells one.
pub fn id_from_value(value: &Value) -> (id: Option<String>)
    ensures
        text_view(id) == id_of_value(value@),
{
    match value {
        Value::Keyword(k) => {
            let text: &str = k.as_str();
            let n: usize = text.unicode_len();
            if n == 0 {
                return None;
            }
            if text.get_char(0) != ':' {
                return None;
            }
            let rest: &str = text.substring_char(1, n);
            assert(rest@ =~= k@.skip(1));
            if is_well_formed_id(rest) {
                Some(String::from_str(rest))
            } else {
                None
            }
        },
        _ => None,
    }
}

/// The document that holds `account`.
pub fn encode_account(account: &Account) -> (doc: Document)
    ensures
        doc@ == account_document(account@),
{
    let mut doc = Document::new();
    doc.set(id_field(), Value::Keyword(document_key(account.id.as_str())));
    doc.set(balance_field(), Value::UInt(account.balance));
    doc
}

/// The account that `doc` holds, if it holds one.
pub fn decode_account(doc: &Document) -> (account: Option<Account>)
    ensures
        account_view(account) == account_of(doc@),
{
    let id = match doc.get(id_field()) {
        Some(value) => id_from_value(value),
        None => None,
    };
    let balance = match doc.get(balance_field()) {
        Some(Value::UInt(u)) => Some(*u),
        _ => None,
    };
    match (id, balance) {
        (Some(id), Some(balance)) => Some(Account { id, balance }),
        _ => None,
    }
}

/// Where an account is read from. Whatever the origin, one function decodes
/// it, and to the same kind of account.
#[derive(Clone, Copy, Debug)]
pub enum AccountSource<'a> {
    /// The current document of the account.
    Entity(&'a Document),
    /// The body of one version in the account's history.
    Snapshot(&'a Document),
    /// A request to open an account under `id` with `initial_balance`.
    Request { id: &'a str, initial_balance: u64 },
}

/// What an [`AccountSource`] stands for.
pub enum AccountSourceView {
    Entity(Map<Seq<char>, ValueView>),
    Snapshot(Map<Seq<char>, ValueView>),
    Request { id: Seq<char>, initial_balance: nat },
}

impl<'a> View for AccountSource<'a> {
    type V = AccountSourceView;

    open spec fn view(&self) -> AccountSourceView {
        match self {
            AccountSource::Entity(doc) => AccountSourceView::Entity(doc@),
            AccountSource::Snapshot(doc) => AccountSourceView::Snapshot(doc@),
            AccountSource::Request { id, initial_balance } => AccountSourceView::Request {
                id: id@,
                initial_balance: *initial_balance as nat,
            },
        }
    }
}

/// The account that a source holds, if it holds one: the account of the
/// document, or the account that the request opens where its id is well
/// formed.
pub open spec fn account_from_source(source: AccountSourceView) -> Option<AccountView> {
    match source {
        AccountSourceView::Entity(doc) => account_of(doc),
        AccountSourceView::Snapshot(doc) => account_of(doc),
        AccountSourceView::Request { id, initial_balance } => if well_formed_id(id) {
            Some(AccountView { id, balance: initial_balance })
        } else {
            None
        },
    }
}

/// The account that `source` holds, if it holds one.
pub fn account_from(source: AccountSource) -> (account: Option<Account>)
    ensures
        account_view(account) == account_from_source(source@),
{
    match source {
        AccountSource::Entity(doc) => decode_account(doc),
        AccountSource::Snapshot(doc) => decode_account(doc),
        AccountSource::Request { id, initial_balance } => {
            if is_well_formed_id(id) {
                Some(Account { id: String::from_str(id), balance: initial_balance })
            } else {
                None
            }
        },
    }
}

/// Whether `text` is the keyword `name`.
fn is_keyword(text: &String, name: &str) -> (same: bool)
    ensures
        same == (text@ == name@),
{
    let wanted = String::from_str(name);
    *text == wanted
}

/// The kind of operation that `value` spells, if it spells one.
pub fn kind_from_value(value: &Value) -> (kind: Option<OperationType>)
    ensures
        kind == kind_of_value(value@),
{
    match value {
        Value::Keyword(k) => {
            if is_keyword(k, kind_name(OperationType::Create)) {
                Some(OperationType::Create)
            } else if is_keyword(k, kind_name(OperationType::Deposit)) {
                Some(OperationType::Deposit)
            } else if is_keyword(k, kind_name(OperationType::Withdraw)) {
                Some(OperationType::Withdraw)
            } else if is_keyword(k, kind_name(OperationType::Transfer)) {
                Some(OperationType::Transfer)
            } else {
                None
            }
        },
        _ => None,
    }
}

/// The value that holds the time `time`.
pub fn time_to_value(time: Option<i64>) -> (value: Value)
    ensures
        value@ == time_value(time_view(time)),
{
    match time {
        Some(t) => {
            if t >= 0 {
                Value::UInt(t as u64)
            } else {
                Value::Int(t)
            }
        },
        None => Value::Nil,
    }
}

/// The document that holds `operation`.
pub fn encode_operation(operation: &Operation) -> (doc: Document)
    ensures
        doc@ == operation_document(operation@),
{
    let mut doc = Document::new();
    doc.set(id_field(), Value::Keyword(document_key(operation.id.as_str())));
    doc.set(kind_field(), Value::Keyword(String::from_str(kind_name(operation.kind))));
    doc.set(amount_field(), Value::UInt(operation.amount));
    doc.set(
        source_field(),
        Value::Keyword(document_key(operation.source_account_id.as_str())),
    );
    let target = match &operation.target_account_id {
        Some(id) => Value::Keyword(document_key(id.as_str())),
        None => Value::Nil,
    };
    doc.set(target_field(), target);
    doc.set(time_field(), time_to_value(operation.tx_time));
    doc
}

/// The optional id that the field `key` of `doc` holds.
fn optional_id_from(doc: &Document, key: &str) -> (id: Option<Option<String>>)
    ensures
        match id {
            Some(inner) => optional_id_of(doc@, key@) == Some(text_view(inner)),
            None => optional_id_of(doc@, key@) is None,
        },
{
    match doc.get(key) {
        None => Some(None),
        Some(Value::Nil) => Some(None),
        Some(value) => match id_from_value(value) {
            Some(id) => Some(Some(id)),
            None => None,
        },
    }
}

/// The optional time that the field `key` of `doc` holds.
fn optional_time_from(doc: &Document, key: &str) -> (time: Option<Option<i64>>)
    ensures
        match time {
            Some(inner) => optional_time_of(doc@, key@) == Some(time_view(inner)),
            None => optional_time_of(doc@, key@) is None,
        },
{
    match doc.get(key) {
        None => Some(None),
        Some(Value::Nil) => Some(None),
        Some(Value::UInt(u)) => {
            if *u <= 0x7fff_ffff_ffff_ffff {
                Some(Some(*u as i64))
            } else {
                None
            }
        },
        Some(Value::Int(i)) => Some(Some(*i)),
        Some(_) => None,
    }
}

/// The operation that `doc` holds, if it holds one.
pub fn decode_operation(doc: &Document) -> (operation: Option<Operation>)
    ensures
        operation_view(operation) == operation_of(doc@),
{
    let id = match doc.get(id_field()) {
        Some(value) => id_from_value(value),
        None => None,
    };
    let kind = match doc.get(kind_field()) {
        Some(value) => kind_from_value(value),
        None => None,
    };
    let amount = match doc.get(amount_field()) {
        Some(Value::UInt(u)) => Some(*u),
        _ => None,
    };
    let source = match doc.get(source_field()) {
        Some(value) => id_from_value(value),
        None => None,
    };
    let target = optional_id_from(doc, target_field());
    let time = optional_time_from(doc, time_field());
    match (id, kind, amount, source, target, time) {
        (
            Some(id),
            Some(kind),
            Some(amount),
            Some(source_account_id),
            Some(target_account_id),
            Some(tx_time),
        ) => Some(Operation { id, kind, amount, source_account_id, target_account_id, tx_time }),
        _ => None,
    }
}

/// The names of the fields are six different names.
pub proof fn lemma_field_names_differ()
    ensures
        id_key() != kind_key(),
        id_key() != amount_key(),
        id_key() != source_key(),
        id_key() != target_key(),
        id_key() != time_key(),
        kind_key() != amount_key(),
        kind_key() != source_key(),
        kind_key() != target_key(),
        kind_key() != time_key(),
        amount_key() != source_key(),
        amount_key() != target_key(),
        amount_key() != time_key(),
        source_key() != target_key(),
        source_key() != time_key(),
        target_key() != time_key(),
        id_key() != balance_key(),
{
    reveal_strlit(":crux.db/id");
    reveal_strlit(":account/amount");
    reveal_strlit(":account-operation/type");
    reveal_strlit(":account-operation/amount");
    reveal_strlit(":account-operation/source-account-id");
    reveal_strlit(":account-operation/target-account-id");
    reveal_strlit(":tx/tx-time");
    assert(id_key().len() == 11);
    assert(balance_key().len() == 15);
    assert(kind_key().len() == 23);
    assert(amount_key().len() == 25);
    assert(source_key().len() == 36);
    assert(target_key().len() == 36);
    assert(time_key().len() == 11);
    assert(id_key()[1] == 'c');
    assert(time_key()[1] == 't');
    assert(source_key()[19] == 's');
    assert(target_key()[19] == 't');
}

/// The keyword of a kind of operation spells that kind and no other.
pub proof fn lemma_kind_round_trip(kind: OperationType)
    ensures
        kind_of_value(ValueView::Keyword(kind_keyword(kind))) == Some(kind),
{
    reveal_strlit(":operation-type/create");
    reveal_strlit(":operation-type/deposit");
    reveal_strlit(":operation-type/withdraw");
    reveal_strlit(":operation-type/transfer");
    assert(kind_keyword(OperationType::Create).len() == 22);
    assert(kind_keyword(OperationType::Deposit).len() == 23);
    assert(kind_keyword(OperationType::Withdraw).len() == 24);
    assert(kind_keyword(OperationType::Transfer).len() == 24);
    assert(kind_keyword(OperationType::Withdraw)[16] == 'w');
    assert(kind_keyword(OperationType::Transfer)[16] == 't');
}

/// The key of a well-formed id spells that id.
pub proof fn lemma_id_round_trip(id: Seq<char>)
    requires
        well_formed_id(id),
    ensures
        id_of_value(ValueView::Keyword(key_text(id))) == Some(id),
{
    lemma_key_of_well_formed(id);
    assert((seq![':'] + id).skip(1) =~= id);
}

/// An encoded operation decodes to itself, with or without a target and with
/// or without a time.
pub proof fn lemma_operation_round_trip(operation: OperationView)
    requires
        operation.well_formed(),
    ensures
        operation_of(operation_document(operation)) == Some(operation),
{
    lemma_field_names_differ();
    lemma_kind_round_trip(operation.kind);
    lemma_id_round_trip(operation.id);
    lemma_id_round_trip(operation.source_account_id);
    if let Some(target) = operation.target_account_id {
        lemma_id_round_trip(target);
        lemma_key_of_well_formed(target);
    }
    let doc = operation_document(operation);
    assert(optional_id_of(doc, target_key()) == Some(operation.target_account_id));
    assert(optional_time_of(doc, time_key()) == Some(operation.tx_time));
}

/// An encoded account decodes to itself.
pub proof fn lemma_account_round_trip(account: AccountView)
    requires
        account.valid(),
    ensures
        account_of(account_document(account)) == Some(account),
{
    reveal_strlit(":crux.db/id");
    reveal_strlit(":account/amount");
    lemma_key_of_well_formed(account.id);
    let key = seq![':'] + account.id;
    assert(key.skip(1) =~= account.id);
    assert(id_key() != balance_key()) by {
        assert(id_key().len() == 11);
        assert(balance_key().len() == 15);
    }
}

} // verus!
