//! The key-value commands: what each one asks of the store, and what it makes
//! of the store's answer.

use vstd::prelude::*;
use vstd::string::*;
use crate::error::{BridgeError, ErrorKind, ErrorView, Origin, located_error, plain_error};
use crate::present::{Rendered, RenderedView, render_payload, rendered_payload};
use crate::values::{Content, Datum, Input, payload_bytes};

verus! {

/// One operation of a put plan.
#[derive(Debug, PartialEq, Eq)]
pub enum PutItem {
    /// Write these bytes under this key.
    Write { key: String, value: Vec<u8> },
    /// Nothing is written for this field; the operation fails with this.
    Rejected(BridgeError),
}

/// The mathematical content of a [`PutItem`].
pub enum PutItemView {
    Write { key: Seq<char>, value: Seq<u8> },
    Rejected(ErrorView),
}

impl View for PutItem {
    type V = PutItemView;

    open spec fn view(&self) -> PutItemView {
        match *self {
            PutItem::Write { key, value } => PutItemView::Write { key: key@, value: value@ },
            PutItem::Rejected(e) => PutItemView::Rejected(e@),
        }
    }
}

/// The mathematical content of a put plan.
pub open spec fn puts_view(plan: Seq<PutItem>) -> Seq<PutItemView> {
    plan.map_values(|item: PutItem| item@)
}

/// The failure for an input to put that is not a record. Its label points at
/// the input.
pub open spec fn not_a_record(at: Origin) -> ErrorView {
    located_error(ErrorKind::Protocol, "input must be a record"@, "originating here"@, at)
}

/// The operation that one field of a record stands for: a write of the
/// field's value, coerced to bytes, under the field's name.
pub open spec fn put_item(field: (String, Datum)) -> PutItemView {
    match payload_bytes(field.1) {
        Ok(value) => PutItemView::Write { key: field.0@, value },
        Err(e) => PutItemView::Rejected(e),
    }
}

/// The writes that a value stands for: one for each field of a record, in
/// order. Only a record can be put.
pub open spec fn put_plan(d: Datum) -> Result<Seq<PutItemView>, ErrorView> {
    match d.content {
        Content::Record(fields) => Ok(fields@.map_values(|f: (String, Datum)| put_item(f))),
        _ => Err(not_a_record(d.at)),
    }
}

/// The writes that a command's input stands for. Input that is not one value
/// stands for none.
pub open spec fn put_input_plan(input: Input) -> Result<Seq<PutItemView>, ErrorView> {
    match input {
        Input::Value(d) => put_plan(d),
        _ => Ok(Seq::empty()),
    }
}

/// Plans the writes that the fields of a record stand for.
pub fn plan_put_fields(fields: &Vec<(String, Datum)>) -> (items: Vec<PutItem>)
    ensures
        puts_view(items@) == fields@.map_values(|f: (String, Datum)| put_item(f)),
{
    let mut items: Vec<PutItem> = Vec::new();
    let mut i: usize = 0;
    while i < fields.len()
        invariant
            i <= fields.len(),
            items@.len() == i,
            forall|j: int| 0 <= j < i ==> (#[trigger] items@[j])@ == put_item(fields@[j]),
        decreases fields.len() - i,
    {
        let item = match fields[i].1.to_payload() {
            Ok(value) => PutItem::Write { key: fields[i].0.clone(), value },
            Err(e) => PutItem::Rejected(e),
        };
        assert(item@ == put_item(fields@[i as int]));
        items.push(item);
        i = i + 1;
    }
    assert(puts_view(items@) =~= fields@.map_values(|f: (String, Datum)| put_item(f)));
    items
}

/// Plans what a put command writes for its input.
pub fn plan_put(input: &Input) -> (plan: Result<Vec<PutItem>, BridgeError>)
    ensures
        match plan {
            Ok(items) => put_input_plan(*input) == Ok::<Seq<PutItemView>, ErrorView>(
                puts_view(items@),
            ),
            Err(e) => put_input_plan(*input) == Err::<Seq<PutItemView>, ErrorView>(e@),
        },
{
    match input {
        Input::Value(d) => match &d.content {
            Content::Record(fields) => Ok(plan_put_fields(fields)),
            _ => Err(
                BridgeError::located(
                    ErrorKind::Protocol,
                    String::from_str("input must be a record"),
                    String::from_str("originating here"),
                    d.at,
                ),
            ),
        },
        _ => {
            let items: Vec<PutItem> = Vec::new();
            assert(puts_view(items@) =~= Seq::empty());
            Ok(items)
        },
    }
}

/// One operation of a delete plan.
#[derive(Debug, PartialEq, Eq)]
pub enum DeleteItem {
    /// Delete this key. A failure of the deletion is labelled with `note`,
    /// pointing at `at`.
    Key { key: String, note: String, at: Origin },
    /// Nothing is deleted for this input; the operation fails with this.
    Rejected(BridgeError),
}

/// The mathematical content of a [`DeleteItem`].
pub enum DeleteItemView {
    Key { key: Seq<char>, note: Seq<char>, at: Origin },
    Rejected(ErrorView),
}

impl View for DeleteItem {
    type V = DeleteItemView;

    open spec fn view(&self) -> DeleteItemView {
        match *self {
            DeleteItem::Key { key, note, at } => DeleteItemView::Key { key: key@, note: note@, at },
            DeleteItem::Rejected(e) => DeleteItemView::Rejected(e@),
        }
    }
}

/// What a delete command removes.
#[derive(Debug, PartialEq, Eq)]
pub enum DeletePlan {
    /// The bucket itself.
    Bucket,
    /// These keys of the bucket, as one batch.
    Keys(Vec<DeleteItem>),
}

/// The mathematical content of a [`DeletePlan`].
pub enum DeletePlanView {
    Bucket,
    Keys(Seq<DeleteItemView>),
}

/// The mathematical content of a list of delete operations.
pub open spec fn deletes_view(items: Seq<DeleteItem>) -> Seq<DeleteItemView> {
    items.map_values(|item: DeleteItem| item@)
}

impl View for DeletePlan {
    type V = DeletePlanView;

    open spec fn view(&self) -> DeletePlanView {
        match *self {
            DeletePlan::Bucket => DeletePlanView::Bucket,
            DeletePlan::Keys(items) => DeletePlanView::Keys(deletes_view(items@)),
        }
    }
}

/// The failure for a value that names no key. Its label points at the value.
pub open spec fn invalid_value_type(at: Origin) -> ErrorView {
    located_error(ErrorKind::Protocol, "Invalid value type"@, "originating from here"@, at)
}

/// The failure for an item of a list of keys that is not text. Its label
/// points at the item.
pub open spec fn invalid_list_item(at: Origin) -> ErrorView {
    located_error(
        ErrorKind::Protocol,
        "Invalid list item type"@,
        "with value originating from here"@,
        at,
    )
}

/// The deletion that one item of a list of keys stands for. `list_at` is
/// where the list came from: a failure to delete the key points there.
pub open spec fn delete_list_item(list_at: Origin, d: Datum) -> DeleteItemView {
    match d.content {
        Content::Text(key) => DeleteItemView::Key {
            key: key@,
            note: "with value originating from here"@,
            at: list_at,
        },
        _ => DeleteItemView::Rejected(invalid_list_item(d.at)),
    }
}

/// The deletions that a value stands for: text names one key, a list names
/// the keys that are its items, and nothing else names any.
pub open spec fn delete_items(d: Datum) -> Seq<DeleteItemView> {
    match d.content {
        Content::Text(key) => seq![
            DeleteItemView::Key { key: key@, note: "with key origiting from here"@, at: d.at },
        ],
        Content::List(items) => items@.map_values(|x: Datum| delete_list_item(d.at, x)),
        _ => seq![DeleteItemView::Rejected(invalid_value_type(d.at))],
    }
}

/// The deletions that a sequence of values stands for, in order.
pub open spec fn delete_items_of(values: Seq<Datum>) -> Seq<DeleteItemView>
    decreases values.len(),
{
    if values.len() == 0 {
        Seq::empty()
    } else {
        delete_items_of(values.drop_last()) + delete_items(values.last())
    }
}

/// What a delete command removes for its input: without input the bucket
/// itself, and otherwise the keys that the input names.
pub open spec fn delete_plan(input: Input) -> DeletePlanView {
    match input {
        Input::Empty => DeletePlanView::Bucket,
        Input::Value(d) => DeletePlanView::Keys(delete_items(d)),
        Input::Stream(values) => DeletePlanView::Keys(delete_items_of(values@)),
        Input::Bytes => DeletePlanView::Keys(Seq::empty()),
    }
}

/// The deletions that the items of a list of keys stand for, in order.
pub fn list_deletions(list_at: Origin, items: &Vec<Datum>) -> (plan: Vec<DeleteItem>)
    ensures
        deletes_view(plan@) == items@.map_values(|x: Datum| delete_list_item(list_at, x)),
{
    let mut plan: Vec<DeleteItem> = Vec::new();
    let mut i: usize = 0;
    while i < items.len()
        invariant
            i <= items.len(),
            plan@.len() == i,
            forall|j: int|
                0 <= j < i ==> (#[trigger] plan@[j])@ == delete_list_item(list_at, items@[j]),
        decreases items.len() - i,
    {
        let item = match &items[i].content {
            Content::Text(key) => DeleteItem::Key {
                key: key.clone(),
                note: String::from_str("with value originating from here"),
                at: list_at,
            },
            _ => DeleteItem::Rejected(
                BridgeError::located(
                    ErrorKind::Protocol,
                    String::from_str("Invalid list item type"),
                    String::from_str("with value originating from here"),
                    items[i].at,
                ),
            ),
        };
        assert(item@ == delete_list_item(list_at, items@[i as int]));
        plan.push(item);
        i = i + 1;
    }
    assert(deletes_view(plan@) =~= items@.map_values(|x: Datum| delete_list_item(list_at, x)));
    plan
}

/// Appends to `plan` the deletions that `d` stands for.
pub fn plan_delete_into(d: &Datum, plan: &mut Vec<DeleteItem>)
    ensures
        deletes_view(final(plan)@) == deletes_view(old(plan)@) + delete_items(*d),
{
    match &d.content {
        Content::Text(key) => {
            let item = DeleteItem::Key {
                key: key.clone(),
                note: String::from_str("with key origiting from here"),
                at: d.at,
            };
            plan.push(item);
            assert(deletes_view(plan@) =~= deletes_view(old(plan)@) + delete_items(*d));
        },
        Content::List(items) => {
            let mut listed = list_deletions(d.at, items);
            plan.append(&mut listed);
            assert(deletes_view(plan@) =~= deletes_view(old(plan)@) + delete_items(*d));
        },
        _ => {
            let item = DeleteItem::Rejected(
                BridgeError::located(
                    ErrorKind::Protocol,
                    String::from_str("Invalid value type"),
                    String::from_str("originating from here"),
                    d.at,
                ),
            );
            plan.push(item);
            assert(deletes_view(plan@) =~= deletes_view(old(plan)@) + delete_items(*d));
        },
    }
}

/// Plans what a delete command removes for its input.
pub fn plan_delete(input: &Input) -> (plan: DeletePlan)
    ensures
        plan@ == delete_plan(*input),
{
    let mut items: Vec<DeleteItem> = Vec::new();
    assert(deletes_view(items@) =~= Seq::empty());
    match input {
        Input::Empty => DeletePlan::Bucket,
        Input::Value(d) => {
            plan_delete_into(d, &mut items);
            assert(deletes_view(items@) =~= delete_items(*d));
            DeletePlan::Keys(items)
        },
        Input::Stream(values) => {
            let mut i: usize = 0;
            assert(values@.subrange(0, 0).len() == 0);
            while i < values.len()
                invariant
                    i <= values.len(),
                    deletes_view(items@) =~= delete_items_of(values@.subrange(0, i as int)),
                decreases values.len() - i,
            {
                plan_delete_into(&values[i], &mut items);
                proof {
                    let upto = values@.subrange(0, i + 1);
                    assert(upto.drop_last() =~= values@.subrange(0, i as int));
                    assert(upto.last() == values@[i as int]);
                }
                i = i + 1;
            }
            assert(values@.subrange(0, values.len() as int) =~= values@);
            DeletePlan::Keys(items)
        },
        Input::Bytes => DeletePlan::Keys(items),
    }
}

/// What a list command lists.
#[derive(Debug, Clone, PartialEq, Eq)]
pub enum ListTarget {
    /// The buckets of the store.
    Buckets,
    /// The keys of this bucket.
    Keys(String),
}

/// What a watch command watches in its bucket.
#[derive(Debug, Clone, PartialEq, Eq)]
pub enum WatchTarget {
    /// Every key.
    All,
    /// This key.
    Key(String),
}

/// Decides what a list command lists: the keys of the bucket it names, or the
/// buckets where it names none.
pub fn list_target(bucket: Option<String>) -> (target: ListTarget)
    ensures
        target == match bucket {
            Some(b) => ListTarget::Keys(b),
            None => ListTarget::Buckets,
        },
{
    match bucket {
        Some(b) => ListTarget::Keys(b),
        None => ListTarget::Buckets,
    }
}

/// Decides what a watch command watches: the key it names, or every key where
/// it names none.
pub fn watch_target(key: Option<String>) -> (target: WatchTarget)
    ensures
        target == match key {
            Some(k) => WatchTarget::Key(k),
            None => WatchTarget::All,
        },
{
    match key {
        Some(k) => WatchTarget::Key(k),
        None => WatchTarget::All,
    }
}

/// The bucket that a stream backs: a stream named `KV_` and then a name backs
/// the bucket of that name, and no other stream backs a bucket.
pub open spec fn bucket_of_stream(name: Seq<char>) -> Option<Seq<char>> {
    if name.len() >= 3 && name[0] == 'K' && name[1] == 'V' && name[2] == '_' {
        Some(name.subrange(3, name.len() as int))
    } else {
        None
    }
}

/// The buckets that the first `n` of the streams back, in order.
pub open spec fn buckets_upto(streams: Seq<String>, n: nat) -> Seq<Seq<char>>
    decreases n,
{
    if n == 0 {
        Seq::empty()
    } else {
        let before = buckets_upto(streams, (n - 1) as nat);
        match bucket_of_stream(streams[n - 1]@) {
            Some(b) => before.push(b),
            None => before,
        }
    }
}

/// The mathematical content of a list of names.
pub open spec fn names_view(names: Seq<String>) -> Seq<Seq<char>> {
    names.map_values(|s: String| s@)
}

/// The name of the bucket that a stream backs, if it backs one.
pub fn bucket_name(stream: &str) -> (bucket: Option<String>)
    ensures
        match bucket {
            Some(b) => bucket_of_stream(stream@) == Some(b@),
            None => bucket_of_stream(stream@) is None,
        },
{
    let n = stream.unicode_len();
    if n < 3 {
        return None;
    }
    if stream.get_char(0) == 'K' && stream.get_char(1) == 'V' && stream.get_char(2) == '_' {
        Some(String::from_str(stream.substring_char(3, n)))
    } else {
        None
    }
}

/// The names of the buckets that the streams back, in the streams' order.
pub fn bucket_names(streams: &Vec<String>) -> (buckets: Vec<String>)
    ensures
        names_view(buckets@) == buckets_upto(streams@, streams@.len()),
{
    let mut buckets: Vec<String> = Vec::new();
    let mut i: usize = 0;
    assert(names_view(buckets@) =~= Seq::empty());
    while i < streams.len()
        invariant
            i <= streams.len(),
            names_view(buckets@) == buckets_upto(streams@, i as nat),
        decreases streams.len() - i,
    {
        match bucket_name(streams[i].as_str()) {
            Some(b) => {
                let ghost before = buckets@;
                buckets.push(b);
                assert(names_view(buckets@) =~= names_view(before).push(b@));
            },
            None => {},
        }
        i = i + 1;
    }
    buckets
}

/// What a list command returns for what the client listed: for a bucket its
/// keys as they came, for the store the buckets that the streams back. A
/// failure of the client is returned as it came.
pub open spec fn listing(target: ListTarget, listed: Result<Vec<String>, String>) -> Result<
    Seq<Seq<char>>,
    ErrorView,
> {
    match listed {
        Err(m) => Err(plain_error(ErrorKind::Transport, m@)),
        Ok(names) => match target {
            ListTarget::Keys(_) => Ok(names_view(names@)),
            ListTarget::Buckets => Ok(buckets_upto(names@, names@.len())),
        },
    }
}

/// Decides what a list command returns.
///
/// An empty listing is returned as an empty list, not as a failure: whether a
/// bucket that does not exist lists as empty or fails is the client's to say.
pub fn list_outcome(target: &ListTarget, listed: Result<Vec<String>, String>) -> (out: Result<
    Vec<String>,
    BridgeError,
>)
    ensures
        match out {
            Ok(names) => listing(*target, listed) == Ok::<Seq<Seq<char>>, ErrorView>(
                names_view(names@),
            ),
            Err(e) => listing(*target, listed) == Err::<Seq<Seq<char>>, ErrorView>(e@),
        },
{
    match listed {
        Err(m) => Err(BridgeError::transport(m)),
        Ok(names) => match target {
            ListTarget::Keys(_) => Ok(names),
            ListTarget::Buckets => Ok(bucket_names(&names)),
        },
    }
}

/// The failure for a key that the bucket holds no value for.
pub open spec fn key_not_found(bucket: Seq<char>, key: Seq<char>) -> ErrorView {
    ErrorView {
        kind: ErrorKind::NotFound,
        message: "Key "@ + key + " not found in bucket "@ + bucket,
        label: None,
        at: None,
    }
}

/// What a get command returns for what the client fetched: the value, shown
/// as asked; a failure that names key and bucket where there is no value; the
/// client's failure as it came.
pub open spec fn fetched_value(
    bucket: Seq<char>,
    key: Seq<char>,
    fetched: Result<Option<Vec<u8>>, String>,
    binary: bool,
) -> Result<RenderedView, ErrorView> {
    match fetched {
        Err(m) => Err(plain_error(ErrorKind::Transport, m@)),
        Ok(None) => Err(key_not_found(bucket, key)),
        Ok(Some(value)) => Ok(rendered_payload(value@, binary)),
    }
}

/// Decides what a get command returns.
pub fn get_outcome(
    bucket: &str,
    key: &str,
    fetched: Result<Option<Vec<u8>>, String>,
    binary: bool,
) -> (out: Result<Rendered, BridgeError>)
    ensures
        match out {
            Ok(shown) => fetched_value(bucket@, key@, fetched, binary) == Ok::<
                RenderedView,
                ErrorView,
            >(shown@),
            Err(e) => fetched_value(bucket@, key@, fetched, binary) == Err::<
                RenderedView,
                ErrorView,
            >(e@),
        },
{
    match fetched {
        Err(m) => Err(BridgeError::transport(m)),
        Ok(None) => {
            let mut message = String::from_str("Key ");
            message.append(key);
            message.append(" not found in bucket ");
            message.append(bucket);
            Err(BridgeError::new(ErrorKind::NotFound, message))
        },
        Ok(Some(value)) => Ok(render_payload(&value, binary)),
    }
}

/// What one store operation reports for the client library's answer: the
/// library's message as it came, with the label and the place it points at
/// that the operation was planned with.
pub open spec fn store_report_view(
    note: Option<String>,
    at: Option<Origin>,
    done: Result<(), String>,
) -> Result<(), ErrorView> {
    match done {
        Ok(_) => Ok(()),
        Err(cause) => Err(
            ErrorView {
                kind: ErrorKind::Transport,
                message: cause@,
                label: match note {
                    Some(n) => Some(n@),
                    None => None,
                },
                at,
            },
        ),
    }
}

/// Takes the client library's answer to one write or one deletion.
pub fn store_report(note: Option<String>, at: Option<Origin>, done: Result<(), String>) -> (report:
    Result<(), BridgeError>)
    ensures
        crate::fanout::report_view(report) == store_report_view(note, at, done),
{
    match done {
        Ok(_) => Ok(()),
        Err(cause) => Err(
            BridgeError { kind: ErrorKind::Transport, message: cause, label: note, at },
        ),
    }
}

/// A get after a put returns what was put, and a get after a delete finds
/// nothing, as far as this library has a part in it: the bytes that a put
/// plan writes for a field are the field's payload; when the store hands
/// those bytes back, a get for bytes returns exactly them, and a get for text
/// returns the text that was put; when the store holds nothing for the key, a
/// get fails and says that the key was not found.
pub proof fn lemma_get_returns_what_put_wrote(
    bucket: Seq<char>,
    field: (String, Datum),
    stored: Vec<u8>,
    binary: bool,
)
    requires
        put_item(field) matches PutItemView::Write { value, .. } && stored@ == value,
    ensures
        put_item(field) matches PutItemView::Write { key, value } && key == field.0@
            && payload_bytes(field.1) == Ok::<Seq<u8>, ErrorView>(value),
        fetched_value(bucket, field.0@, Ok(Some(stored)), true) == Ok::<RenderedView, ErrorView>(
            RenderedView::Binary(stored@),
        ),
        field.1.content matches Content::Text(text) ==> fetched_value(
            bucket,
            field.0@,
            Ok(Some(stored)),
            false,
        ) == Ok::<RenderedView, ErrorView>(RenderedView::Text(text@)),
        fetched_value(bucket, field.0@, Ok(None), binary) == Err::<RenderedView, ErrorView>(
            key_not_found(bucket, field.0@),
        ),
{
    broadcast use vstd::utf8::encode_utf8_valid_utf8;
    broadcast use vstd::utf8::encode_utf8_decode_utf8;

}

} // verus!
