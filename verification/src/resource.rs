//! The transfer record, its form on the wire, and the request that lists
//! transfers.

use crate::ids::TransferId;
use crate::list_params::TransferListParams;
use crate::query::{render, rendered};
use crate::wire::{
    clone_items, clone_members, field, find, find_member, items_json, json_of, lemma_find_concat,
    lemma_find_field, lemma_items_json, lemma_members_json, members_json, push_field, Json,
    Member, Value,
};
use vstd::prelude::*;
use vstd::string::*;

verus! {

/// A reference to another record: its bare identifier, or the record itself
/// where the response was asked to expand it.
#[derive(Debug)]
pub enum Expandable {
    Id(String),
    /// The members of the full record.
    Object(Vec<Member>),
}

impl View for Expandable {
    type V = Json;

    /// What the reference is written as: the bare identifier unless the
    /// record itself is held.
    open spec fn view(&self) -> Json {
        match self {
            Expandable::Id(s) => Json::Text(s@),
            Expandable::Object(members) => Json::Object(members_json(members@)),
        }
    }
}

impl Clone for Expandable {
    fn clone(&self) -> (copy: Expandable)
        ensures
            copy@ == self@,
    {
        match self {
            Expandable::Id(s) => Expandable::Id(s.clone()),
            Expandable::Object(members) => Expandable::Object(clone_members(members)),
        }
    }
}

/// One page of a list: the records, whether more follow, and the path
/// that the list is read from.
#[derive(Debug)]
pub struct Page {
    /// The records, each as its JSON value.
    pub data: Vec<Value>,
    pub has_more: bool,
    pub url: String,
}

/// What a page holds.
pub struct PageView {
    pub data: Seq<Json>,
    pub has_more: bool,
    pub url: Seq<char>,
}

impl View for Page {
    type V = PageView;

    open spec fn view(&self) -> PageView {
        PageView { data: items_json(self.data@), has_more: self.has_more, url: self.url@ }
    }
}

impl Clone for Page {
    fn clone(&self) -> (copy: Page)
        ensures
            copy@ == self@,
    {
        Page { data: clone_items(&self.data), has_more: self.has_more, url: self.url.clone() }
    }
}

/// One page of transfers, as the list call answers: the service puts the
/// most recently created first, and nothing here sorts them again.
#[derive(Debug)]
pub struct TransferList {
    pub data: Vec<Transfer>,
    pub has_more: bool,
    pub url: String,
}

/// What a page of transfers holds.
pub struct TransferListView {
    pub data: Seq<TransferView>,
    pub has_more: bool,
    pub url: Seq<char>,
}

impl View for TransferList {
    type V = TransferListView;

    open spec fn view(&self) -> TransferListView {
        TransferListView {
            data: Seq::new(self.data@.len(), |i: int| self.data@[i]@),
            has_more: self.has_more,
            url: self.url@,
        }
    }
}

impl Clone for TransferList {
    fn clone(&self) -> (copy: TransferList)
        ensures
            copy@ == self@,
    {
        let mut data: Vec<Transfer> = Vec::new();
        let mut i: usize = 0;
        while i < self.data.len()
            invariant
                i <= self.data@.len(),
                data@.len() == i,
                forall|j: int| 0 <= j < i ==> data@[j]@ == self.data@[j]@,
            decreases self.data@.len() - i,
        {
            data.push(self.data[i].clone());
            i += 1;
        }
        let copy = TransferList { data, has_more: self.has_more, url: self.url.clone() };
        assert(copy@.data =~= self@.data);
        copy
    }
}

/// A GET request: a path, and a query string to send with it.
#[derive(Debug)]
pub struct Request {
    pub path: String,
    pub query: String,
}

/// The members of an object do not make the record asked for: a required
/// member is missing, or a member holds a value of another type than its
/// field.
#[derive(Debug)]
pub struct SchemaMismatch {}

/// What an optional text holds.
pub open spec fn text_view(text: Option<String>) -> Option<Seq<char>> {
    match text {
        Some(s) => Some(s@),
        None => None,
    }
}

/// What an optional reference is written as.
pub open spec fn reference_view(reference: Option<Expandable>) -> Option<Json> {
    match reference {
        Some(e) => Some(e@),
        None => None,
    }
}

/// What key-value pairs hold.
pub open spec fn texts_view(pairs: Seq<(String, String)>) -> Seq<(Seq<char>, Seq<char>)> {
    Seq::new(pairs.len(), |i: int| (pairs[i].0@, pairs[i].1@))
}

/// A movement of funds to a connected account, as the service reports it.
#[derive(Debug)]
pub struct Transfer {
    /// Unique identifier of the transfer.
    pub id: TransferId,
    /// Amount to be transferred, in the currency's minor unit.
    pub amount: i64,
    /// Amount reversed, in the currency's minor unit; less than `amount` after a
    /// partial reversal.
    pub amount_reversed: i64,
    /// The balance transaction that describes the impact of this transfer on
    /// the account balance.
    pub balance_transaction: Option<Expandable>,
    /// The time at which the transfer was created, in seconds since the epoch.
    pub created: i64,
    /// Three-letter ISO currency code, in lower case.
    pub currency: String,
    /// A free text attached to the transfer.
    pub description: Option<String>,
    /// The account that the transfer was sent to.
    pub destination: Option<Expandable>,
    /// The payment that the destination account received for the transfer.
    pub destination_payment: Option<Expandable>,
    /// Whether the transfer exists in live mode; in test mode otherwise.
    pub livemode: bool,
    /// Key-value pairs attached to the transfer, in the order in which they came.
    pub metadata: Vec<(String, String)>,
    /// The reversals applied to the transfer.
    pub reversals: Page,
    /// Whether the transfer has been fully reversed; `false` after a partial
    /// reversal.
    pub reversed: bool,
    /// The charge or payment that funded the transfer; absent where it was
    /// funded from the available balance.
    pub source_transaction: Option<Expandable>,
    /// The source balance this transfer came from: `card` or `bank_account`.
    pub source_type: Option<String>,
    /// A text that identifies the transfer as part of a group.
    pub transfer_group: Option<String>,
}

/// What a transfer holds.
pub struct TransferView {
    pub id: Seq<char>,
    pub amount: i64,
    pub amount_reversed: i64,
    pub balance_transaction: Option<Json>,
    pub created: i64,
    pub currency: Seq<char>,
    pub description: Option<Seq<char>>,
    pub destination: Option<Json>,
    pub destination_payment: Option<Json>,
    pub livemode: bool,
    pub metadata: Seq<(Seq<char>, Seq<char>)>,
    pub reversals: PageView,
    pub reversed: bool,
    pub source_transaction: Option<Json>,
    pub source_type: Option<Seq<char>>,
    pub transfer_group: Option<Seq<char>>,
}

impl View for Transfer {
    type V = TransferView;

    open spec fn view(&self) -> TransferView {
        TransferView {
            id: self.id@,
            amount: self.amount,
            amount_reversed: self.amount_reversed,
            balance_transaction: reference_view(self.balance_transaction),
            created: self.created,
            currency: self.currency@,
            description: text_view(self.description),
            destination: reference_view(self.destination),
            destination_payment: reference_view(self.destination_payment),
            livemode: self.livemode,
            metadata: texts_view(self.metadata@),
            reversals: self.reversals@,
            reversed: self.reversed,
            source_transaction: reference_view(self.source_transaction),
            source_type: text_view(self.source_type),
            transfer_group: text_view(self.transfer_group),
        }
    }
}

/// The text of a member that must be a text.
pub open spec fn text_value(v: Option<Json>) -> Option<Seq<char>> {
    match v {
        Some(Json::Text(s)) => Some(s),
        _ => None,
    }
}

/// The number of a member that must be an integer.
pub open spec fn int_value(v: Option<Json>) -> Option<i64> {
    match v {
        Some(Json::Int(n)) => Some(n),
        _ => None,
    }
}

/// The flag of a member that must be a boolean.
pub open spec fn bool_value(v: Option<Json>) -> Option<bool> {
    match v {
        Some(Json::Bool(b)) => Some(b),
        _ => None,
    }
}

/// An optional text: unset where the member is missing or null, `None`
/// where it holds anything but a text.
pub open spec fn optional_text_value(v: Option<Json>) -> Option<Option<Seq<char>>> {
    match v {
        None => Some(None),
        Some(Json::Null) => Some(None),
        Some(Json::Text(s)) => Some(Some(s)),
        _ => None,
    }
}

/// An optional reference: unset where the member is missing or null, an
/// identifier where it is a text, the record where it is an object, `None`
/// where it holds anything else.
pub open spec fn reference_value(v: Option<Json>) -> Option<Option<Json>> {
    match v {
        None => Some(None),
        Some(Json::Null) => Some(None),
        Some(Json::Text(s)) => Some(Some(Json::Text(s))),
        Some(Json::Object(members)) => Some(Some(Json::Object(members))),
        _ => None,
    }
}

/// Whether every member of an object is a text.
pub open spec fn all_texts(members: Seq<(Seq<char>, Json)>) -> bool {
    forall|i: int| 0 <= i < members.len() ==> (#[trigger] members[i]).1 is Text
}

/// The key-value pairs of a member that must be an object of texts.
pub open spec fn metadata_value(v: Option<Json>) -> Option<Seq<(Seq<char>, Seq<char>)>> {
    match v {
        Some(Json::Object(members)) => if all_texts(members) {
            Some(Seq::new(members.len(), |i: int| (members[i].0, members[i].1->Text_0)))
        } else {
            None
        },
        _ => None,
    }
}

/// The page of a member that must be a list object: `data` an array,
/// `has_more` a boolean and `url` a text.
pub open spec fn page_value(v: Option<Json>) -> Option<PageView> {
    match v {
        Some(Json::Object(members)) => match (
            find(members, "data"@),
            find(members, "has_more"@),
            find(members, "url"@),
        ) {
            (Some(Json::Array(data)), Some(Json::Bool(has_more)), Some(Json::Text(url))) => Some(
                PageView { data, has_more, url },
            ),
            _ => None,
        },
        _ => None,
    }
}

/// The value that an optional text is written as: none where it is unset.
pub open spec fn text_field(text: Option<Seq<char>>) -> Option<Json> {
    match text {
        Some(s) => Some(Json::Text(s)),
        None => None,
    }
}

/// The object that key-value pairs are written as.
pub open spec fn metadata_json(pairs: Seq<(Seq<char>, Seq<char>)>) -> Json {
    Json::Object(Seq::new(pairs.len(), |i: int| (pairs[i].0, Json::Text(pairs[i].1))))
}

/// The members that a page is written as.
pub open spec fn page_members(page: PageView) -> Seq<(Seq<char>, Json)> {
    field("object"@, Some(Json::Text("list"@))) + field("data"@, Some(Json::Array(page.data)))
        + field("has_more"@, Some(Json::Bool(page.has_more))) + field(
        "url"@,
        Some(Json::Text(page.url)),
    )
}

/// The list object that a page is written as.
pub open spec fn page_json(page: PageView) -> Json {
    Json::Object(page_members(page))
}

/// What one field gives under the name `at`: its value where the name is
/// its own.
pub open spec fn hit(name: Seq<char>, value: Option<Json>, at: Seq<char>) -> Option<Json> {
    if name == at {
        value
    } else {
        None
    }
}

/// The later value where there is one, else the earlier.
pub open spec fn or_earlier(later: Option<Json>, earlier: Option<Json>) -> Option<Json> {
    match later {
        Some(v) => Some(v),
        None => earlier,
    }
}

/// Whether writing kept what was read under `name`: a member that was
/// missing or null is missing from what was written, and any other value
/// stands there unchanged.
pub open spec fn kept(
    read: Seq<(Seq<char>, Json)>,
    written: Seq<(Seq<char>, Json)>,
    name: Seq<char>,
) -> bool {
    match find(read, name) {
        None => find(written, name) is None,
        Some(Json::Null) => find(written, name) is None,
        Some(v) => find(written, name) == Some(v),
    }
}

/// Key-value pairs that were read from an object are written as that
/// object.
pub proof fn lemma_metadata_kept(v: Option<Json>, pairs: Seq<(Seq<char>, Seq<char>)>)
    requires
        metadata_value(v) == Some(pairs),
    ensures
        v == Some(metadata_json(pairs)),
{
    let members = v->0->Object_0;
    assert(all_texts(members));
    assert forall|i: int| 0 <= i < members.len() implies members[i] == (
        pairs[i].0,
        Json::Text(pairs[i].1),
    ) by {
        assert(members[i].1 is Text);
    }
    assert(members =~= metadata_json(pairs)->Object_0);
}

/// Key-value pairs that were written are read back the same.
pub proof fn lemma_metadata_read_back(pairs: Seq<(Seq<char>, Seq<char>)>)
    ensures
        metadata_value(Some(metadata_json(pairs))) == Some(pairs),
{
    let members = metadata_json(pairs)->Object_0;
    assert(all_texts(members));
    assert(Seq::new(members.len(), |i: int| (members[i].0, members[i].1->Text_0)) =~= pairs);
}

/// Whether no name occurs twice.
pub open spec fn distinct_names<T>(members: Seq<(Seq<char>, T)>) -> bool {
    forall|i: int, j: int|
        0 <= i < j < members.len() ==> (#[trigger] members[i]).0 != (#[trigger] members[j]).0
}

/// Key-value pairs that were read from an object in which no name occurs
/// twice hold no key twice: they stand for a mapping.
pub proof fn lemma_metadata_keys_distinct(
    members: Seq<(Seq<char>, Json)>,
    pairs: Seq<(Seq<char>, Seq<char>)>,
)
    requires
        metadata_value(Some(Json::Object(members))) == Some(pairs),
        distinct_names(members),
    ensures
        distinct_names(pairs),
{
    assert forall|i: int, j: int| 0 <= i < j < pairs.len() implies (#[trigger] pairs[i]).0 != (
        #[trigger] pairs[j]
    ).0 by {
        assert(pairs[i].0 == members[i].0);
        assert(pairs[j].0 == members[j].0);
    }
}

/// The names of a page's members differ from one another.
pub proof fn lemma_page_names_differ()
    ensures
        "object"@.len() == 6,
        "data"@.len() == 4,
        "has_more"@.len() == 8,
        "url"@.len() == 3,
{
    reveal_strlit("object");
    reveal_strlit("data");
    reveal_strlit("has_more");
    reveal_strlit("url");
}

/// What the members of a page hold under `at`.
proof fn lemma_find_in_page(page: PageView, at: Seq<char>)
    ensures
        find(page_members(page), at) == or_earlier(
            hit("url"@, Some(Json::Text(page.url)), at),
            or_earlier(
                hit("has_more"@, Some(Json::Bool(page.has_more)), at),
                or_earlier(
                    hit("data"@, Some(Json::Array(page.data)), at),
                    hit("object"@, Some(Json::Text("list"@)), at),
                ),
            ),
        ),
{
    let f1 = field("object"@, Some(Json::Text("list"@)));
    let f2 = field("data"@, Some(Json::Array(page.data)));
    let f3 = field("has_more"@, Some(Json::Bool(page.has_more)));
    let f4 = field("url"@, Some(Json::Text(page.url)));
    lemma_find_field("object"@, Some(Json::Text("list"@)), at);
    lemma_find_field("data"@, Some(Json::Array(page.data)), at);
    lemma_find_field("has_more"@, Some(Json::Bool(page.has_more)), at);
    lemma_find_field("url"@, Some(Json::Text(page.url)), at);
    lemma_find_concat(f1, f2, at);
    lemma_find_concat(f1 + f2, f3, at);
    lemma_find_concat(f1 + f2 + f3, f4, at);
}

/// A page that was written is read back the same.
pub proof fn lemma_page_read_back(page: PageView)
    ensures
        page_value(Some(page_json(page))) == Some(page),
{
    lemma_page_names_differ();
    lemma_find_in_page(page, "data"@);
    lemma_find_in_page(page, "has_more"@);
    lemma_find_in_page(page, "url"@);
}

/// Reads a member that must be a text.
fn read_text(members: &Vec<Member>, name: &str) -> (r: Option<String>)
    ensures
        text_view(r) == text_value(find(members_json(members@), name@)),
{
    match find_member(members, name) {
        Some(Value::Text(s)) => Some(s.clone()),
        _ => None,
    }
}

/// Reads a member that must be an integer.
fn read_int(members: &Vec<Member>, name: &str) -> (r: Option<i64>)
    ensures
        r == int_value(find(members_json(members@), name@)),
{
    match find_member(members, name) {
        Some(Value::Int(n)) => Some(*n),
        _ => None,
    }
}

/// Reads a member that must be a boolean.
fn read_bool(members: &Vec<Member>, name: &str) -> (r: Option<bool>)
    ensures
        r == bool_value(find(members_json(members@), name@)),
{
    match find_member(members, name) {
        Some(Value::Bool(b)) => Some(*b),
        _ => None,
    }
}

/// Reads a member that is a text where it is set.
fn read_optional_text(members: &Vec<Member>, name: &str) -> (r: Option<Option<String>>)
    ensures
        match r {
            Some(text) => optional_text_value(find(members_json(members@), name@)) == Some(
                text_view(text),
            ),
            None => optional_text_value(find(members_json(members@), name@)) is None,
        },
{
    match find_member(members, name) {
        None => Some(None),
        Some(Value::Null) => Some(None),
        Some(Value::Text(s)) => Some(Some(s.clone())),
        _ => None,
    }
}

/// Reads a member that is a reference where it is set.
fn read_reference(members: &Vec<Member>, name: &str) -> (r: Option<Option<Expandable>>)
    ensures
        match r {
            Some(reference) => reference_value(find(members_json(members@), name@)) == Some(
                reference_view(reference),
            ),
            None => reference_value(find(members_json(members@), name@)) is None,
        },
{
    match find_member(members, name) {
        None => Some(None),
        Some(Value::Null) => Some(None),
        Some(Value::Text(s)) => Some(Some(Expandable::Id(s.clone()))),
        Some(Value::Object(record)) => Some(Some(Expandable::Object(clone_members(record)))),
        _ => None,
    }
}

/// Reads a member that must be an object of texts.
fn read_metadata(members: &Vec<Member>, name: &str) -> (r: Option<Vec<(String, String)>>)
    ensures
        match r {
            Some(pairs) => metadata_value(find(members_json(members@), name@)) == Some(
                texts_view(pairs@),
            ),
            None => metadata_value(find(members_json(members@), name@)) is None,
        },
{
    match find_member(members, name) {
        Some(Value::Object(entries)) => {
            let mut pairs: Vec<(String, String)> = Vec::new();
            let mut i: usize = 0;
            proof {
                lemma_members_json(entries@);
            }
            while i < entries.len()
                invariant
                    i <= entries@.len(),
                    pairs@.len() == i,
                    find(members_json(members@), name@) == Some(
                        Json::Object(members_json(entries@)),
                    ),
                    members_json(entries@).len() == entries@.len(),
                    forall|j: int|
                        0 <= j < entries@.len() ==> #[trigger] members_json(entries@)[j]
                            == entries@[j]@,
                    forall|j: int|
                        0 <= j < i ==> members_json(entries@)[j] == (
                            (#[trigger] pairs@[j]).0@,
                            Json::Text(pairs@[j].1@),
                        ),
                decreases entries@.len() - i,
            {
                match &entries[i].value {
                    Value::Text(s) => {
                        pairs.push((entries[i].name.clone(), s.clone()));
                    },
                    _ => {
                        assert(!(members_json(entries@)[i as int].1 is Text));
                        return None;
                    },
                }
                i += 1;
            }
            proof {
                let held = members_json(entries@);
                assert forall|j: int| 0 <= j < held.len() implies (#[trigger] held[j]).1 is Text by {
                    assert(held[j] == (pairs@[j].0@, Json::Text(pairs@[j].1@)));
                }
                assert(Seq::new(held.len(), |j: int| (held[j].0, held[j].1->Text_0)) =~= texts_view(
                    pairs@,
                ));
            }
            Some(pairs)
        },
        _ => None,
    }
}

/// Reads the members of a list object as a page.
fn read_list_object(list: &Vec<Member>) -> (r: Option<Page>)
    ensures
        match r {
            Some(page) => page_value(Some(Json::Object(members_json(list@)))) == Some(page@),
            None => page_value(Some(Json::Object(members_json(list@)))) is None,
        },
{
    match (find_member(list, "data"), find_member(list, "has_more"), find_member(list, "url")) {
        (Some(Value::Array(data)), Some(Value::Bool(has_more)), Some(Value::Text(url))) => {
            Some(Page { data: clone_items(data), has_more: *has_more, url: url.clone() })
        },
        _ => None,
    }
}

/// Reads a member that must be a list object.
fn read_page(members: &Vec<Member>, name: &str) -> (r: Option<Page>)
    ensures
        match r {
            Some(page) => page_value(find(members_json(members@), name@)) == Some(page@),
            None => page_value(find(members_json(members@), name@)) is None,
        },
{
    match find_member(members, name) {
        Some(Value::Object(list)) => read_list_object(list),
        _ => None,
    }
}

/// Copies an optional text.
fn clone_text(text: &Option<String>) -> (copy: Option<String>)
    ensures
        text_view(copy) == text_view(*text),
{
    match text {
        Some(s) => Some(s.clone()),
        None => None,
    }
}

/// Copies an optional reference.
fn clone_reference(reference: &Option<Expandable>) -> (copy: Option<Expandable>)
    ensures
        reference_view(copy) == reference_view(*reference),
{
    match reference {
        Some(e) => Some(e.clone()),
        None => None,
    }
}

/// Copies key-value pairs.
fn clone_texts(pairs: &Vec<(String, String)>) -> (copies: Vec<(String, String)>)
    ensures
        texts_view(copies@) == texts_view(pairs@),
{
    let mut copies: Vec<(String, String)> = Vec::new();
    let mut i: usize = 0;
    while i < pairs.len()
        invariant
            i <= pairs@.len(),
            copies@.len() == i,
            forall|j: int|
                0 <= j < i ==> (#[trigger] copies@[j]).0@ == pairs@[j].0@ && copies@[j].1@
                    == pairs@[j].1@,
        decreases pairs@.len() - i,
    {
        copies.push((pairs[i].0.clone(), pairs[i].1.clone()));
        i += 1;
    }
    assert(texts_view(copies@) =~= texts_view(pairs@));
    copies
}

/// The value that an optional text is written as.
fn write_text(text: &Option<String>) -> (v: Option<Value>)
    ensures
        json_of(v) == text_field(text_view(*text)),
{
    match text {
        Some(s) => Some(Value::Text(s.clone())),
        None => None,
    }
}

/// The value that an optional reference is written as.
fn write_reference(reference: &Option<Expandable>) -> (v: Option<Value>)
    ensures
        json_of(v) == reference_view(*reference),
{
    match reference {
        Some(Expandable::Id(s)) => Some(Value::Text(s.clone())),
        Some(Expandable::Object(record)) => Some(Value::Object(clone_members(record))),
        None => None,
    }
}

/// The object that key-value pairs are written as.
fn write_metadata(pairs: &Vec<(String, String)>) -> (v: Value)
    ensures
        v@ == metadata_json(texts_view(pairs@)),
{
    let mut entries: Vec<Member> = Vec::new();
    let mut i: usize = 0;
    while i < pairs.len()
        invariant
            i <= pairs@.len(),
            entries@.len() == i,
            forall|j: int|
                0 <= j < i ==> (#[trigger] entries@[j])@ == (pairs@[j].0@, Json::Text(pairs@[j].1@)),
        decreases pairs@.len() - i,
    {
        entries.push(Member { name: pairs[i].0.clone(), value: Value::Text(pairs[i].1.clone()) });
        i += 1;
    }
    proof {
        lemma_members_json(entries@);
        assert(members_json(entries@) =~= metadata_json(texts_view(pairs@))->Object_0);
    }
    Value::Object(entries)
}

/// The list object that a page is written as.
fn write_page(page: &Page) -> (v: Value)
    ensures
        v@ == page_json(page@),
{
    let mut list: Vec<Member> = Vec::new();
    assert(members_json(list@) =~= Seq::empty());
    push_field(&mut list, "object", Some(Value::Text("list".to_owned())));
    assert(members_json(list@) =~= field("object"@, Some(Json::Text("list"@))));
    push_field(&mut list, "data", Some(Value::Array(clone_items(&page.data))));
    push_field(&mut list, "has_more", Some(Value::Bool(page.has_more)));
    push_field(&mut list, "url", Some(Value::Text(page.url.clone())));
    Value::Object(list)
}

/// The members that a transfer is written as, in the order of the fields:
/// every required field, and each optional field that is set. A field that
/// is unset gives no member, not a null.
pub open spec fn spec_members(t: TransferView) -> Seq<(Seq<char>, Json)> {
    field("id"@, Some(Json::Text(t.id)))
        + field("amount"@, Some(Json::Int(t.amount)))
        + field("amount_reversed"@, Some(Json::Int(t.amount_reversed)))
        + field("balance_transaction"@, t.balance_transaction)
        + field("created"@, Some(Json::Int(t.created)))
        + field("currency"@, Some(Json::Text(t.currency)))
        + field("description"@, text_field(t.description))
        + field("destination"@, t.destination)
        + field("destination_payment"@, t.destination_payment)
        + field("livemode"@, Some(Json::Bool(t.livemode)))
        + field("metadata"@, Some(metadata_json(t.metadata)))
        + field("reversals"@, Some(page_json(t.reversals)))
        + field("reversed"@, Some(Json::Bool(t.reversed)))
        + field("source_transaction"@, t.source_transaction)
        + field("source_type"@, text_field(t.source_type))
        + field("transfer_group"@, text_field(t.transfer_group))
}

/// The transfer that the members of an object make, where they make one:
/// every required member is there with a value of its field's type, and
/// every optional member is missing, null or of its field's type. Members
/// of other names are passed over.
pub open spec fn spec_parse(members: Seq<(Seq<char>, Json)>) -> Option<TransferView> {
    let id = text_value(find(members, "id"@));
    let amount = int_value(find(members, "amount"@));
    let amount_reversed = int_value(find(members, "amount_reversed"@));
    let balance_transaction = reference_value(find(members, "balance_transaction"@));
    let created = int_value(find(members, "created"@));
    let currency = text_value(find(members, "currency"@));
    let description = optional_text_value(find(members, "description"@));
    let destination = reference_value(find(members, "destination"@));
    let destination_payment = reference_value(find(members, "destination_payment"@));
    let livemode = bool_value(find(members, "livemode"@));
    let metadata = metadata_value(find(members, "metadata"@));
    let reversals = page_value(find(members, "reversals"@));
    let reversed = bool_value(find(members, "reversed"@));
    let source_transaction = reference_value(find(members, "source_transaction"@));
    let source_type = optional_text_value(find(members, "source_type"@));
    let transfer_group = optional_text_value(find(members, "transfer_group"@));
    if id is Some
        && amount is Some
        && amount_reversed is Some
        && balance_transaction is Some
        && created is Some
        && currency is Some
        && description is Some
        && destination is Some
        && destination_payment is Some
        && livemode is Some
        && metadata is Some
        && reversals is Some
        && reversed is Some
        && source_transaction is Some
        && source_type is Some
        && transfer_group is Some {
        Some(
            TransferView {
                id: id.unwrap(),
                amount: amount.unwrap(),
                amount_reversed: amount_reversed.unwrap(),
                balance_transaction: balance_transaction.unwrap(),
                created: created.unwrap(),
                currency: currency.unwrap(),
                description: description.unwrap(),
                destination: destination.unwrap(),
                destination_payment: destination_payment.unwrap(),
                livemode: livemode.unwrap(),
                metadata: metadata.unwrap(),
                reversals: reversals.unwrap(),
                reversed: reversed.unwrap(),
                source_transaction: source_transaction.unwrap(),
                source_type: source_type.unwrap(),
                transfer_group: transfer_group.unwrap(),
            },
        )
    } else {
        None
    }
}

/// The transfer that a JSON value makes: that of its members, where it is
/// an object.
pub open spec fn transfer_of(v: Json) -> Option<TransferView> {
    match v {
        Json::Object(members) => spec_parse(members),
        _ => None,
    }
}

/// Whether every record of a page makes a transfer.
pub open spec fn all_transfers(data: Seq<Json>) -> bool {
    forall|i: int| 0 <= i < data.len() ==> transfer_of(#[trigger] data[i]) is Some
}

/// The page of transfers that the body of an answer makes, where it makes
/// one: the body is a list object, and each of its records makes a
/// transfer. The transfers stand in the order of the records.
pub open spec fn list_value(body: Json) -> Option<TransferListView> {
    match page_value(Some(body)) {
        Some(page) => if all_transfers(page.data) {
            Some(
                TransferListView {
                    data: Seq::new(page.data.len(), |i: int| transfer_of(page.data[i]).unwrap()),
                    has_more: page.has_more,
                    url: page.url,
                },
            )
        } else {
            None
        },
        None => None,
    }
}

impl Transfer {
    /// The request that lists the transfers sent to connected accounts: a
    /// GET of `/transfers` with the parameters as its query. The service
    /// answers with the most recently created transfers first.
    pub fn list(params: TransferListParams<'_>) -> (request: Request)
        ensures
            request.path@ == "/transfers"@,
            request.query@ == rendered(params.spec_pairs()),
    {
        let pairs = params.query_pairs();
        Request { path: "/transfers".to_owned(), query: render(&pairs) }
    }

    /// The transfer's identifier.
    pub fn id(&self) -> (id: &TransferId)
        ensures
            *id == self.id,
    {
        &self.id
    }

    /// The tag of the record's kind: `transfer`, whatever the fields hold.
    pub fn object(&self) -> (tag: &'static str)
        ensures
            tag@ == "transfer"@,
    {
        "transfer"
    }

    /// Whether the amounts agree with the flag: a transfer that is fully
    /// reversed has all of its amount reversed. The service keeps this;
    /// nothing here enforces it.
    pub open spec fn reversal_consistent(&self) -> bool {
        self.reversed ==> self.amount_reversed == self.amount
    }

    /// Tests whether the amounts agree with the flag.
    pub fn is_reversal_consistent(&self) -> (r: bool)
        ensures
            r == self.reversal_consistent(),
    {
        !self.reversed || self.amount_reversed == self.amount
    }

    /// Writes the transfer as the members of an object.
    pub fn to_members(&self) -> (members: Vec<Member>)
        ensures
            members_json(members@) == spec_members(self@),
    {
        let mut members: Vec<Member> = Vec::new();
        assert(members_json(members@) =~= Seq::empty());
        push_field(&mut members, "id", Some(Value::Text(self.id.value.clone())));
        assert(members_json(members@) =~= field("id"@, Some(Json::Text(self@.id))));
        push_field(&mut members, "amount", Some(Value::Int(self.amount)));
        push_field(&mut members, "amount_reversed", Some(Value::Int(self.amount_reversed)));
        push_field(&mut members, "balance_transaction", write_reference(&self.balance_transaction));
        push_field(&mut members, "created", Some(Value::Int(self.created)));
        push_field(&mut members, "currency", Some(Value::Text(self.currency.clone())));
        push_field(&mut members, "description", write_text(&self.description));
        push_field(&mut members, "destination", write_reference(&self.destination));
        push_field(&mut members, "destination_payment", write_reference(&self.destination_payment));
        push_field(&mut members, "livemode", Some(Value::Bool(self.livemode)));
        push_field(&mut members, "metadata", Some(write_metadata(&self.metadata)));
        push_field(&mut members, "reversals", Some(write_page(&self.reversals)));
        push_field(&mut members, "reversed", Some(Value::Bool(self.reversed)));
        push_field(&mut members, "source_transaction", write_reference(&self.source_transaction));
        push_field(&mut members, "source_type", write_text(&self.source_type));
        push_field(&mut members, "transfer_group", write_text(&self.transfer_group));
        members
    }

    /// Reads a transfer from the members of an object.
    pub fn from_members(members: &Vec<Member>) -> (r: Result<Transfer, SchemaMismatch>)
        ensures
            match r {
                Ok(t) => spec_parse(members_json(members@)) == Some(t@),
                Err(_) => spec_parse(members_json(members@)) is None,
            },
    {
        let id = read_text(members, "id");
        let amount = read_int(members, "amount");
        let amount_reversed = read_int(members, "amount_reversed");
        let balance_transaction = read_reference(members, "balance_transaction");
        let created = read_int(members, "created");
        let currency = read_text(members, "currency");
        let description = read_optional_text(members, "description");
        let destination = read_reference(members, "destination");
        let destination_payment = read_reference(members, "destination_payment");
        let livemode = read_bool(members, "livemode");
        let metadata = read_metadata(members, "metadata");
        let reversals = read_page(members, "reversals");
        let reversed = read_bool(members, "reversed");
        let source_transaction = read_reference(members, "source_transaction");
        let source_type = read_optional_text(members, "source_type");
        let transfer_group = read_optional_text(members, "transfer_group");
        if id.is_none()
            || amount.is_none()
            || amount_reversed.is_none()
            || balance_transaction.is_none()
            || created.is_none()
            || currency.is_none()
            || description.is_none()
            || destination.is_none()
            || destination_payment.is_none()
            || livemode.is_none()
            || metadata.is_none()
            || reversals.is_none()
            || reversed.is_none()
            || source_transaction.is_none()
            || source_type.is_none()
            || transfer_group.is_none() {
            return Err(SchemaMismatch {  });
        }
        let transfer = Transfer {
            id: TransferId { value: id.unwrap() },
            amount: amount.unwrap(),
            amount_reversed: amount_reversed.unwrap(),
            balance_transaction: balance_transaction.unwrap(),
            created: created.unwrap(),
            currency: currency.unwrap(),
            description: description.unwrap(),
            destination: destination.unwrap(),
            destination_payment: destination_payment.unwrap(),
            livemode: livemode.unwrap(),
            metadata: metadata.unwrap(),
            reversals: reversals.unwrap(),
            reversed: reversed.unwrap(),
            source_transaction: source_transaction.unwrap(),
            source_type: source_type.unwrap(),
            transfer_group: transfer_group.unwrap(),
        };
        Ok(transfer)
    }

    /// Writes the transfer as a JSON object.
    pub fn to_value(&self) -> (v: Value)
        ensures
            v@ == Json::Object(spec_members(self@)),
    {
        Value::Object(self.to_members())
    }

    /// Reads a transfer from a JSON value.
    pub fn from_value(value: &Value) -> (r: Result<Transfer, SchemaMismatch>)
        ensures
            match r {
                Ok(t) => transfer_of(value@) == Some(t@),
                Err(_) => transfer_of(value@) is None,
            },
    {
        match value {
            Value::Object(members) => Transfer::from_members(members),
            _ => Err(SchemaMismatch {  }),
        }
    }

    /// Reads the answer to a list request: a list object whose records are
    /// transfers. The transfers are kept in the order in which they came.
    pub fn read_list(body: &Value) -> (r: Result<TransferList, SchemaMismatch>)
        ensures
            match r {
                Ok(list) => list_value(body@) == Some(list@),
                Err(_) => list_value(body@) is None,
            },
    {
        let page = match body {
            Value::Object(list) => read_list_object(list),
            _ => None,
        };
        match page {
            Some(page) => {
                let mut data: Vec<Transfer> = Vec::new();
                let mut i: usize = 0;
                proof {
                    lemma_items_json(page.data@);
                }
                while i < page.data.len()
                    invariant
                        i <= page.data@.len(),
                        data@.len() == i,
                        page_value(Some(body@)) == Some(page@),
                        page@.data.len() == page.data@.len(),
                        forall|j: int|
                            0 <= j < page.data@.len() ==> #[trigger] page@.data[j] == page.data@[j]@,
                        forall|j: int|
                            0 <= j < i ==> transfer_of(page@.data[j]) == Some(
                                (#[trigger] data@[j])@,
                            ),
                    decreases page.data@.len() - i,
                {
                    match Transfer::from_value(&page.data[i]) {
                        Ok(t) => {
                            data.push(t);
                        },
                        Err(e) => {
                            assert(transfer_of(page@.data[i as int]) is None);
                            return Err(e);
                        },
                    }
                    i += 1;
                }
                let list = TransferList { data, has_more: page.has_more, url: page.url };
                proof {
                    assert forall|j: int| 0 <= j < page@.data.len() implies transfer_of(
                        #[trigger] page@.data[j],
                    ) is Some by {
                        assert(transfer_of(page@.data[j]) == Some(data@[j]@));
                    }
                    assert(list@.data =~= Seq::new(
                        page@.data.len(),
                        |j: int| transfer_of(page@.data[j]).unwrap(),
                    ));
                }
                Ok(list)
            },
            None => Err(SchemaMismatch {  }),
        }
    }
}

impl Clone for Transfer {
    fn clone(&self) -> (copy: Transfer)
        ensures
            copy@ == self@,
    {
        Transfer {
            id: self.id.clone(),
            amount: self.amount,
            amount_reversed: self.amount_reversed,
            balance_transaction: clone_reference(&self.balance_transaction),
            created: self.created,
            currency: self.currency.clone(),
            description: clone_text(&self.description),
            destination: clone_reference(&self.destination),
            destination_payment: clone_reference(&self.destination_payment),
            livemode: self.livemode,
            metadata: clone_texts(&self.metadata),
            reversals: self.reversals.clone(),
            reversed: self.reversed,
            source_transaction: clone_reference(&self.source_transaction),
            source_type: clone_text(&self.source_type),
            transfer_group: clone_text(&self.transfer_group),
        }
    }
}

/// The names of a transfer's members differ from one another.
pub proof fn lemma_names_differ()
    ensures
        "id"@.len() == 2,
        "amount"@.len() == 6,
        "amount_reversed"@.len() == 15,
        "balance_transaction"@.len() == 19,
        "created"@.len() == 7,
        "currency"@.len() == 8,
        "description"@.len() == 11,
        "destination"@.len() == 11,
        "destination_payment"@.len() == 19,
        "livemode"@.len() == 8,
        "metadata"@.len() == 8,
        "reversals"@.len() == 9,
        "reversed"@.len() == 8,
        "source_transaction"@.len() == 18,
        "source_type"@.len() == 11,
        "transfer_group"@.len() == 14,
        "balance_transaction"@ != "destination_payment"@,
        "currency"@ != "livemode"@,
        "currency"@ != "metadata"@,
        "currency"@ != "reversed"@,
        "livemode"@ != "metadata"@,
        "livemode"@ != "reversed"@,
        "metadata"@ != "reversed"@,
        "description"@ != "destination"@,
        "description"@ != "source_type"@,
        "destination"@ != "source_type"@,
{
    reveal_strlit("id");
    reveal_strlit("amount");
    reveal_strlit("amount_reversed");
    reveal_strlit("balance_transaction");
    reveal_strlit("created");
    reveal_strlit("currency");
    reveal_strlit("description");
    reveal_strlit("destination");
    reveal_strlit("destination_payment");
    reveal_strlit("livemode");
    reveal_strlit("metadata");
    reveal_strlit("reversals");
    reveal_strlit("reversed");
    reveal_strlit("source_transaction");
    reveal_strlit("source_type");
    reveal_strlit("transfer_group");
    assert("balance_transaction"@[0] == 'b');
    assert("destination_payment"@[0] == 'd');
    assert("currency"@[0] == 'c');
    assert("livemode"@[0] == 'l');
    assert("currency"@[0] == 'c');
    assert("metadata"@[0] == 'm');
    assert("currency"@[0] == 'c');
    assert("reversed"@[0] == 'r');
    assert("livemode"@[0] == 'l');
    assert("metadata"@[0] == 'm');
    assert("livemode"@[0] == 'l');
    assert("reversed"@[0] == 'r');
    assert("metadata"@[0] == 'm');
    assert("reversed"@[0] == 'r');
    assert("description"@[3] == 'c');
    assert("destination"@[3] == 't');
    assert("description"@[0] == 'd');
    assert("source_type"@[0] == 's');
    assert("destination"@[0] == 'd');
    assert("source_type"@[0] == 's');
}

/// What the members of a transfer hold under `at`: the value of the last
/// field of that name that is written.
proof fn lemma_find_written(t: TransferView, at: Seq<char>)
    ensures
        find(spec_members(t), at) == {
            let found = hit("id"@, Some(Json::Text(t.id)), at);
            let found = or_earlier(hit("amount"@, Some(Json::Int(t.amount)), at), found);
            let found = or_earlier(hit("amount_reversed"@, Some(Json::Int(t.amount_reversed)), at), found);
            let found = or_earlier(hit("balance_transaction"@, t.balance_transaction, at), found);
            let found = or_earlier(hit("created"@, Some(Json::Int(t.created)), at), found);
            let found = or_earlier(hit("currency"@, Some(Json::Text(t.currency)), at), found);
            let found = or_earlier(hit("description"@, text_field(t.description), at), found);
            let found = or_earlier(hit("destination"@, t.destination, at), found);
            let found = or_earlier(hit("destination_payment"@, t.destination_payment, at), found);
            let found = or_earlier(hit("livemode"@, Some(Json::Bool(t.livemode)), at), found);
            let found = or_earlier(hit("metadata"@, Some(metadata_json(t.metadata)), at), found);
            let found = or_earlier(hit("reversals"@, Some(page_json(t.reversals)), at), found);
            let found = or_earlier(hit("reversed"@, Some(Json::Bool(t.reversed)), at), found);
            let found = or_earlier(hit("source_transaction"@, t.source_transaction, at), found);
            let found = or_earlier(hit("source_type"@, text_field(t.source_type), at), found);
            let found = or_earlier(hit("transfer_group"@, text_field(t.transfer_group), at), found);
            found
        },
{
    let value = Some(Json::Text(t.id));
    lemma_find_field("id"@, value, at);
    let written = field("id"@, value);
    let value = Some(Json::Int(t.amount));
    lemma_find_field("amount"@, value, at);
    lemma_find_concat(written, field("amount"@, value), at);
    let written = written + field("amount"@, value);
    let value = Some(Json::Int(t.amount_reversed));
    lemma_find_field("amount_reversed"@, value, at);
    lemma_find_concat(written, field("amount_reversed"@, value), at);
    let written = written + field("amount_reversed"@, value);
    let value = t.balance_transaction;
    lemma_find_field("balance_transaction"@, value, at);
    lemma_find_concat(written, field("balance_transaction"@, value), at);
    let written = written + field("balance_transaction"@, value);
    let value = Some(Json::Int(t.created));
    lemma_find_field("created"@, value, at);
    lemma_find_concat(written, field("created"@, value), at);
    let written = written + field("created"@, value);
    let value = Some(Json::Text(t.currency));
    lemma_find_field("currency"@, value, at);
    lemma_find_concat(written, field("currency"@, value), at);
    let written = written + field("currency"@, value);
    let value = text_field(t.description);
    lemma_find_field("description"@, value, at);
    lemma_find_concat(written, field("description"@, value), at);
    let written = written + field("description"@, value);
    let value = t.destination;
    lemma_find_field("destination"@, value, at);
    lemma_find_concat(written, field("destination"@, value), at);
    let written = written + field("destination"@, value);
    let value = t.destination_payment;
    lemma_find_field("destination_payment"@, value, at);
    lemma_find_concat(written, field("destination_payment"@, value), at);
    let written = written + field("destination_payment"@, value);
    let value = Some(Json::Bool(t.livemode));
    lemma_find_field("livemode"@, value, at);
    lemma_find_concat(written, field("livemode"@, value), at);
    let written = written + field("livemode"@, value);
    let value = Some(metadata_json(t.metadata));
    lemma_find_field("metadata"@, value, at);
    lemma_find_concat(written, field("metadata"@, value), at);
    let written = written + field("metadata"@, value);
    let value = Some(page_json(t.reversals));
    lemma_find_field("reversals"@, value, at);
    lemma_find_concat(written, field("reversals"@, value), at);
    let written = written + field("reversals"@, value);
    let value = Some(Json::Bool(t.reversed));
    lemma_find_field("reversed"@, value, at);
    lemma_find_concat(written, field("reversed"@, value), at);
    let written = written + field("reversed"@, value);
    let value = t.source_transaction;
    lemma_find_field("source_transaction"@, value, at);
    lemma_find_concat(written, field("source_transaction"@, value), at);
    let written = written + field("source_transaction"@, value);
    let value = text_field(t.source_type);
    lemma_find_field("source_type"@, value, at);
    lemma_find_concat(written, field("source_type"@, value), at);
    let written = written + field("source_type"@, value);
    let value = text_field(t.transfer_group);
    lemma_find_field("transfer_group"@, value, at);
    lemma_find_concat(written, field("transfer_group"@, value), at);
    let written = written + field("transfer_group"@, value);
}

/// Each field of a transfer is written under its own name: a field that
/// is unset is not written, and a field that is set is written with its
/// value.
pub proof fn lemma_written_fields(t: TransferView)
    ensures
        find(spec_members(t), "id"@) == Some(Json::Text(t.id)),
        find(spec_members(t), "amount"@) == Some(Json::Int(t.amount)),
        find(spec_members(t), "amount_reversed"@) == Some(Json::Int(t.amount_reversed)),
        find(spec_members(t), "balance_transaction"@) == t.balance_transaction,
        find(spec_members(t), "created"@) == Some(Json::Int(t.created)),
        find(spec_members(t), "currency"@) == Some(Json::Text(t.currency)),
        find(spec_members(t), "description"@) == text_field(t.description),
        find(spec_members(t), "destination"@) == t.destination,
        find(spec_members(t), "destination_payment"@) == t.destination_payment,
        find(spec_members(t), "livemode"@) == Some(Json::Bool(t.livemode)),
        find(spec_members(t), "metadata"@) == Some(metadata_json(t.metadata)),
        find(spec_members(t), "reversals"@) == Some(page_json(t.reversals)),
        find(spec_members(t), "reversed"@) == Some(Json::Bool(t.reversed)),
        find(spec_members(t), "source_transaction"@) == t.source_transaction,
        find(spec_members(t), "source_type"@) == text_field(t.source_type),
        find(spec_members(t), "transfer_group"@) == text_field(t.transfer_group),
{
    lemma_names_differ();
    lemma_find_written(t, "id"@);
    lemma_find_written(t, "amount"@);
    lemma_find_written(t, "amount_reversed"@);
    lemma_find_written(t, "balance_transaction"@);
    lemma_find_written(t, "created"@);
    lemma_find_written(t, "currency"@);
    lemma_find_written(t, "description"@);
    lemma_find_written(t, "destination"@);
    lemma_find_written(t, "destination_payment"@);
    lemma_find_written(t, "livemode"@);
    lemma_find_written(t, "metadata"@);
    lemma_find_written(t, "reversals"@);
    lemma_find_written(t, "reversed"@);
    lemma_find_written(t, "source_transaction"@);
    lemma_find_written(t, "source_type"@);
    lemma_find_written(t, "transfer_group"@);
}

/// Reading a transfer and writing it again keeps the members of the
/// transfer's scalar and optional fields and of its metadata: one that was
/// missing or null in what was read is missing from what is written, and
/// every other value is written as it was read. The reversals are written
/// as a list object that reads as the same page.
pub proof fn lemma_read_then_write(members: Seq<(Seq<char>, Json)>, t: TransferView)
    requires
        spec_parse(members) == Some(t),
    ensures
        kept(members, spec_members(t), "id"@),
        kept(members, spec_members(t), "amount"@),
        kept(members, spec_members(t), "amount_reversed"@),
        kept(members, spec_members(t), "balance_transaction"@),
        kept(members, spec_members(t), "created"@),
        kept(members, spec_members(t), "currency"@),
        kept(members, spec_members(t), "description"@),
        kept(members, spec_members(t), "destination"@),
        kept(members, spec_members(t), "destination_payment"@),
        kept(members, spec_members(t), "livemode"@),
        kept(members, spec_members(t), "metadata"@),
        kept(members, spec_members(t), "reversed"@),
        kept(members, spec_members(t), "source_transaction"@),
        kept(members, spec_members(t), "source_type"@),
        kept(members, spec_members(t), "transfer_group"@),
        page_value(find(spec_members(t), "reversals"@)) == page_value(find(members, "reversals"@)),
{
    lemma_written_fields(t);
    lemma_metadata_kept(find(members, "metadata"@), t.metadata);
    lemma_page_read_back(t.reversals);
}

/// Writing a transfer and reading it again gives the same transfer.
pub proof fn lemma_write_then_read(t: Transfer)
    ensures
        spec_parse(spec_members(t@)) == Some(t@),
{
    lemma_written_fields(t@);
    lemma_metadata_read_back(t@.metadata);
    lemma_page_read_back(t@.reversals);
}

} // verus!
