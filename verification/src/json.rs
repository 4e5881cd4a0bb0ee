//! JSON documents as values of the library, and their text.

use crate::text::{decimal, push_decimal};
use serde_json::Value;
use vstd::prelude::*;

verus! {

/// A JSON number: a whole number where it is one that fits, and the numeral
/// itself otherwise.
#[derive(Debug)]
pub enum JsonNumber {
    Unsigned(u64),
    Signed(i64),
    Real(String),
}

/// A JSON document.
#[derive(Debug)]
pub enum Json {
    Null,
    Bool(bool),
    Number(JsonNumber),
    Text(String),
    List(Vec<Json>),
    Object(Vec<(String, Json)>),
}

/// The mathematical value of a [`JsonNumber`].
pub enum NumberView {
    Unsigned(u64),
    Signed(i64),
    Real(Seq<char>),
}

/// The mathematical value of a [`Json`].
pub enum JsonView {
    Null,
    Bool(bool),
    Number(NumberView),
    Text(Seq<char>),
    List(Seq<JsonView>),
    Object(Seq<(Seq<char>, JsonView)>),
}

impl View for JsonNumber {
    type V = NumberView;

    open spec fn view(&self) -> NumberView {
        match self {
            JsonNumber::Unsigned(n) => NumberView::Unsigned(*n),
            JsonNumber::Signed(n) => NumberView::Signed(*n),
            JsonNumber::Real(numeral) => NumberView::Real(numeral@),
        }
    }
}

/// The value of a document, level by level.
pub open spec fn json_view(json: Json) -> JsonView
    decreases json,
{
    match json {
        Json::Null => JsonView::Null,
        Json::Bool(b) => JsonView::Bool(b),
        Json::Number(n) => JsonView::Number(n@),
        Json::Text(text) => JsonView::Text(text@),
        Json::List(items) => JsonView::List(
            Seq::new(
                items.len() as nat,
                |i: int|
                    if 0 <= i < items.len() {
                        json_view(items[i])
                    } else {
                        JsonView::Null
                    },
            ),
        ),
        Json::Object(members) => JsonView::Object(
            Seq::new(
                members.len() as nat,
                |i: int|
                    if 0 <= i < members.len() {
                        (members[i].0@, json_view(members[i].1))
                    } else {
                        (Seq::empty(), JsonView::Null)
                    },
            ),
        ),
    }
}

impl View for Json {
    type V = JsonView;

    open spec fn view(&self) -> JsonView {
        json_view(*self)
    }
}

/// The value of a list is made of the values of its items, and that of an
/// object of the keys and values of its members, in their order.
pub proof fn lemma_view_unfolds(json: Json)
    ensures
        json matches Json::List(items) ==> json@ is List && json@->List_0.len() == items.len()
            && forall|i: int| 0 <= i < items.len() ==> #[trigger] json@->List_0[i] == items[i]@,
        json matches Json::Object(members) ==> json@ is Object && json@->Object_0.len()
            == members.len() && forall|i: int|
            0 <= i < members.len() ==> #[trigger] json@->Object_0[i] == (
                members[i].0@,
                members[i].1@,
            ),
        json is Null ==> json@ is Null,
        json matches Json::Bool(b) ==> json@ == JsonView::Bool(b),
        json matches Json::Number(n) ==> json@ == JsonView::Number(n@),
        json matches Json::Text(text) ==> json@ == JsonView::Text(text@),
{
    reveal_with_fuel(json_view, 2);
}

/// `serde_json::Value`, of which nothing is known but what [`held`] names.
#[verifier::external_type_specification]
#[verifier::external_body]
pub struct ExValue(Value);

/// The document that a `serde_json::Value` holds: the members of an object
/// in the order of their keys, each key once.
pub uninterp spec fn held(value: Value) -> JsonView;

/// The document that `serde_json` reads from a text; `None` where it reads
/// none.
pub uninterp spec fn parsed_document(bytes: Seq<u8>) -> Option<JsonView>;

/// The document as `serde_json` stores it: the members of an object sorted
/// by key, of two members with one key the later only, and each numeral as
/// it reads it.
pub uninterp spec fn stored(document: JsonView) -> JsonView;

/// The compact text that `serde_json` writes for a document that it holds.
pub uninterp spec fn document_text(document: JsonView) -> Seq<char>;

/// Whether `serde_json` reads a numeral as a number.
pub uninterp spec fn numeral_read(numeral: Seq<char>) -> bool;

/// Whether `numeral` is read as a `serde_json::Number` by `str::parse`. The
/// contract claims no more than that the outcome depends on the numeral
/// alone: it gives it the name [`numeral_read`].
#[verifier::external_body]
fn numeral_reads(numeral: &str) -> (reads: bool)
    ensures
        reads == numeral_read(numeral@),
{
    numeral.parse::<serde_json::Number>().is_ok()
}

/// Reads one JSON document from `bytes` with `serde_json::from_slice`;
/// `None` stands for any error of the parser. The contract claims no more
/// than that the outcome depends on the bytes alone: it gives the document
/// read the name [`parsed_document`].
#[verifier::external_body]
fn read_value(bytes: &[u8]) -> (read: Option<Value>)
    ensures
        match read {
            Some(value) => parsed_document(bytes@) == Some(held(value)),
            None => parsed_document(bytes@) is None,
        },
{
    serde_json::from_slice::<Value>(bytes).ok()
}

/// Converts a `serde_json::Value`, variant by variant. The members of an
/// object come in the order in which its map yields them. A number is taken
/// as the whole number that `Number::as_u64` or `Number::as_i64` gives, and
/// otherwise as its numeral, which `to_string` gives. The contract gives
/// the outcome the name [`held`]: it is what says what a value holds.
#[verifier::external_body]
fn json_from(value: Value) -> (json: Json)
    ensures
        json@ == held(value),
{
    match value {
        Value::Null => Json::Null,
        Value::Bool(b) => Json::Bool(b),
        Value::Number(n) => Json::Number(match (n.as_u64(), n.as_i64()) {
            (Some(u), _) => JsonNumber::Unsigned(u),
            (None, Some(i)) => JsonNumber::Signed(i),
            (None, None) => JsonNumber::Real(n.to_string()),
        }),
        Value::String(s) => Json::Text(s),
        Value::Array(items) => Json::List(items.into_iter().map(json_from).collect()),
        Value::Object(all) => Json::Object(all.into_iter().map(|(k, v)| (k, json_from(v))).collect()),
    }
}

/// Converts a document into a `serde_json::Value`, variant by variant. The
/// members of an object are collected into a `serde_json::Map`, and a
/// numeral is read as a `serde_json::Number` with `str::parse`. The error of
/// a numeral that is not read is met with `null`; [`render`] hands over no
/// such numeral. The contract claims no more than that what the value
/// holds depends on the document alone: it gives it the name [`stored`].
#[verifier::external_body]
fn value_from(json: &Json) -> (value: Value)
    ensures
        held(value) == stored(json@),
{
    match json {
        Json::Null => Value::Null,
        Json::Bool(b) => Value::Bool(*b),
        Json::Number(JsonNumber::Unsigned(n)) => Value::from(*n),
        Json::Number(JsonNumber::Signed(n)) => Value::from(*n),
        Json::Number(JsonNumber::Real(t)) => t.parse().map_or(Value::Null, Value::Number),
        Json::Text(s) => Value::String(s.clone()),
        Json::List(items) => Value::Array(items.iter().map(value_from).collect()),
        Json::Object(all) => Value::Object(all.iter().map(|(k, v)| (k.clone(), value_from(v))).collect()),
    }
}

/// Writes a value as compact JSON text with `to_string`, that is through
/// the `Display` of `serde_json::Value`. The contract claims no more than
/// that the text depends on what the value holds alone: it gives the text
/// the name [`document_text`].
#[verifier::external_body]
fn write_value(value: &Value) -> (text: String)
    ensures
        text@ == document_text(held(*value)),
{
    value.to_string()
}

/// The JSON document that `bytes` are the text of, if they are the text of
/// one.
pub fn parse(bytes: &[u8]) -> (document: Option<Json>)
    ensures
        match document {
            Some(json) => parsed_document(bytes@) == Some(json@),
            None => parsed_document(bytes@) is None,
        },
{
    match read_value(bytes) {
        Some(value) => Some(json_from(value)),
        None => None,
    }
}

/// The document as it is written: a numeral that is not read as a number
/// gives way to `null`, and all else stays.
pub open spec fn written(document: JsonView) -> JsonView
    decreases document,
{
    match document {
        JsonView::Number(NumberView::Real(numeral)) => if numeral_read(numeral) {
            document
        } else {
            JsonView::Null
        },
        JsonView::List(items) => JsonView::List(
            Seq::new(
                items.len(),
                |i: int|
                    if 0 <= i < items.len() {
                        written(items[i])
                    } else {
                        JsonView::Null
                    },
            ),
        ),
        JsonView::Object(members) => JsonView::Object(
            Seq::new(
                members.len(),
                |i: int|
                    if 0 <= i < members.len() {
                        (members[i].0, written(members[i].1))
                    } else {
                        (Seq::empty(), JsonView::Null)
                    },
            ),
        ),
        _ => document,
    }
}

/// The compact JSON text of a document: the text that `serde_json` writes
/// for the document as it is written.
pub open spec fn rendered(document: JsonView) -> Seq<char> {
    document_text(stored(written(document)))
}

impl Json {
    /// The document as it is written: a copy in which every numeral that
    /// is not read as a number has given way to `null`.
    pub fn to_written(&self) -> (json: Json)
        ensures
            json@ == written(self@),
        decreases self,
    {
        proof {
            lemma_view_unfolds(*self);
        }
        match self {
            Json::Null => Json::Null,
            Json::Bool(b) => Json::Bool(*b),
            Json::Number(JsonNumber::Unsigned(n)) => Json::Number(JsonNumber::Unsigned(*n)),
            Json::Number(JsonNumber::Signed(n)) => Json::Number(JsonNumber::Signed(*n)),
            Json::Number(JsonNumber::Real(numeral)) => {
                if numeral_reads(numeral.as_str()) {
                    Json::Number(JsonNumber::Real(numeral.clone()))
                } else {
                    Json::Null
                }
            },
            Json::Text(text) => Json::Text(text.clone()),
            Json::List(items) => {
                let mut copies: Vec<Json> = Vec::new();
                let mut i: usize = 0;
                while i < items.len()
                    invariant
                        i <= items.len(),
                        *self == Json::List(*items),
                        copies.len() == i,
                        forall|j: int| 0 <= j < i ==> (#[trigger] copies[j])@ == written(items[j]@),
                    decreases items.len() - i,
                {
                    proof {
                        vstd::std_specs::vec::axiom_vec_index_decreases(*items, i as int);
                        assert(self->List_0 == *items);
                    }
                    copies.push(items[i].to_written());
                    i += 1;
                }
                let json = Json::List(copies);
                proof {
                    lemma_view_unfolds(json);
                    assert(json@->List_0 =~= written(self@)->List_0);
                }
                json
            },
            Json::Object(members) => {
                let mut copies: Vec<(String, Json)> = Vec::new();
                let mut i: usize = 0;
                while i < members.len()
                    invariant
                        i <= members.len(),
                        *self == Json::Object(*members),
                        copies.len() == i,
                        forall|j: int|
                            0 <= j < i ==> (#[trigger] copies[j]).0@ == members[j].0@
                                && copies[j].1@ == written(members[j].1@),
                    decreases members.len() - i,
                {
                    proof {
                        vstd::std_specs::vec::axiom_vec_index_decreases(*members, i as int);
                        assert(self->Object_0 == *members);
                    }
                    copies.push((members[i].0.clone(), members[i].1.to_written()));
                    i += 1;
                }
                let json = Json::Object(copies);
                proof {
                    lemma_view_unfolds(json);
                    assert(json@->Object_0 =~= written(self@)->Object_0);
                }
                json
            },
        }
    }
}

/// The compact JSON text of a document.
pub fn render(json: &Json) -> (text: String)
    ensures
        text@ == rendered(json@),
{
    let value = value_from(&json.to_written());
    write_value(&value)
}

/// The value of the member of `members` whose key is `key`: of two members
/// with one key the later counts, as it does in the text that is written.
pub open spec fn member(members: Seq<(Seq<char>, JsonView)>, key: Seq<char>) -> Option<JsonView>
    decreases members.len(),
{
    if members.len() == 0 {
        None
    } else if members.last().0 == key {
        Some(members.last().1)
    } else {
        member(members.drop_last(), key)
    }
}

/// The member `key` of a document, where the document is an object that
/// has one.
pub open spec fn field(document: JsonView, key: Seq<char>) -> Option<JsonView> {
    match document {
        JsonView::Object(members) => member(members, key),
        _ => None,
    }
}

/// The text that the member `key` of a document holds, where it holds one.
pub open spec fn text_at(document: JsonView, key: Seq<char>) -> Option<Seq<char>> {
    match field(document, key) {
        Some(JsonView::Text(text)) => Some(text),
        _ => None,
    }
}

/// The whole number, not below zero, that the member `key` of a document
/// holds, where it holds one.
pub open spec fn unsigned_at(document: JsonView, key: Seq<char>) -> Option<u64> {
    match field(document, key) {
        Some(JsonView::Number(NumberView::Unsigned(n))) => Some(n),
        _ => None,
    }
}

/// The numeral that stands for a number: that of a whole number in decimal,
/// with a minus sign below zero, and the numeral itself of any other.
pub open spec fn numeral_of(number: NumberView) -> Seq<char> {
    match number {
        NumberView::Unsigned(n) => decimal(n as nat),
        NumberView::Signed(n) => if n < 0 {
            seq!['-'] + decimal((-n) as nat)
        } else {
            decimal(n as nat)
        },
        NumberView::Real(numeral) => numeral,
    }
}

/// The whole numbers of a list of such; `None` where the document is no
/// list, or holds anything else.
pub open spec fn unsigned_list(document: JsonView) -> Option<Seq<u64>> {
    match document {
        JsonView::List(items) => if forall|i: int|
            0 <= i < items.len() ==> #[trigger] items[i] is Number && items[i]->Number_0
                is Unsigned {
            Some(Seq::new(items.len(), |i: int| items[i]->Number_0->Unsigned_0))
        } else {
            None
        },
        _ => None,
    }
}

/// The numerals of a list of numbers; `None` where the document is no list,
/// or holds anything else.
pub open spec fn numeral_list(document: JsonView) -> Option<Seq<Seq<char>>> {
    match document {
        JsonView::List(items) => if forall|i: int|
            0 <= i < items.len() ==> #[trigger] items[i] is Number {
            Some(Seq::new(items.len(), |i: int| numeral_of(items[i]->Number_0)))
        } else {
            None
        },
        _ => None,
    }
}

/// The views of a list of texts.
pub open spec fn texts_view(texts: Vec<String>) -> Seq<Seq<char>> {
    texts@.map_values(|text: String| text@)
}

impl JsonNumber {
    /// The numeral that stands for the number.
    pub fn numeral(&self) -> (numeral: String)
        ensures
            numeral@ == numeral_of(self@),
    {
        match self {
            JsonNumber::Unsigned(n) => {
                let mut text = String::new();
                push_decimal(&mut text, *n);
                assert(text@ =~= decimal(*n as nat));
                text
            },
            JsonNumber::Signed(n) => {
                let mut text = String::new();
                if *n < 0 {
                    proof {
                        reveal_strlit("-");
                    }
                    text.append("-");
                    let size: u64 = ((-(*n + 1)) as u64) + 1;
                    push_decimal(&mut text, size);
                    assert(text@ =~= seq!['-'] + decimal((-*n) as nat));
                } else {
                    push_decimal(&mut text, *n as u64);
                    assert(text@ =~= decimal(*n as nat));
                }
                text
            },
            JsonNumber::Real(numeral) => numeral.clone(),
        }
    }
}

impl Json {
    /// The member `key` of the document, where it is an object that has
    /// one.
    pub fn get(&self, key: &str) -> (found: Option<&Json>)
        ensures
            match found {
                Some(json) => field(self@, key@) == Some(json@),
                None => field(self@, key@) is None,
            },
    {
        match self {
            Json::Object(members) => {
                let wanted = key.to_owned();
                let ghost all = self@->Object_0;
                proof {
                    lemma_view_unfolds(*self);
                }
                let mut i: usize = members.len();
                assert(all.take(i as int) =~= all);
                while i > 0
                    invariant
                        i <= members.len(),
                        wanted@ == key@,
                        self@ == JsonView::Object(all),
                        all.len() == members.len(),
                        forall|j: int|
                            0 <= j < members.len() ==> #[trigger] all[j] == (
                                members[j].0@,
                                members[j].1@,
                            ),
                        member(all, key@) == member(all.take(i as int), key@),
                    decreases i,
                {
                    let ghost rest = all.take(i as int);
                    i -= 1;
                    assert(rest.last() == all[i as int]);
                    assert(rest.drop_last() =~= all.take(i as int));
                    if members[i].0 == wanted {
                        return Some(&members[i].1);
                    }
                }
                assert(all.take(0).len() == 0);
                None
            },
            _ => None,
        }
    }

    /// The text that the member `key` holds, where it holds one.
    pub fn get_text(&self, key: &str) -> (found: Option<String>)
        ensures
            match found {
                Some(text) => text_at(self@, key@) == Some(text@),
                None => text_at(self@, key@) is None,
            },
    {
        match self.get(key) {
            Some(Json::Text(text)) => Some(text.clone()),
            _ => None,
        }
    }

    /// The whole number, not below zero, that the member `key` holds, where
    /// it holds one.
    pub fn get_unsigned(&self, key: &str) -> (found: Option<u64>)
        ensures
            found == unsigned_at(self@, key@),
    {
        match self.get(key) {
            Some(Json::Number(JsonNumber::Unsigned(n))) => Some(*n),
            _ => None,
        }
    }

    /// The whole numbers of a list of such.
    pub fn to_unsigned_list(&self) -> (found: Option<Vec<u64>>)
        ensures
            match found {
                Some(numbers) => unsigned_list(self@) == Some(numbers@),
                None => unsigned_list(self@) is None,
            },
    {
        match self {
            Json::List(items) => {
                let ghost all = self@->List_0;
                proof {
                    lemma_view_unfolds(*self);
                }
                let mut numbers: Vec<u64> = Vec::new();
                let mut i: usize = 0;
                while i < items.len()
                    invariant
                        i <= items.len(),
                        self@ == JsonView::List(all),
                        all.len() == items.len(),
                        forall|j: int| 0 <= j < items.len() ==> #[trigger] all[j] == items[j]@,
                        numbers.len() == i,
                        forall|j: int|
                            0 <= j < i ==> #[trigger] all[j] == JsonView::Number(
                                NumberView::Unsigned(numbers[j]),
                            ),
                    decreases items.len() - i,
                {
                    match &items[i] {
                        Json::Number(JsonNumber::Unsigned(n)) => {
                            numbers.push(*n);
                        },
                        _ => {
                            assert(!(all[i as int] is Number && all[i as int]->Number_0
                                is Unsigned));
                            return None;
                        },
                    }
                    i += 1;
                }
                assert(unsigned_list(self@)->Some_0 =~= numbers@);
                Some(numbers)
            },
            _ => None,
        }
    }

    /// The numerals of a list of numbers.
    pub fn to_numeral_list(&self) -> (found: Option<Vec<String>>)
        ensures
            match found {
                Some(numerals) => numeral_list(self@) == Some(texts_view(numerals)),
                None => numeral_list(self@) is None,
            },
    {
        match self {
            Json::List(items) => {
                let ghost all = self@->List_0;
                proof {
                    lemma_view_unfolds(*self);
                }
                let mut numerals: Vec<String> = Vec::new();
                let mut i: usize = 0;
                while i < items.len()
                    invariant
                        i <= items.len(),
                        self@ == JsonView::List(all),
                        all.len() == items.len(),
                        forall|j: int| 0 <= j < items.len() ==> #[trigger] all[j] == items[j]@,
                        numerals.len() == i,
                        forall|j: int|
                            0 <= j < i ==> #[trigger] all[j] is Number && numerals[j]@
                                == numeral_of(all[j]->Number_0),
                    decreases items.len() - i,
                {
                    match &items[i] {
                        Json::Number(number) => {
                            numerals.push(number.numeral());
                        },
                        _ => {
                            assert(!(all[i as int] is Number));
                            return None;
                        },
                    }
                    i += 1;
                }
                assert(numeral_list(self@)->Some_0 =~= texts_view(numerals));
                Some(numerals)
            },
            _ => None,
        }
    }

    /// The list of the whole numbers of `numbers`.
    pub fn from_unsigned_list(numbers: &Vec<u64>) -> (json: Json)
        ensures
            json@ == JsonView::List(
                Seq::new(
                    numbers.len() as nat,
                    |i: int| JsonView::Number(NumberView::Unsigned(numbers[i])),
                ),
            ),
    {
        let mut items: Vec<Json> = Vec::new();
        let mut i: usize = 0;
        while i < numbers.len()
            invariant
                i <= numbers.len(),
                items.len() == i,
                forall|j: int|
                    0 <= j < i ==> (#[trigger] items[j])@ == JsonView::Number(
                        NumberView::Unsigned(numbers[j]),
                    ),
            decreases numbers.len() - i,
        {
            items.push(Json::Number(JsonNumber::Unsigned(numbers[i])));
            i += 1;
        }
        let json = Json::List(items);
        assert(json@->List_0 =~= Seq::new(
            numbers.len() as nat,
            |i: int| JsonView::Number(NumberView::Unsigned(numbers[i])),
        ));
        json
    }

    /// The list of the numbers that the numerals of `numerals` stand for.
    pub fn from_numeral_list(numerals: &Vec<String>) -> (json: Json)
        ensures
            json@ == JsonView::List(
                Seq::new(
                    numerals.len() as nat,
                    |i: int| JsonView::Number(NumberView::Real(numerals[i]@)),
                ),
            ),
    {
        let mut items: Vec<Json> = Vec::new();
        let mut i: usize = 0;
        while i < numerals.len()
            invariant
                i <= numerals.len(),
                items.len() == i,
                forall|j: int|
                    0 <= j < i ==> (#[trigger] items[j])@ == JsonView::Number(
                        NumberView::Real(numerals[j]@),
                    ),
            decreases numerals.len() - i,
        {
            items.push(Json::Number(JsonNumber::Real(numerals[i].clone())));
            i += 1;
        }
        let json = Json::List(items);
        assert(json@->List_0 =~= Seq::new(
            numerals.len() as nat,
            |i: int| JsonView::Number(NumberView::Real(numerals[i]@)),
        ));
        json
    }
}

/// Whether `text` reads `literal`.
pub fn text_is(text: &String, literal: &str) -> (same: bool)
    ensures
        same == (text@ == literal@),
{
    let wanted = literal.to_owned();
    *text == wanted
}

} // verus!
