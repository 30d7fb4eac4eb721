//! Requests and replies as plain values. The library decides what is sent and
//! reads what came back; sending is the caller's part.

use vstd::prelude::*;

verus! {

/// How a request is sent: a plain GET, a POST with a form-encoded body, or a
/// POST with a JSON object as its body.
#[derive(Clone, Copy, Debug, PartialEq, Eq, Structural)]
pub enum Method {
    Get,
    PostForm,
    PostJson,
}

/// The value of one query parameter, form field or JSON member.
#[derive(Clone, Debug, PartialEq, Eq)]
pub enum Field {
    Text(String),
    Number(u64),
    Numbers(Vec<u64>),
}

/// The model of a [`Field`].
pub enum FieldModel {
    Text(Seq<char>),
    Number(u64),
    Numbers(Seq<u64>),
}

impl View for Field {
    type V = FieldModel;

    open spec fn view(&self) -> FieldModel {
        match *self {
            Field::Text(text) => FieldModel::Text(text@),
            Field::Number(n) => FieldModel::Number(n),
            Field::Numbers(ns) => FieldModel::Numbers(ns@),
        }
    }
}

/// A named value.
#[derive(Clone, Debug, PartialEq, Eq)]
pub struct Pair {
    pub name: &'static str,
    pub value: Field,
}

/// The model of a [`Pair`].
pub struct PairModel {
    pub name: Seq<char>,
    pub value: FieldModel,
}

impl View for Pair {
    type V = PairModel;

    open spec fn view(&self) -> PairModel {
        PairModel { name: self.name@, value: self.value@ }
    }
}

/// The models of a run of pairs, in order.
pub open spec fn pair_models(pairs: Seq<Pair>) -> Seq<PairModel> {
    Seq::new(pairs.len(), |i: int| pairs[i]@)
}

/// A pair that carries a number.
pub open spec fn number(name: Seq<char>, n: u64) -> PairModel {
    PairModel { name, value: FieldModel::Number(n) }
}

/// A pair that carries a text.
pub open spec fn text(name: Seq<char>, value: Seq<char>) -> PairModel {
    PairModel { name, value: FieldModel::Text(value) }
}

/// A pair that carries a list of numbers.
pub open spec fn numbers(name: Seq<char>, ns: Seq<u64>) -> PairModel {
    PairModel { name, value: FieldModel::Numbers(ns) }
}

/// One HTTP request: where it goes, the parameters of its query string and the
/// members of its body, each list in the order in which it is to be written.
#[derive(Clone, Debug, PartialEq, Eq)]
pub struct Request {
    pub method: Method,
    pub url: &'static str,
    pub query: Vec<Pair>,
    pub body: Vec<Pair>,
}

/// The model of a [`Request`].
pub struct RequestModel {
    pub method: Method,
    pub url: Seq<char>,
    pub query: Seq<PairModel>,
    pub body: Seq<PairModel>,
}

impl View for Request {
    type V = RequestModel;

    open spec fn view(&self) -> RequestModel {
        RequestModel {
            method: self.method,
            url: self.url@,
            query: pair_models(self.query@),
            body: pair_models(self.body@),
        }
    }
}

/// What came back for a request: the body of a successful response, or the
/// description of a failure below the level of the body (no connection, a
/// status that is not a success).
#[derive(Clone, Debug, PartialEq, Eq)]
pub enum Reply {
    Body(String),
    Failed(String),
}

/// Adds a number to a list of pairs.
pub fn push_number(pairs: &mut Vec<Pair>, name: &'static str, n: u64)
    ensures
        pair_models(final(pairs)@) == pair_models(old(pairs)@).push(number(name@, n)),
{
    pairs.push(Pair { name, value: Field::Number(n) });
    assert(pair_models(pairs@) =~= pair_models(old(pairs)@).push(number(name@, n)));
}

/// Adds a text to a list of pairs.
pub fn push_text(pairs: &mut Vec<Pair>, name: &'static str, value: &str)
    ensures
        pair_models(final(pairs)@) == pair_models(old(pairs)@).push(text(name@, value@)),
{
    pairs.push(Pair { name, value: Field::Text(value.to_owned()) });
    assert(pair_models(pairs@) =~= pair_models(old(pairs)@).push(text(name@, value@)));
}

/// Adds a list of numbers to a list of pairs.
pub fn push_numbers(pairs: &mut Vec<Pair>, name: &'static str, ns: Vec<u64>)
    ensures
        pair_models(final(pairs)@) == pair_models(old(pairs)@).push(numbers(name@, ns@)),
{
    pairs.push(Pair { name, value: Field::Numbers(ns) });
    assert(pair_models(pairs@) =~= pair_models(old(pairs)@).push(numbers(name@, ns@)));
}

} // verus!
