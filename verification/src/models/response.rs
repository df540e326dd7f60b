//! Reading the broker's create responses: an empty body means a legacy
//! broker without partitions; a JSON body carries the partition list. The
//! JSON probes are trusted singly; what each probe outcome means is settled
//! by exact functions over the probe's plain result.

use vstd::prelude::*;
use crate::json_value::{
    is_json_text, parse_json, value_as_array, value_as_u64, value_get,
};

verus! {

/// A copy of a partition list.
pub fn duplicate_list(list: &Vec<u32>) -> (r: Vec<u32>)
    ensures
        r@ == list@,
{
    let mut r: Vec<u32> = Vec::new();
    let mut i: usize = 0;
    while i < list.len()
        invariant
            i <= list@.len(),
            r@ == list@.take(i as int),
        decreases list@.len() - i,
    {
        r.push(list[i]);
        proof {
            assert(r@ =~= list@.take(i + 1));
        }
        i = i + 1;
    }
    proof {
        assert(list@.take(list@.len() as int) =~= list@);
    }
    r
}

/// What probing a create response's body found.
pub enum CreateResponseShape {
    /// An empty body: a legacy broker, no partitions.
    Empty,
    /// Not JSON.
    NotJson,
    /// JSON without the probed member.
    MissingField,
    /// A `partitions_update` without a usable `partitions_list`.
    BadList,
    /// The partition list, in broker order.
    Partitions(Vec<u32>),
}

/// Reads `partitions_update.partitions_list` out of a parsed response.
fn read_partitions_list(v: &serde_json::Value) -> (r: CreateResponseShape)
    ensures
        !(r is Empty) && !(r is NotJson),
{
    match value_get(v, "partitions_update") {
        Option::None => CreateResponseShape::MissingField,
        Option::Some(update) => match value_get(update, "partitions_list") {
            Option::None => CreateResponseShape::BadList,
            Option::Some(list_value) => match value_as_array(list_value) {
                Option::None => CreateResponseShape::BadList,
                Option::Some(items) => {
                    let mut partitions: Vec<u32> = Vec::new();
                    let mut i: usize = 0;
                    while i < items.len()
                        invariant
                            i <= items@.len(),
                        decreases items@.len() - i,
                    {
                        match value_as_u64(&items[i]) {
                            Option::None => {
                                return CreateResponseShape::BadList;
                            },
                            Option::Some(n) => {
                                if n > u32::MAX as u64 {
                                    return CreateResponseShape::BadList;
                                }
                                partitions.push(n as u32);
                            },
                        }
                        i = i + 1;
                    }
                    CreateResponseShape::Partitions(partitions)
                },
            },
        },
    }
}

/// Probes a create response: empty body, JSON parse, then the partition
/// list. What holds of the outcome is stated for whatever the parser
/// decided.
pub fn probe_create_response(body: &str) -> (r: CreateResponseShape)
    ensures
        (r is Empty) <==> body@.len() == 0,
        body@.len() > 0 ==> ((r is NotJson) <==> !is_json_text(body@)),
{
    if body.unicode_len() == 0 {
        return CreateResponseShape::Empty;
    }
    match parse_json(body) {
        Result::Err(_) => CreateResponseShape::NotJson,
        Result::Ok(v) => read_partitions_list(&v),
    }
}

/// How a producer reads its probed create response: a legacy empty body and
/// a response without a partition list both mean an unpartitioned producer;
/// a body that is not JSON is refused with its text; a malformed list is
/// refused too.
pub open spec fn producer_partitions_outcome(
    shape: CreateResponseShape,
    body: Seq<char>,
) -> Result<Option<Seq<u32>>, Seq<char>> {
    match shape {
        CreateResponseShape::Empty => Result::Ok(Option::None),
        CreateResponseShape::NotJson => Result::Err(body),
        CreateResponseShape::MissingField => Result::Ok(Option::None),
        CreateResponseShape::BadList => Result::Err(body),
        CreateResponseShape::Partitions(list) => Result::Ok(Option::Some(list@)),
    }
}

/// How a consumer reads its probed create response: only a legacy empty
/// body may omit the partition list; any other body must carry one.
pub open spec fn consumer_partitions_outcome(
    shape: CreateResponseShape,
    body: Seq<char>,
) -> Result<Option<Seq<u32>>, Seq<char>> {
    match shape {
        CreateResponseShape::Empty => Result::Ok(Option::None),
        CreateResponseShape::NotJson => Result::Err(body),
        CreateResponseShape::MissingField => Result::Err(body),
        CreateResponseShape::BadList => Result::Err(body),
        CreateResponseShape::Partitions(list) => Result::Ok(Option::Some(list@)),
    }
}

/// Applies `producer_partitions_outcome`, carrying the offending body text
/// on refusal.
pub fn producer_partitions(shape: CreateResponseShape, body: &str) -> (r: Result<
    Option<Vec<u32>>,
    String,
>)
    ensures
        (match r {
            Result::Ok(Option::None) => Result::Ok(Option::<Seq<u32>>::None),
            Result::Ok(Option::Some(v)) => Result::Ok(Option::Some(v@)),
            Result::Err(t) => Result::Err(t@),
        }) == producer_partitions_outcome(shape, body@),
{
    match shape {
        CreateResponseShape::Empty => Result::Ok(Option::None),
        CreateResponseShape::NotJson => Result::Err(body.to_owned()),
        CreateResponseShape::MissingField => Result::Ok(Option::None),
        CreateResponseShape::BadList => Result::Err(body.to_owned()),
        CreateResponseShape::Partitions(list) => Result::Ok(Option::Some(list)),
    }
}

/// Applies `consumer_partitions_outcome`, carrying the offending body text
/// on refusal.
pub fn consumer_partitions(shape: CreateResponseShape, body: &str) -> (r: Result<
    Option<Vec<u32>>,
    String,
>)
    ensures
        (match r {
            Result::Ok(Option::None) => Result::Ok(Option::<Seq<u32>>::None),
            Result::Ok(Option::Some(v)) => Result::Ok(Option::Some(v@)),
            Result::Err(t) => Result::Err(t@),
        }) == consumer_partitions_outcome(shape, body@),
{
    match shape {
        CreateResponseShape::Empty => Result::Ok(Option::None),
        CreateResponseShape::NotJson => Result::Err(body.to_owned()),
        CreateResponseShape::MissingField => Result::Err(body.to_owned()),
        CreateResponseShape::BadList => Result::Err(body.to_owned()),
        CreateResponseShape::Partitions(list) => Result::Ok(Option::Some(list)),
    }
}

} // verus!
