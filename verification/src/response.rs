//! Response normalizer: one consistent result shape per operation.
//!
//! An operation hands the raw status and body text to one of these
//! functions. A success status decodes the body; a failure status becomes a
//! typed error carrying the status and the server's message. On top of that
//! sit the endpoint quirks: a contents lookup may answer with one entry or a
//! list of them and always yields a list here; search endpoints wrap their
//! results in an `{ok, data}` envelope of which only `data` survives;
//! membership probes answer with a status alone; and one family of
//! operations reports not-found as an absent result rather than a failure.

use vstd::prelude::*;
use vstd::pervasive::VecAdditionalExecFns;

use crate::client::Error;
use crate::fields::{jget, lemma_fm_index, lemma_fm_index_front};
use crate::json::{
    jview, jviews, jview_pairs, lemma_jviews, lemma_jview_pairs, parse_text, Json, JsonVal,
};
use crate::model::{entry_of, list_of, str_field, Entry, EntryV, FromJsonVal};

verus! {

/// The success range of HTTP statuses.
pub open spec fn is_success(status: u16) -> bool {
    200 <= status < 300
}

/// Whether `status` reports success.
pub fn success(status: u16) -> (r: bool)
    ensures
        r == is_success(status),
{
    200 <= status && status < 300
}

/// The server's message inside an error body: its `message` field when the
/// body is an object carrying one, else the body text itself.
pub open spec fn api_message(body: Seq<char>) -> Seq<char> {
    match parse_text(body) {
        Some(v) => match str_field(v, "message"@) {
            Some(m) => m,
            None => body,
        },
        None => body,
    }
}

/// The error for a failure status: the status and the server's message.
pub fn api_error(status: u16, body: &str) -> (r: Error)
    ensures
        (r matches Error::Api { status: st, message: m } && st == status && m@ == api_message(
            body@,
        )),
{
    match Json::parse(body) {
        Some(v) => match crate::model::get_str(&v, "message") {
            Some(m) => Error::Api { status, message: m },
            None => Error::Api { status, message: body.to_owned() },
        },
        None => Error::Api { status, message: body.to_owned() },
    }
}

/// Decodes a response per the transport contract: a success status parses
/// the body as JSON, failing with a decode error when it is not JSON; any
/// other status becomes an API error carrying the server's message.
pub fn decode_json(status: u16, body: &str) -> (r: Result<Json, Error>)
    ensures
        is_success(status) ==> (match r {
            Ok(v) => parse_text(body@) == Some(jview(v)),
            Err(e) => parse_text(body@) is None && e == (Error::Decode { status }),
        }),
        !is_success(status) ==> (match r {
            Err(e) => (e matches Error::Api { status: st, message: m } && st == status && m@
                == api_message(body@)),
            Ok(_) => false,
        }),
{
    if success(status) {
        match Json::parse(body) {
            Some(v) => Ok(v),
            None => Err(Error::Decode { status }),
        }
    } else {
        Err(api_error(status, body))
    }
}

/// Interprets a response that carries no payload: success is the unit
/// result, anything else is the API error.
pub fn expect_empty(status: u16, body: &str) -> (r: Result<(), Error>)
    ensures
        is_success(status) ==> r is Ok,
        !is_success(status) ==> (match r {
            Err(e) => (e matches Error::Api { status: st, message: m } && st == status && m@
                == api_message(body@)),
            Ok(_) => false,
        }),
{
    if success(status) {
        Ok(())
    } else {
        Err(api_error(status, body))
    }
}

/// Interprets a membership probe: a success status means yes, not-found
/// means no, and every other status is a genuine error, never a no.
pub fn bool_probe(status: u16, body: &str) -> (r: Result<bool, Error>)
    ensures
        is_success(status) ==> r == Ok::<bool, Error>(true),
        status == 404 ==> r == Ok::<bool, Error>(false),
        !is_success(status) && status != 404 ==> (match r {
            Err(e) => (e matches Error::Api { status: st, message: m } && st == status && m@
                == api_message(body@)),
            Ok(_) => false,
        }),
{
    if success(status) {
        Ok(true)
    } else if status == 404 {
        Ok(false)
    } else {
        Err(api_error(status, body))
    }
}

/// Turns not-found into an absent result: an operation that can come back
/// empty-handed reports nothing-there instead of a failure, and every other
/// outcome passes through unchanged.
pub fn absent_on_not_found<T>(r: Result<T, Error>) -> (q: Result<Option<T>, Error>)
    ensures
        (match r {
            Ok(t) => q == Ok::<Option<T>, Error>(Some(t)),
            Err(e) => if e matches Error::Api { status: 404u16, .. } {
                q == Ok::<Option<T>, Error>(None::<T>)
            } else {
                q == Err::<Option<T>, Error>(e)
            },
        }),
{
    match r {
        Ok(t) => Ok(Some(t)),
        Err(e) => match e {
            Error::Api { status: 404u16, message: _ } => Ok(None),
            other => Err(other),
        },
    }
}

/// Single-or-list coercion for a contents lookup: a JSON array yields its
/// entries in order, and a single bare object yields the one-element list
/// holding it. The list reading always comes first; a bare object is never
/// mistaken for a list.
pub open spec fn entries_of(v: JsonVal) -> Option<Seq<EntryV>> {
    match v {
        JsonVal::Arr(items) => crate::model::list_of::<Entry>(items),
        _ => match entry_of(v) {
            Some(e) => Some(seq![e]),
            None => None,
        },
    }
}

/// Normalizes a contents body to a list of entries, per [`entries_of`].
pub fn normalize_entries(v: &Json) -> (r: Option<Vec<Entry>>)
    ensures
        (match r {
            Some(es) => entries_of(jview(*v)) == Some(es.deep_view()),
            None => entries_of(jview(*v)) is None,
        }),
{
    match v {
        Json::Arr(items) => crate::model::decode_list::<Entry>(items),
        _ => match Entry::from_json(v) {
            Some(e) => {
                let mut one: Vec<Entry> = Vec::new();
                one.push(e);
                proof {
                    assert(one.deep_view() =~= seq![e@]);
                }
                Some(one)
            },
            None => None,
        },
    }
}

/// The data of a search envelope `{ok, data}`: the `data` array, with the
/// `ok` flag checked for shape and then discarded. Anything else is not an
/// envelope.
pub open spec fn envelope_data(v: JsonVal) -> Option<Seq<JsonVal>> {
    match jget(v, "ok"@) {
        Some(JsonVal::Bool(_)) => match jget(v, "data"@) {
            Some(JsonVal::Arr(items)) => Some(items),
            _ => None,
        },
        _ => None,
    }
}

/// Takes the `data` array out of a search envelope, per [`envelope_data`].
#[verifier::loop_isolation(false)]
pub fn envelope_items(v: Json) -> (r: Option<Vec<Json>>)
    ensures
        (match r {
            Some(items) => envelope_data(jview(v)) == Some(jviews(items@)),
            None => envelope_data(jview(v)) is None,
        }),
{
    let okflag = crate::model::get_field(&v, "ok");
    match okflag {
        Some(f) => match f {
            Json::Bool(_) => {},
            _ => {
                return None;
            },
        },
        None => {
            return None;
        },
    }
    match v {
        Json::Obj(mut items) => {
            proof {
                assert(jview(v) == JsonVal::Obj(jview_pairs(items@)));
                lemma_jview_pairs(items@);
            }
            let ghost gv = jview(v);
            let ghost items0 = items@;
            let n = items.len();
            let mut i: usize = 0;
            while i < n
                invariant
                    i <= n,
                    items@ == items0,
                    n == items@.len(),
                    gv == JsonVal::Obj(jview_pairs(items@)),
                    forall|j: int| 0 <= j < i ==> #[trigger] jview_pairs(items@)[j].0 != "data"@,
                decreases n - i,
            {
                proof {
                    lemma_jview_pairs(items@);
                }
                if crate::fields::str_eq(items[i].0.as_str(), "data") {
                    let ghost olditems = items@;
                    proof {
                        lemma_fm_index_front(jview_pairs(olditems), "data"@, i as int);
                        assert(jget(gv, "data"@) == Some(jview_pairs(olditems)[i as int].1));
                        assert(jview_pairs(olditems)[i as int].1 == jview(olditems[i as int].1));
                    }
                    let pair = items.remove(i);
                    proof {
                        assert(pair == olditems[i as int]);
                    }
                    match pair.1 {
                        Json::Arr(elems) => {
                            return Some(elems);
                        },
                        _ => {
                            return None;
                        },
                    }
                }
                i = i + 1;
            }
            proof {
                lemma_fm_index(jview_pairs(items@), "data"@);
            }
            None
        },
        _ => None,
    }
}

/// What a body holding one record decodes to.
pub open spec fn record_of<T: FromJsonVal>(body: Seq<char>) -> Option<T::V> {
    match parse_text(body) {
        Some(v) => T::of_json(v),
        None => None,
    }
}

/// Interprets a response that carries one record: a success status must
/// parse and decode, a failure status is the API error.
pub fn interpret_record<T: FromJsonVal>(status: u16, body: &str) -> (r: Result<T, Error>)
    ensures
        is_success(status) ==> (match r {
            Ok(m) => record_of::<T>(body@) == Some(m.deep_view()),
            Err(e) => record_of::<T>(body@) is None && e == (Error::Decode { status }),
        }),
        !is_success(status) ==> (match r {
            Err(e) => (e matches Error::Api { status: st, message: m } && st == status && m@
                == api_message(body@)),
            Ok(_) => false,
        }),
{
    match decode_json(status, body) {
        Ok(v) => match T::decode(&v) {
            Some(m) => Ok(m),
            None => Err(Error::Decode { status }),
        },
        Err(e) => Err(e),
    }
}

/// What a body holding a bare array of records decodes to.
pub open spec fn records_of<T: FromJsonVal>(body: Seq<char>) -> Option<Seq<T::V>> {
    match parse_text(body) {
        Some(JsonVal::Arr(items)) => list_of::<T>(items),
        _ => None,
    }
}

/// Interprets a response that carries a bare array of records.
pub fn interpret_list<T: FromJsonVal>(status: u16, body: &str) -> (r: Result<Vec<T>, Error>)
    ensures
        is_success(status) ==> (match r {
            Ok(ms) => records_of::<T>(body@) == Some(ms.deep_view()),
            Err(e) => records_of::<T>(body@) is None && e == (Error::Decode { status }),
        }),
        !is_success(status) ==> (match r {
            Err(e) => (e matches Error::Api { status: st, message: m } && st == status && m@
                == api_message(body@)),
            Ok(_) => false,
        }),
{
    match decode_json(status, body) {
        Ok(v) => match v {
            Json::Arr(items) => match crate::model::decode_list::<T>(&items) {
                Some(ms) => Ok(ms),
                None => Err(Error::Decode { status }),
            },
            _ => Err(Error::Decode { status }),
        },
        Err(e) => Err(e),
    }
}

/// What a body holding an `{ok, data}` envelope of records decodes to: the
/// records of `data`, with `ok` discarded.
pub open spec fn enveloped_records_of<T: FromJsonVal>(body: Seq<char>) -> Option<Seq<T::V>> {
    match parse_text(body) {
        Some(v) => match envelope_data(v) {
            Some(items) => list_of::<T>(items),
            None => None,
        },
        None => None,
    }
}

/// Interprets an enveloped search response: only the records of `data`
/// survive.
pub fn interpret_envelope<T: FromJsonVal>(status: u16, body: &str) -> (r: Result<Vec<T>, Error>)
    ensures
        is_success(status) ==> (match r {
            Ok(ms) => enveloped_records_of::<T>(body@) == Some(ms.deep_view()),
            Err(e) => enveloped_records_of::<T>(body@) is None && e == (Error::Decode { status }),
        }),
        !is_success(status) ==> (match r {
            Err(e) => (e matches Error::Api { status: st, message: m } && st == status && m@
                == api_message(body@)),
            Ok(_) => false,
        }),
{
    match decode_json(status, body) {
        Ok(v) => match envelope_items(v) {
            Some(items) => match crate::model::decode_list::<T>(&items) {
                Some(ms) => Ok(ms),
                None => Err(Error::Decode { status }),
            },
            None => Err(Error::Decode { status }),
        },
        Err(e) => Err(e),
    }
}

/// What a contents body decodes to: a list of entries, whether the server
/// answered with a list or with one bare entry.
pub open spec fn normalized_entries_of(body: Seq<char>) -> Option<Seq<EntryV>> {
    match parse_text(body) {
        Some(v) => entries_of(v),
        None => None,
    }
}

/// Interprets a contents response with the single-or-list coercion.
pub fn interpret_entries(status: u16, body: &str) -> (r: Result<Vec<Entry>, Error>)
    ensures
        is_success(status) ==> (match r {
            Ok(es) => normalized_entries_of(body@) == Some(es.deep_view()),
            Err(e) => normalized_entries_of(body@) is None && e == (Error::Decode { status }),
        }),
        !is_success(status) ==> (match r {
            Err(e) => (e matches Error::Api { status: st, message: m } && st == status && m@
                == api_message(body@)),
            Ok(_) => false,
        }),
{
    match decode_json(status, body) {
        Ok(v) => match normalize_entries(&v) {
            Some(es) => Ok(es),
            None => Err(Error::Decode { status }),
        },
        Err(e) => Err(e),
    }
}

} // verus!
