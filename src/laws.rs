use vstd::prelude::*;

use crate::json::{all_ws, field, is_ws, lemma_lookup_at, lookup, members_map, names_unique, Json};
use crate::rpc::{RPCErrorKind, ReadFailure};
use crate::transport::{is_request, is_str, read_failure_kind, request_method, request_param};

verus! {

proof fn lemma_request_fields(r: Json, method: Seq<char>, params: Seq<(String, Json)>, id: Seq<char>)
    requires
        is_request(r, method, params, id),
    ensures
        field(r, "jsonrpc"@) is Some && is_str(field(r, "jsonrpc"@)->0, "2.0"@),
        field(r, "method"@) is Some && is_str(field(r, "method"@)->0, method),
        match field(r, "params"@) {
            Some(Json::Object(ps)) => ps@ == params,
            _ => false,
        },
        field(r, "id"@) is Some && is_str(field(r, "id"@)->0, id),
{
    reveal_strlit("jsonrpc");
    reveal_strlit("method");
    reveal_strlit("params");
    reveal_strlit("id");
    assert("method"@[0] != "params"@[0]);
    assert("jsonrpc"@.len() != "method"@.len() && "jsonrpc"@.len() != "id"@.len());
    assert("method"@.len() != "id"@.len() && "params"@.len() != "id"@.len());
    let ms = match r {
        Json::Object(ms) => ms@,
        _ => Seq::empty(),
    };
    assert(ms[0].0@ != "method"@ && ms[0].0@ != "params"@ && ms[0].0@ != "id"@);
    assert(ms[1].0@ != "params"@ && ms[1].0@ != "id"@);
    assert(ms[2].0@ != "id"@);
    lemma_lookup_at(ms, "jsonrpc"@, 0);
    lemma_lookup_at(ms, "method"@, 1);
    lemma_lookup_at(ms, "params"@, 2);
    lemma_lookup_at(ms, "id"@, 3);
}

/// The request of a call, as written on the wire, has `jsonrpc` set to
/// `"2.0"`, `method` set to the method's name, `params` set to an object that
/// maps each parameter name to its value, names unique, and `id` set to the
/// call's id.
pub proof fn lemma_request_on_wire(
    r: Json,
    method: Seq<char>,
    params: Seq<(String, Json)>,
    id: Seq<char>,
)
    requires
        is_request(r, method, params, id),
        names_unique(params),
    ensures
        field(r, "jsonrpc"@) is Some && is_str(field(r, "jsonrpc"@)->0, "2.0"@),
        field(r, "method"@) is Some && is_str(field(r, "method"@)->0, method),
        match field(r, "params"@) {
            Some(Json::Object(ps)) => members_map(ps@) == members_map(params) && names_unique(ps@),
            _ => false,
        },
        field(r, "id"@) is Some && is_str(field(r, "id"@)->0, id),
{
    lemma_request_fields(r, method, params, id);
}

/// A server handed the request of a call finds the method's name, and for
/// every name finds exactly the parameter that the client added under it.
pub proof fn lemma_request_received(
    r: Json,
    method: Seq<char>,
    params: Seq<(String, Json)>,
    id: Seq<char>,
)
    requires
        is_request(r, method, params, id),
    ensures
        request_method(r) == Some(method),
        forall|name: Seq<char>| #[trigger] request_param(r, name) == lookup(params, name),
        forall|name: Seq<char>|
            #[trigger] request_param(r, name) == (if members_map(params).contains_key(name) {
                Some(members_map(params)[name])
            } else {
                None
            }),
{
    lemma_request_fields(r, method, params, id);
}

/// Adding two parameters of different names leaves the same parameter map in
/// either order, so the parameters on the wire do not depend on the order in
/// which they were added.
pub proof fn lemma_param_order_irrelevant(
    params: Map<Seq<char>, Json>,
    a: Seq<char>,
    va: Json,
    b: Seq<char>,
    vb: Json,
)
    requires
        a != b,
    ensures
        params.insert(a, va).insert(b, vb) == params.insert(b, vb).insert(a, va),
{
    assert(params.insert(a, va).insert(b, vb) =~= params.insert(b, vb).insert(a, va));
}

/// A call without parameters sends `params` as the empty object.
pub proof fn lemma_no_params_on_wire(r: Json, method: Seq<char>, id: Seq<char>)
    requires
        is_request(r, method, Seq::empty(), id),
    ensures
        match field(r, "params"@) {
            Some(Json::Object(ps)) => ps@.len() == 0,
            _ => false,
        },
        forall|name: Seq<char>| #[trigger] request_param(r, name) is None,
{
    lemma_request_fields(r, method, Seq::empty(), id);
}

/// A read that ends before any byte is the end of the conversation; one that
/// ends, or fails in any other way, after a token of a value has started is a
/// serialization error.
pub proof fn lemma_eof_discrimination(kind: ReadFailure, consumed: Seq<u8>)
    ensures
        read_failure_kind(ReadFailure::Eof, Seq::empty()) == RPCErrorKind::TransportEOF,
        (exists|i: int| 0 <= i < consumed.len() && !is_ws(#[trigger] consumed[i]))
            ==> read_failure_kind(kind, consumed) == RPCErrorKind::SerializationError,
{
    assert(all_ws(Seq::<u8>::empty()));
}

} // verus!
