use vstd::prelude::*;
use vstd::string::StringExecFns;

use crate::bindings::{category_of, failure_category, failure_text, fresh_uuid};
use crate::json::{
    field, lemma_lookup_absent, lemma_lookup_at, lookup, members_map, names_unique,
    position, Json, all_ws, only_whitespace,
};
use crate::rpc::{
    codec_msg, convert_error, eof_msg, MethodId, PartialMethodId, RPCError, RPCErrorKind,
    ReadFailure,
};

verus! {

/// A call being built by a client: the method name and the parameters added
/// so far, each name once.
#[derive(Debug)]
pub struct JTXState {
    method: &'static str,
    params: Vec<(String, Json)>,
}

/// A request received by a server, kept whole so that its parameters can be
/// read on demand.
#[derive(Debug)]
pub struct JRXState {
    json: Json,
}

impl JTXState {
    /// The name of the method being called.
    pub closed spec fn method_name(&self) -> Seq<char> {
        self.method@
    }

    /// The parameters added so far, in the order they were first added.
    pub closed spec fn param_members(&self) -> Seq<(String, Json)> {
        self.params@
    }

    /// The parameters as a map from name to encoded value.
    pub open spec fn param_map(&self) -> Map<Seq<char>, Json> {
        members_map(self.param_members())
    }

    /// No parameter name occurs twice.
    pub open spec fn wf(&self) -> bool {
        names_unique(self.param_members())
    }
}

impl View for JRXState {
    type V = Json;

    closed spec fn view(&self) -> Json {
        self.json
    }
}

/// Whether `c` is a digit or one of the letters `a` to `f`.
pub open spec fn is_lower_hex(c: char) -> bool {
    ('0' <= c && c <= '9') || ('a' <= c && c <= 'f')
}

/// The canonical text of a version 4 UUID: 36 characters, hyphens after the
/// 8th, 12th, 16th and 20th hex digit, lowercase hex digits elsewhere, and
/// the version digit `4` first in the third group.
pub open spec fn is_uuid_v4_text(s: Seq<char>) -> bool {
    &&& s.len() == 36
    &&& forall|i: int|
        0 <= i < 36 ==> if i == 8 || i == 13 || i == 18 || i == 23 {
            s[i] == '-'
        } else {
            is_lower_hex(#[trigger] s[i])
        }
    &&& s[14] == '4'
}

/// Whether `v` is the string `s`.
pub open spec fn is_str(v: Json, s: Seq<char>) -> bool {
    match v {
        Json::Str(t) => t@ == s,
        _ => false,
    }
}

/// Whether `r` is the request object for a call of `method` with the members
/// `params` and the id `id`, with its members in the order `jsonrpc`,
/// `method`, `params`, `id`.
pub open spec fn is_request(
    r: Json,
    method: Seq<char>,
    params: Seq<(String, Json)>,
    id: Seq<char>,
) -> bool {
    match r {
        Json::Object(ms) => {
            &&& ms@.len() == 4
            &&& ms@[0].0@ == "jsonrpc"@ && is_str(ms@[0].1, "2.0"@)
            &&& ms@[1].0@ == "method"@ && is_str(ms@[1].1, method)
            &&& ms@[2].0@ == "params"@ && match ms@[2].1 {
                Json::Object(ps) => ps@ == params,
                _ => false,
            }
            &&& ms@[3].0@ == "id"@ && is_str(ms@[3].1, id)
        },
        _ => false,
    }
}

/// The method named by a received request: its `method` member, where that
/// is a string.
pub open spec fn request_method(v: Json) -> Option<Seq<char>> {
    match field(v, "method"@) {
        Some(Json::Str(s)) => Some(s@),
        _ => None,
    }
}

/// The parameter `name` of a received request: the member `name` of its
/// `params` member.
pub open spec fn request_param(v: Json, name: Seq<char>) -> Option<Json> {
    match field(v, "params"@) {
        Some(p) => field(p, name),
        None => None,
    }
}

/// Whether `r` is a serialization error with the message `msg` and no cause.
pub open spec fn fails_plainly<T>(r: Result<T, RPCError>, msg: Seq<char>) -> bool {
    match r {
        Err(e) => e.kind == RPCErrorKind::SerializationError && e.msg@ == msg && e.cause is None,
        Ok(_) => false,
    }
}

/// Message of a request that has no `method` or no `params` member.
pub open spec fn shape_msg() -> Seq<char> {
    "json is not expected object"@
}

/// Message of a request whose `method` member is not a string.
pub open spec fn method_type_msg() -> Seq<char> {
    "json method was not string"@
}

/// Message of a request without the parameter `name`.
pub open spec fn missing_param_msg(name: Seq<char>) -> Seq<char> {
    "parameters do not contain "@ + name
}

/// An update at `i` that keeps the name there leaves the value of every other
/// name as it was.
proof fn lemma_lookup_update(members: Seq<(String, Json)>, i: int, m: (String, Json), key: Seq<char>)
    requires
        0 <= i < members.len(),
        m.0@ == members[i].0@,
        key != m.0@,
    ensures
        lookup(members.update(i, m), key) == lookup(members, key),
    decreases members.len(),
{
    if i == 0 {
        assert(members.update(i, m).drop_first() =~= members.drop_first());
    } else {
        lemma_lookup_update(members.drop_first(), i - 1, m, key);
        assert(members.update(i, m).drop_first() =~= members.drop_first().update(i - 1, m));
    }
}

/// A member pushed at the end is found only where no earlier one has its name.
proof fn lemma_lookup_push(members: Seq<(String, Json)>, m: (String, Json), key: Seq<char>)
    ensures
        lookup(members.push(m), key) == match lookup(members, key) {
            Some(v) => Some(v),
            None => if m.0@ == key {
                Some(m.1)
            } else {
                None
            },
        },
    decreases members.len(),
{
    if members.len() > 0 {
        lemma_lookup_push(members.drop_first(), m, key);
        assert(members.push(m).drop_first() =~= members.drop_first().push(m));
    } else {
        assert(members.push(m).drop_first() =~= members);
    }
}

/// Starts a call of `method`, with no parameters yet.
pub fn begin_call(method: MethodId) -> (r: JTXState)
    ensures
        r.method_name() == method.name@,
        r.param_members().len() == 0,
        r.wf(),
{
    JTXState { method: method.name, params: Vec::new() }
}

/// Adds the parameter `name` with its encoded value to the call; a parameter
/// of that name already there takes the new value.
pub fn add_param(name: &'static str, value: Json, state: &mut JTXState)
    requires
        old(state).wf(),
    ensures
        final(state).wf(),
        final(state).method_name() == old(state).method_name(),
        final(state).param_map() == old(state).param_map().insert(name@, value),
        old(state).param_map().contains_key(name@) ==> final(state).param_members().len()
            == old(state).param_members().len(),
        !old(state).param_map().contains_key(name@) ==> final(state).param_members()
            == old(state).param_members().push((final(state).param_members().last().0, value)),
{
    let ghost before = state.params@;
    let key = name.to_owned();
    match position(&state.params, name) {
        Some(i) => {
            proof {
                lemma_lookup_at(before, name@, i as int);
            }
            state.params.set(i, (key, value));
            proof {
                let after = state.params@;
                let m = after[i as int];
                assert(after =~= before.update(i as int, m));
                lemma_lookup_at(after, name@, i as int);
                assert forall|k: Seq<char>| k != name@ implies lookup(after, k) == lookup(
                    before,
                    k,
                ) by {
                    lemma_lookup_update(before, i as int, m, k);
                }
                assert(members_map(after) =~= members_map(before).insert(name@, value));
            }
        },
        None => {
            proof {
                lemma_lookup_absent(before, name@);
            }
            state.params.push((key, value));
            proof {
                let after = state.params@;
                let m = after.last();
                assert(after =~= before.push(m));
                assert forall|k: Seq<char>| #![auto] lookup(after, k) == (if k == name@ {
                    Some(value)
                } else {
                    lookup(before, k)
                }) by {
                    lemma_lookup_push(before, m, k);
                    if k == name@ {
                        lemma_lookup_absent(before, k);
                    }
                }
                assert(members_map(after) =~= members_map(before).insert(name@, value));
            }
        },
    }
}

/// The request object of a finished call, with the id `id`.
pub fn request_value(state: JTXState, id: String) -> (r: Json)
    ensures
        is_request(r, state.method_name(), state.param_members(), id@),
{
    let mut ms: Vec<(String, Json)> = Vec::new();
    ms.push((String::from_str("jsonrpc"), Json::Str(String::from_str("2.0"))));
    ms.push((String::from_str("method"), Json::Str(state.method.to_owned())));
    ms.push((String::from_str("params"), Json::Object(state.params)));
    ms.push((String::from_str("id"), Json::Str(id)));
    Json::Object(ms)
}

/// The request object of a finished call, under a fresh random UUID.
pub fn value_for_state(state: JTXState) -> (r: Json)
    ensures
        exists|id: Seq<char>|
            is_uuid_v4_text(id) && is_request(r, state.method_name(), state.param_members(), id),
{
    let id = fresh_uuid();
    let ghost idv = id@;
    let r = request_value(state, id);
    assert(is_uuid_v4_text(idv) && is_request(r, state.method_name(), state.param_members(), idv));
    r
}

/// The kind of error for a failed read: the end of the conversation only for
/// an end of stream with nothing but whitespace consumed.
pub open spec fn read_failure_kind(kind: ReadFailure, consumed: Seq<u8>) -> RPCErrorKind {
    if kind == ReadFailure::Eof && all_ws(consumed) {
        RPCErrorKind::TransportEOF
    } else {
        RPCErrorKind::SerializationError
    }
}

/// The error for a failed read of a JSON value, given how it failed and the
/// bytes consumed before it did: a clean end of stream, before any token of a
/// value, is the end of the conversation; anything else is a serialization
/// error that keeps `cause`.
pub fn read_failure_error(kind: ReadFailure, consumed: &[u8], cause: String) -> (r: RPCError)
    ensures
        r.kind == read_failure_kind(kind, consumed@),
        kind == ReadFailure::Eof && all_ws(consumed@) ==> r.kind == RPCErrorKind::TransportEOF
            && r.msg@ == eof_msg() && r.cause is None,
        !(kind == ReadFailure::Eof && all_ws(consumed@)) ==> r.kind
            == RPCErrorKind::SerializationError && r.msg@ == codec_msg() && r.cause == Some(cause),
{
    if kind == ReadFailure::Eof && only_whitespace(consumed) {
        RPCError::new(RPCErrorKind::TransportEOF, "EOF during json deserialization")
    } else {
        convert_error(cause)
    }
}

/// The error for `e`, raised while reading a JSON value after the bytes
/// `consumed`: the end of the conversation only where no token had started.
pub fn read_error(e: &serde_json::Error, consumed: &[u8]) -> (r: RPCError)
    ensures
        r.kind == read_failure_kind(category_of(*e), consumed@),
        r.kind == RPCErrorKind::TransportEOF || r.kind == RPCErrorKind::SerializationError,
        r.kind == RPCErrorKind::TransportEOF ==> all_ws(consumed@),
        r.kind == RPCErrorKind::TransportEOF <==> r.msg@ == eof_msg(),
        r.kind == RPCErrorKind::SerializationError ==> r.msg@ == codec_msg() && r.cause is Some,
{
    proof {
        reveal_strlit("EOF during json deserialization");
        reveal_strlit("json serialization or deserialization failed");
        assert(eof_msg().len() != codec_msg().len());
    }
    read_failure_error(failure_category(e), consumed, failure_text(e))
}

/// The error for a value that the codec could not encode or decode.
pub fn codec_error(e: &serde_json::Error) -> (r: RPCError)
    ensures
        r.kind == RPCErrorKind::SerializationError,
        r.msg@ == codec_msg(),
        r.cause is Some,
{
    convert_error(failure_text(e))
}

/// A JSON-RPC transport over one channel, in both roles: a client that
/// builds and sends requests and a server that receives them.
pub struct JSONTransport<C> {
    channel: C,
}

impl<C> JSONTransport<C> {
    /// The channel this transport holds.
    pub closed spec fn chan(&self) -> C {
        self.channel
    }

    /// A transport over `channel`.
    pub fn new(channel: C) -> (r: Self)
        ensures
            r.chan() == channel,
    {
        JSONTransport { channel }
    }

    /// The underlying channel.
    pub fn channel(&self) -> (r: &C)
        ensures
            *r == self.chan(),
    {
        &self.channel
    }

    /// The underlying channel, for reading and writing.
    pub fn channel_mut(&mut self) -> (r: &mut C)
        ensures
            *r == old(self).chan(),
            final(self).chan() == *final(r),
    {
        &mut self.channel
    }

    /// Accepts a received request: its method name, and the request kept for
    /// reading parameters. The request must be an object with a string
    /// `method` member.
    pub fn rx_begin_call(&mut self, request: Json) -> (r: Result<(PartialMethodId, JRXState), RPCError>)
        ensures
            final(self).chan() == old(self).chan(),
            r is Ok <==> request_method(request) is Some,
            match r {
                Ok((m, st)) => st@ == request && m == PartialMethodId::Name(m->Name_0) && m->Name_0@
                    == request_method(request)->0,
                Err(_) => true,
            },
            field(request, "method"@) is None ==> fails_plainly(r, shape_msg()),
            field(request, "method"@) is Some && request_method(request) is None ==> fails_plainly(
                r,
                method_type_msg(),
            ),
    {
        let method = match request.get("method") {
            None => {
                return Err(RPCError::new(RPCErrorKind::SerializationError, "json is not expected object"));
            },
            Some(m) => match m.as_str() {
                None => {
                    return Err(RPCError::new(RPCErrorKind::SerializationError, "json method was not string"));
                },
                Some(s) => s.to_owned(),
            },
        };
        Ok((PartialMethodId::Name(method), JRXState { json: request }))
    }

    /// Accepts the outcome of reading a request from the channel, given the
    /// bytes consumed by the read: a failed read becomes the end of the
    /// conversation where it ended cleanly before any token and a
    /// serialization error otherwise; a value read is accepted as by
    /// `rx_begin_call`.
    pub fn rx_begin_read(
        &mut self,
        outcome: Result<Json, serde_json::Error>,
        consumed: &[u8],
    ) -> (r: Result<(PartialMethodId, JRXState), RPCError>)
        ensures
            final(self).chan() == old(self).chan(),
            match outcome {
                Err(e) => r matches Err(x) && x.kind == read_failure_kind(category_of(e), consumed@),
                Ok(v) => {
                    &&& (r is Ok <==> request_method(v) is Some)
                    &&& match r {
                        Ok((m, st)) => st@ == v && m == PartialMethodId::Name(m->Name_0)
                            && m->Name_0@ == request_method(v)->0,
                        Err(_) => true,
                    }
                    &&& field(v, "method"@) is None ==> fails_plainly(r, shape_msg())
                    &&& field(v, "method"@) is Some && request_method(v) is None ==> fails_plainly(
                        r,
                        method_type_msg(),
                    )
                },
            },
    {
        match outcome {
            Err(e) => Err(read_error(&e, consumed)),
            Ok(v) => self.rx_begin_call(v),
        }
    }

    /// Reads the parameter `name` of a received request: the member `name`
    /// of its `params` member.
    pub fn rx_read_param<'a>(&self, name: &str, state: &'a JRXState) -> (r: Result<&'a Json, RPCError>)
        ensures
            request_param(state@, name@) matches Some(v) ==> r == Ok::<&Json, RPCError>(&v),
            field(state@, "params"@) is None ==> fails_plainly(r, shape_msg()),
            field(state@, "params"@) is Some && request_param(state@, name@) is None ==> fails_plainly(
                r,
                missing_param_msg(name@),
            ),
    {
        let params = match state.json.get("params") {
            None => {
                return Err(RPCError::new(RPCErrorKind::SerializationError, "json is not expected object"));
            },
            Some(p) => p,
        };
        match params.get(name) {
            None => {
                let msg = String::from_str("parameters do not contain ").concat(name);
                Err(RPCError { kind: RPCErrorKind::SerializationError, msg, cause: None })
            },
            Some(v) => Ok(v),
        }
    }
}

/// The client half of the transport for a channel driven by an executor:
/// the same requests and state records as `JSONTransport`. Bytes read past
/// the end of one response are kept for the next.
pub struct JSONAsyncClientTransport<C> {
    channel: C,
    pending: Vec<u8>,
}

impl<C> JSONAsyncClientTransport<C> {
    /// The channel this transport holds.
    pub closed spec fn chan(&self) -> C {
        self.channel
    }

    /// The bytes read from the channel and not yet consumed.
    pub closed spec fn pending_bytes(&self) -> Seq<u8> {
        self.pending@
    }

    /// A transport over `channel`, with nothing read yet.
    pub fn new(channel: C) -> (r: Self)
        ensures
            r.chan() == channel,
            r.pending_bytes().len() == 0,
    {
        JSONAsyncClientTransport { channel, pending: Vec::new() }
    }

    /// The underlying channel, for reading and writing.
    pub fn channel_mut(&mut self) -> (r: &mut C)
        ensures
            *r == old(self).chan(),
            final(self).chan() == *final(r),
            final(self).pending_bytes() == old(self).pending_bytes(),
    {
        &mut self.channel
    }

    /// Hands out the bytes not yet consumed, leaving none.
    pub fn take_pending(&mut self) -> (r: Vec<u8>)
        ensures
            r@ == old(self).pending_bytes(),
            final(self).pending_bytes().len() == 0,
            final(self).chan() == old(self).chan(),
    {
        let mut taken: Vec<u8> = Vec::new();
        std::mem::swap(&mut taken, &mut self.pending);
        taken
    }

    /// Keeps `bytes` as read and not yet consumed.
    pub fn set_pending(&mut self, bytes: Vec<u8>)
        ensures
            final(self).pending_bytes() == bytes@,
            final(self).chan() == old(self).chan(),
    {
        self.pending = bytes;
    }
}

} // verus!
