//! Messages from the frontend to the editor: the named-field shape, the wire
//! shape, and the encoding of one message.

use vstd::prelude::*;
use crate::envelope::{protocol_version, JsonRpc};
use crate::json::{Json, JsonValue};

verus! {

broadcast use vstd::std_specs::vec::group_vec_axioms;

/// A request to the editor, written to its standard input.
#[derive(Debug, Clone)]
pub enum OutgoingRequest {
    Keys(Vec<String>),
    Resize { rows: u32, columns: u32 },
    Scroll { amount: u32 },
    MouseMove { line: u32, column: u32 },
    MousePress { button: String, line: u32, column: u32 },
    MouseRelease { button: String, line: u32, column: u32 },
    MenuSelect { index: u32 },
}

/// The model of an [`OutgoingRequest`].
pub enum Outgoing {
    Keys(Seq<Seq<char>>),
    Resize { rows: u32, columns: u32 },
    Scroll { amount: u32 },
    MouseMove { line: u32, column: u32 },
    MousePress { button: Seq<char>, line: u32, column: u32 },
    MouseRelease { button: Seq<char>, line: u32, column: u32 },
    MenuSelect { index: u32 },
}

/// The model of a list of strings.
pub open spec fn strings_view(v: Vec<String>) -> Seq<Seq<char>> {
    v@.map_values(|s: String| s@)
}

impl View for OutgoingRequest {
    type V = Outgoing;

    open spec fn view(&self) -> Outgoing {
        match self {
            OutgoingRequest::Keys(k) => Outgoing::Keys(strings_view(*k)),
            OutgoingRequest::Resize { rows, columns } => Outgoing::Resize {
                rows: *rows,
                columns: *columns,
            },
            OutgoingRequest::Scroll { amount } => Outgoing::Scroll { amount: *amount },
            OutgoingRequest::MouseMove { line, column } => Outgoing::MouseMove {
                line: *line,
                column: *column,
            },
            OutgoingRequest::MousePress { button, line, column } => Outgoing::MousePress {
                button: button@,
                line: *line,
                column: *column,
            },
            OutgoingRequest::MouseRelease { button, line, column } => Outgoing::MouseRelease {
                button: button@,
                line: *line,
                column: *column,
            },
            OutgoingRequest::MenuSelect { index } => Outgoing::MenuSelect { index: *index },
        }
    }
}

/// The method that carries a request.
pub open spec fn method_name(o: Outgoing) -> Seq<char> {
    match o {
        Outgoing::Keys(_) => "keys"@,
        Outgoing::Resize { .. } => "resize"@,
        Outgoing::Scroll { .. } => "scroll"@,
        Outgoing::MouseMove { .. } => "mouse_move"@,
        Outgoing::MousePress { .. } => "mouse_press"@,
        Outgoing::MouseRelease { .. } => "mouse_release"@,
        Outgoing::MenuSelect { .. } => "menu_select"@,
    }
}

/// A `u32` as a JSON number.
pub open spec fn number(n: u32) -> Json {
    Json::Number(n as u64)
}

/// The params of a request, its fields in their fixed order. The keys of
/// `Keys` are the params themselves, one slot per key.
pub open spec fn params_json(o: Outgoing) -> Seq<Json> {
    match o {
        Outgoing::Keys(k) => k.map_values(|s: Seq<char>| Json::Str(s)),
        Outgoing::Resize { rows, columns } => seq![number(rows), number(columns)],
        Outgoing::Scroll { amount } => seq![number(amount)],
        Outgoing::MouseMove { line, column } => seq![number(line), number(column)],
        Outgoing::MousePress { button, line, column } => seq![
            Json::Str(button),
            number(line),
            number(column),
        ],
        Outgoing::MouseRelease { button, line, column } => seq![
            Json::Str(button),
            number(line),
            number(column),
        ],
        Outgoing::MenuSelect { index } => seq![number(index)],
    }
}

/// The message that carries a request: the version marker, the method and
/// the params, in that order.
pub open spec fn outgoing_json(o: Outgoing) -> Json {
    Json::Object(
        seq![
            ("jsonrpc"@, Json::Str(protocol_version())),
            ("method"@, Json::Str(method_name(o))),
            ("params"@, Json::Array(params_json(o))),
        ],
    )
}

/// The wire shape of an outgoing request: the method and its positional
/// params.
#[derive(Debug)]
pub enum RawOutgoingRequest {
    Keys(Vec<String>),
    Resize(u32, u32),
    Scroll((u32,)),
    MouseMove(u32, u32),
    MousePress(String, u32, u32),
    MouseRelease(String, u32, u32),
    MenuSelect((u32,)),
}

/// The `i`-th named field becomes slot `i` of the params.
pub open spec fn to_wire(o: OutgoingRequest) -> RawOutgoingRequest {
    match o {
        OutgoingRequest::Keys(k) => RawOutgoingRequest::Keys(k),
        OutgoingRequest::Resize { rows, columns } => RawOutgoingRequest::Resize(rows, columns),
        OutgoingRequest::Scroll { amount } => RawOutgoingRequest::Scroll((amount,)),
        OutgoingRequest::MouseMove { line, column } => RawOutgoingRequest::MouseMove(line, column),
        OutgoingRequest::MousePress { button, line, column } => RawOutgoingRequest::MousePress(
            button,
            line,
            column,
        ),
        OutgoingRequest::MouseRelease { button, line, column } => RawOutgoingRequest::MouseRelease(
            button,
            line,
            column,
        ),
        OutgoingRequest::MenuSelect { index } => RawOutgoingRequest::MenuSelect((index,)),
    }
}

/// The request that a wire shape stands for.
pub open spec fn from_wire(w: RawOutgoingRequest) -> Outgoing {
    match w {
        RawOutgoingRequest::Keys(k) => Outgoing::Keys(strings_view(k)),
        RawOutgoingRequest::Resize(a, b) => Outgoing::Resize { rows: a, columns: b },
        RawOutgoingRequest::Scroll((a,)) => Outgoing::Scroll { amount: a },
        RawOutgoingRequest::MouseMove(a, b) => Outgoing::MouseMove { line: a, column: b },
        RawOutgoingRequest::MousePress(a, b, c) => Outgoing::MousePress {
            button: a@,
            line: b,
            column: c,
        },
        RawOutgoingRequest::MouseRelease(a, b, c) => Outgoing::MouseRelease {
            button: a@,
            line: b,
            column: c,
        },
        RawOutgoingRequest::MenuSelect((a,)) => Outgoing::MenuSelect { index: a },
    }
}

impl From<OutgoingRequest> for RawOutgoingRequest {
    fn from(request: OutgoingRequest) -> (r: RawOutgoingRequest)
        ensures
            r == to_wire(request),
    {
        match request {
            OutgoingRequest::Keys(vec) => RawOutgoingRequest::Keys(vec),
            OutgoingRequest::Resize { rows: a, columns: b } => RawOutgoingRequest::Resize(a, b),
            OutgoingRequest::Scroll { amount: a } => RawOutgoingRequest::Scroll((a,)),
            OutgoingRequest::MouseMove { line: a, column: b } => RawOutgoingRequest::MouseMove(
                a,
                b,
            ),
            OutgoingRequest::MousePress { button: a, line: b, column: c } => {
                RawOutgoingRequest::MousePress(a, b, c)
            },
            OutgoingRequest::MouseRelease { button: a, line: b, column: c } => {
                RawOutgoingRequest::MouseRelease(a, b, c)
            },
            OutgoingRequest::MenuSelect { index: a } => RawOutgoingRequest::MenuSelect((a,)),
        }
    }
}

impl vstd::std_specs::convert::FromSpecImpl<OutgoingRequest> for RawOutgoingRequest {
    open spec fn obeys_from_spec() -> bool {
        true
    }

    open spec fn from_spec(v: OutgoingRequest) -> RawOutgoingRequest {
        to_wire(v)
    }
}

/// Moving the fields into the wire shape loses nothing: the wire shape
/// stands for the same request.
pub proof fn lemma_wire_lossless(o: OutgoingRequest)
    ensures
        from_wire(to_wire(o)) == o@,
{
}

/// A `u32` as a JSON number.
fn number_value(n: u32) -> (r: JsonValue)
    ensures
        r@ == number(n),
{
    JsonValue::Number(n as u64)
}

/// Strings as JSON strings.
fn string_values(k: &Vec<String>) -> (r: Vec<JsonValue>)
    ensures
        r@.map_values(|x: JsonValue| x@) == strings_view(*k).map_values(|s: Seq<char>| Json::Str(s)),
{
    let mut out: Vec<JsonValue> = Vec::new();
    let mut i: usize = 0;
    while i < k.len()
        invariant
            i <= k.len(),
            out@.len() == i,
            forall|j: int| 0 <= j < i ==> #[trigger] out@[j]@ == Json::Str(k@[j]@),
        decreases k.len() - i,
    {
        out.push(JsonValue::Str(k[i].clone()));
        i = i + 1;
    }
    assert(out@.map_values(|x: JsonValue| x@) == strings_view(*k).map_values(
        |s: Seq<char>| Json::Str(s),
    ));
    out
}

/// The params of a wire shape.
fn params_values(w: &RawOutgoingRequest) -> (r: Vec<JsonValue>)
    ensures
        r@.map_values(|x: JsonValue| x@) == params_json(from_wire(*w)),
{
    let r = match w {
        RawOutgoingRequest::Keys(k) => string_values(k),
        RawOutgoingRequest::Resize(a, b) => vec![number_value(*a), number_value(*b)],
        RawOutgoingRequest::Scroll((a,)) => vec![number_value(*a)],
        RawOutgoingRequest::MouseMove(a, b) => vec![number_value(*a), number_value(*b)],
        RawOutgoingRequest::MousePress(a, b, c) => vec![
            JsonValue::Str(a.clone()),
            number_value(*b),
            number_value(*c),
        ],
        RawOutgoingRequest::MouseRelease(a, b, c) => vec![
            JsonValue::Str(a.clone()),
            number_value(*b),
            number_value(*c),
        ],
        RawOutgoingRequest::MenuSelect((a,)) => vec![number_value(*a)],
    };
    assert(r@.map_values(|x: JsonValue| x@) == params_json(from_wire(*w)));
    r
}

/// The method of a wire shape.
fn method_value(w: &RawOutgoingRequest) -> (r: String)
    ensures
        r@ == method_name(from_wire(*w)),
{
    match w {
        RawOutgoingRequest::Keys(_) => "keys".to_owned(),
        RawOutgoingRequest::Resize(..) => "resize".to_owned(),
        RawOutgoingRequest::Scroll(_) => "scroll".to_owned(),
        RawOutgoingRequest::MouseMove(..) => "mouse_move".to_owned(),
        RawOutgoingRequest::MousePress(..) => "mouse_press".to_owned(),
        RawOutgoingRequest::MouseRelease(..) => "mouse_release".to_owned(),
        RawOutgoingRequest::MenuSelect(_) => "menu_select".to_owned(),
    }
}

/// Writes a wire shape in its envelope as a JSON message: the version
/// marker, the method and the params, in that order.
pub fn encode_raw_outgoing(m: &JsonRpc<RawOutgoingRequest>) -> (r: JsonValue)
    ensures
        r@ == Json::Object(
            seq![
                ("jsonrpc"@, Json::Str(m.jsonrpc@)),
                ("method"@, Json::Str(method_name(from_wire(m.inner)))),
                ("params"@, Json::Array(params_json(from_wire(m.inner)))),
            ],
        ),
{
    let params = params_values(&m.inner);
    let ghost pv = JsonValue::Array(params);
    assert(pv@ == Json::Array(params_json(from_wire(m.inner)))) by {
        assert(pv@->Array_0 == params@.map_values(|x: JsonValue| x@));
    }
    let k0 = "jsonrpc".to_owned();
    let k1 = "method".to_owned();
    let k2 = "params".to_owned();
    let v0 = JsonValue::Str(m.jsonrpc.clone());
    let v1 = JsonValue::Str(method_value(&m.inner));
    let v2 = JsonValue::Array(params);
    let ghost want = seq![
        ("jsonrpc"@, Json::Str(m.jsonrpc@)),
        ("method"@, Json::Str(method_name(from_wire(m.inner)))),
        ("params"@, Json::Array(params_json(from_wire(m.inner)))),
    ];
    assert((k0@, v0@) == want[0]);
    assert((k1@, v1@) == want[1]);
    assert((k2@, v2@) == want[2]);
    let entries = vec![(k0, v0), (k1, v1), (k2, v2)];
    let r = JsonValue::Object(entries);
    assert(r@->Object_0 =~= want);
    r
}

impl OutgoingRequest {
    /// Encodes the request as one message carrying the version marker `2.0`.
    pub fn to_json(self) -> (r: JsonValue)
        ensures
            r@ == outgoing_json(self@),
    {
        let ghost o = self@;
        let raw = RawOutgoingRequest::from(self);
        proof {
            lemma_wire_lossless(self);
        }
        encode_raw_outgoing(&JsonRpc::new(raw))
    }
}

/// Encoding is deterministic: equal requests encode to the same message.
pub proof fn lemma_encode_deterministic(a: OutgoingRequest, b: OutgoingRequest)
    requires
        a@ == b@,
    ensures
        outgoing_json(a@) == outgoing_json(b@),
{
}

} // verus!
