//! Messages from the editor to the frontend: the wire shape, the named-field
//! shape, and the decoding of one message.

use vstd::prelude::*;
use crate::decode::{
    bool_of, coord_of, decode_bool, decode_coord, decode_face, decode_line, decode_lines,
    decode_options, decode_string, decode_u32, face_of, field, field_of, line_of, lines_of,
    options_of, options_view, str_of, u32_of,
};
use crate::envelope::JsonRpc;
use crate::error::{result_view, ErrorKind, Fault};
use crate::face::{line_view, lines_view, Atom, Face, KakCoord, KakFace, KakLine};
use crate::json::{json_of, text_eq, Json, JsonValue};

verus! {

broadcast use vstd::std_specs::vec::group_vec_axioms;

/// A request from the editor, read from its standard output.
#[derive(Debug, Clone)]
pub enum IncomingRequest {
    Draw { lines: Vec<KakLine>, default_face: KakFace, padding_face: KakFace },
    DrawStatus { status_line: KakLine, mode_line: KakLine, default_face: KakFace },
    MenuShow {
        items: Vec<KakLine>,
        anchor: KakCoord,
        selected_item_face: KakFace,
        menu_face: KakFace,
        style: String,
    },
    MenuSelect { selected: u32 },
    MenuHide,
    InfoShow {
        title: KakLine,
        content: Vec<KakLine>,
        anchor: KakCoord,
        face: KakFace,
        style: String,
    },
    InfoHide,
    SetCursor { mode: String, coord: KakCoord },
    /// The options in the order in which the message lists them.
    SetUiOptions { options: Vec<(String, String)> },
    Refresh { force: bool },
}

/// The model of an [`IncomingRequest`].
pub enum Incoming {
    Draw { lines: Seq<Seq<Atom>>, default_face: Face, padding_face: Face },
    DrawStatus { status_line: Seq<Atom>, mode_line: Seq<Atom>, default_face: Face },
    MenuShow {
        items: Seq<Seq<Atom>>,
        anchor: KakCoord,
        selected_item_face: Face,
        menu_face: Face,
        style: Seq<char>,
    },
    MenuSelect { selected: u32 },
    MenuHide,
    InfoShow {
        title: Seq<Atom>,
        content: Seq<Seq<Atom>>,
        anchor: KakCoord,
        face: Face,
        style: Seq<char>,
    },
    InfoHide,
    SetCursor { mode: Seq<char>, coord: KakCoord },
    SetUiOptions { options: Seq<(Seq<char>, Seq<char>)> },
    Refresh { force: bool },
}

impl View for IncomingRequest {
    type V = Incoming;

    open spec fn view(&self) -> Incoming {
        match self {
            IncomingRequest::Draw { lines, default_face, padding_face } => Incoming::Draw {
                lines: lines_view(*lines),
                default_face: default_face@,
                padding_face: padding_face@,
            },
            IncomingRequest::DrawStatus { status_line, mode_line, default_face } => {
                Incoming::DrawStatus {
                    status_line: line_view(*status_line),
                    mode_line: line_view(*mode_line),
                    default_face: default_face@,
                }
            },
            IncomingRequest::MenuShow { items, anchor, selected_item_face, menu_face, style } => {
                Incoming::MenuShow {
                    items: lines_view(*items),
                    anchor: *anchor,
                    selected_item_face: selected_item_face@,
                    menu_face: menu_face@,
                    style: style@,
                }
            },
            IncomingRequest::MenuSelect { selected } => Incoming::MenuSelect { selected: *selected },
            IncomingRequest::MenuHide => Incoming::MenuHide,
            IncomingRequest::InfoShow { title, content, anchor, face, style } => Incoming::InfoShow {
                title: line_view(*title),
                content: lines_view(*content),
                anchor: *anchor,
                face: face@,
                style: style@,
            },
            IncomingRequest::InfoHide => Incoming::InfoHide,
            IncomingRequest::SetCursor { mode, coord } => Incoming::SetCursor {
                mode: mode@,
                coord: *coord,
            },
            IncomingRequest::SetUiOptions { options } => Incoming::SetUiOptions {
                options: options_view(*options),
            },
            IncomingRequest::Refresh { force } => Incoming::Refresh { force: *force },
        }
    }
}

/// The wire shape of an incoming request: the method and its positional
/// params.
#[derive(Debug)]
pub enum RawIncomingRequest {
    Draw(Vec<KakLine>, KakFace, KakFace),
    DrawStatus(KakLine, KakLine, KakFace),
    MenuShow(Vec<KakLine>, KakCoord, KakFace, KakFace, String),
    MenuSelect((u32,)),
    MenuHide,
    InfoShow(KakLine, Vec<KakLine>, KakCoord, KakFace, String),
    InfoHide,
    SetCursor(String, KakCoord),
    SetUiOptions((Vec<(String, String)>,)),
    Refresh((bool,)),
}

/// Slot `i` of the params becomes the `i`-th named field.
pub open spec fn relabel(raw: RawIncomingRequest) -> IncomingRequest {
    match raw {
        RawIncomingRequest::Draw(a, b, c) => IncomingRequest::Draw {
            lines: a,
            default_face: b,
            padding_face: c,
        },
        RawIncomingRequest::DrawStatus(a, b, c) => IncomingRequest::DrawStatus {
            status_line: a,
            mode_line: b,
            default_face: c,
        },
        RawIncomingRequest::MenuShow(a, b, c, d, e) => IncomingRequest::MenuShow {
            items: a,
            anchor: b,
            selected_item_face: c,
            menu_face: d,
            style: e,
        },
        RawIncomingRequest::MenuSelect((a,)) => IncomingRequest::MenuSelect { selected: a },
        RawIncomingRequest::MenuHide => IncomingRequest::MenuHide,
        RawIncomingRequest::InfoShow(a, b, c, d, e) => IncomingRequest::InfoShow {
            title: a,
            content: b,
            anchor: c,
            face: d,
            style: e,
        },
        RawIncomingRequest::InfoHide => IncomingRequest::InfoHide,
        RawIncomingRequest::SetCursor(a, b) => IncomingRequest::SetCursor { mode: a, coord: b },
        RawIncomingRequest::SetUiOptions((a,)) => IncomingRequest::SetUiOptions { options: a },
        RawIncomingRequest::Refresh((a,)) => IncomingRequest::Refresh { force: a },
    }
}

impl From<RawIncomingRequest> for IncomingRequest {
    fn from(raw_request: RawIncomingRequest) -> (r: IncomingRequest)
        ensures
            r == relabel(raw_request),
    {
        match raw_request {
            RawIncomingRequest::Draw(a, b, c) => IncomingRequest::Draw {
                lines: a,
                default_face: b,
                padding_face: c,
            },
            RawIncomingRequest::DrawStatus(a, b, c) => IncomingRequest::DrawStatus {
                status_line: a,
                mode_line: b,
                default_face: c,
            },
            RawIncomingRequest::MenuShow(a, b, c, d, e) => IncomingRequest::MenuShow {
                items: a,
                anchor: b,
                selected_item_face: c,
                menu_face: d,
                style: e,
            },
            RawIncomingRequest::MenuSelect((a,)) => IncomingRequest::MenuSelect { selected: a },
            RawIncomingRequest::MenuHide => IncomingRequest::MenuHide,
            RawIncomingRequest::InfoShow(a, b, c, d, e) => IncomingRequest::InfoShow {
                title: a,
                content: b,
                anchor: c,
                face: d,
                style: e,
            },
            RawIncomingRequest::InfoHide => IncomingRequest::InfoHide,
            RawIncomingRequest::SetCursor(a, b) => IncomingRequest::SetCursor {
                mode: a,
                coord: b,
            },
            RawIncomingRequest::SetUiOptions((a,)) => IncomingRequest::SetUiOptions {
                options: a,
            },
            RawIncomingRequest::Refresh((a,)) => IncomingRequest::Refresh { force: a },
        }
    }
}

impl vstd::std_specs::convert::FromSpecImpl<RawIncomingRequest> for IncomingRequest {
    open spec fn obeys_from_spec() -> bool {
        true
    }

    open spec fn from_spec(v: RawIncomingRequest) -> IncomingRequest {
        relabel(v)
    }
}

/// The number of params that method `m` takes; `None` for an unknown method.
pub open spec fn arity(m: Seq<char>) -> Option<nat> {
    if m == "draw"@ {
        Some(3)
    } else if m == "draw_status"@ {
        Some(3)
    } else if m == "menu_show"@ {
        Some(5)
    } else if m == "menu_select"@ {
        Some(1)
    } else if m == "menu_hide"@ {
        Some(0)
    } else if m == "info_show"@ {
        Some(5)
    } else if m == "info_hide"@ {
        Some(0)
    } else if m == "set_cursor"@ {
        Some(2)
    } else if m == "set_ui_options"@ {
        Some(1)
    } else if m == "refresh"@ {
        Some(1)
    } else {
        None
    }
}

/// The params of `draw`, slot by slot.
pub open spec fn draw_slots(ps: Seq<Json>) -> Result<Incoming, Fault> {
    match (lines_of(ps[0]), face_of(ps[1]), face_of(ps[2])) {
        (Ok(a), Ok(b), Ok(c)) => Ok(
            Incoming::Draw { lines: a, default_face: b, padding_face: c },
        ),
        (Err(e), _, _) => Err(e),
        (_, Err(e), _) => Err(e),
        (_, _, Err(e)) => Err(e),
    }
}

/// The params of `draw_status`, slot by slot.
pub open spec fn draw_status_slots(ps: Seq<Json>) -> Result<Incoming, Fault> {
    match (line_of(ps[0]), line_of(ps[1]), face_of(ps[2])) {
        (Ok(a), Ok(b), Ok(c)) => Ok(
            Incoming::DrawStatus { status_line: a, mode_line: b, default_face: c },
        ),
        (Err(e), _, _) => Err(e),
        (_, Err(e), _) => Err(e),
        (_, _, Err(e)) => Err(e),
    }
}

/// The params of `menu_show`, slot by slot.
pub open spec fn menu_show_slots(ps: Seq<Json>) -> Result<Incoming, Fault> {
    match (lines_of(ps[0]), coord_of(ps[1]), face_of(ps[2]), face_of(ps[3]), str_of(ps[4])) {
        (Ok(a), Ok(b), Ok(c), Ok(d), Ok(e)) => Ok(
            Incoming::MenuShow {
                items: a,
                anchor: b,
                selected_item_face: c,
                menu_face: d,
                style: e,
            },
        ),
        (Err(e), _, _, _, _) => Err(e),
        (_, Err(e), _, _, _) => Err(e),
        (_, _, Err(e), _, _) => Err(e),
        (_, _, _, Err(e), _) => Err(e),
        (_, _, _, _, Err(e)) => Err(e),
    }
}

/// The params of `menu_select`, slot by slot.
pub open spec fn menu_select_slots(ps: Seq<Json>) -> Result<Incoming, Fault> {
    match u32_of(ps[0]) {
        Ok(a) => Ok(Incoming::MenuSelect { selected: a }),
        Err(e) => Err(e),
    }
}

/// The params of `menu_hide`, slot by slot.
pub open spec fn menu_hide_slots(ps: Seq<Json>) -> Result<Incoming, Fault> {
    Ok(Incoming::MenuHide)
}

/// The params of `info_show`, slot by slot.
pub open spec fn info_show_slots(ps: Seq<Json>) -> Result<Incoming, Fault> {
    match (line_of(ps[0]), lines_of(ps[1]), coord_of(ps[2]), face_of(ps[3]), str_of(ps[4])) {
        (Ok(a), Ok(b), Ok(c), Ok(d), Ok(e)) => Ok(
            Incoming::InfoShow { title: a, content: b, anchor: c, face: d, style: e },
        ),
        (Err(e), _, _, _, _) => Err(e),
        (_, Err(e), _, _, _) => Err(e),
        (_, _, Err(e), _, _) => Err(e),
        (_, _, _, Err(e), _) => Err(e),
        (_, _, _, _, Err(e)) => Err(e),
    }
}

/// The params of `info_hide`, slot by slot.
pub open spec fn info_hide_slots(ps: Seq<Json>) -> Result<Incoming, Fault> {
    Ok(Incoming::InfoHide)
}

/// The params of `set_cursor`, slot by slot.
pub open spec fn set_cursor_slots(ps: Seq<Json>) -> Result<Incoming, Fault> {
    match (str_of(ps[0]), coord_of(ps[1])) {
        (Ok(a), Ok(b)) => Ok(Incoming::SetCursor { mode: a, coord: b }),
        (Err(e), _) => Err(e),
        (_, Err(e)) => Err(e),
    }
}

/// The params of `set_ui_options`, slot by slot.
pub open spec fn set_ui_options_slots(ps: Seq<Json>) -> Result<Incoming, Fault> {
    match options_of(ps[0]) {
        Ok(a) => Ok(Incoming::SetUiOptions { options: a }),
        Err(e) => Err(e),
    }
}

/// The params of `refresh`, slot by slot.
pub open spec fn refresh_slots(ps: Seq<Json>) -> Result<Incoming, Fault> {
    match bool_of(ps[0]) {
        Ok(a) => Ok(Incoming::Refresh { force: a }),
        Err(e) => Err(e),
    }
}

/// The request that method `m` makes of params `ps` of the right arity:
/// slot `i` decoded into the `i`-th field, the first failing slot failing
/// the whole.
pub open spec fn slots_of(m: Seq<char>, ps: Seq<Json>) -> Result<Incoming, Fault> {
    if m == "draw"@ {
        draw_slots(ps)
    } else if m == "draw_status"@ {
        draw_status_slots(ps)
    } else if m == "menu_show"@ {
        menu_show_slots(ps)
    } else if m == "menu_select"@ {
        menu_select_slots(ps)
    } else if m == "menu_hide"@ {
        menu_hide_slots(ps)
    } else if m == "info_show"@ {
        info_show_slots(ps)
    } else if m == "info_hide"@ {
        info_hide_slots(ps)
    } else if m == "set_cursor"@ {
        set_cursor_slots(ps)
    } else if m == "set_ui_options"@ {
        set_ui_options_slots(ps)
    } else if m == "refresh"@ {
        refresh_slots(ps)
    } else {
        Err(Fault::MalformedMessage)
    }
}

/// The request that method `m` makes of params `ps`; a wrong arity or an
/// unknown method is malformed.
pub open spec fn params_of(m: Seq<char>, ps: Seq<Json>) -> Result<Incoming, Fault> {
    match arity(m) {
        Some(n) => if ps.len() == n {
            slots_of(m, ps)
        } else {
            Err(Fault::MalformedMessage)
        },
        None => Err(Fault::MalformedMessage),
    }
}

/// The request that a message makes: an object whose `jsonrpc` member is a
/// string, whose `method` member names the method and whose `params` member
/// is the array of its params.
pub open spec fn incoming_of(j: Json) -> Result<Incoming, Fault> {
    match (field_of(j, "jsonrpc"@), field_of(j, "method"@), field_of(j, "params"@)) {
        (Some(Json::Str(_)), Some(Json::Str(m)), Some(Json::Array(ps))) => params_of(m, ps),
        _ => Err(Fault::MalformedMessage),
    }
}

/// The model of an array's items.
pub open spec fn items_view(ps: Seq<JsonValue>) -> Seq<Json> {
    ps.map_values(|x: JsonValue| x@)
}

/// The model of a decoded wire shape, seen through its relabeling.
pub open spec fn raw_result(r: Result<RawIncomingRequest, ErrorKind>) -> Result<Incoming, Fault> {
    match r {
        Ok(w) => Ok(relabel(w)@),
        Err(e) => Err(e@),
    }
}

fn decode_draw(ps: &Vec<JsonValue>) -> (r: Result<RawIncomingRequest, ErrorKind>)
    requires
        ps.len() == 3,
    ensures
        raw_result(r) == draw_slots(items_view(ps@)),
{
    let a = match decode_lines(&ps[0]) {
        Ok(x) => x,
        Err(e) => return Err(e),
    };
    let b = match decode_face(&ps[1]) {
        Ok(x) => x,
        Err(e) => return Err(e),
    };
    let c = match decode_face(&ps[2]) {
        Ok(x) => x,
        Err(e) => return Err(e),
    };
    Ok(RawIncomingRequest::Draw(a, b, c))
}

fn decode_draw_status(ps: &Vec<JsonValue>) -> (r: Result<RawIncomingRequest, ErrorKind>)
    requires
        ps.len() == 3,
    ensures
        raw_result(r) == draw_status_slots(items_view(ps@)),
{
    let a = match decode_line(&ps[0]) {
        Ok(x) => x,
        Err(e) => return Err(e),
    };
    let b = match decode_line(&ps[1]) {
        Ok(x) => x,
        Err(e) => return Err(e),
    };
    let c = match decode_face(&ps[2]) {
        Ok(x) => x,
        Err(e) => return Err(e),
    };
    Ok(RawIncomingRequest::DrawStatus(a, b, c))
}

fn decode_menu_show(ps: &Vec<JsonValue>) -> (r: Result<RawIncomingRequest, ErrorKind>)
    requires
        ps.len() == 5,
    ensures
        raw_result(r) == menu_show_slots(items_view(ps@)),
{
    let a = match decode_lines(&ps[0]) {
        Ok(x) => x,
        Err(e) => return Err(e),
    };
    let b = match decode_coord(&ps[1]) {
        Ok(x) => x,
        Err(e) => return Err(e),
    };
    let c = match decode_face(&ps[2]) {
        Ok(x) => x,
        Err(e) => return Err(e),
    };
    let d = match decode_face(&ps[3]) {
        Ok(x) => x,
        Err(e) => return Err(e),
    };
    let e = match decode_string(&ps[4]) {
        Ok(x) => x,
        Err(e) => return Err(e),
    };
    Ok(RawIncomingRequest::MenuShow(a, b, c, d, e))
}

fn decode_menu_select(ps: &Vec<JsonValue>) -> (r: Result<RawIncomingRequest, ErrorKind>)
    requires
        ps.len() == 1,
    ensures
        raw_result(r) == menu_select_slots(items_view(ps@)),
{
    let a = match decode_u32(&ps[0]) {
        Ok(x) => x,
        Err(e) => return Err(e),
    };
    Ok(RawIncomingRequest::MenuSelect((a,)))
}

fn decode_info_show(ps: &Vec<JsonValue>) -> (r: Result<RawIncomingRequest, ErrorKind>)
    requires
        ps.len() == 5,
    ensures
        raw_result(r) == info_show_slots(items_view(ps@)),
{
    let a = match decode_line(&ps[0]) {
        Ok(x) => x,
        Err(e) => return Err(e),
    };
    let b = match decode_lines(&ps[1]) {
        Ok(x) => x,
        Err(e) => return Err(e),
    };
    let c = match decode_coord(&ps[2]) {
        Ok(x) => x,
        Err(e) => return Err(e),
    };
    let d = match decode_face(&ps[3]) {
        Ok(x) => x,
        Err(e) => return Err(e),
    };
    let e = match decode_string(&ps[4]) {
        Ok(x) => x,
        Err(e) => return Err(e),
    };
    Ok(RawIncomingRequest::InfoShow(a, b, c, d, e))
}

fn decode_set_cursor(ps: &Vec<JsonValue>) -> (r: Result<RawIncomingRequest, ErrorKind>)
    requires
        ps.len() == 2,
    ensures
        raw_result(r) == set_cursor_slots(items_view(ps@)),
{
    let a = match decode_string(&ps[0]) {
        Ok(x) => x,
        Err(e) => return Err(e),
    };
    let b = match decode_coord(&ps[1]) {
        Ok(x) => x,
        Err(e) => return Err(e),
    };
    Ok(RawIncomingRequest::SetCursor(a, b))
}

fn decode_set_ui_options(ps: &Vec<JsonValue>) -> (r: Result<RawIncomingRequest, ErrorKind>)
    requires
        ps.len() == 1,
    ensures
        raw_result(r) == set_ui_options_slots(items_view(ps@)),
{
    let a = match decode_options(&ps[0]) {
        Ok(x) => x,
        Err(e) => return Err(e),
    };
    Ok(RawIncomingRequest::SetUiOptions((a,)))
}

fn decode_refresh(ps: &Vec<JsonValue>) -> (r: Result<RawIncomingRequest, ErrorKind>)
    requires
        ps.len() == 1,
    ensures
        raw_result(r) == refresh_slots(items_view(ps@)),
{
    let a = match decode_bool(&ps[0]) {
        Ok(x) => x,
        Err(e) => return Err(e),
    };
    Ok(RawIncomingRequest::Refresh((a,)))
}

/// Decodes the params of method `m` into the wire shape.
fn decode_params(m: &str, ps: &Vec<JsonValue>) -> (r: Result<RawIncomingRequest, ErrorKind>)
    ensures
        raw_result(r) == params_of(m@, items_view(ps@)),
{
    let n = ps.len();
    if text_eq(m, "draw") {
        if n != 3 {
            return Err(ErrorKind::MalformedMessage);
        }
        decode_draw(ps)
    } else if text_eq(m, "draw_status") {
        if n != 3 {
            return Err(ErrorKind::MalformedMessage);
        }
        decode_draw_status(ps)
    } else if text_eq(m, "menu_show") {
        if n != 5 {
            return Err(ErrorKind::MalformedMessage);
        }
        decode_menu_show(ps)
    } else if text_eq(m, "menu_select") {
        if n != 1 {
            return Err(ErrorKind::MalformedMessage);
        }
        decode_menu_select(ps)
    } else if text_eq(m, "menu_hide") {
        if n != 0 {
            return Err(ErrorKind::MalformedMessage);
        }
        Ok(RawIncomingRequest::MenuHide)
    } else if text_eq(m, "info_show") {
        if n != 5 {
            return Err(ErrorKind::MalformedMessage);
        }
        decode_info_show(ps)
    } else if text_eq(m, "info_hide") {
        if n != 0 {
            return Err(ErrorKind::MalformedMessage);
        }
        Ok(RawIncomingRequest::InfoHide)
    } else if text_eq(m, "set_cursor") {
        if n != 2 {
            return Err(ErrorKind::MalformedMessage);
        }
        decode_set_cursor(ps)
    } else if text_eq(m, "set_ui_options") {
        if n != 1 {
            return Err(ErrorKind::MalformedMessage);
        }
        decode_set_ui_options(ps)
    } else if text_eq(m, "refresh") {
        if n != 1 {
            return Err(ErrorKind::MalformedMessage);
        }
        decode_refresh(ps)
    } else {
        Err(ErrorKind::MalformedMessage)
    }
}

/// Decodes a message into its envelope and wire shape.
pub fn decode_raw_incoming(v: &JsonValue) -> (r: Result<JsonRpc<RawIncomingRequest>, ErrorKind>)
    ensures
        match r {
            Ok(w) => {
                &&& incoming_of(v@) == Ok::<Incoming, Fault>(relabel(w.inner)@)
                &&& field_of(v@, "jsonrpc"@) == Some(Json::Str(w.jsonrpc@))
            },
            Err(e) => incoming_of(v@) == Err::<Incoming, Fault>(e@),
        },
{
    let version = field(v, "jsonrpc");
    let method = field(v, "method");
    let params = field(v, "params");
    match (version, method, params) {
        (Some(JsonValue::Str(version)), Some(JsonValue::Str(m)), Some(JsonValue::Array(ps))) => {
            assert(json_of(JsonValue::Array(*ps))->Array_0 == items_view(ps@));
            match decode_params(m.as_str(), ps) {
                Ok(inner) => Ok(JsonRpc { jsonrpc: version.clone(), inner }),
                Err(e) => Err(e),
            }
        },
        _ => Err(ErrorKind::MalformedMessage),
    }
}

impl IncomingRequest {
    /// Decodes one message: the structural decode into the wire shape, then
    /// the relabeling into named fields.
    pub fn decode(v: &JsonValue) -> (r: Result<IncomingRequest, ErrorKind>)
        ensures
            result_view(r) == incoming_of(v@),
    {
        match decode_raw_incoming(v) {
            Ok(w) => Ok(IncomingRequest::from(w.inner)),
            Err(e) => Err(e),
        }
    }
}

/// A known method whose params array has any length other than the
/// method's arity fails as malformed.
pub proof fn lemma_arity_mismatch(j: Json, m: Seq<char>, ps: Seq<Json>)
    requires
        field_of(j, "method"@) == Some(Json::Str(m)),
        field_of(j, "params"@) == Some(Json::Array(ps)),
        arity(m) is Some,
        ps.len() != arity(m)->0,
    ensures
        incoming_of(j) == Err::<Incoming, Fault>(Fault::MalformedMessage),
{
}

/// `menu_hide` and `info_hide` take exactly an empty params array: any
/// other array fails as malformed, and the empty one gives the request.
pub proof fn lemma_hide_takes_no_params(j: Json, ps: Seq<Json>)
    requires
        field_of(j, "method"@) == Some(Json::Str("menu_hide"@)) || field_of(j, "method"@)
            == Some(Json::Str("info_hide"@)),
        field_of(j, "jsonrpc"@) is Some && field_of(j, "jsonrpc"@)->0 is Str,
        field_of(j, "params"@) == Some(Json::Array(ps)),
    ensures
        ps.len() == 0 ==> incoming_of(j) is Ok,
        ps.len() != 0 ==> incoming_of(j) == Err::<Incoming, Fault>(Fault::MalformedMessage),
        ps.len() == 0 && field_of(j, "method"@) == Some(Json::Str("menu_hide"@)) ==> incoming_of(j)
            == Ok::<Incoming, Fault>(Incoming::MenuHide),
        ps.len() == 0 && field_of(j, "method"@) == Some(Json::Str("info_hide"@)) ==> incoming_of(j)
            == Ok::<Incoming, Fault>(Incoming::InfoHide),
{
    reveal_strlit("draw");
    reveal_strlit("draw_status");
    reveal_strlit("menu_show");
    reveal_strlit("menu_select");
    reveal_strlit("menu_hide");
    reveal_strlit("info_show");
    reveal_strlit("info_hide");
    assert("draw"@.len() == 4);
    assert("draw_status"@.len() == 11);
    assert("menu_show"@.len() == 9);
    assert("menu_select"@.len() == 11);
    assert("menu_hide"@.len() == 9);
    assert("info_show"@.len() == 9);
    assert("info_hide"@.len() == 9);
    assert("menu_show"@[5] != "menu_hide"@[5]);
    assert("info_show"@[0] != "menu_hide"@[0]);
    assert("info_show"@[5] != "info_hide"@[5]);
    assert("menu_hide"@[0] != "info_hide"@[0]);
    assert(arity("menu_hide"@) == Some(0nat));
    assert(arity("info_hide"@) == Some(0nat));
    assert(slots_of("menu_hide"@, ps) == menu_hide_slots(ps));
    assert(slots_of("info_hide"@, ps) == info_hide_slots(ps));
}

/// Decoding depends on the message alone: messages with the same model give
/// the same result, however many decodes run at once and in whatever order.
pub proof fn lemma_decode_deterministic(a: JsonValue, b: JsonValue)
    requires
        a@ == b@,
    ensures
        incoming_of(a@) == incoming_of(b@),
{
}

} // verus!
