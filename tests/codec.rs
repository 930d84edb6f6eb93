use kak_ui::decode::{decode_face, decode_line};
use kak_ui::incoming::decode_raw_incoming;
use kak_ui::outgoing::encode_raw_outgoing;
use kak_ui::{
    ErrorKind, IncomingRequest, JsonRpc, JsonValue, KakAttribute, KakColor, OutgoingRequest,
    RawIncomingRequest, RawOutgoingRequest,
};

fn s(x: &str) -> JsonValue {
    JsonValue::Str(x.to_string())
}

fn n(x: u64) -> JsonValue {
    JsonValue::Number(x)
}

fn arr(items: Vec<JsonValue>) -> JsonValue {
    JsonValue::Array(items)
}

fn obj(entries: Vec<(&str, JsonValue)>) -> JsonValue {
    JsonValue::Object(entries.into_iter().map(|(k, v)| (k.to_string(), v)).collect())
}

fn face(fg: &str, bg: &str, attributes: Vec<&str>) -> JsonValue {
    obj(vec![
        ("fg", s(fg)),
        ("bg", s(bg)),
        ("attributes", arr(attributes.into_iter().map(s).collect())),
    ])
}

fn atom(contents: &str) -> JsonValue {
    obj(vec![("face", face("default", "default", vec![])), ("contents", s(contents))])
}

fn coord(line: u64, column: u64) -> JsonValue {
    obj(vec![("line", n(line)), ("column", n(column))])
}

fn message(method: &str, params: Vec<JsonValue>) -> JsonValue {
    obj(vec![("jsonrpc", s("2.0")), ("method", s(method)), ("params", arr(params))])
}

fn dbg<T: std::fmt::Debug>(x: &T) -> String {
    format!("{:?}", x)
}

#[test]
fn color_black() {
    assert!(matches!(KakColor::from_token("black"), Ok(KakColor::Black)));
}

#[test]
fn color_keywords() {
    assert!(matches!(KakColor::from_token("red"), Ok(KakColor::Red)));
    assert!(matches!(KakColor::from_token("green"), Ok(KakColor::Green)));
    assert!(matches!(KakColor::from_token("yellow"), Ok(KakColor::Yellow)));
    assert!(matches!(KakColor::from_token("blue"), Ok(KakColor::Blue)));
    assert!(matches!(KakColor::from_token("purple"), Ok(KakColor::Purple)));
    assert!(matches!(KakColor::from_token("cyan"), Ok(KakColor::Cyan)));
    assert!(matches!(KakColor::from_token("white"), Ok(KakColor::White)));
    assert!(matches!(KakColor::from_token("default"), Ok(KakColor::Default)));
}

#[test]
fn color_keywords_are_case_sensitive() {
    assert!(matches!(KakColor::from_token("Black"), Err(ErrorKind::InvalidColor(t)) if t == "Black"));
}

#[test]
fn color_rgb() {
    match KakColor::from_token("rgb:ff0000") {
        Ok(KakColor::RGB(p)) => assert_eq!(p, "ff0000"),
        other => panic!("unexpected {:?}", other),
    }
}

#[test]
fn color_rgba() {
    match KakColor::from_token("rgba:ff0000ff") {
        Ok(KakColor::RGBA(p)) => assert_eq!(p, "ff0000ff"),
        other => panic!("unexpected {:?}", other),
    }
}

#[test]
fn color_payload_is_verbatim() {
    match KakColor::from_token("rgb:not-hex") {
        Ok(KakColor::RGB(p)) => assert_eq!(p, "not-hex"),
        other => panic!("unexpected {:?}", other),
    }
    match KakColor::from_token("rgb:") {
        Ok(KakColor::RGB(p)) => assert_eq!(p, ""),
        other => panic!("unexpected {:?}", other),
    }
}

#[test]
fn color_unknown_keyword() {
    assert!(
        matches!(KakColor::from_token("chartreuse"), Err(ErrorKind::InvalidColor(t)) if t == "chartreuse")
    );
}

#[test]
fn color_shorter_than_prefix() {
    assert!(matches!(KakColor::from_token("rgb"), Err(ErrorKind::InvalidColor(t)) if t == "rgb"));
    assert!(matches!(KakColor::from_token("rgba"), Err(ErrorKind::InvalidColor(t)) if t == "rgba"));
    assert!(matches!(KakColor::from_token(""), Err(ErrorKind::InvalidColor(t)) if t.is_empty()));
    assert!(matches!(KakColor::from_token("r"), Err(ErrorKind::InvalidColor(_))));
}

#[test]
fn attribute_tokens() {
    assert!(matches!(KakAttribute::from_token("underline"), Ok(KakAttribute::Underline)));
    assert!(matches!(KakAttribute::from_token("reverse"), Ok(KakAttribute::Reverse)));
    assert!(matches!(KakAttribute::from_token("blink"), Ok(KakAttribute::Blink)));
    assert!(matches!(KakAttribute::from_token("bold"), Ok(KakAttribute::Bold)));
    assert!(matches!(KakAttribute::from_token("dim"), Ok(KakAttribute::Dim)));
    assert!(matches!(KakAttribute::from_token("italic"), Ok(KakAttribute::Italic)));
    assert!(matches!(KakAttribute::from_token("final_fg"), Ok(KakAttribute::FinalFg)));
    assert!(matches!(KakAttribute::from_token("final_bg"), Ok(KakAttribute::FinalBg)));
    assert!(matches!(KakAttribute::from_token("final_attr"), Ok(KakAttribute::FinalAttr)));
}

#[test]
fn attribute_unknown() {
    assert!(
        matches!(KakAttribute::from_token("FinalFg"), Err(ErrorKind::InvalidAttribute(t)) if t == "FinalFg")
    );
}

#[test]
fn face_keeps_attribute_order_and_duplicates() {
    let f = decode_face(&face("red", "rgb:00ff00", vec!["bold", "dim", "bold"])).unwrap();
    assert!(matches!(f.fg, KakColor::Red));
    assert!(matches!(&f.bg, KakColor::RGB(p) if p == "00ff00"));
    assert_eq!(f.attributes, vec![KakAttribute::Bold, KakAttribute::Dim, KakAttribute::Bold]);
}

#[test]
fn face_missing_member() {
    let v = obj(vec![("fg", s("red")), ("attributes", arr(vec![]))]);
    assert!(matches!(decode_face(&v), Err(ErrorKind::MalformedMessage)));
}

#[test]
fn face_invalid_attribute() {
    let v = face("red", "blue", vec!["bold", "shiny"]);
    assert!(matches!(decode_face(&v), Err(ErrorKind::InvalidAttribute(t)) if t == "shiny"));
}

#[test]
fn face_first_failure_wins() {
    let v = face("mauve", "taupe", vec![]);
    assert!(matches!(decode_face(&v), Err(ErrorKind::InvalidColor(t)) if t == "mauve"));
}

#[test]
fn line_keeps_atom_order() {
    let l = decode_line(&arr(vec![atom("a"), atom("b"), atom("c")])).unwrap();
    let contents: Vec<&str> = l.iter().map(|a| a.contents.as_str()).collect();
    assert_eq!(contents, vec!["a", "b", "c"]);
}

#[test]
fn decode_draw() {
    let v = message(
        "draw",
        vec![
            arr(vec![arr(vec![atom("hello"), atom(" world")]), arr(vec![])]),
            face("white", "black", vec!["bold"]),
            face("blue", "default", vec![]),
        ],
    );
    match IncomingRequest::decode(&v).unwrap() {
        IncomingRequest::Draw { lines, default_face, padding_face } => {
            assert_eq!(lines.len(), 2);
            assert_eq!(lines[0][0].contents, "hello");
            assert_eq!(lines[0][1].contents, " world");
            assert!(lines[1].is_empty());
            assert!(matches!(default_face.fg, KakColor::White));
            assert_eq!(default_face.attributes, vec![KakAttribute::Bold]);
            assert!(matches!(padding_face.fg, KakColor::Blue));
        },
        other => panic!("unexpected {:?}", other),
    }
}

#[test]
fn decode_draw_status() {
    let v = message(
        "draw_status",
        vec![arr(vec![atom(":")]), arr(vec![atom("insert")]), face("default", "red", vec![])],
    );
    match IncomingRequest::decode(&v).unwrap() {
        IncomingRequest::DrawStatus { status_line, mode_line, default_face } => {
            assert_eq!(status_line[0].contents, ":");
            assert_eq!(mode_line[0].contents, "insert");
            assert!(matches!(default_face.bg, KakColor::Red));
        },
        other => panic!("unexpected {:?}", other),
    }
}

#[test]
fn decode_menu_show() {
    let v = message(
        "menu_show",
        vec![
            arr(vec![arr(vec![atom("one")]), arr(vec![atom("two")])]),
            coord(3, 7),
            face("black", "white", vec![]),
            face("white", "black", vec![]),
            s("prompt"),
        ],
    );
    match IncomingRequest::decode(&v).unwrap() {
        IncomingRequest::MenuShow { items, anchor, selected_item_face, menu_face, style } => {
            assert_eq!(items.len(), 2);
            assert_eq!(items[1][0].contents, "two");
            assert_eq!((anchor.line, anchor.column), (3, 7));
            assert!(matches!(selected_item_face.fg, KakColor::Black));
            assert!(matches!(menu_face.fg, KakColor::White));
            assert_eq!(style, "prompt");
        },
        other => panic!("unexpected {:?}", other),
    }
}

#[test]
fn decode_menu_select() {
    let v = message("menu_select", vec![n(4)]);
    assert!(matches!(IncomingRequest::decode(&v), Ok(IncomingRequest::MenuSelect { selected: 4 })));
}

#[test]
fn menu_select_arity_mismatch() {
    let none = message("menu_select", vec![]);
    assert!(matches!(IncomingRequest::decode(&none), Err(ErrorKind::MalformedMessage)));
    let two = message("menu_select", vec![n(1), n(2)]);
    assert!(matches!(IncomingRequest::decode(&two), Err(ErrorKind::MalformedMessage)));
}

#[test]
fn decode_menu_hide() {
    let v = message("menu_hide", vec![]);
    assert!(matches!(IncomingRequest::decode(&v), Ok(IncomingRequest::MenuHide)));
}

#[test]
fn menu_hide_rejects_params() {
    let v = message("menu_hide", vec![n(1)]);
    assert!(matches!(IncomingRequest::decode(&v), Err(ErrorKind::MalformedMessage)));
}

#[test]
fn decode_info_show() {
    let v = message(
        "info_show",
        vec![
            arr(vec![atom("title")]),
            arr(vec![arr(vec![atom("line 1")]), arr(vec![atom("line 2")])]),
            coord(0, 1),
            face("cyan", "purple", vec!["italic"]),
            s("menu"),
        ],
    );
    match IncomingRequest::decode(&v).unwrap() {
        IncomingRequest::InfoShow { title, content, anchor, face, style } => {
            assert_eq!(title[0].contents, "title");
            assert_eq!(content[1][0].contents, "line 2");
            assert_eq!((anchor.line, anchor.column), (0, 1));
            assert!(matches!(face.bg, KakColor::Purple));
            assert_eq!(style, "menu");
        },
        other => panic!("unexpected {:?}", other),
    }
}

#[test]
fn decode_info_hide() {
    let v = message("info_hide", vec![]);
    assert!(matches!(IncomingRequest::decode(&v), Ok(IncomingRequest::InfoHide)));
}

#[test]
fn info_hide_rejects_params() {
    let v = message("info_hide", vec![arr(vec![])]);
    assert!(matches!(IncomingRequest::decode(&v), Err(ErrorKind::MalformedMessage)));
}

#[test]
fn decode_set_cursor() {
    let v = message("set_cursor", vec![s("buffer"), coord(12, 34)]);
    match IncomingRequest::decode(&v).unwrap() {
        IncomingRequest::SetCursor { mode, coord } => {
            assert_eq!(mode, "buffer");
            assert_eq!((coord.line, coord.column), (12, 34));
        },
        other => panic!("unexpected {:?}", other),
    }
}

#[test]
fn decode_set_ui_options() {
    let v = message("set_ui_options", vec![obj(vec![("a", s("1")), ("b", s("two"))])]);
    match IncomingRequest::decode(&v).unwrap() {
        IncomingRequest::SetUiOptions { options } => {
            assert_eq!(
                options,
                vec![("a".to_string(), "1".to_string()), ("b".to_string(), "two".to_string())]
            );
        },
        other => panic!("unexpected {:?}", other),
    }
}

#[test]
fn set_ui_options_needs_string_values() {
    let v = message("set_ui_options", vec![obj(vec![("a", n(1))])]);
    assert!(matches!(IncomingRequest::decode(&v), Err(ErrorKind::MalformedMessage)));
}

#[test]
fn decode_refresh() {
    let v = message("refresh", vec![JsonValue::Bool(true)]);
    assert!(matches!(IncomingRequest::decode(&v), Ok(IncomingRequest::Refresh { force: true })));
}

#[test]
fn refresh_needs_bool() {
    let v = message("refresh", vec![s("true")]);
    assert!(matches!(IncomingRequest::decode(&v), Err(ErrorKind::MalformedMessage)));
}

#[test]
fn unknown_method() {
    let v = message("launch_rockets", vec![]);
    assert!(matches!(IncomingRequest::decode(&v), Err(ErrorKind::MalformedMessage)));
}

#[test]
fn missing_version_marker() {
    let v = obj(vec![("method", s("menu_hide")), ("params", arr(vec![]))]);
    assert!(matches!(IncomingRequest::decode(&v), Err(ErrorKind::MalformedMessage)));
}

#[test]
fn version_marker_value_not_checked() {
    let v = obj(vec![("jsonrpc", s("1.0")), ("method", s("menu_hide")), ("params", arr(vec![]))]);
    assert!(matches!(IncomingRequest::decode(&v), Ok(IncomingRequest::MenuHide)));
}

#[test]
fn missing_params() {
    let v = obj(vec![("jsonrpc", s("2.0")), ("method", s("menu_hide"))]);
    assert!(matches!(IncomingRequest::decode(&v), Err(ErrorKind::MalformedMessage)));
}

#[test]
fn message_not_an_object() {
    assert!(matches!(IncomingRequest::decode(&arr(vec![])), Err(ErrorKind::MalformedMessage)));
    assert!(matches!(IncomingRequest::decode(&JsonValue::Null), Err(ErrorKind::MalformedMessage)));
}

#[test]
fn number_beyond_u32() {
    let v = message("menu_select", vec![n(1u64 << 32)]);
    assert!(matches!(IncomingRequest::decode(&v), Err(ErrorKind::MalformedMessage)));
    let max = message("menu_select", vec![n(u32::MAX as u64)]);
    assert!(matches!(
        IncomingRequest::decode(&max),
        Ok(IncomingRequest::MenuSelect { selected }) if selected == u32::MAX
    ));
}

#[test]
fn invalid_color_inside_draw() {
    let v = message(
        "draw",
        vec![arr(vec![]), face("chartreuse", "black", vec![]), face("black", "black", vec![])],
    );
    assert!(matches!(IncomingRequest::decode(&v), Err(ErrorKind::InvalidColor(t)) if t == "chartreuse"));
}

#[test]
fn raw_decode_keeps_envelope() {
    let v = message("menu_select", vec![n(9)]);
    let w = decode_raw_incoming(&v).unwrap();
    assert_eq!(w.jsonrpc, "2.0");
    assert!(matches!(w.inner, RawIncomingRequest::MenuSelect((9,))));
    assert!(matches!(IncomingRequest::from(w.inner), IncomingRequest::MenuSelect { selected: 9 }));
}

#[test]
fn relabel_set_cursor() {
    let raw = RawIncomingRequest::SetCursor(
        "prompt".to_string(),
        kak_ui::KakCoord { line: 1, column: 2 },
    );
    match IncomingRequest::from(raw) {
        IncomingRequest::SetCursor { mode, coord } => {
            assert_eq!(mode, "prompt");
            assert_eq!((coord.line, coord.column), (1, 2));
        },
        other => panic!("unexpected {:?}", other),
    }
}

#[test]
fn decode_is_the_same_in_any_order() {
    let msgs = vec![
        message("menu_select", vec![n(1)]),
        message("refresh", vec![JsonValue::Bool(false)]),
        message("menu_hide", vec![n(1)]),
        message("set_cursor", vec![s("buffer"), coord(2, 3)]),
    ];
    let forward: Vec<String> = msgs.iter().map(|m| dbg(&IncomingRequest::decode(m))).collect();
    let mut backward: Vec<String> =
        msgs.iter().rev().map(|m| dbg(&IncomingRequest::decode(m))).collect();
    backward.reverse();
    assert_eq!(forward, backward);
}

#[test]
fn json_rpc_new_sets_version() {
    let w = JsonRpc::new(5u32);
    assert_eq!(w.jsonrpc, "2.0");
    assert_eq!(w.inner, 5);
}

fn params_of(v: &JsonValue) -> &Vec<JsonValue> {
    match v {
        JsonValue::Object(es) => {
            assert_eq!(es.len(), 3);
            assert_eq!(es[0].0, "jsonrpc");
            assert!(matches!(&es[0].1, JsonValue::Str(x) if x == "2.0"));
            assert_eq!(es[1].0, "method");
            assert_eq!(es[2].0, "params");
            match &es[2].1 {
                JsonValue::Array(ps) => ps,
                other => panic!("unexpected {:?}", other),
            }
        },
        other => panic!("unexpected {:?}", other),
    }
}

fn method_of(v: &JsonValue) -> String {
    match v {
        JsonValue::Object(es) => match &es[1].1 {
            JsonValue::Str(m) => m.clone(),
            other => panic!("unexpected {:?}", other),
        },
        other => panic!("unexpected {:?}", other),
    }
}

#[test]
fn keys_params_are_the_keys() {
    let v = OutgoingRequest::Keys(vec!["a".to_string(), "b".to_string()]).to_json();
    assert_eq!(method_of(&v), "keys");
    let ps = params_of(&v);
    assert_eq!(ps.len(), 2);
    assert!(matches!(&ps[0], JsonValue::Str(x) if x == "a"));
    assert!(matches!(&ps[1], JsonValue::Str(x) if x == "b"));
}

#[test]
fn keys_empty() {
    let v = OutgoingRequest::Keys(vec![]).to_json();
    assert!(params_of(&v).is_empty());
}

#[test]
fn encode_resize() {
    let v = OutgoingRequest::Resize { rows: 24, columns: 80 }.to_json();
    assert_eq!(method_of(&v), "resize");
    let ps = params_of(&v);
    assert!(matches!(ps[..], [JsonValue::Number(24), JsonValue::Number(80)]));
}

#[test]
fn encode_scroll() {
    let v = OutgoingRequest::Scroll { amount: 3 }.to_json();
    assert_eq!(method_of(&v), "scroll");
    assert!(matches!(params_of(&v)[..], [JsonValue::Number(3)]));
}

#[test]
fn encode_mouse_move() {
    let v = OutgoingRequest::MouseMove { line: 5, column: 6 }.to_json();
    assert_eq!(method_of(&v), "mouse_move");
    assert!(matches!(params_of(&v)[..], [JsonValue::Number(5), JsonValue::Number(6)]));
}

#[test]
fn encode_mouse_press() {
    let v = OutgoingRequest::MousePress { button: "left".to_string(), line: 1, column: 2 }.to_json();
    assert_eq!(method_of(&v), "mouse_press");
    let ps = params_of(&v);
    assert!(matches!(&ps[0], JsonValue::Str(b) if b == "left"));
    assert!(matches!(ps[1..], [JsonValue::Number(1), JsonValue::Number(2)]));
}

#[test]
fn encode_mouse_release() {
    let v =
        OutgoingRequest::MouseRelease { button: "right".to_string(), line: 7, column: 8 }.to_json();
    assert_eq!(method_of(&v), "mouse_release");
    let ps = params_of(&v);
    assert!(matches!(&ps[0], JsonValue::Str(b) if b == "right"));
    assert!(matches!(ps[1..], [JsonValue::Number(7), JsonValue::Number(8)]));
}

#[test]
fn encode_menu_select() {
    let v = OutgoingRequest::MenuSelect { index: 2 }.to_json();
    assert_eq!(method_of(&v), "menu_select");
    assert!(matches!(params_of(&v)[..], [JsonValue::Number(2)]));
}

#[test]
fn encode_is_deterministic() {
    let req = OutgoingRequest::MousePress { button: "left".to_string(), line: 1, column: 2 };
    let a = req.clone().to_json();
    let b = req.to_json();
    assert_eq!(dbg(&a), dbg(&b));
}

#[test]
fn raw_outgoing_keeps_slots() {
    let raw = RawOutgoingRequest::from(OutgoingRequest::Resize { rows: 1, columns: 2 });
    assert!(matches!(raw, RawOutgoingRequest::Resize(1, 2)));
    let v = encode_raw_outgoing(&JsonRpc::new(raw));
    assert_eq!(method_of(&v), "resize");
}
