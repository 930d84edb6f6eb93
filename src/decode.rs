//! Structural decoding of the values that incoming messages carry.

use vstd::prelude::*;
use crate::error::{result_view, ErrorKind, Fault};
use crate::face::{line_view, lines_view, attribute_of_token, color_of_token, Atom, Color, Face, KakAtom, KakAttribute, KakColor, KakCoord, KakFace, KakLine};
use crate::json::{text_eq, Json, JsonValue};

verus! {

broadcast use vstd::std_specs::vec::group_vec_axioms;

/// The value of the first entry of `es`, from index `i` on, whose key is `key`.
pub open spec fn field_from(es: Seq<(Seq<char>, Json)>, key: Seq<char>, i: int) -> Option<Json>
    decreases es.len() - i,
{
    if i < 0 || i >= es.len() {
        None
    } else if es[i].0 == key {
        Some(es[i].1)
    } else {
        field_from(es, key, i + 1)
    }
}

/// The value of the first member of object `j` named `key`; `None` when `j`
/// is no object or has no such member.
pub open spec fn field_of(j: Json, key: Seq<char>) -> Option<Json> {
    match j {
        Json::Object(es) => field_from(es, key, 0),
        _ => None,
    }
}

/// Decodes each item with `f`, in order; the first failure is the result.
pub open spec fn decode_all<T>(items: Seq<Json>, f: spec_fn(Json) -> Result<T, Fault>) -> Result<
    Seq<T>,
    Fault,
>
    decreases items.len(),
{
    if items.len() == 0 {
        Ok(Seq::empty())
    } else {
        match decode_all(items.drop_last(), f) {
            Ok(p) => match f(items.last()) {
                Ok(x) => Ok(p.push(x)),
                Err(e) => Err(e),
            },
            Err(e) => Err(e),
        }
    }
}

/// A failure among the first `i` items is the failure of the whole sequence.
pub proof fn lemma_decode_all_failure<T>(
    items: Seq<Json>,
    f: spec_fn(Json) -> Result<T, Fault>,
    i: int,
    n: int,
)
    requires
        0 <= i <= n <= items.len(),
        decode_all(items.take(i), f) is Err,
    ensures
        decode_all(items.take(n), f) == decode_all(items.take(i), f),
    decreases n - i,
{
    if n > i {
        lemma_decode_all_failure(items, f, i, n - 1);
        assert(items.take(n).drop_last() == items.take(n - 1));
    }
}

/// A non-negative integer that fits in a `u32`.
pub open spec fn u32_of(j: Json) -> Result<u32, Fault> {
    match j {
        Json::Number(n) => if n <= u32::MAX {
            Ok(n as u32)
        } else {
            Err(Fault::MalformedMessage)
        },
        _ => Err(Fault::MalformedMessage),
    }
}

/// A string.
pub open spec fn str_of(j: Json) -> Result<Seq<char>, Fault> {
    match j {
        Json::Str(s) => Ok(s),
        _ => Err(Fault::MalformedMessage),
    }
}

/// A boolean.
pub open spec fn bool_of(j: Json) -> Result<bool, Fault> {
    match j {
        Json::Bool(b) => Ok(b),
        _ => Err(Fault::MalformedMessage),
    }
}

/// A color token.
pub open spec fn color_of(j: Json) -> Result<Color, Fault> {
    match j {
        Json::Str(s) => color_of_token(s),
        _ => Err(Fault::MalformedMessage),
    }
}

/// An attribute token.
pub open spec fn attribute_of(j: Json) -> Result<KakAttribute, Fault> {
    match j {
        Json::Str(s) => attribute_of_token(s),
        _ => Err(Fault::MalformedMessage),
    }
}

/// [`attribute_of`] as a value.
pub open spec fn attribute_decoder() -> spec_fn(Json) -> Result<KakAttribute, Fault> {
    |j: Json| attribute_of(j)
}

/// An array of attribute tokens, order and duplicates kept.
pub open spec fn attributes_of(j: Json) -> Result<Seq<KakAttribute>, Fault> {
    match j {
        Json::Array(items) => decode_all(items, attribute_decoder()),
        _ => Err(Fault::MalformedMessage),
    }
}

/// A face: an object with members `fg`, `bg` and `attributes`, decoded in
/// that order.
pub open spec fn face_of(j: Json) -> Result<Face, Fault> {
    match (field_of(j, "fg"@), field_of(j, "bg"@), field_of(j, "attributes"@)) {
        (Some(f), Some(b), Some(a)) => match (color_of(f), color_of(b), attributes_of(a)) {
            (Ok(fg), Ok(bg), Ok(attributes)) => Ok(Face { fg, bg, attributes }),
            (Err(e), _, _) => Err(e),
            (_, Err(e), _) => Err(e),
            (_, _, Err(e)) => Err(e),
        },
        _ => Err(Fault::MalformedMessage),
    }
}

/// An atom: an object with members `face` and `contents`.
pub open spec fn atom_of(j: Json) -> Result<Atom, Fault> {
    match (field_of(j, "face"@), field_of(j, "contents"@)) {
        (Some(f), Some(c)) => match (face_of(f), str_of(c)) {
            (Ok(face), Ok(contents)) => Ok(Atom { face, contents }),
            (Err(e), _) => Err(e),
            (_, Err(e)) => Err(e),
        },
        _ => Err(Fault::MalformedMessage),
    }
}

/// [`atom_of`] as a value.
pub open spec fn atom_decoder() -> spec_fn(Json) -> Result<Atom, Fault> {
    |j: Json| atom_of(j)
}

/// A line: an array of atoms.
pub open spec fn line_of(j: Json) -> Result<Seq<Atom>, Fault> {
    match j {
        Json::Array(items) => decode_all(items, atom_decoder()),
        _ => Err(Fault::MalformedMessage),
    }
}

/// [`line_of`] as a value.
pub open spec fn line_decoder() -> spec_fn(Json) -> Result<Seq<Atom>, Fault> {
    |j: Json| line_of(j)
}

/// An array of lines.
pub open spec fn lines_of(j: Json) -> Result<Seq<Seq<Atom>>, Fault> {
    match j {
        Json::Array(items) => decode_all(items, line_decoder()),
        _ => Err(Fault::MalformedMessage),
    }
}

/// A coordinate: an object with members `line` and `column`.
pub open spec fn coord_of(j: Json) -> Result<KakCoord, Fault> {
    match (field_of(j, "line"@), field_of(j, "column"@)) {
        (Some(l), Some(c)) => match (u32_of(l), u32_of(c)) {
            (Ok(line), Ok(column)) => Ok(KakCoord { line, column }),
            _ => Err(Fault::MalformedMessage),
        },
        _ => Err(Fault::MalformedMessage),
    }
}

/// A mapping of strings to strings: an object whose members are all
/// strings, its entries in the object's order.
pub open spec fn options_of(j: Json) -> Result<Seq<(Seq<char>, Seq<char>)>, Fault> {
    match j {
        Json::Object(es) => if forall|i: int| 0 <= i < es.len() ==> (#[trigger] es[i]).1 is Str {
            Ok(es.map_values(|e: (Seq<char>, Json)| (e.0, e.1->Str_0)))
        } else {
            Err(Fault::MalformedMessage)
        },
        _ => Err(Fault::MalformedMessage),
    }
}

/// Finds the first member of an object named `key`.
pub fn field<'a>(v: &'a JsonValue, key: &str) -> (r: Option<&'a JsonValue>)
    ensures
        match r {
            Some(x) => field_of(v@, key@) == Some(x@),
            None => field_of(v@, key@) is None,
        },
{
    match v {
        JsonValue::Object(entries) => {
            let mut i: usize = 0;
            while i < entries.len()
                invariant
                    i <= entries.len(),
                    v@ is Object,
                    v@->Object_0.len() == entries.len(),
                    forall|k: int|
                        0 <= k < entries.len() ==> #[trigger] v@->Object_0[k] == (
                        entries[k].0@,
                        entries[k].1@,
                    ),
                    field_of(v@, key@) == field_from(v@->Object_0, key@, i as int),
                decreases entries.len() - i,
            {
                let e = &entries[i];
                if text_eq(e.0.as_str(), key) {
                    return Some(&e.1);
                }
                i = i + 1;
            }
            None
        },
        _ => None,
    }
}

/// The model of a mapping of strings to strings.
pub open spec fn options_view(o: Vec<(String, String)>) -> Seq<(Seq<char>, Seq<char>)> {
    o@.map_values(|e: (String, String)| (e.0@, e.1@))
}

/// Decodes a non-negative integer that fits in a `u32`.
pub fn decode_u32(v: &JsonValue) -> (r: Result<u32, ErrorKind>)
    ensures
        match r {
            Ok(n) => u32_of(v@) == Ok::<u32, Fault>(n),
            Err(e) => u32_of(v@) == Err::<u32, Fault>(e@),
        },
{
    match v {
        JsonValue::Number(n) => if *n <= u32::MAX as u64 {
            Ok(*n as u32)
        } else {
            Err(ErrorKind::MalformedMessage)
        },
        _ => Err(ErrorKind::MalformedMessage),
    }
}

/// Decodes a string.
pub fn decode_string(v: &JsonValue) -> (r: Result<String, ErrorKind>)
    ensures
        result_view(r) == str_of(v@),
{
    match v {
        JsonValue::Str(s) => Ok(s.clone()),
        _ => Err(ErrorKind::MalformedMessage),
    }
}

/// Decodes a boolean.
pub fn decode_bool(v: &JsonValue) -> (r: Result<bool, ErrorKind>)
    ensures
        match r {
            Ok(b) => bool_of(v@) == Ok::<bool, Fault>(b),
            Err(e) => bool_of(v@) == Err::<bool, Fault>(e@),
        },
{
    match v {
        JsonValue::Bool(b) => Ok(*b),
        _ => Err(ErrorKind::MalformedMessage),
    }
}

/// Decodes a color token.
pub fn decode_color(v: &JsonValue) -> (r: Result<KakColor, ErrorKind>)
    ensures
        result_view(r) == color_of(v@),
{
    match v {
        JsonValue::Str(s) => KakColor::from_token(s.as_str()),
        _ => Err(ErrorKind::MalformedMessage),
    }
}

/// Decodes an attribute token.
pub fn decode_attribute(v: &JsonValue) -> (r: Result<KakAttribute, ErrorKind>)
    ensures
        result_view(r) == attribute_of(v@),
{
    match v {
        JsonValue::Str(s) => KakAttribute::from_token(s.as_str()),
        _ => Err(ErrorKind::MalformedMessage),
    }
}

/// Decodes an array of attribute tokens.
pub fn decode_attributes(v: &JsonValue) -> (r: Result<Vec<KakAttribute>, ErrorKind>)
    ensures
        match r {
            Ok(a) => attributes_of(v@) == Ok::<Seq<KakAttribute>, Fault>(a@),
            Err(e) => attributes_of(v@) == Err::<Seq<KakAttribute>, Fault>(e@),
        },
{
    match v {
        JsonValue::Array(items) => {
            let ghost js = v@->Array_0;
            let mut out: Vec<KakAttribute> = Vec::new();
            let mut i: usize = 0;
            while i < items.len()
                invariant
                    i <= items.len(),
                    v@ == Json::Array(js),
                    js.len() == items.len(),
                    forall|k: int| 0 <= k < items.len() ==> #[trigger] js[k] == items[k]@,
                    decode_all(js.take(i as int), attribute_decoder()) == Ok::<
                        Seq<KakAttribute>,
                        Fault,
                    >(out@),
                decreases items.len() - i,
            {
                let d = decode_attribute(&items[i]);
                assert(js.take(i + 1).drop_last() == js.take(i as int));
                assert(js.take(i + 1).last() == js[i as int]);
                match d {
                    Ok(a) => {
                        out.push(a);
                    },
                    Err(e) => {
                        proof {
                            lemma_decode_all_failure(js, attribute_decoder(), i + 1, js.len() as int);
                            assert(js.take(js.len() as int) == js);
                        }
                        return Err(e);
                    },
                }
                i = i + 1;
            }
            assert(js.take(i as int) == js);
            Ok(out)
        },
        _ => Err(ErrorKind::MalformedMessage),
    }
}

/// Decodes a face.
pub fn decode_face(v: &JsonValue) -> (r: Result<KakFace, ErrorKind>)
    ensures
        result_view(r) == face_of(v@),
{
    let f = field(v, "fg");
    let b = field(v, "bg");
    let a = field(v, "attributes");
    match (f, b, a) {
        (Some(f), Some(b), Some(a)) => {
            let fg = match decode_color(f) {
                Ok(c) => c,
                Err(e) => return Err(e),
            };
            let bg = match decode_color(b) {
                Ok(c) => c,
                Err(e) => return Err(e),
            };
            let attributes = match decode_attributes(a) {
                Ok(x) => x,
                Err(e) => return Err(e),
            };
            Ok(KakFace { fg, bg, attributes })
        },
        _ => Err(ErrorKind::MalformedMessage),
    }
}

/// Decodes an atom.
pub fn decode_atom(v: &JsonValue) -> (r: Result<KakAtom, ErrorKind>)
    ensures
        result_view(r) == atom_of(v@),
{
    let f = field(v, "face");
    let c = field(v, "contents");
    match (f, c) {
        (Some(f), Some(c)) => {
            let face = match decode_face(f) {
                Ok(x) => x,
                Err(e) => return Err(e),
            };
            let contents = match decode_string(c) {
                Ok(x) => x,
                Err(e) => return Err(e),
            };
            Ok(KakAtom { face, contents })
        },
        _ => Err(ErrorKind::MalformedMessage),
    }
}

/// Decodes a line.
pub fn decode_line(v: &JsonValue) -> (r: Result<KakLine, ErrorKind>)
    ensures
        match r {
            Ok(l) => line_of(v@) == Ok::<Seq<Atom>, Fault>(line_view(l)),
            Err(e) => line_of(v@) == Err::<Seq<Atom>, Fault>(e@),
        },
{
    match v {
        JsonValue::Array(items) => {
            let ghost js = v@->Array_0;
            let mut out: Vec<KakAtom> = Vec::new();
            let mut i: usize = 0;
            assert(line_view(out) == Seq::<Atom>::empty());
            while i < items.len()
                invariant
                    i <= items.len(),
                    v@ == Json::Array(js),
                    js.len() == items.len(),
                    forall|k: int| 0 <= k < items.len() ==> #[trigger] js[k] == items[k]@,
                    decode_all(js.take(i as int), atom_decoder()) == Ok::<Seq<Atom>, Fault>(
                        line_view(out),
                    ),
                decreases items.len() - i,
            {
                let d = decode_atom(&items[i]);
                assert(js.take(i + 1).drop_last() == js.take(i as int));
                assert(js.take(i + 1).last() == js[i as int]);
                match d {
                    Ok(a) => {
                        let ghost before = out;
                        out.push(a);
                        assert(line_view(out) == line_view(before).push(a@));
                    },
                    Err(e) => {
                        proof {
                            lemma_decode_all_failure(js, atom_decoder(), i + 1, js.len() as int);
                            assert(js.take(js.len() as int) == js);
                        }
                        return Err(e);
                    },
                }
                i = i + 1;
            }
            assert(js.take(i as int) == js);
            Ok(out)
        },
        _ => Err(ErrorKind::MalformedMessage),
    }
}

/// Decodes an array of lines.
pub fn decode_lines(v: &JsonValue) -> (r: Result<Vec<KakLine>, ErrorKind>)
    ensures
        match r {
            Ok(l) => lines_of(v@) == Ok::<Seq<Seq<Atom>>, Fault>(lines_view(l)),
            Err(e) => lines_of(v@) == Err::<Seq<Seq<Atom>>, Fault>(e@),
        },
{
    match v {
        JsonValue::Array(items) => {
            let ghost js = v@->Array_0;
            let mut out: Vec<KakLine> = Vec::new();
            let mut i: usize = 0;
            assert(lines_view(out) == Seq::<Seq<Atom>>::empty());
            while i < items.len()
                invariant
                    i <= items.len(),
                    v@ == Json::Array(js),
                    js.len() == items.len(),
                    forall|k: int| 0 <= k < items.len() ==> #[trigger] js[k] == items[k]@,
                    decode_all(js.take(i as int), line_decoder()) == Ok::<
                        Seq<Seq<Atom>>,
                        Fault,
                    >(lines_view(out)),
                decreases items.len() - i,
            {
                let d = decode_line(&items[i]);
                assert(js.take(i + 1).drop_last() == js.take(i as int));
                assert(js.take(i + 1).last() == js[i as int]);
                match d {
                    Ok(l) => {
                        let ghost before = out;
                        let ghost lv = line_view(l);
                        out.push(l);
                        assert(lines_view(out) == lines_view(before).push(lv));
                    },
                    Err(e) => {
                        proof {
                            lemma_decode_all_failure(js, line_decoder(), i + 1, js.len() as int);
                            assert(js.take(js.len() as int) == js);
                        }
                        return Err(e);
                    },
                }
                i = i + 1;
            }
            assert(js.take(i as int) == js);
            Ok(out)
        },
        _ => Err(ErrorKind::MalformedMessage),
    }
}

/// Decodes a coordinate.
pub fn decode_coord(v: &JsonValue) -> (r: Result<KakCoord, ErrorKind>)
    ensures
        result_view(r) == coord_of(v@),
{
    let l = field(v, "line");
    let c = field(v, "column");
    match (l, c) {
        (Some(l), Some(c)) => {
            let line = match decode_u32(l) {
                Ok(x) => x,
                Err(e) => return Err(e),
            };
            let column = match decode_u32(c) {
                Ok(x) => x,
                Err(e) => return Err(e),
            };
            Ok(KakCoord { line, column })
        },
        _ => Err(ErrorKind::MalformedMessage),
    }
}

/// Decodes a mapping of strings to strings.
pub fn decode_options(v: &JsonValue) -> (r: Result<Vec<(String, String)>, ErrorKind>)
    ensures
        match r {
            Ok(o) => options_of(v@) == Ok::<Seq<(Seq<char>, Seq<char>)>, Fault>(options_view(o)),
            Err(e) => options_of(v@) == Err::<Seq<(Seq<char>, Seq<char>)>, Fault>(e@),
        },
{
    match v {
        JsonValue::Object(entries) => {
            let ghost es = v@->Object_0;
            let mut out: Vec<(String, String)> = Vec::new();
            let mut i: usize = 0;
            while i < entries.len()
                invariant
                    i <= entries.len(),
                    v@ == Json::Object(es),
                    es.len() == entries.len(),
                    forall|k: int|
                        0 <= k < entries.len() ==> #[trigger] es[k] == (
                            entries[k].0@,
                            entries[k].1@,
                        ),
                    out@.len() == i,
                    forall|k: int| 0 <= k < i ==> (#[trigger] es[k]).1 is Str,
                    forall|k: int|
                        0 <= k < i ==> #[trigger] options_view(out)[k] == (
                            es[k].0,
                            es[k].1->Str_0,
                        ),
                decreases entries.len() - i,
            {
                let e = &entries[i];
                match &e.1 {
                    JsonValue::Str(s) => {
                        let ghost before = out;
                        out.push((e.0.clone(), s.clone()));
                        assert(options_view(out) == options_view(before).push((es[i as int].0, s@)));
                    },
                    _ => {
                        assert(!(es[i as int].1 is Str));
                        return Err(ErrorKind::MalformedMessage);
                    },
                }
                i = i + 1;
            }
            assert(options_view(out) == es.map_values(
                |e: (Seq<char>, Json)| (e.0, e.1->Str_0),
            ));
            Ok(out)
        },
        _ => Err(ErrorKind::MalformedMessage),
    }
}

} // verus!
