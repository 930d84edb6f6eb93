//! Colors, attributes, faces, atoms and coordinates, with their models and
//! the decoding of color and attribute tokens.

use vstd::prelude::*;
use crate::error::{ErrorKind, Fault};
use crate::json::{text_eq, text_starts_with};

verus! {

/// A color in kakoune: a named color, or an `rgb:` / `rgba:` form whose
/// payload is kept verbatim.
#[derive(Debug, Clone)]
pub enum KakColor {
    RGB(String),
    RGBA(String),
    Black,
    Red,
    Green,
    Yellow,
    Blue,
    Purple,
    Cyan,
    White,
    Default,
}

/// The model of a [`KakColor`].
pub enum Color {
    RGB(Seq<char>),
    RGBA(Seq<char>),
    Black,
    Red,
    Green,
    Yellow,
    Blue,
    Purple,
    Cyan,
    White,
    Default,
}

impl View for KakColor {
    type V = Color;

    open spec fn view(&self) -> Color {
        match self {
            KakColor::RGB(s) => Color::RGB(s@),
            KakColor::RGBA(s) => Color::RGBA(s@),
            KakColor::Black => Color::Black,
            KakColor::Red => Color::Red,
            KakColor::Green => Color::Green,
            KakColor::Yellow => Color::Yellow,
            KakColor::Blue => Color::Blue,
            KakColor::Purple => Color::Purple,
            KakColor::Cyan => Color::Cyan,
            KakColor::White => Color::White,
            KakColor::Default => Color::Default,
        }
    }
}

/// The color that a token denotes: one of the nine keywords, matched
/// exactly, else the rest of a token that begins with `rgb:` or `rgba:`.
pub open spec fn color_of_token(s: Seq<char>) -> Result<Color, Fault> {
    if s == "black"@ {
        Ok(Color::Black)
    } else if s == "red"@ {
        Ok(Color::Red)
    } else if s == "green"@ {
        Ok(Color::Green)
    } else if s == "yellow"@ {
        Ok(Color::Yellow)
    } else if s == "blue"@ {
        Ok(Color::Blue)
    } else if s == "purple"@ {
        Ok(Color::Purple)
    } else if s == "cyan"@ {
        Ok(Color::Cyan)
    } else if s == "white"@ {
        Ok(Color::White)
    } else if s == "default"@ {
        Ok(Color::Default)
    } else if s.len() >= 4 && s.take(4) == "rgb:"@ {
        Ok(Color::RGB(s.skip(4)))
    } else if s.len() >= 5 && s.take(5) == "rgba:"@ {
        Ok(Color::RGBA(s.skip(5)))
    } else {
        Err(Fault::InvalidColor(s))
    }
}

impl KakColor {
    /// Decodes a color token.
    pub fn from_token(s: &str) -> (r: Result<KakColor, ErrorKind>)
        ensures
            crate::error::result_view(r) == color_of_token(s@),
    {
        if text_eq(s, "black") {
            Ok(KakColor::Black)
        } else if text_eq(s, "red") {
            Ok(KakColor::Red)
        } else if text_eq(s, "green") {
            Ok(KakColor::Green)
        } else if text_eq(s, "yellow") {
            Ok(KakColor::Yellow)
        } else if text_eq(s, "blue") {
            Ok(KakColor::Blue)
        } else if text_eq(s, "purple") {
            Ok(KakColor::Purple)
        } else if text_eq(s, "cyan") {
            Ok(KakColor::Cyan)
        } else if text_eq(s, "white") {
            Ok(KakColor::White)
        } else if text_eq(s, "default") {
            Ok(KakColor::Default)
        } else if text_starts_with(s, "rgb:") {
            proof {
                reveal_strlit("rgb:");
            }
            let n = s.unicode_len();
            Ok(KakColor::RGB(s.substring_char(4, n).to_owned()))
        } else if text_starts_with(s, "rgba:") {
            proof {
                reveal_strlit("rgba:");
            }
            let n = s.unicode_len();
            Ok(KakColor::RGBA(s.substring_char(5, n).to_owned()))
        } else {
            proof {
                reveal_strlit("rgb:");
                reveal_strlit("rgba:");
            }
            Err(ErrorKind::InvalidColor(s.to_owned()))
        }
    }
}

/// An attribute in kakoune.
#[derive(Debug, Clone, Copy, PartialEq, Eq, Structural)]
pub enum KakAttribute {
    Underline,
    Reverse,
    Blink,
    Bold,
    Dim,
    Italic,
    FinalFg,
    FinalBg,
    FinalAttr,
}

/// The attribute that a token names, in lower snake case.
pub open spec fn attribute_of_token(s: Seq<char>) -> Result<KakAttribute, Fault> {
    if s == "underline"@ {
        Ok(KakAttribute::Underline)
    } else if s == "reverse"@ {
        Ok(KakAttribute::Reverse)
    } else if s == "blink"@ {
        Ok(KakAttribute::Blink)
    } else if s == "bold"@ {
        Ok(KakAttribute::Bold)
    } else if s == "dim"@ {
        Ok(KakAttribute::Dim)
    } else if s == "italic"@ {
        Ok(KakAttribute::Italic)
    } else if s == "final_fg"@ {
        Ok(KakAttribute::FinalFg)
    } else if s == "final_bg"@ {
        Ok(KakAttribute::FinalBg)
    } else if s == "final_attr"@ {
        Ok(KakAttribute::FinalAttr)
    } else {
        Err(Fault::InvalidAttribute(s))
    }
}

impl View for KakAttribute {
    type V = KakAttribute;

    open spec fn view(&self) -> KakAttribute {
        *self
    }
}

impl KakAttribute {
    /// Decodes an attribute token.
    pub fn from_token(s: &str) -> (r: Result<KakAttribute, ErrorKind>)
        ensures
            crate::error::result_view(r) == attribute_of_token(s@),
    {
        if text_eq(s, "underline") {
            Ok(KakAttribute::Underline)
        } else if text_eq(s, "reverse") {
            Ok(KakAttribute::Reverse)
        } else if text_eq(s, "blink") {
            Ok(KakAttribute::Blink)
        } else if text_eq(s, "bold") {
            Ok(KakAttribute::Bold)
        } else if text_eq(s, "dim") {
            Ok(KakAttribute::Dim)
        } else if text_eq(s, "italic") {
            Ok(KakAttribute::Italic)
        } else if text_eq(s, "final_fg") {
            Ok(KakAttribute::FinalFg)
        } else if text_eq(s, "final_bg") {
            Ok(KakAttribute::FinalBg)
        } else if text_eq(s, "final_attr") {
            Ok(KakAttribute::FinalAttr)
        } else {
            Err(ErrorKind::InvalidAttribute(s.to_owned()))
        }
    }
}

/// A kakoune face.
#[derive(Debug, Clone)]
pub struct KakFace {
    pub fg: KakColor,
    pub bg: KakColor,
    pub attributes: Vec<KakAttribute>,
}

/// The model of a [`KakFace`].
pub struct Face {
    pub fg: Color,
    pub bg: Color,
    pub attributes: Seq<KakAttribute>,
}

impl View for KakFace {
    type V = Face;

    open spec fn view(&self) -> Face {
        Face { fg: self.fg@, bg: self.bg@, attributes: self.attributes@ }
    }
}

/// A kakoune atom: text drawn with one face.
#[derive(Debug, Clone)]
pub struct KakAtom {
    pub face: KakFace,
    pub contents: String,
}

/// The model of a [`KakAtom`].
pub struct Atom {
    pub face: Face,
    pub contents: Seq<char>,
}

impl View for KakAtom {
    type V = Atom;

    open spec fn view(&self) -> Atom {
        Atom { face: self.face@, contents: self.contents@ }
    }
}

/// A line: atoms from left to right.
pub type KakLine = Vec<KakAtom>;

/// The model of a line.
pub open spec fn line_view(l: KakLine) -> Seq<Atom> {
    l@.map_values(|a: KakAtom| a@)
}

/// The model of a sequence of lines.
pub open spec fn lines_view(ls: Vec<KakLine>) -> Seq<Seq<Atom>> {
    ls@.map_values(|l: KakLine| line_view(l))
}

/// A coordinate in kakoune, counted from 0.
#[derive(Debug, Clone, Copy, PartialEq, Eq, Structural)]
pub struct KakCoord {
    pub line: u32,
    pub column: u32,
}

impl View for KakCoord {
    type V = KakCoord;

    open spec fn view(&self) -> KakCoord {
        *self
    }
}

} // verus!
