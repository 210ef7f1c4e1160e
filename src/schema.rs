//! Reading a configuration out of a YAML document.
//!
//! A section that is absent gets its whole default; a section that is present
//! must carry every one of its fields, with the right kind of value. Keys
//! that the schema does not know are ignored.
use crate::document::Node;
use crate::model::{
    default_dpi, default_font, Config, ConfigView, Dpi, DpiView, Font, FontOffset, FontOffsetView,
    FontView, Platform,
};
use vstd::prelude::*;

verus! {

/// A place in the configuration schema.
#[derive(Debug, Clone, Copy, PartialEq, Eq, Structural)]
pub enum Field {
    Root,
    Dpi,
    DpiX,
    DpiY,
    Font,
    FontFamily,
    FontStyle,
    FontSize,
    FontOffset,
    FontOffsetX,
    FontOffsetY,
    RenderTimer,
}

/// Why a YAML document does not describe a configuration.
#[derive(Debug, Clone, Copy, PartialEq, Eq, Structural)]
pub enum ShapeError {
    /// A present section lacks this field.
    MissingField(Field),
    /// This field holds the wrong kind of value.
    InvalidType(Field),
}

/// Whether a mapping key is the text `key`.
pub open spec fn key_is(n: Node, key: Seq<char>) -> bool {
    match n {
        Node::Text(s) => s@ == key,
        _ => false,
    }
}

/// The value of the first entry at or after `i` whose key is `key`.
pub open spec fn entry_from(es: Seq<(Node, Node)>, key: Seq<char>, i: int) -> Option<Node>
    decreases es.len() - i,
{
    if i < 0 || i >= es.len() {
        None
    } else if key_is(es[i].0, key) {
        Some(es[i].1)
    } else {
        entry_from(es, key, i + 1)
    }
}

/// The value stored under `key` in a mapping.
pub open spec fn entry(es: Seq<(Node, Node)>, key: Seq<char>) -> Option<Node> {
    entry_from(es, key, 0)
}

/// The entries of a node that must be a mapping; an empty value is an empty mapping.
pub open spec fn entries_of(n: Node, f: Field) -> Result<Seq<(Node, Node)>, ShapeError> {
    match n {
        Node::Null => Ok(Seq::empty()),
        Node::Entries(es) => Ok(es@),
        _ => Err(ShapeError::InvalidType(f)),
    }
}

/// A required number field of a mapping.
pub open spec fn number_at(es: Seq<(Node, Node)>, key: Seq<char>, f: Field) -> Result<Seq<char>, ShapeError> {
    match entry(es, key) {
        None => Err(ShapeError::MissingField(f)),
        Some(Node::Number(t)) => Ok(t@),
        Some(_) => Err(ShapeError::InvalidType(f)),
    }
}

/// A required text field of a mapping.
pub open spec fn text_at(es: Seq<(Node, Node)>, key: Seq<char>, f: Field) -> Result<Seq<char>, ShapeError> {
    match entry(es, key) {
        None => Err(ShapeError::MissingField(f)),
        Some(Node::Text(t)) => Ok(t@),
        Some(_) => Err(ShapeError::InvalidType(f)),
    }
}

/// A `dpi` section that is present.
pub open spec fn dpi_of(n: Node) -> Result<DpiView, ShapeError> {
    match entries_of(n, Field::Dpi) {
        Err(e) => Err(e),
        Ok(es) => match number_at(es, "x"@, Field::DpiX) {
            Err(e) => Err(e),
            Ok(x) => match number_at(es, "y"@, Field::DpiY) {
                Err(e) => Err(e),
                Ok(y) => Ok(DpiView { x, y }),
            },
        },
    }
}

/// An `offset` section of a font that is present.
pub open spec fn offset_of(n: Node) -> Result<FontOffsetView, ShapeError> {
    match entries_of(n, Field::FontOffset) {
        Err(e) => Err(e),
        Ok(es) => match number_at(es, "x"@, Field::FontOffsetX) {
            Err(e) => Err(e),
            Ok(x) => match number_at(es, "y"@, Field::FontOffsetY) {
                Err(e) => Err(e),
                Ok(y) => Ok(FontOffsetView { x, y }),
            },
        },
    }
}

/// A `font` section that is present: all four fields are required.
pub open spec fn font_of(n: Node) -> Result<FontView, ShapeError> {
    match entries_of(n, Field::Font) {
        Err(e) => Err(e),
        Ok(es) => match text_at(es, "family"@, Field::FontFamily) {
            Err(e) => Err(e),
            Ok(family) => match text_at(es, "style"@, Field::FontStyle) {
                Err(e) => Err(e),
                Ok(style) => match number_at(es, "size"@, Field::FontSize) {
                    Err(e) => Err(e),
                    Ok(size) => match entry(es, "offset"@) {
                        None => Err(ShapeError::MissingField(Field::FontOffset)),
                        Some(o) => match offset_of(o) {
                            Err(e) => Err(e),
                            Ok(offset) => Ok(FontView { family, style, size, offset }),
                        },
                    },
                },
            },
        },
    }
}

/// The `dpi` section, or its default when the document has none.
pub open spec fn dpi_section(es: Seq<(Node, Node)>) -> Result<DpiView, ShapeError> {
    match entry(es, "dpi"@) {
        None => Ok(default_dpi()),
        Some(n) => dpi_of(n),
    }
}

/// The `font` section, or the platform's default when the document has none.
pub open spec fn font_section(es: Seq<(Node, Node)>, platform: Platform) -> Result<FontView, ShapeError> {
    match entry(es, "font"@) {
        None => Ok(default_font(platform)),
        Some(n) => font_of(n),
    }
}

/// The `render_timer` flag, off when the document does not set it.
pub open spec fn render_timer_section(es: Seq<(Node, Node)>) -> Result<bool, ShapeError> {
    match entry(es, "render_timer"@) {
        None => Ok(false),
        Some(Node::Bool(b)) => Ok(b),
        Some(_) => Err(ShapeError::InvalidType(Field::RenderTimer)),
    }
}

/// The configuration that a document describes; the first failing section,
/// in the order `dpi`, `font`, `render_timer`, gives the error.
pub open spec fn config_of(doc: Node, platform: Platform) -> Result<ConfigView, ShapeError> {
    match entries_of(doc, Field::Root) {
        Err(e) => Err(e),
        Ok(es) => match dpi_section(es) {
            Err(e) => Err(e),
            Ok(dpi) => match font_section(es, platform) {
                Err(e) => Err(e),
                Ok(font) => match render_timer_section(es) {
                    Err(e) => Err(e),
                    Ok(render_timer) => Ok(ConfigView { dpi, font, render_timer }),
                },
            },
        },
    }
}

/// The value stored under `key` in a mapping.
fn find_entry<'a>(es: &'a Vec<(Node, Node)>, key: &str) -> (r: Option<&'a Node>)
    ensures
        match r {
            Some(n) => entry(es@, key@) == Some(*n),
            None => entry(es@, key@) is None,
        },
{
    let wanted = String::from_str(key);
    let mut i: usize = 0;
    while i < es.len()
        invariant
            i <= es@.len(),
            entry(es@, key@) == entry_from(es@, key@, i as int),
            wanted@ == key@,
        decreases es@.len() - i,
    {
        let found = match &es[i].0 {
            Node::Text(s) => s.eq(&wanted),
            _ => false,
        };
        assert(found == key_is(es@[i as int].0, key@));
        if found {
            return Some(&es[i].1);
        }
        i = i + 1;
    }
    None
}

/// A result with its success value seen through its view.
pub open spec fn viewed<T: View>(r: Result<T, ShapeError>) -> Result<T::V, ShapeError> {
    match r {
        Ok(v) => Ok(v@),
        Err(e) => Err(e),
    }
}

/// The entries of a mapping, where `None` stands for an empty value.
pub open spec fn listed(es: Option<&Vec<(Node, Node)>>) -> Seq<(Node, Node)> {
    match es {
        Some(v) => v@,
        None => Seq::empty(),
    }
}

/// The entries of a node that must be a mapping; `None` for an empty value.
fn section_entries(n: &Node, f: Field) -> (r: Result<Option<&Vec<(Node, Node)>>, ShapeError>)
    ensures
        match r {
            Ok(es) => entries_of(*n, f) == Ok::<Seq<(Node, Node)>, ShapeError>(listed(es)),
            Err(e) => entries_of(*n, f) == Err::<Seq<(Node, Node)>, ShapeError>(e),
        },
{
    match n {
        Node::Null => Ok(None),
        Node::Entries(es) => Ok(Some(es)),
        _ => Err(ShapeError::InvalidType(f)),
    }
}

/// The value stored under `key`, if any.
fn lookup<'a>(es: Option<&'a Vec<(Node, Node)>>, key: &str) -> (r: Option<&'a Node>)
    ensures
        match r {
            Some(n) => entry(listed(es), key@) == Some(*n),
            None => entry(listed(es), key@) is None,
        },
{
    match es {
        Some(v) => find_entry(v, key),
        None => None,
    }
}

/// A required number field.
fn number_field(es: Option<&Vec<(Node, Node)>>, key: &str, f: Field) -> (r: Result<String, ShapeError>)
    ensures
        viewed(r) == number_at(listed(es), key@, f),
{
    match lookup(es, key) {
        None => Err(ShapeError::MissingField(f)),
        Some(Node::Number(t)) => Ok(t.clone()),
        Some(_) => Err(ShapeError::InvalidType(f)),
    }
}

/// A required text field.
fn text_field(es: Option<&Vec<(Node, Node)>>, key: &str, f: Field) -> (r: Result<String, ShapeError>)
    ensures
        viewed(r) == text_at(listed(es), key@, f),
{
    match lookup(es, key) {
        None => Err(ShapeError::MissingField(f)),
        Some(Node::Text(t)) => Ok(t.clone()),
        Some(_) => Err(ShapeError::InvalidType(f)),
    }
}

impl Dpi {
    /// Reads a `dpi` section that is present.
    pub fn from_node(n: &Node) -> (r: Result<Dpi, ShapeError>)
        ensures
            viewed(r) == dpi_of(*n),
    {
        let es = match section_entries(n, Field::Dpi) {
            Ok(es) => es,
            Err(e) => return Err(e),
        };
        let x = match number_field(es, "x", Field::DpiX) {
            Ok(x) => x,
            Err(e) => return Err(e),
        };
        let y = match number_field(es, "y", Field::DpiY) {
            Ok(y) => y,
            Err(e) => return Err(e),
        };
        Ok(Dpi::new(x, y))
    }
}

impl FontOffset {
    /// Reads an `offset` section that is present.
    pub fn from_node(n: &Node) -> (r: Result<FontOffset, ShapeError>)
        ensures
            viewed(r) == offset_of(*n),
    {
        let es = match section_entries(n, Field::FontOffset) {
            Ok(es) => es,
            Err(e) => return Err(e),
        };
        let x = match number_field(es, "x", Field::FontOffsetX) {
            Ok(x) => x,
            Err(e) => return Err(e),
        };
        let y = match number_field(es, "y", Field::FontOffsetY) {
            Ok(y) => y,
            Err(e) => return Err(e),
        };
        Ok(FontOffset::new(x, y))
    }
}

impl Font {
    /// Reads a `font` section that is present; no field of it has a default.
    pub fn from_node(n: &Node) -> (r: Result<Font, ShapeError>)
        ensures
            viewed(r) == font_of(*n),
    {
        let es = match section_entries(n, Field::Font) {
            Ok(es) => es,
            Err(e) => return Err(e),
        };
        let family = match text_field(es, "family", Field::FontFamily) {
            Ok(v) => v,
            Err(e) => return Err(e),
        };
        let style = match text_field(es, "style", Field::FontStyle) {
            Ok(v) => v,
            Err(e) => return Err(e),
        };
        let size = match number_field(es, "size", Field::FontSize) {
            Ok(v) => v,
            Err(e) => return Err(e),
        };
        let offset = match lookup(es, "offset") {
            None => return Err(ShapeError::MissingField(Field::FontOffset)),
            Some(o) => match FontOffset::from_node(o) {
                Ok(v) => v,
                Err(e) => return Err(e),
            },
        };
        Ok(Font::new(family, style, size, offset))
    }
}

impl Config {
    /// Reads a configuration out of a YAML document: absent sections take
    /// their defaults, present ones are read strictly.
    pub fn from_document(doc: &Node, platform: Platform) -> (r: Result<Config, ShapeError>)
        ensures
            viewed(r) == config_of(*doc, platform),
    {
        let es = match section_entries(doc, Field::Root) {
            Ok(es) => es,
            Err(e) => return Err(e),
        };
        let dpi = match lookup(es, "dpi") {
            None => Dpi::default_dpi(),
            Some(n) => match Dpi::from_node(n) {
                Ok(v) => v,
                Err(e) => return Err(e),
            },
        };
        let font = match lookup(es, "font") {
            None => Font::default_for(platform),
            Some(n) => match Font::from_node(n) {
                Ok(v) => v,
                Err(e) => return Err(e),
            },
        };
        let render_timer = match lookup(es, "render_timer") {
            None => false,
            Some(Node::Bool(b)) => *b,
            Some(_) => return Err(ShapeError::InvalidType(Field::RenderTimer)),
        };
        Ok(Config::new(dpi, font, render_timer))
    }
}

/// Whether a mapping holds a number under `key`, written as `t`.
pub open spec fn has_number(es: Seq<(Node, Node)>, key: Seq<char>, t: Seq<char>) -> bool {
    match entry(es, key) {
        Some(Node::Number(s)) => s@ == t,
        _ => false,
    }
}

/// Whether a mapping holds a text under `key` equal to `t`.
pub open spec fn has_text(es: Seq<(Node, Node)>, key: Seq<char>, t: Seq<char>) -> bool {
    match entry(es, key) {
        Some(Node::Text(s)) => s@ == t,
        _ => false,
    }
}

/// Whether a mapping holds, under `key`, a mapping with numbers `x` and `y`.
pub open spec fn has_pair(es: Seq<(Node, Node)>, key: Seq<char>, x: Seq<char>, y: Seq<char>) -> bool {
    match entry(es, key) {
        Some(Node::Entries(ps)) => has_number(ps@, "x"@, x) && has_number(ps@, "y"@, y),
        _ => false,
    }
}

/// Whether a mapping spells out all of `c`: its three sections are present
/// and complete, whatever else the mapping holds and in whatever order.
pub open spec fn spells_out(es: Seq<(Node, Node)>, c: ConfigView) -> bool {
    &&& has_pair(es, "dpi"@, c.dpi.x, c.dpi.y)
    &&& match entry(es, "font"@) {
        Some(Node::Entries(fs)) => {
            &&& has_text(fs@, "family"@, c.font.family)
            &&& has_text(fs@, "style"@, c.font.style)
            &&& has_number(fs@, "size"@, c.font.size)
            &&& has_pair(fs@, "offset"@, c.font.offset.x, c.font.offset.y)
        },
        _ => false,
    }
    &&& entry(es, "render_timer"@) == Some(Node::Bool(c.render_timer))
}

/// A document that spells out `c`.
pub open spec fn written_as(doc: Node, c: ConfigView) -> bool {
    match doc {
        Node::Entries(es) => spells_out(es@, c),
        _ => false,
    }
}

/// A key node.
fn key_node(k: &str) -> (r: Node)
    ensures
        match r {
            Node::Text(s) => s@ == k@,
            _ => false,
        },
{
    Node::Text(String::from_str(k))
}

/// A mapping with the numbers `x` and `y`.
fn pair_node(x: &str, y: &str) -> (r: Node)
    ensures
        match r {
            Node::Entries(ps) => has_number(ps@, "x"@, x@) && has_number(ps@, "y"@, y@),
            _ => false,
        },
{
    let mut ps: Vec<(Node, Node)> = Vec::new();
    ps.push((key_node("x"), Node::Number(String::from_str(x))));
    ps.push((key_node("y"), Node::Number(String::from_str(y))));
    proof {
        reveal_strlit("x");
        reveal_strlit("y");
        assert("x"@[0] != "y"@[0]);
        reveal_with_fuel(entry_from, 3);
    }
    Node::Entries(ps)
}

impl Config {
    /// The document that spells out this configuration, section by section.
    pub fn to_document(&self) -> (r: Node)
        ensures
            written_as(r, self@),
    {
        let font = self.font();
        let offset = font.offset();
        let dpi = self.dpi();
        let mut fs: Vec<(Node, Node)> = Vec::new();
        fs.push((key_node("family"), Node::Text(String::from_str(font.family()))));
        fs.push((key_node("style"), Node::Text(String::from_str(font.style()))));
        fs.push((key_node("size"), Node::Number(String::from_str(font.size()))));
        fs.push((key_node("offset"), pair_node(offset.x(), offset.y())));
        let mut es: Vec<(Node, Node)> = Vec::new();
        es.push((key_node("dpi"), pair_node(dpi.x(), dpi.y())));
        es.push((key_node("font"), Node::Entries(fs)));
        es.push((key_node("render_timer"), Node::Bool(self.render_timer())));
        proof {
            reveal_strlit("family");
            reveal_strlit("style");
            reveal_strlit("size");
            reveal_strlit("offset");
            reveal_strlit("dpi");
            reveal_strlit("font");
            reveal_strlit("render_timer");
            assert("family"@[0] != "style"@[0] && "family"@[0] != "size"@[0]);
            assert("style"@[1] != "size"@[1]);
            assert("family"@[0] != "offset"@[0] && "style"@[0] != "offset"@[0]);
            assert("size"@[0] != "offset"@[0]);
            assert("dpi"@[0] != "font"@[0] && "dpi"@[0] != "render_timer"@[0]);
            assert("font"@[0] != "render_timer"@[0]);
            reveal_with_fuel(entry_from, 5);
        }
        Node::Entries(es)
    }
}

} // verus!
