//! The configuration sections, their mathematical views and their defaults.
//!
//! Every number is held as the decimal text that YAML writes for it; turning
//! it into a machine float is left to the consumer.
use vstd::prelude::*;

verus! {

/// The platform whose default font bundle applies.
#[derive(Debug, Clone, Copy, PartialEq, Eq, Structural)]
pub enum Platform {
    MacOs,
    Linux,
}

/// Pixels per inch, horizontal and vertical.
#[derive(Debug, Clone, PartialEq)]
pub struct Dpi {
    pub(crate) x: String,
    pub(crate) y: String,
}

pub struct DpiView {
    pub x: Seq<char>,
    pub y: Seq<char>,
}

impl View for Dpi {
    type V = DpiView;

    closed spec fn view(&self) -> DpiView {
        DpiView { x: self.x@, y: self.y@ }
    }
}

/// Extra letter spacing (`x`) and line spacing (`y`).
#[derive(Debug, Clone, PartialEq)]
pub struct FontOffset {
    pub(crate) x: String,
    pub(crate) y: String,
}

pub struct FontOffsetView {
    pub x: Seq<char>,
    pub y: Seq<char>,
}

impl View for FontOffset {
    type V = FontOffsetView;

    closed spec fn view(&self) -> FontOffsetView {
        FontOffsetView { x: self.x@, y: self.y@ }
    }
}

/// Font family, style, size in points, and spacing offsets.
#[derive(Debug, Clone, PartialEq)]
pub struct Font {
    pub(crate) family: String,
    pub(crate) style: String,
    pub(crate) size: String,
    pub(crate) offset: FontOffset,
}

pub struct FontView {
    pub family: Seq<char>,
    pub style: Seq<char>,
    pub size: Seq<char>,
    pub offset: FontOffsetView,
}

impl View for Font {
    type V = FontView;

    closed spec fn view(&self) -> FontView {
        FontView {
            family: self.family@,
            style: self.style@,
            size: self.size@,
            offset: self.offset@,
        }
    }
}

/// The whole configuration: every section is always populated.
#[derive(Debug, Clone, PartialEq)]
pub struct Config {
    pub(crate) dpi: Dpi,
    pub(crate) font: Font,
    pub(crate) render_timer: bool,
}

pub struct ConfigView {
    pub dpi: DpiView,
    pub font: FontView,
    pub render_timer: bool,
}

impl View for Config {
    type V = ConfigView;

    closed spec fn view(&self) -> ConfigView {
        ConfigView { dpi: self.dpi@, font: self.font@, render_timer: self.render_timer }
    }
}

/// The conventional screen resolution, used when the file has no `dpi` section.
pub open spec fn default_dpi() -> DpiView {
    DpiView { x: "96.0"@, y: "96.0"@ }
}

/// The font bundle used when the file has no `font` section.
pub open spec fn default_font(platform: Platform) -> FontView {
    match platform {
        Platform::MacOs => FontView {
            family: "Menlo"@,
            style: "Regular"@,
            size: "11.0"@,
            offset: FontOffsetView { x: "0.0"@, y: "0.0"@ },
        },
        Platform::Linux => FontView {
            family: "DejaVu Sans Mono"@,
            style: "Book"@,
            size: "11.0"@,
            offset: FontOffsetView { x: "2.0"@, y: "-7.0"@ },
        },
    }
}

/// The configuration of a file that sets nothing.
pub open spec fn default_config(platform: Platform) -> ConfigView {
    ConfigView { dpi: default_dpi(), font: default_font(platform), render_timer: false }
}

impl Dpi {
    pub fn new(x: String, y: String) -> (r: Dpi)
        ensures
            r@ == (DpiView { x: x@, y: y@ }),
    {
        Dpi { x, y }
    }

    /// The default resolution, 96 by 96.
    pub fn default_dpi() -> (r: Dpi)
        ensures
            r@ == default_dpi(),
    {
        Dpi::new(String::from_str("96.0"), String::from_str("96.0"))
    }

    /// Horizontal dpi.
    pub fn x(&self) -> (r: &str)
        ensures
            r@ == self@.x,
    {
        self.x.as_str()
    }

    /// Vertical dpi.
    pub fn y(&self) -> (r: &str)
        ensures
            r@ == self@.y,
    {
        self.y.as_str()
    }
}

impl Default for Dpi {
    fn default() -> (r: Dpi)
        ensures
            r@ == default_dpi(),
    {
        Dpi::default_dpi()
    }
}

impl FontOffset {
    pub fn new(x: String, y: String) -> (r: FontOffset)
        ensures
            r@ == (FontOffsetView { x: x@, y: y@ }),
    {
        FontOffset { x, y }
    }

    /// Extra horizontal spacing between letters.
    pub fn x(&self) -> (r: &str)
        ensures
            r@ == self@.x,
    {
        self.x.as_str()
    }

    /// Extra vertical spacing between lines.
    pub fn y(&self) -> (r: &str)
        ensures
            r@ == self@.y,
    {
        self.y.as_str()
    }
}

impl Font {
    pub fn new(family: String, style: String, size: String, offset: FontOffset) -> (r: Font)
        ensures
            r@ == (FontView { family: family@, style: style@, size: size@, offset: offset@ }),
    {
        Font { family, style, size, offset }
    }

    /// The default font bundle of the given platform.
    pub fn default_for(platform: Platform) -> (r: Font)
        ensures
            r@ == default_font(platform),
    {
        match platform {
            Platform::MacOs => Font::new(
                String::from_str("Menlo"),
                String::from_str("Regular"),
                String::from_str("11.0"),
                FontOffset::new(String::from_str("0.0"), String::from_str("0.0")),
            ),
            Platform::Linux => Font::new(
                String::from_str("DejaVu Sans Mono"),
                String::from_str("Book"),
                String::from_str("11.0"),
                FontOffset::new(String::from_str("2.0"), String::from_str("-7.0")),
            ),
        }
    }

    /// The font family.
    pub fn family(&self) -> (r: &str)
        ensures
            r@ == self@.family,
    {
        self.family.as_str()
    }

    /// The font style.
    pub fn style(&self) -> (r: &str)
        ensures
            r@ == self@.style,
    {
        self.style.as_str()
    }

    /// The font size in points.
    pub fn size(&self) -> (r: &str)
        ensures
            r@ == self@.size,
    {
        self.size.as_str()
    }

    /// The offsets to the font metrics.
    pub fn offset(&self) -> (r: &FontOffset)
        ensures
            r@ == self@.offset,
    {
        &self.offset
    }
}

impl Config {
    pub fn new(dpi: Dpi, font: Font, render_timer: bool) -> (r: Config)
        ensures
            r@ == (ConfigView { dpi: dpi@, font: font@, render_timer }),
    {
        Config { dpi, font, render_timer }
    }

    /// The configuration of a file that sets nothing.
    pub fn default_for(platform: Platform) -> (r: Config)
        ensures
            r@ == default_config(platform),
    {
        Config::new(Dpi::default_dpi(), Font::default_for(platform), false)
    }

    /// The font section.
    pub fn font(&self) -> (r: &Font)
        ensures
            r@ == self@.font,
    {
        &self.font
    }

    /// The dpi section.
    pub fn dpi(&self) -> (r: &Dpi)
        ensures
            r@ == self@.dpi,
    {
        &self.dpi
    }

    /// Whether the render timer is shown.
    pub fn render_timer(&self) -> (r: bool)
        ensures
            r == self@.render_timer,
    {
        self.render_timer
    }
}

} // verus!
