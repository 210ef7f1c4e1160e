//! Why loading a configuration failed.
use serde_yaml::Error as ParseError;
use crate::schema::{Field, ShapeError};
use vstd::prelude::*;

verus! {

/// Why the home directory could not be read from the environment.
#[derive(Debug, Clone, Copy, PartialEq, Eq, Structural)]
pub enum EnvFailure {
    /// The variable is not set.
    NotPresent,
    /// The variable is set but is not valid text.
    NotUnicode,
}

/// A failed read of a candidate file.
#[derive(Debug, Clone, PartialEq)]
pub struct IoFailure {
    /// The file does not exist.
    pub missing: bool,
    /// What the operating system said.
    pub message: String,
}

/// Why a file's text does not give a configuration.
#[derive(Debug)]
pub enum YamlError {
    /// The text is not YAML.
    Syntax(ParseError),
    /// The YAML does not have the shape of a configuration.
    Shape(ShapeError),
}

/// Errors occurring during configuration loading.
#[derive(Debug)]
pub enum Error {
    /// No candidate file exists.
    NotFound,
    /// The home directory could not be read from the environment.
    ReadingEnvHome(EnvFailure),
    /// A candidate file exists but could not be read.
    Io(IoFailure),
    /// A file was read, but its text is not a valid configuration.
    Yaml(YamlError),
}

/// The error for a failed read: a missing file is `NotFound`.
pub open spec fn io_error(f: IoFailure) -> Error {
    if f.missing {
        Error::NotFound
    } else {
        Error::Io(f)
    }
}

/// The dotted path of a schema field.
pub open spec fn field_path(f: Field) -> Seq<char> {
    match f {
        Field::Root => "document"@,
        Field::Dpi => "dpi"@,
        Field::DpiX => "dpi.x"@,
        Field::DpiY => "dpi.y"@,
        Field::Font => "font"@,
        Field::FontFamily => "font.family"@,
        Field::FontStyle => "font.style"@,
        Field::FontSize => "font.size"@,
        Field::FontOffset => "font.offset"@,
        Field::FontOffsetX => "font.offset.x"@,
        Field::FontOffsetY => "font.offset.y"@,
        Field::RenderTimer => "render_timer"@,
    }
}

/// The description of a schema failure.
pub open spec fn shape_description(e: ShapeError) -> Seq<char> {
    match e {
        ShapeError::MissingField(f) => "missing field "@ + field_path(f),
        ShapeError::InvalidType(f) => "invalid type for "@ + field_path(f),
    }
}

/// The description of an environment failure.
pub open spec fn env_description(e: EnvFailure) -> Seq<char> {
    match e {
        EnvFailure::NotPresent => "environment variable not found"@,
        EnvFailure::NotUnicode => "environment variable was not valid unicode"@,
    }
}

/// Relies on the Display impl of serde_yaml::Error for the parser's message.
#[verifier::external_body]
fn yaml_message(e: &ParseError) -> String {
    e.to_string()
}

impl Field {
    /// The dotted path of this field.
    pub fn path(self) -> (r: String)
        ensures
            r@ == field_path(self),
    {
        let p = match self {
            Field::Root => "document",
            Field::Dpi => "dpi",
            Field::DpiX => "dpi.x",
            Field::DpiY => "dpi.y",
            Field::Font => "font",
            Field::FontFamily => "font.family",
            Field::FontStyle => "font.style",
            Field::FontSize => "font.size",
            Field::FontOffset => "font.offset",
            Field::FontOffsetX => "font.offset.x",
            Field::FontOffsetY => "font.offset.y",
            Field::RenderTimer => "render_timer",
        };
        String::from_str(p)
    }
}

impl ShapeError {
    /// Says which field is missing or has the wrong kind of value.
    pub fn description(self) -> (r: String)
        ensures
            r@ == shape_description(self),
    {
        let (mut r, f) = match self {
            ShapeError::MissingField(f) => (String::from_str("missing field "), f),
            ShapeError::InvalidType(f) => (String::from_str("invalid type for "), f),
        };
        let p = f.path();
        r.append(p.as_str());
        r
    }
}

impl EnvFailure {
    /// Says why the variable could not be read.
    pub fn description(self) -> (r: String)
        ensures
            r@ == env_description(self),
    {
        match self {
            EnvFailure::NotPresent => String::from_str("environment variable not found"),
            EnvFailure::NotUnicode => String::from_str("environment variable was not valid unicode"),
        }
    }
}

impl YamlError {
    /// The parser's message, or the schema failure's description.
    pub fn description(&self) -> (r: String)
        ensures
            *self matches YamlError::Shape(e) ==> r@ == shape_description(e),
    {
        match self {
            YamlError::Syntax(e) => yaml_message(e),
            YamlError::Shape(e) => e.description(),
        }
    }
}

impl Error {
    /// The error for an unreadable home directory.
    pub fn from_env(e: EnvFailure) -> (r: Error)
        ensures
            r == Error::ReadingEnvHome(e),
    {
        Error::ReadingEnvHome(e)
    }

    /// The error for a failed read: a missing file becomes `NotFound`.
    pub fn from_io(f: IoFailure) -> (r: Error)
        ensures
            r == io_error(f),
    {
        if f.missing {
            Error::NotFound
        } else {
            Error::Io(f)
        }
    }

    /// The error for text that is not YAML.
    pub fn from_yaml(e: ParseError) -> (r: Error)
        ensures
            r == Error::Yaml(YamlError::Syntax(e)),
    {
        Error::Yaml(YamlError::Syntax(e))
    }

    /// The error for YAML that is not a configuration.
    pub fn from_shape(e: ShapeError) -> (r: Error)
        ensures
            r == Error::Yaml(YamlError::Shape(e)),
    {
        Error::Yaml(YamlError::Shape(e))
    }

    /// A short description of the failure, without its context.
    pub fn description(&self) -> (r: String)
        ensures
            *self is NotFound ==> r@ == "could not locate config file"@,
            *self matches Error::ReadingEnvHome(e) ==> r@ == env_description(e),
            *self matches Error::Io(f) ==> r@ == f.message@,
            *self matches Error::Yaml(YamlError::Shape(e)) ==> r@ == shape_description(e),
    {
        match self {
            Error::NotFound => String::from_str("could not locate config file"),
            Error::ReadingEnvHome(e) => e.description(),
            Error::Io(f) => f.message.clone(),
            Error::Yaml(e) => e.description(),
        }
    }

    /// The human-readable message: what failed, then the cause's own words.
    pub fn message(&self) -> (r: String)
        ensures
            *self is NotFound ==> r@ == "could not locate config file"@,
            *self matches Error::ReadingEnvHome(e)
                ==> r@ == "could not read $HOME environment variable: "@ + env_description(e),
            *self matches Error::Io(f) ==> r@ == "error reading config file: "@ + f.message@,
            *self matches Error::Yaml(YamlError::Shape(e)) ==> r@ == "problem with config: "@
                + shape_description(e),
            *self matches Error::Yaml(YamlError::Syntax(_)) ==> r@.len() >= 21
                && r@.subrange(0, 21) == "problem with config: "@,
    {
        let mut r = match self {
            Error::NotFound => return String::from_str("could not locate config file"),
            Error::ReadingEnvHome(_) => String::from_str("could not read $HOME environment variable: "),
            Error::Io(_) => String::from_str("error reading config file: "),
            Error::Yaml(_) => String::from_str("problem with config: "),
        };
        let cause = self.description();
        proof {
            reveal_strlit("problem with config: ");
        }
        r.append(cause.as_str());
        r
    }
}

} // verus!
