//! Finding and reading the configuration file.
//!
//! The search is driven from outside, one read at a time: the library says
//! which paths to try and decides, after the first read, whether the second
//! is needed. Only a primary file that does not exist sends the search on.
use crate::document::{parse_yaml, yaml_document};
use crate::error::{io_error, EnvFailure, Error, IoFailure, YamlError};
use crate::model::{Config, Platform};
use crate::schema::{config_of, viewed};
use vstd::prelude::*;

verus! {

/// The first candidate file, under the home directory.
pub open spec fn primary_path(home: Seq<char>) -> Seq<char> {
    home + "/.config/alacritty.yml"@
}

/// The second candidate file, a dotfile in the home directory.
pub open spec fn fallback_path(home: Seq<char>) -> Seq<char> {
    home + "/.alacritty.yml"@
}

/// Whether `r` is what loading the text `text` gives: a syntax failure for
/// text that is not YAML, else what the schema reads from the document.
pub open spec fn loads(r: Result<Config, Error>, text: Seq<char>, platform: Platform) -> bool {
    match yaml_document(text) {
        None => r matches Err(Error::Yaml(YamlError::Syntax(_))),
        Some(doc) => match config_of(doc, platform) {
            Ok(c) => r matches Ok(got) && got@ == c,
            Err(e) => r == Err::<Config, Error>(Error::Yaml(YamlError::Shape(e))),
        },
    }
}

/// Whether `r` is what a read that gave `read` leads to.
pub open spec fn read_gives(r: Result<Config, Error>, read: Result<String, IoFailure>, platform: Platform) -> bool {
    match read {
        Ok(text) => loads(r, text@, platform),
        Err(f) => r == Err::<Config, Error>(io_error(f)),
    }
}

/// What comes after the attempt on the primary path.
pub enum Step {
    /// The search is over, with this result.
    Done(Result<Config, Error>),
    /// The primary file does not exist: the fallback path decides.
    TryFallback,
}

/// The step that follows a given outcome of the primary attempt.
pub open spec fn next_step(primary: Result<Config, Error>) -> Step {
    match primary {
        Err(Error::NotFound) => Step::TryFallback,
        _ => Step::Done(primary),
    }
}

/// The two candidate paths, in the order in which they are tried.
pub struct Probe {
    primary: String,
    fallback: String,
}

impl Probe {
    /// The candidate paths under the home directory, or the error for a
    /// home directory that could not be read (then no file is touched).
    pub fn from_home(home: Result<String, EnvFailure>) -> (r: Result<Probe, Error>)
        ensures
            match home {
                Ok(h) => r matches Ok(p) && p.primary_view() == primary_path(h@)
                    && p.fallback_view() == fallback_path(h@),
                Err(e) => r matches Err(Error::ReadingEnvHome(got)) && got == e,
            },
    {
        match home {
            Ok(h) => {
                let mut primary = h.clone();
                primary.append("/.config/alacritty.yml");
                let mut fallback = h;
                fallback.append("/.alacritty.yml");
                Ok(Probe { primary, fallback })
            },
            Err(e) => Err(Error::from_env(e)),
        }
    }

    pub closed spec fn primary_view(&self) -> Seq<char> {
        self.primary@
    }

    pub closed spec fn fallback_view(&self) -> Seq<char> {
        self.fallback@
    }

    /// The path tried first.
    pub fn primary(&self) -> (r: &str)
        ensures
            r@ == self.primary_view(),
    {
        self.primary.as_str()
    }

    /// The path tried when the first does not exist.
    pub fn fallback(&self) -> (r: &str)
        ensures
            r@ == self.fallback_view(),
    {
        self.fallback.as_str()
    }
}

impl Config {
    /// Parses YAML text and reads the configuration out of it.
    pub fn load_from_text(text: &str, platform: Platform) -> (r: Result<Config, Error>)
        ensures
            loads(r, text@, platform),
    {
        match parse_yaml(text) {
            Err(e) => Err(Error::from_yaml(e)),
            Ok(doc) => match Config::from_document(&doc, platform) {
                Ok(c) => Ok(c),
                Err(e) => Err(Error::from_shape(e)),
            },
        }
    }

    /// The outcome of one candidate file, given what reading it gave.
    pub fn load_from_read(read: Result<String, IoFailure>, platform: Platform) -> (r: Result<Config, Error>)
        ensures
            read_gives(r, read, platform),
    {
        match read {
            Ok(text) => Config::load_from_text(text.as_str(), platform),
            Err(f) => Err(Error::from_io(f)),
        }
    }

    /// Decides, from the outcome on the primary path, whether the search is
    /// over: only a missing primary file sends it on to the fallback path.
    pub fn after_primary(primary: Result<Config, Error>) -> (r: Step)
        ensures
            r == next_step(primary),
    {
        match primary {
            Err(Error::NotFound) => Step::TryFallback,
            _ => Step::Done(primary),
        }
    }
}

} // verus!
