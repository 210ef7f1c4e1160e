//! What holds of loading, stated over the schema and the loader's steps.
use crate::document::{yaml_document, Node};
use crate::error::{io_error, Error, IoFailure};
use crate::loader::{loads, next_step, read_gives, Step};
use crate::model::{default_config, Config, ConfigView, Platform};
use crate::schema::{config_of, entry, written_as};
use vstd::prelude::*;

verus! {

/// A document that spells out all three sections loads to exactly the
/// values it spells out: no default takes the place of any of them.
pub proof fn lemma_complete_document_kept(doc: Node, platform: Platform, c: ConfigView)
    requires
        written_as(doc, c),
    ensures
        config_of(doc, platform) == Ok::<ConfigView, crate::schema::ShapeError>(c),
{
}

/// An empty document, or an empty mapping, loads to the platform's defaults:
/// default font, 96 by 96 dpi, and no render timer.
pub proof fn lemma_empty_document(doc: Node, platform: Platform)
    requires
        doc is Null || (doc matches Node::Entries(es) && es@.len() == 0),
    ensures
        config_of(doc, platform) == Ok::<ConfigView, crate::schema::ShapeError>(default_config(platform)),
{
}

/// A `font` section that lacks one of its four fields makes loading fail;
/// the default font never fills the gap.
pub proof fn lemma_incomplete_font_refused(doc: Node, platform: Platform, key: Seq<char>)
    requires
        key == "family"@ || key == "style"@ || key == "size"@ || key == "offset"@,
        doc matches Node::Entries(es) && match entry(es@, "font"@) {
            Some(Node::Entries(fs)) => entry(fs@, key) is None,
            _ => false,
        },
    ensures
        config_of(doc, platform) is Err,
{
}

/// When the primary file does not exist, the fallback path is tried, and a
/// valid fallback file gives its own configuration.
pub proof fn lemma_missing_primary_falls_back(
    missing: IoFailure,
    text: Seq<char>,
    platform: Platform,
    r: Result<Config, Error>,
)
    requires
        missing.missing,
        yaml_document(text) matches Some(doc) && config_of(doc, platform) is Ok,
        loads(r, text, platform),
    ensures
        next_step(Err(io_error(missing))) == Step::TryFallback,
        r matches Ok(got) && got@ == config_of(yaml_document(text)->0, platform)->Ok_0,
{
}

/// A primary file that exists but is not a valid configuration ends the
/// search with a schema failure: the fallback path is never tried.
pub proof fn lemma_invalid_primary_is_final(text: Seq<char>, platform: Platform, r: Result<Config, Error>)
    requires
        loads(r, text, platform),
        match yaml_document(text) {
            None => true,
            Some(doc) => config_of(doc, platform) is Err,
        },
    ensures
        next_step(r) == Step::Done(r),
        r matches Err(Error::Yaml(_)),
{
}

/// When neither candidate file exists, loading fails with `NotFound`.
pub proof fn lemma_nothing_found(
    first: IoFailure,
    second: IoFailure,
    platform: Platform,
    r1: Result<Config, Error>,
    r2: Result<Config, Error>,
)
    requires
        first.missing,
        second.missing,
        read_gives(r1, Err(first), platform),
        read_gives(r2, Err(second), platform),
    ensures
        next_step(r1) == Step::TryFallback,
        r2 matches Err(Error::NotFound),
{
}

/// Writing a loaded configuration back out as a document and loading that
/// again gives the same configuration.
pub proof fn lemma_round_trip(doc: Node, written: Node, platform: Platform, c: ConfigView)
    requires
        config_of(doc, platform) == Ok::<ConfigView, crate::schema::ShapeError>(c),
        written_as(written, c),
    ensures
        config_of(written, platform) == config_of(doc, platform),
{
    lemma_complete_document_kept(written, platform, c);
}

} // verus!
