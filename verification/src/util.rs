//! The configuration as plain JSON, and laying out tables for the terminal.
use crate::error::RancherError;
use crate::json::{Json, JsonView};
use crate::parse::parsed;
use crate::rancher::{get_request, normalized, plain_config, Rancher};
use crate::request::Request;
use std::io::Write;
use vstd::prelude::*;

verus! {

/// The text that a `TabWriter` with its default settings writes for a text in
/// which tabs part the cells and newlines the rows; `None` where writing
/// fails or what was written is no UTF-8.
pub uninterp spec fn aligned(data: Seq<char>) -> Option<Seq<char>>;

/// Writes the text through `TabWriter::new` into a vector, flushes, and takes
/// what was written with `TabWriter::into_inner`. What is written depends on
/// the text alone.
#[verifier::external_body]
fn align(data: &str) -> (r: Option<String>)
    ensures
        match r {
            Some(text) => aligned(data@) == Some(text@),
            None => aligned(data@) is None,
        },
{
    let mut writer = tabwriter::TabWriter::new(Vec::new());
    write!(&mut writer, "{}", data).ok()?;
    writer.flush().ok()?;
    let written = writer.into_inner().ok()?;
    String::from_utf8(written).ok()
}

/// A configuration with its address normalised: the member `url`, which must
/// be a text, is replaced by its normalised form.
pub open spec fn normalized_config(config: JsonView) -> Option<JsonView> {
    match config.member_text("url"@) {
        Some(url) => Some(config.with_member("url"@, JsonView::Text(normalized(url)))),
        None => None,
    }
}

/// Normalises the address of a decoded configuration.
pub fn normalize_config(config: Json) -> (r: Result<Json, RancherError>)
    ensures
        match r {
            Ok(normal) => normalized_config(config@) == Some(normal@),
            Err(e) => e == RancherError::ConfigMalformed && normalized_config(config@) is None,
        },
{
    let url = match config.get_str("url") {
        Some(url) => Rancher::normalize_url(url.as_str()),
        None => { return Err(RancherError::ConfigMalformed); },
    };
    Ok(config.with_member("url", Json::Text(url)))
}

/// The configuration that the text of a configuration file holds, as JSON,
/// with its address normalised.
pub fn get_config(content: &str) -> (r: Result<Json, RancherError>)
    ensures
        match r {
            Ok(normal) => parsed(content@) matches Some(config) && normalized_config(config)
                == Some(normal@),
            Err(e) => e == RancherError::ConfigMalformed && !(parsed(content@) matches Some(
                config,
            ) && normalized_config(config) is Some),
        },
{
    match Json::parse(content) {
        Some(config) => normalize_config(config),
        None => Err(RancherError::ConfigMalformed),
    }
}

/// The GET request for a path, from a configuration held as JSON.
pub fn call_api(config: &Json, path: &str) -> (r: Result<Request, RancherError>)
    ensures
        match r {
            Ok(request) => plain_config(config@) matches Some(rancher) && request@ == get_request(
                rancher,
                path@,
            ),
            Err(e) => e == RancherError::ConfigMalformed && plain_config(config@) is None,
        },
{
    match Rancher::from_plain_json(config) {
        Ok(rancher) => Ok(rancher.call_api(path)),
        Err(e) => Err(e),
    }
}

/// The text to show for a table: its columns are aligned.
pub fn display(data: &str) -> (r: Option<String>)
    ensures
        match r {
            Some(text) => aligned(data@) == Some(text@),
            None => aligned(data@) is None,
        },
{
    align(data)
}

} // verus!
