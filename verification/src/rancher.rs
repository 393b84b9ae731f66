//! The configuration of the client, and the requests that it gives.
use crate::error::RancherError;
use crate::json::{Json, JsonView};
use crate::parse::parsed;
use crate::request::{Method, Request, RequestView};
use crate::resource::views;
use vstd::prelude::*;

verus! {

/// The address of the API and the two keys that open it.
#[derive(Debug, Clone, PartialEq, Eq)]
pub struct Rancher {
    /// URL of the Rancher API.
    url: String,
    /// Access key of the Rancher API.
    access_key: String,
    /// Secret key of the Rancher API.
    secret_key: String,
}

/// The mathematical value of a [`Rancher`].
pub struct RancherView {
    pub url: Seq<char>,
    pub access_key: Seq<char>,
    pub secret_key: Seq<char>,
}

impl View for Rancher {
    type V = RancherView;

    closed spec fn view(&self) -> RancherView {
        RancherView { url: self.url@, access_key: self.access_key@, secret_key: self.secret_key@ }
    }
}

/// The standard base64 text, with padding, of the UTF-8 bytes of a text, as
/// `base64::encode` gives it.
pub uninterp spec fn base64_text(input: Seq<char>) -> Seq<char>;

/// `base64::encode` on the bytes of a text. What it returns depends on those
/// bytes alone. It panics only where the length of the encoded text overflows
/// `usize`, which no text that fits in memory reaches.
#[verifier::external_body]
fn encode_base64(input: &str) -> (r: String)
    ensures
        r@ == base64_text(input@),
{
    base64::encode(input)
}

/// Whether `Regex::new` accepts a pattern and, where it does, whether the
/// regex matches somewhere in a text.
pub uninterp spec fn regex_match(pattern: Seq<char>, text: Seq<char>) -> Option<bool>;

/// A character that stands for itself in a pattern: an ASCII letter, an ASCII
/// digit or a slash.
pub open spec fn is_literal(c: char) -> bool {
    ('a' <= c && c <= 'z') || ('A' <= c && c <= 'Z') || ('0' <= c && c <= '9') || c == '/'
}

/// A pattern of up to 64 characters that stand for themselves, followed by `$`.
pub open spec fn is_suffix_pattern(pattern: Seq<char>) -> bool {
    &&& 1 <= pattern.len() <= 65
    &&& pattern.last() == '$'
    &&& forall|i: int| 0 <= i < pattern.len() - 1 ==> is_literal(#[trigger] pattern[i])
}

/// `Regex::new` followed by `Regex::is_match`; `None` where the pattern is
/// refused. In a pattern `$` matches at the end of the text only and a letter,
/// a digit or a slash matches itself, so such characters followed by `$` match
/// exactly the texts that end in them.
#[verifier::external_body]
fn regex_is_match(pattern: &str, text: &str) -> (r: Option<bool>)
    ensures
        r == regex_match(pattern@, text@),
        is_suffix_pattern(pattern@) ==> r == Some(pattern@.drop_last().is_suffix_of(text@)),
{
    match regex::Regex::new(pattern) {
        Ok(re) => Some(re.is_match(text)),
        Err(_) => None,
    }
}

/// Whether `part` occurs in `text`, at some place, letter for letter.
pub open spec fn contains_text(text: Seq<char>, part: Seq<char>) -> bool {
    exists|i: int|
        0 <= i && i + part.len() <= text.len() && #[trigger] text.subrange(i, i + part.len())
            == part
}

/// `str::contains` with a string as its pattern: whether the pattern matches a
/// part of the text.
#[verifier::external_body]
fn str_contains(text: &str, part: &str) -> (b: bool)
    ensures
        b == contains_text(text@, part@),
{
    text.contains(part)
}

/// The names, among `files`, in which `pattern` occurs, in their order.
pub open spec fn matching(files: Seq<Seq<char>>, pattern: Seq<char>) -> Seq<Seq<char>>
    decreases files.len(),
{
    if files.len() == 0 {
        Seq::empty()
    } else if contains_text(files.last(), pattern) {
        matching(files.drop_last(), pattern).push(files.last())
    } else {
        matching(files.drop_last(), pattern)
    }
}

/// The address of the API that a configured address stands for: one that ends
/// in `/schemas` loses that ending, any other is kept.
pub open spec fn normalized(url: Seq<char>) -> Seq<char> {
    if "/schemas"@.is_suffix_of(url) {
        url.subrange(0, url.len() - "/schemas"@.len())
    } else {
        url
    }
}

/// An address that ends in `/schemas` is normalised to the same address
/// without that ending, and any other address is left as it is.
pub proof fn lemma_normalized(url: Seq<char>)
    ensures
        "/schemas"@.is_suffix_of(url) ==> normalized(url) + "/schemas"@ == url,
        !"/schemas"@.is_suffix_of(url) ==> normalized(url) == url,
{
}

/// The address that is made of a base and the ending `/schemas` is normalised
/// to the base.
pub proof fn lemma_normalized_strips(base: Seq<char>)
    ensures
        normalized(base + "/schemas"@) == base,
{
}

/// The header line that carries the encoded credentials.
pub open spec fn authorization_line(encoded: Seq<char>) -> Seq<char> {
    "Authorization: Basic "@ + encoded
}

/// The credentials of a configuration, before they are encoded.
pub open spec fn credentials_text(config: RancherView) -> Seq<char> {
    config.access_key + ":"@ + config.secret_key
}

/// The header line that authorises the requests of a configuration.
pub open spec fn auth_header(config: RancherView) -> Seq<char> {
    authorization_line(base64_text(credentials_text(config)))
}

/// The keys and the address that a JSON value holds, taken as they stand:
/// its members `url`, `accessKey` and `secretKey`, each of which must be a
/// text.
pub open spec fn plain_config(config: JsonView) -> Option<RancherView> {
    match (
        config.member_text("url"@),
        config.member_text("accessKey"@),
        config.member_text("secretKey"@),
    ) {
        (Some(url), Some(access_key), Some(secret_key)) => Some(
            RancherView { url, access_key, secret_key },
        ),
        _ => None,
    }
}

/// The configuration that a JSON value holds: its keys and its address, the
/// address normalised.
pub open spec fn config_of(config: JsonView) -> Option<RancherView> {
    match plain_config(config) {
        Some(plain) => Some(
            RancherView {
                url: normalized(plain.url),
                access_key: plain.access_key,
                secret_key: plain.secret_key,
            },
        ),
        None => None,
    }
}

/// The GET request of a configuration for a path.
pub open spec fn get_request(config: RancherView, path: Seq<char>) -> RequestView {
    RequestView {
        method: Method::Get,
        url: config.url + path,
        headers: seq![auth_header(config)],
        body: None,
        checked: false,
    }
}

/// The POST request of a configuration that sends `data` to a path.
pub open spec fn post_request(config: RancherView, path: Seq<char>, data: Seq<char>) -> RequestView {
    RequestView {
        method: Method::Post,
        url: config.url + path,
        headers: seq![auth_header(config), "Content-Type: application/json"@],
        body: Some(data),
        checked: false,
    }
}

/// The POST request of a configuration that sends nothing to a path, and
/// that an answer which calls itself an error fails.
pub open spec fn checked_post_request(config: RancherView, path: Seq<char>) -> RequestView {
    RequestView {
        method: Method::Post,
        url: config.url + path,
        headers: seq![auth_header(config)],
        body: None,
        checked: true,
    }
}

impl Rancher {
    /// A configuration with the address and the keys given.
    pub fn new(url: String, access_key: String, secret_key: String) -> (rancher: Rancher)
        ensures
            rancher@ == (RancherView {
                url: url@,
                access_key: access_key@,
                secret_key: secret_key@,
            }),
    {
        Rancher { url, access_key, secret_key }
    }

    /// The address of the API.
    pub fn url(&self) -> (r: &String)
        ensures
            r@ == self@.url,
    {
        &self.url
    }

    /// The access key.
    pub fn access_key(&self) -> (r: &String)
        ensures
            r@ == self@.access_key,
    {
        &self.access_key
    }

    /// The secret key.
    pub fn secret_key(&self) -> (r: &String)
        ensures
            r@ == self@.secret_key,
    {
        &self.secret_key
    }

    /// Normalises a configured address.
    pub fn normalize_url(url: &str) -> (r: String)
        ensures
            r@ == normalized(url@),
    {
        proof {
            reveal_strlit("/schemas$");
            reveal_strlit("/schemas");
        }
        match regex_is_match("/schemas$", url) {
            Some(true) => {
                let length = url.unicode_len();
                String::from_str(url.substring_char(0, length - 8))
            },
            _ => String::from_str(url),
        }
    }

    /// Picks the configuration file among the files of the directory: the
    /// only one in whose name the pattern occurs. With no such file, or with
    /// more than one, the configuration is not found.
    pub fn select_config(files: &Vec<String>, pattern: &str) -> (r: Result<String, RancherError>)
        ensures
            match r {
                Ok(file) => matching(views(files@), pattern@) == seq![file@],
                Err(e) => e == RancherError::ConfigNotFound && matching(
                    views(files@),
                    pattern@,
                ).len() != 1,
            },
    {
        let ghost names = views(files@);
        let mut found: Vec<String> = Vec::new();
        let mut i: usize = 0;
        while i < files.len()
            invariant
                i <= files.len(),
                names == views(files@),
                views(found@) == matching(names.take(i as int), pattern@),
            decreases files.len() - i,
        {
            assert(names.take(i as int + 1).drop_last() =~= names.take(i as int));
            if str_contains(files[i].as_str(), pattern) {
                found.push(files[i].clone());
            }
            i += 1;
        }
        assert(names.take(i as int) =~= names);
        if found.len() == 1 {
            Ok(found.remove(0))
        } else {
            Err(RancherError::ConfigNotFound)
        }
    }

    /// The keys and the address that a decoded configuration file holds,
    /// taken as they stand.
    pub fn from_plain_json(config: &Json) -> (r: Result<Rancher, RancherError>)
        ensures
            match r {
                Ok(rancher) => plain_config(config@) == Some(rancher@),
                Err(e) => e == RancherError::ConfigMalformed && plain_config(config@) is None,
            },
    {
        let url = match config.get_str("url") {
            Some(url) => url.clone(),
            None => { return Err(RancherError::ConfigMalformed); },
        };
        let access_key = match config.get_str("accessKey") {
            Some(key) => key.clone(),
            None => { return Err(RancherError::ConfigMalformed); },
        };
        let secret_key = match config.get_str("secretKey") {
            Some(key) => key.clone(),
            None => { return Err(RancherError::ConfigMalformed); },
        };
        Ok(Rancher { url, access_key, secret_key })
    }

    /// The configuration that a decoded configuration file holds.
    pub fn from_json(config: &Json) -> (r: Result<Rancher, RancherError>)
        ensures
            match r {
                Ok(rancher) => config_of(config@) == Some(rancher@),
                Err(e) => e == RancherError::ConfigMalformed && config_of(config@) is None,
            },
    {
        match Self::from_plain_json(config) {
            Ok(plain) => Ok(
                Rancher {
                    url: Self::normalize_url(plain.url.as_str()),
                    access_key: plain.access_key,
                    secret_key: plain.secret_key,
                },
            ),
            Err(e) => Err(e),
        }
    }

    /// The configuration that the text of a configuration file holds.
    pub fn from_config(content: &str) -> (r: Result<Rancher, RancherError>)
        ensures
            match r {
                Ok(rancher) => parsed(content@) matches Some(config) && config_of(config) == Some(
                    rancher@,
                ),
                Err(e) => e == RancherError::ConfigMalformed && !(parsed(content@) matches Some(
                    config,
                ) && config_of(config) is Some),
            },
    {
        match Json::parse(content) {
            Some(config) => Self::from_json(&config),
            None => Err(RancherError::ConfigMalformed),
        }
    }

    /// The header line for credentials that are already encoded.
    pub fn authorization(encoded: &str) -> (r: String)
        ensures
            r@ == authorization_line(encoded@),
    {
        let mut line = String::from_str("Authorization: Basic ");
        line.append(encoded);
        line
    }

    /// The credentials, before they are encoded: the two keys with a colon
    /// between them.
    pub fn credentials(&self) -> (r: String)
        ensures
            r@ == credentials_text(self@),
    {
        let mut text = self.access_key.clone();
        text.append(":");
        text.append(self.secret_key.as_str());
        text
    }

    /// The address of a path of the API.
    pub fn address(&self, path: &str) -> (r: String)
        ensures
            r@ == self@.url + path@,
    {
        let mut url = self.url.clone();
        url.append(path);
        url
    }

    /// The header line that authorises a request.
    pub fn auth(&self) -> (r: String)
        ensures
            r@ == auth_header(self@),
    {
        let credentials = self.credentials();
        let encoded = encode_base64(credentials.as_str());
        Self::authorization(encoded.as_str())
    }

    /// The GET request for a path.
    pub fn call_api(&self, path: &str) -> (request: Request)
        ensures
            request@ == get_request(self@, path@),
    {
        let mut headers: Vec<String> = Vec::new();
        headers.push(self.auth());
        let request = Request {
            method: Method::Get,
            url: self.address(path),
            headers,
            body: None,
            checked: false,
        };
        assert(request@.headers =~= seq![auth_header(self@)]);
        request
    }

    /// The POST request that sends `data`, a JSON text, to a path.
    pub fn post_api(&self, path: &str, data: &str) -> (request: Request)
        ensures
            request@ == post_request(self@, path@, data@),
    {
        let mut headers: Vec<String> = Vec::new();
        headers.push(self.auth());
        headers.push(String::from_str("Content-Type: application/json"));
        let request = Request {
            method: Method::Post,
            url: self.address(path),
            headers,
            body: Some(String::from_str(data)),
            checked: false,
        };
        assert(request@.headers =~= seq![auth_header(self@), "Content-Type: application/json"@]);
        request
    }

    /// The POST request without a body for a path; an answer to it that calls
    /// itself an error fails the request.
    pub fn post_api_without_data(&self, path: &str) -> (request: Request)
        ensures
            request@ == checked_post_request(self@, path@),
    {
        let mut headers: Vec<String> = Vec::new();
        headers.push(self.auth());
        let request = Request {
            method: Method::Post,
            url: self.address(path),
            headers,
            body: None,
            checked: true,
        };
        assert(request@.headers =~= seq![auth_header(self@)]);
        request
    }
}

} // verus!
