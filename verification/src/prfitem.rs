use crate::help::{derive_filename, derived_text, lookup_u64, opt_bytes, parse_str};
use vstd::prelude::*;
use vstd::string::{StringExecFns, StringSliceAdditionalSpecFns};

verus! {

/// Quota counters reported by the provider for one subscription:
/// consumed upload and download bytes, the total byte allowance and the
/// expiry instant in seconds. A counter the provider omits is zero.
#[derive(Default, Debug, Clone, Copy, PartialEq, Eq, Structural)]
pub struct PrfExtra {
    pub upload: u64,
    pub download: u64,
    pub total: u64,
    pub expire: u64,
}

/// One subscription profile as held in memory and in the store.
#[derive(Default, Debug)]
pub struct PrfItem {
    /// Unique identifier, set once when the profile is ingested.
    pub uid: Option<String>,
    /// Profile kind: remote | local | script | merge.
    pub itype: Option<String>,
    /// Display name, derived from the filename.
    pub name: Option<String>,
    /// Logical filename, without extension.
    pub file: Option<String>,
    /// Free-form description; the ingestion pipeline leaves it empty.
    pub desc: Option<String>,
    /// The URL the profile was ingested from.
    pub url: Option<String>,
    /// Whether the user has selected this profile.
    pub selected: Option<bool>,
    /// Quota counters parsed from the subscription user-info header.
    pub extra: Option<PrfExtra>,
    /// Insertion timestamp in seconds, set by the persistence layer.
    pub updated: Option<usize>,
    /// Profile web page URL taken verbatim from the response headers.
    pub home: Option<String>,
    /// The fetched profile body; written to the file system, never to the store.
    pub file_data: Option<String>,
}

/// The mathematical value of a profile: every text field as its character
/// sequence. Two profiles with equal models are indistinguishable to the
/// rest of the runtime.
pub struct PrfItemModel {
    pub uid: Option<Seq<char>>,
    pub itype: Option<Seq<char>>,
    pub name: Option<Seq<char>>,
    pub file: Option<Seq<char>>,
    pub desc: Option<Seq<char>>,
    pub url: Option<Seq<char>>,
    pub selected: Option<bool>,
    pub extra: Option<PrfExtra>,
    pub updated: Option<usize>,
    pub home: Option<Seq<char>>,
    pub file_data: Option<Seq<char>>,
}

/// The character sequence behind an optional string.
pub open spec fn opt_text(o: Option<String>) -> Option<Seq<char>> {
    match o {
        Some(s) => Some(s@),
        None => None,
    }
}

impl PrfItem {
    /// The abstract value of this profile.
    pub open spec fn model(&self) -> PrfItemModel {
        PrfItemModel {
            uid: opt_text(self.uid),
            itype: opt_text(self.itype),
            name: opt_text(self.name),
            file: opt_text(self.file),
            desc: opt_text(self.desc),
            url: opt_text(self.url),
            selected: self.selected,
            extra: self.extra,
            updated: self.updated,
            home: opt_text(self.home),
            file_data: opt_text(self.file_data),
        }
    }
}

/// A copy of an optional string with the same characters.
fn clone_opt_string(o: &Option<String>) -> (r: Option<String>)
    ensures
        opt_text(r) == opt_text(*o),
{
    match o {
        Some(s) => Some(s.clone()),
        None => None,
    }
}

impl Clone for PrfItem {
    /// A copy with the same model: every field carries the same value.
    fn clone(&self) -> (res: Self)
        ensures
            res.model() == self.model(),
    {
        PrfItem {
            uid: clone_opt_string(&self.uid),
            itype: clone_opt_string(&self.itype),
            name: clone_opt_string(&self.name),
            file: clone_opt_string(&self.file),
            desc: clone_opt_string(&self.desc),
            url: clone_opt_string(&self.url),
            selected: self.selected,
            extra: self.extra,
            updated: self.updated,
            home: clone_opt_string(&self.home),
            file_data: clone_opt_string(&self.file_data),
        }
    }
}

/// The quota counters a subscription user-info header value carries: each
/// counter is the number under its key, or zero where the key is absent or
/// its value unreadable.
pub open spec fn quota_of(info: Seq<u8>) -> PrfExtra {
    PrfExtra {
        upload: or_zero(lookup_u64(info, "upload".spec_bytes())),
        download: or_zero(lookup_u64(info, "download".spec_bytes())),
        total: or_zero(lookup_u64(info, "total".spec_bytes())),
        expire: or_zero(lookup_u64(info, "expire".spec_bytes())),
    }
}

/// A looked-up counter, defaulting to zero.
pub open spec fn or_zero(o: Option<u64>) -> u64 {
    match o {
        Some(v) => v,
        None => 0,
    }
}

impl PrfExtra {
    /// Reads the subscription user-info header value, a `;`-separated list
    /// of `key=value` pairs; a counter whose key is missing is zero.
    pub fn parse(info: &str) -> (r: PrfExtra)
        ensures
            r == quota_of(info.spec_bytes()),
    {
        PrfExtra {
            upload: match parse_str(info, "upload") {
                Some(v) => v,
                None => 0,
            },
            download: match parse_str(info, "download") {
                Some(v) => v,
                None => 0,
            },
            total: match parse_str(info, "total") {
                Some(v) => v,
                None => 0,
            },
            expire: match parse_str(info, "expire") {
                Some(v) => v,
                None => 0,
            },
        }
    }
}

/// Why an ingestion attempt failed. Failures are reported to the user and
/// never stop the dispatch loop.
#[derive(Debug)]
pub enum IngestionError {
    /// The transport failed before a response arrived.
    Network(String),
    /// The response arrived with a non-success status.
    HttpStatus(u16),
    /// The response body was not readable as text.
    DecodeError,
}

impl IngestionError {
    /// The text of the failure report.
    pub open spec fn message_text(&self) -> Seq<char> {
        match self {
            IngestionError::Network(s) => "network error: "@ + s@,
            IngestionError::HttpStatus(c) => "failed to fetch remote profile with status "@
                + crate::help::dec_digits(*c as nat),
            IngestionError::DecodeError => "failed to decode the response body"@,
        }
    }

    /// The failure report shown to the user.
    pub fn message(&self) -> (r: String)
        ensures
            r@ == self.message_text(),
    {
        match self {
            IngestionError::Network(s) => {
                let mut m = "network error: ".to_owned();
                m.append(s.as_str());
                m
            },
            IngestionError::HttpStatus(c) => {
                let mut m = "failed to fetch remote profile with status ".to_owned();
                let digits = crate::help::u64_to_string(*c as u64);
                m.append(digits.as_str());
                m
            },
            IngestionError::DecodeError => "failed to decode the response body".to_owned(),
        }
    }
}

/// A status code in the success range.
pub open spec fn success_status(status: u16) -> bool {
    200 <= status < 300
}

/// Relies on uuid::Uuid::new_v4 and its display form: a fresh random
/// identifier, written as 36 hyphenated hexadecimal characters. Nothing
/// more can be said of a random value.
#[verifier::external_body]
fn new_uid() -> (r: String)
    ensures
        r@.len() == 36,
{
    uuid::Uuid::new_v4().to_string()
}

/// The characters behind an optional borrowed string.
pub open spec fn opt_str_text(o: Option<&str>) -> Option<Seq<char>> {
    match o {
        Some(s) => Some(s@),
        None => None,
    }
}

impl PrfItem {
    /// Builds the profile a fetched response describes. The status must be
    /// in the success range and the body must have decoded, else the typed
    /// failure says which; on success every field of the profile is fixed
    /// by the URL, the headers and the body, except the freshly drawn
    /// identifier.
    pub fn from_response(
        url: &str,
        status: u16,
        user_info: Option<&str>,
        disposition: Option<&str>,
        home_page: Option<&str>,
        body: Option<String>,
    ) -> (r: Result<PrfItem, IngestionError>)
        ensures
            match r {
                Ok(item) => success_status(status) && body is Some && {
                    let m = item.model();
                    &&& m.uid matches Some(u) && u.len() == 36
                    &&& m.itype == Some("remote"@)
                    &&& m.name == Some(derived_text(opt_bytes(disposition), url.spec_bytes()))
                    &&& m.file == Some(derived_text(opt_bytes(disposition), url.spec_bytes()))
                    &&& m.desc is None
                    &&& m.url == Some(url@)
                    &&& m.selected == Some(false)
                    &&& m.extra == (match user_info {
                        Some(info) => Some(quota_of(info.spec_bytes())),
                        None => None::<PrfExtra>,
                    })
                    &&& m.updated is None
                    &&& m.home == opt_str_text(home_page)
                    &&& m.file_data == Some(body.unwrap()@)
                },
                Err(e) => match e {
                    IngestionError::HttpStatus(c) => c == status && !success_status(status),
                    IngestionError::DecodeError => success_status(status) && body is None,
                    IngestionError::Network(_) => false,
                },
            },
    {
        if status < 200 || status >= 300 {
            return Err(IngestionError::HttpStatus(status));
        }
        let data = match body {
            Some(d) => d,
            None => {
                return Err(IngestionError::DecodeError);
            },
        };
        let extra = match user_info {
            Some(info) => Some(PrfExtra::parse(info)),
            None => None,
        };
        let filename = derive_filename(disposition, url);
        let name = filename.clone();
        let home = match home_page {
            Some(h) => Some(h.to_owned()),
            None => None,
        };
        Ok(
            PrfItem {
                uid: Some(new_uid()),
                itype: Some("remote".to_owned()),
                name: Some(name),
                file: Some(filename),
                desc: None,
                url: Some(url.to_owned()),
                selected: Some(false),
                extra,
                updated: None,
                home,
                file_data: Some(data),
            },
        )
    }
}

/// A profile may be persisted only when both its filename and its body are
/// present; nothing may be written for one that lacks either.
pub open spec fn persistable(m: PrfItemModel) -> bool {
    m.file is Some && m.file_data is Some
}

impl PrfItem {
    /// Whether this profile is complete enough to persist: the filename and
    /// the fetched body are both present.
    pub fn ready_to_persist(&self) -> (r: bool)
        ensures
            r <==> persistable(self.model()),
    {
        self.file.is_some() && self.file_data.is_some()
    }
}

/// The name of the file a profile is stored under: its logical filename
/// with the configuration extension.
pub fn file_target(name: &str) -> (r: String)
    ensures
        r@ == name@ + ".yaml"@,
{
    let mut s = name.to_owned();
    s.append(".yaml");
    s
}

} // verus!
