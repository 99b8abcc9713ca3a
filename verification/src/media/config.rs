//! Where each media backend lives and the key that opens it.
use crate::media::error::MediaError;
use crate::urls::{read_url, url_facts};
use crate::text::{
    all_ascii, all_whitespace, ascii_uppercase, concat, is_blank, string_of, to_uppercase, trim,
    trim_end_char, trim_end_matches_char, trimmed, unicode_uppercase, str_eq,
};
use vstd::prelude::*;

verus! {

/// A backend's name, base URL and API key.
pub struct ServiceConfig {
    name: &'static str,
    base_url: String,
    api_key: String,
}

/// The base URL as it is kept: trimmed, without trailing slashes.
pub open spec fn normalized_base(base_url: Seq<char>) -> Seq<char> {
    trim_end_char(trimmed(base_url), '/')
}

/// Why a configuration is refused, if it is: an empty base URL, one that is
/// not an absolute URL, one that is not HTTP with a host, or a blank key.
pub open spec fn config_fault(name: Seq<char>, base_url: Seq<char>, api_key: Seq<char>) -> Option<Seq<char>> {
    let upper = unicode_uppercase(name);
    let base = normalized_base(base_url);
    if base.len() == 0 {
        Some(upper + "_BASE_URL is required"@)
    } else {
        match url_facts(base) {
            None => Some(upper + "_BASE_URL is invalid"@),
            Some(f) => if !(f.scheme == "http"@ || f.scheme == "https"@) || !f.has_host {
                Some(upper + "_BASE_URL must be an HTTP URL"@)
            } else if all_whitespace(api_key) {
                Some(upper + "_API_KEY is required"@)
            } else {
                None
            },
        }
    }
}

impl ServiceConfig {
    pub closed spec fn spec_name(&self) -> Seq<char> {
        self.name@
    }

    pub closed spec fn spec_base_url(&self) -> Seq<char> {
        self.base_url@
    }

    pub closed spec fn spec_api_key(&self) -> Seq<char> {
        self.api_key@
    }

    /// Checks and keeps a backend's configuration.
    pub fn new(name: &'static str, base_url: &str, api_key: &str) -> (r: Result<Self, MediaError>)
        ensures
            match config_fault(name@, base_url@, api_key@) {
                Some(m) => r matches Err(MediaError::Config(msg)) && msg@ == m,
                None => r matches Ok(c) && c.spec_name() == name@ && c.spec_base_url() == normalized_base(
                    base_url@,
                ) && c.spec_api_key() == api_key@,
            },
    {
        let trimmed_url = trim(base_url);
        let base = trim_end_matches_char(trimmed_url.as_str(), '/');
        let upper = to_uppercase(name);
        if base.unicode_len() == 0 {
            return Err(MediaError::Config(concat(upper.as_str(), "_BASE_URL is required")));
        }
        let facts = match read_url(base.as_str()) {
            Some(f) => f,
            None => {
                return Err(MediaError::Config(concat(upper.as_str(), "_BASE_URL is invalid")));
            },
        };
        let http = str_eq(facts.scheme.as_str(), "http") || str_eq(facts.scheme.as_str(), "https");
        if !http || !facts.has_host {
            return Err(MediaError::Config(concat(upper.as_str(), "_BASE_URL must be an HTTP URL")));
        }
        if is_blank(api_key) {
            return Err(MediaError::Config(concat(upper.as_str(), "_API_KEY is required")));
        }
        Ok(ServiceConfig { name, base_url: base, api_key: string_of(api_key) })
    }

    pub fn name(&self) -> (r: &'static str)
        ensures
            r@ == self.spec_name(),
    {
        self.name
    }

    pub fn base_url(&self) -> (r: &str)
        ensures
            r@ == self.spec_base_url(),
    {
        self.base_url.as_str()
    }

    pub fn api_key(&self) -> (r: &str)
        ensures
            r@ == self.spec_api_key(),
    {
        self.api_key.as_str()
    }
}

/// The configurations of the three backends.
pub struct MediaConfig {
    pub jellyseerr: ServiceConfig,
    pub sabnzbd: ServiceConfig,
    pub jellyfin: ServiceConfig,
}

pub const DEFAULT_JELLYSEERR_BASE_URL: &'static str = "http://jellyseerr.jellyseerr.svc.cluster.local:5055";

pub const DEFAULT_SABNZBD_BASE_URL: &'static str = "http://sabnzbd.sabnzbd.svc.cluster.local:8080";

pub const DEFAULT_JELLYFIN_BASE_URL: &'static str = "http://jellyfin.jellyfin.svc.cluster.local:8096";

/// A setting as given, or its default when it is unset.
pub open spec fn setting(value: Option<Seq<char>>, default: Seq<char>) -> Seq<char> {
    match value {
        Some(v) => v,
        None => default,
    }
}

fn setting_or<'a>(value: &'a Option<String>, default: &'a str) -> (r: &'a str)
    ensures
        r@ == setting(
            match value {
                Some(v) => Some(v@),
                None => None,
            },
            default@,
        ),
{
    match value {
        Some(v) => v.as_str(),
        None => default,
    }
}

pub open spec fn opt_view(value: Option<String>) -> Option<Seq<char>> {
    match value {
        Some(v) => Some(v@),
        None => None,
    }
}

impl MediaConfig {
    /// The configuration from the settings that are set (`None` for an unset
    /// one): a base URL defaults to the backend's in-cluster address, a key to
    /// the empty text; the backends are checked in the order request manager,
    /// download manager, media server, and the first refusal is returned.
    pub fn from_settings(
        jellyseerr_base_url: Option<String>,
        jellyseerr_api_key: Option<String>,
        sabnzbd_base_url: Option<String>,
        sabnzbd_api_key: Option<String>,
        jellyfin_base_url: Option<String>,
        jellyfin_api_key: Option<String>,
    ) -> (r: Result<Self, MediaError>)
        ensures
            ({
                let js = config_fault(
                    "jellyseerr"@,
                    setting(opt_view(jellyseerr_base_url), DEFAULT_JELLYSEERR_BASE_URL@),
                    setting(opt_view(jellyseerr_api_key), ""@),
                );
                let sb = config_fault(
                    "sabnzbd"@,
                    setting(opt_view(sabnzbd_base_url), DEFAULT_SABNZBD_BASE_URL@),
                    setting(opt_view(sabnzbd_api_key), ""@),
                );
                let jf = config_fault(
                    "jellyfin"@,
                    setting(opt_view(jellyfin_base_url), DEFAULT_JELLYFIN_BASE_URL@),
                    setting(opt_view(jellyfin_api_key), ""@),
                );
                match (js, sb, jf) {
                    (Some(m), _, _) => r matches Err(MediaError::Config(msg)) && msg@ == m,
                    (None, Some(m), _) => r matches Err(MediaError::Config(msg)) && msg@ == m,
                    (None, None, Some(m)) => r matches Err(MediaError::Config(msg)) && msg@ == m,
                    (None, None, None) => r is Ok,
                }
            }),
    {
        let jellyseerr = ServiceConfig::new(
            "jellyseerr",
            setting_or(&jellyseerr_base_url, DEFAULT_JELLYSEERR_BASE_URL),
            setting_or(&jellyseerr_api_key, ""),
        )?;
        let sabnzbd = ServiceConfig::new(
            "sabnzbd",
            setting_or(&sabnzbd_base_url, DEFAULT_SABNZBD_BASE_URL),
            setting_or(&sabnzbd_api_key, ""),
        )?;
        let jellyfin = ServiceConfig::new(
            "jellyfin",
            setting_or(&jellyfin_base_url, DEFAULT_JELLYFIN_BASE_URL),
            setting_or(&jellyfin_api_key, ""),
        )?;
        Ok(MediaConfig { jellyseerr, sabnzbd, jellyfin })
    }
}

} // verus!
