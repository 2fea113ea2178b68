//! The record types that cross the cookie API boundary, their spec-level
//! views, and the textual tags of the `sameSite` enumeration.

use vstd::prelude::*;

verus! {

/// The `sameSite` policy of a cookie. On the wire it is exactly one of the
/// four lowercase-with-underscores tags; see [`spec_same_site_tag`].
#[derive(Clone, Copy, Debug, PartialEq, Eq, Structural)]
pub enum SameSiteStatus {
    NoRestriction,
    Lax,
    Strict,
    Unspecified,
}

/// The partitioning dimension of a partitioned cookie. An absent flag means
/// the host's default applies.
#[derive(Clone, Copy, Debug, PartialEq, Eq)]
pub struct CookiePartitionKey {
    pub has_cross_site_ancestor: Option<bool>,
    pub top_level_site: Option<bool>,
}

/// Identifies which cookie a lookup should return.
#[derive(Clone, Debug, PartialEq, Eq)]
pub struct CookieDetails {
    pub name: String,
    pub partition_key: Option<CookiePartitionKey>,
    pub store_id: Option<String>,
    pub url: String,
}

/// A cookie-mutation request. Only `url` is mandatory; every absent field
/// lets the host apply its own default.
#[derive(Clone, Debug, PartialEq, Eq)]
pub struct SetCookieDetails {
    pub domain: Option<String>,
    pub expiration_date: Option<u64>,
    pub http_only: Option<bool>,
    pub name: Option<String>,
    pub partition_key: Option<CookiePartitionKey>,
    pub path: Option<String>,
    pub same_site: Option<SameSiteStatus>,
    pub secure: Option<bool>,
    pub store_id: Option<String>,
    pub url: String,
    pub value: Option<String>,
}

/// A fully populated cookie record, as the host reports one. An absent
/// `expiration_date` means a session cookie.
#[derive(Clone, Debug, PartialEq, Eq)]
pub struct Cookie {
    pub domain: String,
    pub expiration_date: Option<u64>,
    pub host_only: bool,
    pub http_only: bool,
    pub name: String,
    pub partition_key: Option<CookiePartitionKey>,
    pub path: String,
    pub same_site: SameSiteStatus,
    pub secure: bool,
    pub session: bool,
    pub store_id: String,
    pub value: String,
}

/// Spec-level image of an optional string.
pub open spec fn opt_str_view(o: Option<String>) -> Option<Seq<char>> {
    match o {
        Some(s) => Some(s@),
        None => None,
    }
}

/// Mathematical image of a [`CookieDetails`].
#[verifier::ext_equal]
pub ghost struct CookieDetailsView {
    pub name: Seq<char>,
    pub partition_key: Option<CookiePartitionKey>,
    pub store_id: Option<Seq<char>>,
    pub url: Seq<char>,
}

impl View for CookieDetails {
    type V = CookieDetailsView;

    open spec fn view(&self) -> CookieDetailsView {
        CookieDetailsView {
            name: self.name@,
            partition_key: self.partition_key,
            store_id: opt_str_view(self.store_id),
            url: self.url@,
        }
    }
}

/// Mathematical image of a [`SetCookieDetails`].
#[verifier::ext_equal]
pub ghost struct SetCookieDetailsView {
    pub domain: Option<Seq<char>>,
    pub expiration_date: Option<u64>,
    pub http_only: Option<bool>,
    pub name: Option<Seq<char>>,
    pub partition_key: Option<CookiePartitionKey>,
    pub path: Option<Seq<char>>,
    pub same_site: Option<SameSiteStatus>,
    pub secure: Option<bool>,
    pub store_id: Option<Seq<char>>,
    pub url: Seq<char>,
    pub value: Option<Seq<char>>,
}

impl View for SetCookieDetails {
    type V = SetCookieDetailsView;

    open spec fn view(&self) -> SetCookieDetailsView {
        SetCookieDetailsView {
            domain: opt_str_view(self.domain),
            expiration_date: self.expiration_date,
            http_only: self.http_only,
            name: opt_str_view(self.name),
            partition_key: self.partition_key,
            path: opt_str_view(self.path),
            same_site: self.same_site,
            secure: self.secure,
            store_id: opt_str_view(self.store_id),
            url: self.url@,
            value: opt_str_view(self.value),
        }
    }
}

/// Mathematical image of a [`Cookie`].
#[verifier::ext_equal]
pub ghost struct CookieView {
    pub domain: Seq<char>,
    pub expiration_date: Option<u64>,
    pub host_only: bool,
    pub http_only: bool,
    pub name: Seq<char>,
    pub partition_key: Option<CookiePartitionKey>,
    pub path: Seq<char>,
    pub same_site: SameSiteStatus,
    pub secure: bool,
    pub session: bool,
    pub store_id: Seq<char>,
    pub value: Seq<char>,
}

impl View for Cookie {
    type V = CookieView;

    open spec fn view(&self) -> CookieView {
        CookieView {
            domain: self.domain@,
            expiration_date: self.expiration_date,
            host_only: self.host_only,
            http_only: self.http_only,
            name: self.name@,
            partition_key: self.partition_key,
            path: self.path@,
            same_site: self.same_site,
            secure: self.secure,
            session: self.session,
            store_id: self.store_id@,
            value: self.value@,
        }
    }
}

/// The exact string tag under which a `sameSite` value crosses the wire.
pub open spec fn spec_same_site_tag(s: SameSiteStatus) -> Seq<char> {
    match s {
        SameSiteStatus::NoRestriction => "no_restriction"@,
        SameSiteStatus::Lax => "lax"@,
        SameSiteStatus::Strict => "strict"@,
        SameSiteStatus::Unspecified => "unspecified"@,
    }
}

/// The variant a string tag stands for, or `None` for any string that is
/// not exactly one of the four tags.
pub open spec fn spec_parse_same_site(t: Seq<char>) -> Option<SameSiteStatus> {
    if t == "no_restriction"@ {
        Some(SameSiteStatus::NoRestriction)
    } else if t == "lax"@ {
        Some(SameSiteStatus::Lax)
    } else if t == "strict"@ {
        Some(SameSiteStatus::Strict)
    } else if t == "unspecified"@ {
        Some(SameSiteStatus::Unspecified)
    } else {
        None
    }
}

/// Renders a `sameSite` value as its wire tag.
pub fn same_site_tag(s: SameSiteStatus) -> (r: String)
    ensures
        r@ == spec_same_site_tag(s),
{
    match s {
        SameSiteStatus::NoRestriction => String::from_str("no_restriction"),
        SameSiteStatus::Lax => String::from_str("lax"),
        SameSiteStatus::Strict => String::from_str("strict"),
        SameSiteStatus::Unspecified => String::from_str("unspecified"),
    }
}

/// Reads a wire tag back; accepts exactly the four tags and no other string.
pub fn parse_same_site(t: &String) -> (r: Option<SameSiteStatus>)
    ensures
        r == spec_parse_same_site(t@),
{
    if *t == String::from_str("no_restriction") {
        Some(SameSiteStatus::NoRestriction)
    } else if *t == String::from_str("lax") {
        Some(SameSiteStatus::Lax)
    } else if *t == String::from_str("strict") {
        Some(SameSiteStatus::Strict)
    } else if *t == String::from_str("unspecified") {
        Some(SameSiteStatus::Unspecified)
    } else {
        None
    }
}

/// Law: every `sameSite` variant round-trips through its own wire tag.
pub proof fn lemma_same_site_tag_round_trip(s: SameSiteStatus)
    ensures
        spec_parse_same_site(spec_same_site_tag(s)) == Some(s),
{
    reveal_strlit("no_restriction");
    reveal_strlit("lax");
    reveal_strlit("strict");
    reveal_strlit("unspecified");
    assert("no_restriction"@.len() == 14);
    assert("lax"@.len() == 3);
    assert("strict"@.len() == 6);
    assert("unspecified"@.len() == 11);
}

/// Law: a string that parses as a `sameSite` value is exactly the wire tag
/// of that value, so no fifth string is accepted.
pub proof fn lemma_same_site_tag_exclusive(t: Seq<char>)
    requires
        spec_parse_same_site(t) is Some,
    ensures
        t == spec_same_site_tag(spec_parse_same_site(t)->Some_0),
{
}

} // verus!
