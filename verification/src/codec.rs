//! The verified codec between the typed cookie records and the wire shape.
//!
//! Encoding turns a request record into the camel-case keyed object the
//! host expects; an absent optional field crosses as the empty sentinel.
//! Decoding reads a host response back: the empty sentinel is a normal
//! "no cookie" result, and any response that does not have the shape of a
//! cookie record is a [`DecodeError`], distinguishable from absence.

use vstd::prelude::*;

use crate::cookies::Cookie;
use crate::cookies::CookieDetails;
use crate::cookies::CookieDetailsView;
use crate::cookies::CookiePartitionKey;
use crate::cookies::CookieView;
use crate::cookies::SameSiteStatus;
use crate::cookies::SetCookieDetails;
use crate::cookies::SetCookieDetailsView;
use crate::cookies::opt_str_view;
use crate::cookies::parse_same_site;
use crate::cookies::same_site_tag;
use crate::cookies::spec_parse_same_site;
use crate::cookies::spec_same_site_tag;
use crate::wire::WireVal;
use crate::wire::WireValue;
use crate::wire::fields_view;
use crate::wire::lookup_field;
use crate::wire::wire_lookup;

verus! {

/// Why a host response failed to decode as a cookie record.
#[derive(Clone, Copy, Debug, PartialEq, Eq, Structural)]
pub enum DecodeError {
    /// The response was neither the empty sentinel nor an object.
    NotAnObject,
    /// A required field was missing or empty.
    MissingField,
    /// A field held a value of the wrong type.
    WrongFieldType,
    /// The `sameSite` field held a string other than the four tags.
    UnknownSameSiteTag,
}

// The camel-case wire keys. Every key is fixed by the host's call
// convention and must cross the boundary exactly as written here.
pub open spec fn key_domain() -> Seq<char> {
    "domain"@
}

pub open spec fn key_expiration_date() -> Seq<char> {
    "expirationDate"@
}

pub open spec fn key_host_only() -> Seq<char> {
    "hostOnly"@
}

pub open spec fn key_http_only() -> Seq<char> {
    "httpOnly"@
}

pub open spec fn key_name() -> Seq<char> {
    "name"@
}

pub open spec fn key_partition_key() -> Seq<char> {
    "partitionKey"@
}

pub open spec fn key_path() -> Seq<char> {
    "path"@
}

pub open spec fn key_same_site() -> Seq<char> {
    "sameSite"@
}

pub open spec fn key_secure() -> Seq<char> {
    "secure"@
}

pub open spec fn key_session() -> Seq<char> {
    "session"@
}

pub open spec fn key_store_id() -> Seq<char> {
    "storeId"@
}

pub open spec fn key_url() -> Seq<char> {
    "url"@
}

pub open spec fn key_value() -> Seq<char> {
    "value"@
}

pub open spec fn key_has_cross_site_ancestor() -> Seq<char> {
    "hasCrossSiteAncestor"@
}

pub open spec fn key_top_level_site() -> Seq<char> {
    "topLevelSite"@
}

// ---------------------------------------------------------------------
// The wire image of each field kind.
// ---------------------------------------------------------------------

/// An optional string field: absent means "host default".
pub open spec fn opt_str_val(o: Option<Seq<char>>) -> WireVal {
    match o {
        Some(s) => WireVal::Str(s),
        None => WireVal::Absent,
    }
}

/// An optional unsigned number field.
pub open spec fn opt_uint_val(o: Option<u64>) -> WireVal {
    match o {
        Some(n) => WireVal::Uint(n),
        None => WireVal::Absent,
    }
}

/// An optional boolean field.
pub open spec fn opt_bool_val(o: Option<bool>) -> WireVal {
    match o {
        Some(b) => WireVal::Bool(b),
        None => WireVal::Absent,
    }
}

/// A partition key crosses as an object of its two optional flags.
pub open spec fn partition_key_val(k: CookiePartitionKey) -> WireVal {
    WireVal::Object(
        seq![
            (key_has_cross_site_ancestor(), opt_bool_val(k.has_cross_site_ancestor)),
            (key_top_level_site(), opt_bool_val(k.top_level_site)),
        ],
    )
}

pub open spec fn opt_partition_key_val(o: Option<CookiePartitionKey>) -> WireVal {
    match o {
        Some(k) => partition_key_val(k),
        None => WireVal::Absent,
    }
}

/// An optional `sameSite` field crosses as its wire tag.
pub open spec fn opt_same_site_val(o: Option<SameSiteStatus>) -> WireVal {
    match o {
        Some(s) => WireVal::Str(spec_same_site_tag(s)),
        None => WireVal::Absent,
    }
}

// ---------------------------------------------------------------------
// The wire image of each record.
// ---------------------------------------------------------------------

/// The object a cookie lookup request crosses the boundary as.
pub open spec fn spec_encode_details(d: CookieDetailsView) -> WireVal {
    WireVal::Object(
        seq![
            (key_name(), WireVal::Str(d.name)),
            (key_partition_key(), opt_partition_key_val(d.partition_key)),
            (key_store_id(), opt_str_val(d.store_id)),
            (key_url(), WireVal::Str(d.url)),
        ],
    )
}

/// The object a cookie write request crosses the boundary as.
pub open spec fn spec_encode_set_details(w: SetCookieDetailsView) -> WireVal {
    WireVal::Object(
        seq![
            (key_domain(), opt_str_val(w.domain)),
            (key_expiration_date(), opt_uint_val(w.expiration_date)),
            (key_http_only(), opt_bool_val(w.http_only)),
            (key_name(), opt_str_val(w.name)),
            (key_partition_key(), opt_partition_key_val(w.partition_key)),
            (key_path(), opt_str_val(w.path)),
            (key_same_site(), opt_same_site_val(w.same_site)),
            (key_secure(), opt_bool_val(w.secure)),
            (key_store_id(), opt_str_val(w.store_id)),
            (key_url(), WireVal::Str(w.url)),
            (key_value(), opt_str_val(w.value)),
        ],
    )
}

/// The object shape of a full cookie record, as a host response carries it.
pub open spec fn spec_encode_cookie(c: CookieView) -> WireVal {
    WireVal::Object(
        seq![
            (key_domain(), WireVal::Str(c.domain)),
            (key_expiration_date(), opt_uint_val(c.expiration_date)),
            (key_host_only(), WireVal::Bool(c.host_only)),
            (key_http_only(), WireVal::Bool(c.http_only)),
            (key_name(), WireVal::Str(c.name)),
            (key_partition_key(), opt_partition_key_val(c.partition_key)),
            (key_path(), WireVal::Str(c.path)),
            (key_same_site(), WireVal::Str(spec_same_site_tag(c.same_site))),
            (key_secure(), WireVal::Bool(c.secure)),
            (key_session(), WireVal::Bool(c.session)),
            (key_store_id(), WireVal::Str(c.store_id)),
            (key_value(), WireVal::Str(c.value)),
        ],
    )
}

// ---------------------------------------------------------------------
// Reading single fields out of a response object.
// ---------------------------------------------------------------------

/// A required string field: present with a string value, or the decode fails.
pub open spec fn req_string(fs: Seq<(Seq<char>, WireVal)>, key: Seq<char>) -> Result<
    Seq<char>,
    DecodeError,
> {
    match wire_lookup(fs, key) {
        Some(WireVal::Str(s)) => Ok(s),
        Some(WireVal::Absent) => Err(DecodeError::MissingField),
        None => Err(DecodeError::MissingField),
        Some(_) => Err(DecodeError::WrongFieldType),
    }
}

/// A required boolean field.
pub open spec fn req_bool(fs: Seq<(Seq<char>, WireVal)>, key: Seq<char>) -> Result<
    bool,
    DecodeError,
> {
    match wire_lookup(fs, key) {
        Some(WireVal::Bool(b)) => Ok(b),
        Some(WireVal::Absent) => Err(DecodeError::MissingField),
        None => Err(DecodeError::MissingField),
        Some(_) => Err(DecodeError::WrongFieldType),
    }
}

/// An optional unsigned number field: missing or empty reads as `None`.
pub open spec fn opt_uint(fs: Seq<(Seq<char>, WireVal)>, key: Seq<char>) -> Result<
    Option<u64>,
    DecodeError,
> {
    match wire_lookup(fs, key) {
        None => Ok(None),
        Some(WireVal::Absent) => Ok(None),
        Some(WireVal::Uint(n)) => Ok(Some(n)),
        Some(_) => Err(DecodeError::WrongFieldType),
    }
}

/// An optional boolean field: missing or empty reads as `None`.
pub open spec fn opt_bool(fs: Seq<(Seq<char>, WireVal)>, key: Seq<char>) -> Result<
    Option<bool>,
    DecodeError,
> {
    match wire_lookup(fs, key) {
        None => Ok(None),
        Some(WireVal::Absent) => Ok(None),
        Some(WireVal::Bool(b)) => Ok(Some(b)),
        Some(_) => Err(DecodeError::WrongFieldType),
    }
}

/// The required `sameSite` field: a string holding exactly one of the four
/// tags, or the decode fails.
pub open spec fn req_same_site(fs: Seq<(Seq<char>, WireVal)>, key: Seq<char>) -> Result<
    SameSiteStatus,
    DecodeError,
> {
    match wire_lookup(fs, key) {
        Some(WireVal::Str(t)) => match spec_parse_same_site(t) {
            Some(s) => Ok(s),
            None => Err(DecodeError::UnknownSameSiteTag),
        },
        Some(WireVal::Absent) => Err(DecodeError::MissingField),
        None => Err(DecodeError::MissingField),
        Some(_) => Err(DecodeError::WrongFieldType),
    }
}

/// A partition key object: both flags optional, nothing else accepted.
pub open spec fn spec_decode_partition_key(pfs: Seq<(Seq<char>, WireVal)>) -> Result<
    Option<CookiePartitionKey>,
    DecodeError,
> {
    if opt_bool(pfs, key_has_cross_site_ancestor()) is Err {
        Err(opt_bool(pfs, key_has_cross_site_ancestor())->Err_0)
    } else if opt_bool(pfs, key_top_level_site()) is Err {
        Err(opt_bool(pfs, key_top_level_site())->Err_0)
    } else {
        Ok(
            Some(
                CookiePartitionKey {
                    has_cross_site_ancestor: opt_bool(pfs, key_has_cross_site_ancestor())->Ok_0,
                    top_level_site: opt_bool(pfs, key_top_level_site())->Ok_0,
                },
            ),
        )
    }
}

/// An optional partition key field: missing or empty reads as `None`.
pub open spec fn opt_partition_key(fs: Seq<(Seq<char>, WireVal)>, key: Seq<char>) -> Result<
    Option<CookiePartitionKey>,
    DecodeError,
> {
    match wire_lookup(fs, key) {
        None => Ok(None),
        Some(WireVal::Absent) => Ok(None),
        Some(WireVal::Object(pfs)) => spec_decode_partition_key(pfs),
        Some(_) => Err(DecodeError::WrongFieldType),
    }
}

// ---------------------------------------------------------------------
// Decoding a whole response.
// ---------------------------------------------------------------------

/// Reads a full cookie record out of a response object's fields. Fields
/// are checked in wire-key order; the first failure decides the error.
pub open spec fn spec_decode_cookie_fields(fs: Seq<(Seq<char>, WireVal)>) -> Result<
    CookieView,
    DecodeError,
> {
    if req_string(fs, key_domain()) is Err {
        Err(req_string(fs, key_domain())->Err_0)
    } else if opt_uint(fs, key_expiration_date()) is Err {
        Err(opt_uint(fs, key_expiration_date())->Err_0)
    } else if req_bool(fs, key_host_only()) is Err {
        Err(req_bool(fs, key_host_only())->Err_0)
    } else if req_bool(fs, key_http_only()) is Err {
        Err(req_bool(fs, key_http_only())->Err_0)
    } else if req_string(fs, key_name()) is Err {
        Err(req_string(fs, key_name())->Err_0)
    } else if opt_partition_key(fs, key_partition_key()) is Err {
        Err(opt_partition_key(fs, key_partition_key())->Err_0)
    } else if req_string(fs, key_path()) is Err {
        Err(req_string(fs, key_path())->Err_0)
    } else if req_same_site(fs, key_same_site()) is Err {
        Err(req_same_site(fs, key_same_site())->Err_0)
    } else if req_bool(fs, key_secure()) is Err {
        Err(req_bool(fs, key_secure())->Err_0)
    } else if req_bool(fs, key_session()) is Err {
        Err(req_bool(fs, key_session())->Err_0)
    } else if req_string(fs, key_store_id()) is Err {
        Err(req_string(fs, key_store_id())->Err_0)
    } else if req_string(fs, key_value()) is Err {
        Err(req_string(fs, key_value())->Err_0)
    } else {
        Ok(
            CookieView {
                domain: req_string(fs, key_domain())->Ok_0,
                expiration_date: opt_uint(fs, key_expiration_date())->Ok_0,
                host_only: req_bool(fs, key_host_only())->Ok_0,
                http_only: req_bool(fs, key_http_only())->Ok_0,
                name: req_string(fs, key_name())->Ok_0,
                partition_key: opt_partition_key(fs, key_partition_key())->Ok_0,
                path: req_string(fs, key_path())->Ok_0,
                same_site: req_same_site(fs, key_same_site())->Ok_0,
                secure: req_bool(fs, key_secure())->Ok_0,
                session: req_bool(fs, key_session())->Ok_0,
                store_id: req_string(fs, key_store_id())->Ok_0,
                value: req_string(fs, key_value())->Ok_0,
            },
        )
    }
}

/// What any host response decodes to: the empty sentinel is "no cookie",
/// an object is read as a cookie record, anything else is an error.
pub open spec fn spec_decode_cookie(v: WireVal) -> Result<Option<CookieView>, DecodeError> {
    match v {
        WireVal::Absent => Ok(None),
        WireVal::Object(fs) => match spec_decode_cookie_fields(fs) {
            Ok(c) => Ok(Some(c)),
            Err(e) => Err(e),
        },
        _ => Err(DecodeError::NotAnObject),
    }
}

// ---------------------------------------------------------------------
// Encoding requests and records.
// ---------------------------------------------------------------------

fn encode_opt_string(o: &Option<String>) -> (r: WireValue)
    ensures
        r@ == opt_str_val(opt_str_view(*o)),
{
    match o {
        Some(s) => WireValue::Str(s.clone()),
        None => WireValue::Absent,
    }
}

fn encode_opt_uint(o: &Option<u64>) -> (r: WireValue)
    ensures
        r@ == opt_uint_val(*o),
{
    match o {
        Some(n) => WireValue::Uint(*n),
        None => WireValue::Absent,
    }
}

fn encode_opt_bool(o: &Option<bool>) -> (r: WireValue)
    ensures
        r@ == opt_bool_val(*o),
{
    match o {
        Some(b) => WireValue::Bool(*b),
        None => WireValue::Absent,
    }
}

fn encode_partition_key(k: &CookiePartitionKey) -> (r: WireValue)
    ensures
        r@ == partition_key_val(*k),
{
    let mut fields: Vec<(String, WireValue)> = Vec::new();
    fields.push(
        (String::from_str("hasCrossSiteAncestor"), encode_opt_bool(&k.has_cross_site_ancestor)),
    );
    fields.push((String::from_str("topLevelSite"), encode_opt_bool(&k.top_level_site)));
    proof {
        assert(fields_view(fields@) =~= partition_key_val(*k)->Object_0);
    }
    WireValue::Object(fields)
}

fn encode_opt_partition_key(o: &Option<CookiePartitionKey>) -> (r: WireValue)
    ensures
        r@ == opt_partition_key_val(*o),
{
    match o {
        Some(k) => encode_partition_key(k),
        None => WireValue::Absent,
    }
}

fn encode_opt_same_site(o: &Option<SameSiteStatus>) -> (r: WireValue)
    ensures
        r@ == opt_same_site_val(*o),
{
    match o {
        Some(s) => WireValue::Str(same_site_tag(*s)),
        None => WireValue::Absent,
    }
}

/// Builds the wire object for a cookie lookup request.
pub fn encode_details(d: &CookieDetails) -> (r: WireValue)
    ensures
        r@ == spec_encode_details(d@),
{
    let mut fields: Vec<(String, WireValue)> = Vec::new();
    fields.push((String::from_str("name"), WireValue::Str(d.name.clone())));
    fields.push((String::from_str("partitionKey"), encode_opt_partition_key(&d.partition_key)));
    fields.push((String::from_str("storeId"), encode_opt_string(&d.store_id)));
    fields.push((String::from_str("url"), WireValue::Str(d.url.clone())));
    proof {
        assert(fields_view(fields@) =~= spec_encode_details(d@)->Object_0);
    }
    WireValue::Object(fields)
}

/// Builds the wire object for a cookie write request.
pub fn encode_set_details(w: &SetCookieDetails) -> (r: WireValue)
    ensures
        r@ == spec_encode_set_details(w@),
{
    let mut fields: Vec<(String, WireValue)> = Vec::new();
    fields.push((String::from_str("domain"), encode_opt_string(&w.domain)));
    fields.push((String::from_str("expirationDate"), encode_opt_uint(&w.expiration_date)));
    fields.push((String::from_str("httpOnly"), encode_opt_bool(&w.http_only)));
    fields.push((String::from_str("name"), encode_opt_string(&w.name)));
    fields.push((String::from_str("partitionKey"), encode_opt_partition_key(&w.partition_key)));
    fields.push((String::from_str("path"), encode_opt_string(&w.path)));
    fields.push((String::from_str("sameSite"), encode_opt_same_site(&w.same_site)));
    fields.push((String::from_str("secure"), encode_opt_bool(&w.secure)));
    fields.push((String::from_str("storeId"), encode_opt_string(&w.store_id)));
    fields.push((String::from_str("url"), WireValue::Str(w.url.clone())));
    fields.push((String::from_str("value"), encode_opt_string(&w.value)));
    proof {
        assert(fields_view(fields@) =~= spec_encode_set_details(w@)->Object_0);
    }
    WireValue::Object(fields)
}

/// Builds the wire object a host response carries a full cookie record as.
/// A host that holds this cookie answers a lookup with exactly this value.
pub fn encode_cookie(c: &Cookie) -> (r: WireValue)
    ensures
        r@ == spec_encode_cookie(c@),
{
    let mut fields: Vec<(String, WireValue)> = Vec::new();
    fields.push((String::from_str("domain"), WireValue::Str(c.domain.clone())));
    fields.push((String::from_str("expirationDate"), encode_opt_uint(&c.expiration_date)));
    fields.push((String::from_str("hostOnly"), WireValue::Bool(c.host_only)));
    fields.push((String::from_str("httpOnly"), WireValue::Bool(c.http_only)));
    fields.push((String::from_str("name"), WireValue::Str(c.name.clone())));
    fields.push((String::from_str("partitionKey"), encode_opt_partition_key(&c.partition_key)));
    fields.push((String::from_str("path"), WireValue::Str(c.path.clone())));
    fields.push((String::from_str("sameSite"), WireValue::Str(same_site_tag(c.same_site))));
    fields.push((String::from_str("secure"), WireValue::Bool(c.secure)));
    fields.push((String::from_str("session"), WireValue::Bool(c.session)));
    fields.push((String::from_str("storeId"), WireValue::Str(c.store_id.clone())));
    fields.push((String::from_str("value"), WireValue::Str(c.value.clone())));
    proof {
        assert(fields_view(fields@) =~= spec_encode_cookie(c@)->Object_0);
    }
    WireValue::Object(fields)
}

/// The spec-level image of a decode result.
pub open spec fn decode_result_view(r: Result<Option<Cookie>, DecodeError>) -> Result<
    Option<CookieView>,
    DecodeError,
> {
    match r {
        Ok(Some(c)) => Ok(Some(c@)),
        Ok(None) => Ok(None),
        Err(e) => Err(e),
    }
}

fn req_string_field(fields: &Vec<(String, WireValue)>, key: &String) -> (r: Result<
    String,
    DecodeError,
>)
    ensures
        ({
            let s = req_string(fields_view(fields@), key@);
            match r {
                Ok(v) => s == Ok::<Seq<char>, DecodeError>(v@),
                Err(e) => s == Err::<Seq<char>, DecodeError>(e),
            }
        }),
{
    match lookup_field(fields, key) {
        Some(WireValue::Str(s)) => Ok(s.clone()),
        Some(WireValue::Absent) => Err(DecodeError::MissingField),
        None => Err(DecodeError::MissingField),
        Some(_) => Err(DecodeError::WrongFieldType),
    }
}

fn req_bool_field(fields: &Vec<(String, WireValue)>, key: &String) -> (r: Result<
    bool,
    DecodeError,
>)
    ensures
        req_bool(fields_view(fields@), key@) == r,
{
    match lookup_field(fields, key) {
        Some(WireValue::Bool(b)) => Ok(*b),
        Some(WireValue::Absent) => Err(DecodeError::MissingField),
        None => Err(DecodeError::MissingField),
        Some(_) => Err(DecodeError::WrongFieldType),
    }
}

fn opt_uint_field(fields: &Vec<(String, WireValue)>, key: &String) -> (r: Result<
    Option<u64>,
    DecodeError,
>)
    ensures
        opt_uint(fields_view(fields@), key@) == r,
{
    match lookup_field(fields, key) {
        None => Ok(None),
        Some(WireValue::Absent) => Ok(None),
        Some(WireValue::Uint(n)) => Ok(Some(*n)),
        Some(_) => Err(DecodeError::WrongFieldType),
    }
}

fn opt_bool_field(fields: &Vec<(String, WireValue)>, key: &String) -> (r: Result<
    Option<bool>,
    DecodeError,
>)
    ensures
        opt_bool(fields_view(fields@), key@) == r,
{
    match lookup_field(fields, key) {
        None => Ok(None),
        Some(WireValue::Absent) => Ok(None),
        Some(WireValue::Bool(b)) => Ok(Some(*b)),
        Some(_) => Err(DecodeError::WrongFieldType),
    }
}

fn req_same_site_field(fields: &Vec<(String, WireValue)>, key: &String) -> (r: Result<
    SameSiteStatus,
    DecodeError,
>)
    ensures
        req_same_site(fields_view(fields@), key@) == r,
{
    match lookup_field(fields, key) {
        Some(WireValue::Str(t)) => match parse_same_site(t) {
            Some(s) => Ok(s),
            None => Err(DecodeError::UnknownSameSiteTag),
        },
        Some(WireValue::Absent) => Err(DecodeError::MissingField),
        None => Err(DecodeError::MissingField),
        Some(_) => Err(DecodeError::WrongFieldType),
    }
}

fn decode_partition_key_fields(pfields: &Vec<(String, WireValue)>) -> (r: Result<
    Option<CookiePartitionKey>,
    DecodeError,
>)
    ensures
        spec_decode_partition_key(fields_view(pfields@)) == r,
{
    let has_key = String::from_str("hasCrossSiteAncestor");
    let top_key = String::from_str("topLevelSite");
    let has_cross_site_ancestor = match opt_bool_field(pfields, &has_key) {
        Ok(v) => v,
        Err(e) => {
            return Err(e);
        },
    };
    let top_level_site = match opt_bool_field(pfields, &top_key) {
        Ok(v) => v,
        Err(e) => {
            return Err(e);
        },
    };
    Ok(Some(CookiePartitionKey { has_cross_site_ancestor, top_level_site }))
}

fn opt_partition_key_field(fields: &Vec<(String, WireValue)>, key: &String) -> (r: Result<
    Option<CookiePartitionKey>,
    DecodeError,
>)
    ensures
        opt_partition_key(fields_view(fields@), key@) == r,
{
    match lookup_field(fields, key) {
        None => Ok(None),
        Some(WireValue::Absent) => Ok(None),
        Some(WireValue::Object(pfields)) => decode_partition_key_fields(pfields),
        Some(_) => Err(DecodeError::WrongFieldType),
    }
}

fn decode_cookie_fields(fields: &Vec<(String, WireValue)>) -> (r: Result<Cookie, DecodeError>)
    ensures
        ({
            let s = spec_decode_cookie_fields(fields_view(fields@));
            match r {
                Ok(c) => s == Ok::<CookieView, DecodeError>(c@),
                Err(e) => s == Err::<CookieView, DecodeError>(e),
            }
        }),
{
    let domain = match req_string_field(fields, &String::from_str("domain")) {
        Ok(v) => v,
        Err(e) => {
            return Err(e);
        },
    };
    let expiration_date = match opt_uint_field(fields, &String::from_str("expirationDate")) {
        Ok(v) => v,
        Err(e) => {
            return Err(e);
        },
    };
    let host_only = match req_bool_field(fields, &String::from_str("hostOnly")) {
        Ok(v) => v,
        Err(e) => {
            return Err(e);
        },
    };
    let http_only = match req_bool_field(fields, &String::from_str("httpOnly")) {
        Ok(v) => v,
        Err(e) => {
            return Err(e);
        },
    };
    let name = match req_string_field(fields, &String::from_str("name")) {
        Ok(v) => v,
        Err(e) => {
            return Err(e);
        },
    };
    let partition_key = match opt_partition_key_field(fields, &String::from_str("partitionKey")) {
        Ok(v) => v,
        Err(e) => {
            return Err(e);
        },
    };
    let path = match req_string_field(fields, &String::from_str("path")) {
        Ok(v) => v,
        Err(e) => {
            return Err(e);
        },
    };
    let same_site = match req_same_site_field(fields, &String::from_str("sameSite")) {
        Ok(v) => v,
        Err(e) => {
            return Err(e);
        },
    };
    let secure = match req_bool_field(fields, &String::from_str("secure")) {
        Ok(v) => v,
        Err(e) => {
            return Err(e);
        },
    };
    let session = match req_bool_field(fields, &String::from_str("session")) {
        Ok(v) => v,
        Err(e) => {
            return Err(e);
        },
    };
    let store_id = match req_string_field(fields, &String::from_str("storeId")) {
        Ok(v) => v,
        Err(e) => {
            return Err(e);
        },
    };
    let value = match req_string_field(fields, &String::from_str("value")) {
        Ok(v) => v,
        Err(e) => {
            return Err(e);
        },
    };
    Ok(
        Cookie {
            domain,
            expiration_date,
            host_only,
            http_only,
            name,
            partition_key,
            path,
            same_site,
            secure,
            session,
            store_id,
            value,
        },
    )
}

/// Decodes a host response: the empty sentinel is `Ok(None)`, a well-shaped
/// cookie object is `Ok(Some(cookie))`, and anything else is a
/// [`DecodeError`] telling absence apart from a malformed response.
pub fn decode_cookie(v: &WireValue) -> (r: Result<Option<Cookie>, DecodeError>)
    ensures
        decode_result_view(r) == spec_decode_cookie(v@),
{
    match v {
        WireValue::Absent => Ok(None),
        WireValue::Object(fields) => match decode_cookie_fields(fields) {
            Ok(c) => Ok(Some(c)),
            Err(e) => Err(e),
        },
        _ => Err(DecodeError::NotAnObject),
    }
}

// ---------------------------------------------------------------------
// Laws of the codec.
// ---------------------------------------------------------------------

/// Law: a host response shaped exactly like a cookie record decodes back
/// to that record, field for field, for every combination of present and
/// absent optional fields.
pub proof fn lemma_cookie_round_trip(c: CookieView)
    ensures
        spec_decode_cookie(spec_encode_cookie(c)) == Ok::<Option<CookieView>, DecodeError>(
            Some(c),
        ),
{
    reveal_strlit("domain");
    reveal_strlit("expirationDate");
    reveal_strlit("hostOnly");
    reveal_strlit("httpOnly");
    reveal_strlit("name");
    reveal_strlit("partitionKey");
    reveal_strlit("path");
    reveal_strlit("sameSite");
    reveal_strlit("secure");
    reveal_strlit("session");
    reveal_strlit("storeId");
    reveal_strlit("value");
    reveal_strlit("hasCrossSiteAncestor");
    reveal_strlit("topLevelSite");
    assert(key_domain().len() == 6);
    assert(key_expiration_date().len() == 14);
    assert(key_host_only().len() == 8);
    assert(key_http_only().len() == 8);
    assert(key_name().len() == 4);
    assert(key_partition_key().len() == 12);
    assert(key_path().len() == 4);
    assert(key_same_site().len() == 8);
    assert(key_secure().len() == 6);
    assert(key_session().len() == 7);
    assert(key_store_id().len() == 7);
    assert(key_value().len() == 5);
    assert(key_has_cross_site_ancestor().len() == 20);
    assert(key_top_level_site().len() == 12);
    assert(key_host_only()[1] == 'o' && key_http_only()[1] == 't');
    assert(key_same_site()[0] == 's' && key_host_only()[0] == 'h' && key_http_only()[0] == 'h');
    assert(key_name()[0] == 'n' && key_path()[0] == 'p');
    assert(key_domain()[0] == 'd' && key_secure()[0] == 's');
    assert(key_session()[1] == 'e' && key_store_id()[1] == 't');
    let fs = spec_encode_cookie(c)->Object_0;
    crate::wire::lemma_lookup_at(fs, key_domain(), 0);
    crate::wire::lemma_lookup_at(fs, key_expiration_date(), 1);
    crate::wire::lemma_lookup_at(fs, key_host_only(), 2);
    crate::wire::lemma_lookup_at(fs, key_http_only(), 3);
    crate::wire::lemma_lookup_at(fs, key_name(), 4);
    crate::wire::lemma_lookup_at(fs, key_partition_key(), 5);
    crate::wire::lemma_lookup_at(fs, key_path(), 6);
    crate::wire::lemma_lookup_at(fs, key_same_site(), 7);
    crate::wire::lemma_lookup_at(fs, key_secure(), 8);
    crate::wire::lemma_lookup_at(fs, key_session(), 9);
    crate::wire::lemma_lookup_at(fs, key_store_id(), 10);
    crate::wire::lemma_lookup_at(fs, key_value(), 11);
    assert(req_string(fs, key_domain()) == Ok::<Seq<char>, DecodeError>(c.domain));
    assert(opt_uint(fs, key_expiration_date()) == Ok::<Option<u64>, DecodeError>(
        c.expiration_date,
    ));
    assert(req_bool(fs, key_host_only()) == Ok::<bool, DecodeError>(c.host_only));
    assert(req_bool(fs, key_http_only()) == Ok::<bool, DecodeError>(c.http_only));
    assert(req_string(fs, key_name()) == Ok::<Seq<char>, DecodeError>(c.name));
    match c.partition_key {
        Some(k) => {
            let pfs = partition_key_val(k)->Object_0;
            crate::wire::lemma_lookup_at(pfs, key_has_cross_site_ancestor(), 0);
            crate::wire::lemma_lookup_at(pfs, key_top_level_site(), 1);
            assert(spec_decode_partition_key(pfs) == Ok::<Option<CookiePartitionKey>, DecodeError>(
                Some(k),
            ));
        },
        None => {
        },
    }
    assert(opt_partition_key(fs, key_partition_key()) == Ok::<
        Option<CookiePartitionKey>,
        DecodeError,
    >(c.partition_key));
    assert(req_string(fs, key_path()) == Ok::<Seq<char>, DecodeError>(c.path));
    crate::cookies::lemma_same_site_tag_round_trip(c.same_site);
    assert(req_same_site(fs, key_same_site()) == Ok::<SameSiteStatus, DecodeError>(c.same_site));
    assert(req_bool(fs, key_secure()) == Ok::<bool, DecodeError>(c.secure));
    assert(req_bool(fs, key_session()) == Ok::<bool, DecodeError>(c.session));
    assert(req_string(fs, key_store_id()) == Ok::<Seq<char>, DecodeError>(c.store_id));
    assert(req_string(fs, key_value()) == Ok::<Seq<char>, DecodeError>(c.value));
    assert(spec_decode_cookie_fields(fs) == Ok::<CookieView, DecodeError>(c));
}

/// Law: encoding a lookup request loses nothing: two requests with the
/// same wire image are the same request.
pub proof fn lemma_encode_details_injective(a: CookieDetailsView, b: CookieDetailsView)
    requires
        spec_encode_details(a) == spec_encode_details(b),
    ensures
        a == b,
{
    let fa = spec_encode_details(a)->Object_0;
    let fb = spec_encode_details(b)->Object_0;
    assert(fa[0] == fb[0]);
    assert(fa[1] == fb[1]);
    assert(fa[2] == fb[2]);
    assert(fa[3] == fb[3]);
    lemma_opt_partition_key_val_injective(a.partition_key, b.partition_key);
    assert(a =~= b);
}

/// Law: encoding a write request loses nothing: two writes with the same
/// wire image are the same write.
pub proof fn lemma_encode_set_details_injective(a: SetCookieDetailsView, b: SetCookieDetailsView)
    requires
        spec_encode_set_details(a) == spec_encode_set_details(b),
    ensures
        a == b,
{
    let fa = spec_encode_set_details(a)->Object_0;
    let fb = spec_encode_set_details(b)->Object_0;
    assert(fa[0] == fb[0]);
    assert(fa[1] == fb[1]);
    assert(fa[2] == fb[2]);
    assert(fa[3] == fb[3]);
    assert(fa[4] == fb[4]);
    assert(fa[5] == fb[5]);
    assert(fa[6] == fb[6]);
    assert(fa[7] == fb[7]);
    assert(fa[8] == fb[8]);
    assert(fa[9] == fb[9]);
    assert(fa[10] == fb[10]);
    lemma_opt_partition_key_val_injective(a.partition_key, b.partition_key);
    assert(a.same_site == b.same_site) by {
        match (a.same_site, b.same_site) {
            (Some(sa), Some(sb)) => {
                crate::cookies::lemma_same_site_tag_round_trip(sa);
                crate::cookies::lemma_same_site_tag_round_trip(sb);
            },
            _ => {
            },
        }
    }
    assert(a =~= b);
}

/// Two partition keys with the same wire image are the same key.
proof fn lemma_opt_partition_key_val_injective(
    a: Option<CookiePartitionKey>,
    b: Option<CookiePartitionKey>,
)
    requires
        opt_partition_key_val(a) == opt_partition_key_val(b),
    ensures
        a == b,
{
    match (a, b) {
        (Some(ka), Some(kb)) => {
            let pa = partition_key_val(ka)->Object_0;
            let pb = partition_key_val(kb)->Object_0;
            assert(pa[0] == pb[0]);
            assert(pa[1] == pb[1]);
        },
        _ => {
        },
    }
}

/// Law: the host's empty sentinel decodes to "no cookie", never an error.
pub proof fn lemma_absent_decodes_to_none()
    ensures
        spec_decode_cookie(WireVal::Absent) == Ok::<Option<CookieView>, DecodeError>(None),
{
}

/// Law: a response object that lacks the required `sameSite` field does
/// not decode as a cookie; a missing required field is never defaulted.
pub proof fn lemma_missing_same_site_rejected(fs: Seq<(Seq<char>, WireVal)>)
    requires
        wire_lookup(fs, key_same_site()) is None,
    ensures
        spec_decode_cookie(WireVal::Object(fs)) is Err,
{
}

/// Law: a response object whose `domain` field holds a value of the wrong
/// type fails the decode with the wrong-type error.
pub proof fn lemma_wrong_typed_field_rejected(fs: Seq<(Seq<char>, WireVal)>)
    requires
        wire_lookup(fs, key_domain()) matches Some(v) && !(v is Str) && !(v is Absent),
    ensures
        spec_decode_cookie(WireVal::Object(fs)) == Err::<Option<CookieView>, DecodeError>(
            DecodeError::WrongFieldType,
        ),
{
}

/// Law: a `sameSite` field holding any string other than the four tags
/// keeps the response from decoding as a cookie.
pub proof fn lemma_unknown_same_site_tag_rejected(fs: Seq<(Seq<char>, WireVal)>, t: Seq<char>)
    requires
        wire_lookup(fs, key_same_site()) == Some(WireVal::Str(t)),
        spec_parse_same_site(t) is None,
    ensures
        spec_decode_cookie(WireVal::Object(fs)) is Err,
{
}

} // verus!
