//! The fetch service: the fetch-or-cache decision and the cache-write
//! path.
//!
//! The cache is version-pinned, not time-based: a lookup with no
//! version filter is served from the store whenever a record for the
//! key exists, however old; a version filter is compared against the
//! stored record's version and a mismatch forces an upstream fetch.
//! Persistence of a fresh fetch is best-effort: a failed store write is
//! swallowed and the freshly fetched record is returned regardless.
//!
//! The service is verified against an executable model of the upstream
//! client ([`UpstreamModel`]): replies are scripted and calls are
//! counted, so the contracts can say when the upstream is consulted and
//! how often. A deployment answers the same requests with a real HTTP
//! client, using [`upstream_request`] to build them and
//! [`accept_response`], [`build_file`] and [`absorb_save`] to interpret
//! the replies, which are verified here once and for all.

use vstd::prelude::*;
use vstd::string::StringExecFns;
use crate::errors::FigmaServiceError;
use crate::json::{JsonValue, JsonView};
use crate::json::spec_text_field;
use crate::model::{FigmaFile, FileView, FigmaFileQuery, QueryView};
use crate::store::{FileStore, spec_find, spec_find_id, stored_record, rows_view, spec_list_len};
use crate::extract::{extract_figma_data, extract_data};
use crate::ids::hex_digit;
use crate::text::str_eq;

verus! {

/// The outbound upstream request: target URL plus the query parameters
/// to attach, in a fixed order.
pub struct UpstreamRequest {
    pub url: String,
    pub params: Vec<(String, String)>,
}

/// Spec view of a parameter list.
pub open spec fn pairs_view(params: Seq<(String, String)>) -> Seq<(Seq<char>, Seq<char>)> {
    Seq::new(params.len(), |i: int| (params[i].0@, params[i].1@))
}

/// One optional query parameter: present exactly when the filter is.
pub open spec fn opt_pair(name: Seq<char>, value: Option<Seq<char>>) -> Seq<
    (Seq<char>, Seq<char>),
> {
    match value {
        Some(v) => seq![(name, v)],
        None => Seq::empty(),
    }
}

/// Every non-empty filter of the lookup, as a query parameter, in a
/// fixed order.
pub open spec fn spec_params(q: QueryView) -> Seq<(Seq<char>, Seq<char>)> {
    opt_pair("version"@, q.version) + opt_pair("ids"@, q.ids) + opt_pair("depth"@, q.depth)
        + opt_pair("geometry"@, q.geometry) + opt_pair("plugin_data"@, q.plugin_data) + opt_pair(
        "branch_data"@,
        q.branch_data,
    )
}

/// The URL an upstream fetch targets for a file key.
pub open spec fn spec_url(file_key: Seq<char>) -> Seq<char> {
    "https://api.figma.com/v1/files/"@ + file_key
}

/// Build the upstream request for a lookup: the fixed base URL plus the
/// file key, and every supplied filter as a query parameter.
pub fn upstream_request(query: &FigmaFileQuery) -> (r: UpstreamRequest)
    ensures
        r.url@ == spec_url(query@.file_key),
        pairs_view(r.params@) == spec_params(query@),
{
    let url = "https://api.figma.com/v1/files/".to_owned().concat(query.file_key.as_str());
    let mut params: Vec<(String, String)> = Vec::new();
    let ghost q = query@;
    proof {
        assert(pairs_view(params@) =~= Seq::<(Seq<char>, Seq<char>)>::empty());
    }
    if let Some(v) = &query.version {
        let ghost before = pairs_view(params@);
        params.push(("version".to_owned(), v.clone()));
        proof {
            assert(pairs_view(params@) =~= before.push(("version"@, v@)));
        }
    }
    if let Some(v) = &query.ids {
        let ghost before = pairs_view(params@);
        params.push(("ids".to_owned(), v.clone()));
        proof {
            assert(pairs_view(params@) =~= before.push(("ids"@, v@)));
        }
    }
    if let Some(v) = &query.depth {
        let ghost before = pairs_view(params@);
        params.push(("depth".to_owned(), v.clone()));
        proof {
            assert(pairs_view(params@) =~= before.push(("depth"@, v@)));
        }
    }
    if let Some(v) = &query.geometry {
        let ghost before = pairs_view(params@);
        params.push(("geometry".to_owned(), v.clone()));
        proof {
            assert(pairs_view(params@) =~= before.push(("geometry"@, v@)));
        }
    }
    if let Some(v) = &query.plugin_data {
        let ghost before = pairs_view(params@);
        params.push(("plugin_data".to_owned(), v.clone()));
        proof {
            assert(pairs_view(params@) =~= before.push(("plugin_data"@, v@)));
        }
    }
    if let Some(v) = &query.branch_data {
        let ghost before = pairs_view(params@);
        params.push(("branch_data".to_owned(), v.clone()));
        proof {
            assert(pairs_view(params@) =~= before.push(("branch_data"@, v@)));
        }
    }
    proof {
        assert(pairs_view(params@) =~= spec_params(q));
    }
    UpstreamRequest { url, params }
}

/// The read path stays resilient: a failed cache read is treated as a
/// cache miss and falls through to the upstream, never as a hard
/// failure.
pub fn cache_read_outcome(read: Result<Option<FigmaFile>, FigmaServiceError>) -> (r: Option<
    FigmaFile,
>)
    ensures
        match read {
            Ok(found) => r == found,
            Err(_) => r is None,
        },
{
    match read {
        Ok(found) => found,
        Err(_) => None,
    }
}

/// The cache-hit policy: a stored record satisfies the lookup when the
/// lookup carries no version filter, or the filter equals the stored
/// version.
pub open spec fn is_cache_hit(cached: Option<FileView>, version: Option<Seq<char>>) -> bool {
    match cached {
        Some(f) => version is None || f.version == version,
        None => false,
    }
}

/// Spec view of an optional record.
pub open spec fn opt_file_view(cached: Option<FigmaFile>) -> Option<FileView> {
    match cached {
        Some(f) => Some(f@),
        None => None,
    }
}

/// What the service decides to do with a lookup.
pub enum ResolvePlan {
    /// Serve this record from the store; the upstream is not consulted.
    Hit(FigmaFile),
    /// Issue this upstream request.
    Fetch(UpstreamRequest),
}

/// Decide cache-hit against upstream-fetch for a lookup, given what the
/// store holds for its key.
pub fn resolve_plan(cached: Option<FigmaFile>, query: &FigmaFileQuery) -> (r: ResolvePlan)
    ensures
        match r {
            ResolvePlan::Hit(f) => is_cache_hit(opt_file_view(cached), query@.version)
                && opt_file_view(cached) == Some(f@),
            ResolvePlan::Fetch(req) => !is_cache_hit(opt_file_view(cached), query@.version)
                && req.url@ == spec_url(query@.file_key) && pairs_view(req.params@) == spec_params(
                query@,
            ),
        },
{
    match cached {
        Some(f) => {
            let hit = match &query.version {
                None => true,
                Some(want) => match &f.version {
                    Some(have) => str_eq(have.as_str(), want.as_str()),
                    None => false,
                },
            };
            if hit {
                ResolvePlan::Hit(f)
            } else {
                ResolvePlan::Fetch(upstream_request(query))
            }
        },
        None => ResolvePlan::Fetch(upstream_request(query)),
    }
}

/// Decimal rendering of a non-negative integer.
pub open spec fn dec_of(n: int) -> Seq<char>
    decreases n,
{
    if n < 10 {
        seq![hex_digit(n)]
    } else {
        dec_of(n / 10).push(hex_digit(n % 10))
    }
}

/// The decimal digit `d` as a string slice.
fn digit_str(d: u16) -> (r: &'static str)
    requires
        d < 10,
    ensures
        r@ == seq![hex_digit(d as int)],
{
    proof {
        reveal_strlit("0");
        reveal_strlit("1");
        reveal_strlit("2");
        reveal_strlit("3");
        reveal_strlit("4");
        reveal_strlit("5");
        reveal_strlit("6");
        reveal_strlit("7");
        reveal_strlit("8");
        reveal_strlit("9");
    }
    match d {
        0 => "0",
        1 => "1",
        2 => "2",
        3 => "3",
        4 => "4",
        5 => "5",
        6 => "6",
        7 => "7",
        8 => "8",
        _ => "9",
    }
}

/// Render a status code in decimal.
pub fn u16_to_string(n: u16) -> (r: String)
    ensures
        r@ == dec_of(n as int),
    decreases n,
{
    if n < 10 {
        digit_str(n).to_owned()
    } else {
        let r = u16_to_string(n / 10).concat(digit_str(n % 10));
        proof {
            assert(r@ =~= dec_of(n as int / 10).push(hex_digit(n as int % 10)));
        }
        r
    }
}

/// Classify an upstream reply by status: a success status hands the
/// body on for parsing; any other status is an upstream error carrying
/// the status and the body text verbatim, as `"<status>: <body>"`.
pub fn accept_response(status: u16, body: String) -> (r: Result<String, FigmaServiceError>)
    ensures
        200 <= status < 300 ==> (r matches Ok(b) && b == body),
        !(200 <= status < 300) ==> (r matches Err(e) && e matches FigmaServiceError::ApiError(m)
            && m@ == dec_of(status as int) + ": "@ + body@),
{
    if 200 <= status && status < 300 {
        Ok(body)
    } else {
        let message = u16_to_string(status).concat(": ").concat(body.as_str());
        proof {
            reveal_strlit(": ");
        }
        Err(FigmaServiceError::ApiError(message))
    }
}

/// The record a fresh fetch builds: metadata picked from the payload's
/// string fields, structured data extracted from the payload, both
/// timestamps set to the fetch time, the raw payload retained, and no
/// system identifier until the store assigns one.
pub open spec fn spec_built_file(key: Seq<char>, raw: JsonView, now: int) -> FileView {
    FileView {
        file_id: None,
        file_key: key,
        name: spec_text_field(raw, "name"@),
        last_modified: spec_text_field(raw, "lastModified"@),
        thumbnail_url: spec_text_field(raw, "thumbnailUrl"@),
        version: spec_text_field(raw, "version"@),
        created_at: now,
        updated_at: now,
        data: extract_data(raw),
        raw_data: Some(raw),
    }
}

/// Build the record for a freshly fetched payload, as
/// [`spec_built_file`] specifies.
pub fn build_file(query: &FigmaFileQuery, raw: JsonValue, now: i64) -> (r: FigmaFile)
    ensures
        r@ == spec_built_file(query@.file_key, raw@, now as int),
        r@.wf(),
{
    let name = raw.text_field("name");
    let last_modified = raw.text_field("lastModified");
    let thumbnail_url = raw.text_field("thumbnailUrl");
    let version = raw.text_field("version");
    let data = extract_figma_data(&raw);
    FigmaFile {
        file_id: None,
        file_key: query.file_key.clone(),
        name,
        last_modified,
        thumbnail_url,
        version,
        created_at: now,
        updated_at: now,
        data,
        raw_data: Some(raw),
    }
}

/// Best-effort persistence: fold the outcome of the store write into
/// the freshly fetched record. A successful write contributes the
/// assigned identifier; a failed write changes nothing, and the record
/// is returned either way.
pub fn absorb_save(file: FigmaFile, save: Result<String, FigmaServiceError>) -> (r: FigmaFile)
    ensures
        match save {
            Ok(id) => r@ == FileView { file_id: Some(id@), ..file@ },
            Err(_) => r@ == file@,
        },
{
    match save {
        Ok(id) => FigmaFile {
            file_id: Some(id),
            file_key: file.file_key,
            name: file.name,
            last_modified: file.last_modified,
            thumbnail_url: file.thumbnail_url,
            version: file.version,
            created_at: file.created_at,
            updated_at: file.updated_at,
            data: file.data,
            raw_data: file.raw_data,
        },
        Err(_) => file,
    }
}

/// One scripted upstream reply: a parsed payload, or the failure the
/// client classified (an upstream error, a transport error, or a body
/// that was not JSON).
pub enum FetchReply {
    Payload(JsonValue),
    Failed(FigmaServiceError),
}

/// An executable model of the upstream client: replies come from a
/// script, in order, and calls are counted. Verifying the service
/// against this model is what lets the contracts below say when the
/// upstream is consulted and how often.
pub struct UpstreamModel {
    /// Replies still to be served, front first.
    pub script: Vec<FetchReply>,
    /// How many fetches have been issued.
    pub calls: usize,
}

impl UpstreamModel {
    /// A model that will answer with `script`, front first.
    pub fn new(script: Vec<FetchReply>) -> (r: UpstreamModel)
        ensures
            r.script == script,
            r.calls == 0,
    {
        UpstreamModel { script, calls: 0 }
    }

    /// Serve the next scripted reply. The request and credential are
    /// what a real client would put on the wire; the model only counts
    /// the call.
    pub fn fetch(&mut self, req: &UpstreamRequest, token: &str) -> (r: FetchReply)
        requires
            old(self).script@.len() > 0,
            old(self).calls < usize::MAX,
        ensures
            final(self).calls == old(self).calls + 1,
            r == old(self).script@[0],
            final(self).script@ == old(self).script@.drop_first(),
    {
        let reply = self.script.remove(0);
        self.calls = self.calls + 1;
        proof {
            assert(self.script@ =~= old(self).script@.drop_first());
        }
        reply
    }
}

/// The fetch service over the verified store and the upstream model.
pub struct FetchService {
    pub store: FileStore,
    pub upstream: UpstreamModel,
}

impl FetchService {
    /// A service over an empty store and the given upstream script.
    pub fn new(upstream: UpstreamModel) -> (r: FetchService)
        ensures
            r.store.wf(),
            r.store@.len() == 0,
            r.upstream == upstream,
    {
        FetchService { store: FileStore::new(), upstream }
    }

    /// Resolve a lookup: serve the stored record on a cache hit, fetch
    /// from upstream otherwise, and persist a fresh fetch best-effort.
    ///
    /// On a hit the stored record is returned exactly, the store is
    /// unchanged, and the upstream is not consulted. On a miss the
    /// upstream is consulted exactly once; a failed fetch is returned
    /// as its error with the store unchanged, and a successful fetch is
    /// returned as the built record — with the assigned identifier when
    /// the write succeeded, untouched when the write failed.
    pub fn get_figma_file(&mut self, query: &FigmaFileQuery, token: &str, now: i64) -> (r: Result<
        FigmaFile,
        FigmaServiceError,
    >)
        requires
            old(self).store.wf(),
            is_cache_hit(spec_find(old(self).store@, query@.file_key), query@.version) || old(
                self,
            ).upstream.script@.len() > 0,
            old(self).upstream.calls < usize::MAX,
        ensures
            final(self).store.wf(),
            forall|k: Seq<char>|
                k != query@.file_key ==> spec_find(final(self).store@, k) == spec_find(
                    old(self).store@,
                    k,
                ),
            ({
                let cached = spec_find(old(self).store@, query@.file_key);
                if is_cache_hit(cached, query@.version) {
                    &&& final(self).upstream == old(self).upstream
                    &&& final(self).store@ == old(self).store@
                    &&& r matches Ok(f) && Some(f@) == cached
                } else {
                    &&& final(self).upstream.calls == old(self).upstream.calls + 1
                    &&& final(self).upstream.script@ == old(self).upstream.script@.drop_first()
                    &&& match old(self).upstream.script@[0] {
                        FetchReply::Failed(e) => r == Err::<FigmaFile, FigmaServiceError>(e)
                            && final(self).store@ == old(self).store@,
                        FetchReply::Payload(raw) => {
                            let built = spec_built_file(query@.file_key, raw@, now as int);
                            match r {
                                Ok(f) => (f@ == built && final(self).store@ == old(self).store@)
                                    || (exists|id: Seq<char>|
                                    {
                                        &&& f@ == FileView { file_id: Some(id), ..built }
                                        &&& spec_find(final(self).store@, query@.file_key)
                                            == Some(stored_record(built, cached, id))
                                    }),
                                Err(_) => false,
                            }
                        },
                    }
                }
            }),
    {
        let cached = self.store.find_by_key(query.file_key.as_str());
        match resolve_plan(cached, query) {
            ResolvePlan::Hit(f) => Ok(f),
            ResolvePlan::Fetch(req) => {
                let reply = self.upstream.fetch(&req, token);
                match reply {
                    FetchReply::Failed(e) => Err(e),
                    FetchReply::Payload(raw) => {
                        let file = build_file(query, raw, now);
                        let save = self.store.upsert(file.clone());
                        Ok(absorb_save(file, save))
                    },
                }
            },
        }
    }

    /// Direct lookup by system identifier; no upstream fallback.
    pub fn get_file_by_id(&self, file_id: &str) -> (r: Result<
        Option<FigmaFile>,
        FigmaServiceError,
    >)
        ensures
            r matches Ok(o) && match o {
                Some(f) => spec_find_id(self.store@, file_id@) == Some(f@),
                None => spec_find_id(self.store@, file_id@) is None,
            },
    {
        Ok(self.store.find_by_id(file_id))
    }

    /// The cached records in insertion order, the whole store unless a
    /// limit is supplied.
    pub fn list_cached_files(&self, limit: Option<i64>) -> (r: Result<
        Vec<FigmaFile>,
        FigmaServiceError,
    >)
        ensures
            r matches Ok(files) && rows_view(files@) == self.store@.take(
                spec_list_len(self.store@.len() as int, limit) as int,
            ),
    {
        Ok(self.store.list(limit))
    }
}

/// A body the upstream declared successful but which did not parse as
/// structured JSON is a parse error; a parsed payload passes through.
pub fn payload_or_parse_error(parsed: Result<JsonValue, String>) -> (r: Result<
    JsonValue,
    FigmaServiceError,
>)
    ensures
        match parsed {
            Ok(v) => r == Ok::<JsonValue, FigmaServiceError>(v),
            Err(m) => r == Err::<JsonValue, FigmaServiceError>(FigmaServiceError::JsonError(m)),
        },
{
    match parsed {
        Ok(v) => Ok(v),
        Err(m) => Err(FigmaServiceError::JsonError(m)),
    }
}

/// Idempotent upsert: once a resolve has written a freshly fetched
/// record back — the store then finds, under the record's key, the
/// built record with only its identifier and creation time adjusted —
/// any later lookup for that key with no version filter, or with a
/// filter equal to the fetched version, satisfies the cache-hit
/// policy. By the contract of [`FetchService::get_figma_file`], such a
/// call returns the stored record and leaves the upstream untouched.
pub proof fn lemma_second_lookup_hits(
    rows: Seq<FileView>,
    built: FileView,
    prev: Option<FileView>,
    id: Seq<char>,
    q: QueryView,
)
    requires
        spec_find(rows, built.file_key) == Some(stored_record(built, prev, id)),
        q.file_key == built.file_key,
        q.version is None || q.version == built.version,
    ensures
        is_cache_hit(spec_find(rows, q.file_key), q.version),
{
}

} // verus!
