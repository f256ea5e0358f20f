//! Folders, documents and their paginated envelopes, the query-string
//! builder, the request values of every call against the document endpoints,
//! and the per-item bookkeeping of batch operations.
use crate::authorize::AuthorizedUser;
use crate::encode::{base64_of, base64_string, json_quoted, json_string};
use crate::error::LinkError;
use crate::names::NameMap;
use crate::request::{header_pair, HttpRequest, Method};
use crate::text::{append_i64, int_str};
use vstd::prelude::*;

verus! {

/// The wire names of the three headers that carry the credential on document
/// and folder calls.
#[derive(Debug)]
pub struct DocumentHeaders {
    pub api_key: String,
    pub partition: String,
    pub user_api_key: String,
}

impl DocumentHeaders {
    /// Header names chosen by the caller, for services that depart from the
    /// default wire names.
    pub fn new(api_key: &str, partition: &str, user_api_key: &str) -> (r: Self)
        ensures
            r.api_key@ == api_key@,
            r.partition@ == partition@,
            r.user_api_key@ == user_api_key@,
    {
        DocumentHeaders {
            api_key: api_key.to_owned(),
            partition: partition.to_owned(),
            user_api_key: user_api_key.to_owned(),
        }
    }

    /// The wire name of the API key header.
    pub fn api_key(self) -> (r: String)
        ensures
            r == self.api_key,
    {
        self.api_key
    }

    /// The wire name of the partition header.
    pub fn partition(self) -> (r: String)
        ensures
            r == self.partition,
    {
        self.partition
    }

    /// The wire name of the session id header.
    pub fn user_api_key(self) -> (r: String)
        ensures
            r == self.user_api_key,
    {
        self.user_api_key
    }
}

impl Clone for DocumentHeaders {
    fn clone(&self) -> (r: Self)
        ensures
            r == *self,
    {
        DocumentHeaders {
            api_key: self.api_key.clone(),
            partition: self.partition.clone(),
            user_api_key: self.user_api_key.clone(),
        }
    }
}

impl Default for DocumentHeaders {
    /// The service's default wire names.
    fn default() -> (r: Self)
        ensures
            r.api_key@ == "apikey"@,
            r.partition@ == "partition"@,
            r.user_api_key@ == "userapikey"@,
    {
        DocumentHeaders {
            api_key: "apikey".to_owned(),
            partition: "partition".to_owned(),
            user_api_key: "userapikey".to_owned(),
        }
    }
}

/// Optional query parameters, joined with `&` between the pairs.
pub open spec fn amp_join(parts: Seq<Seq<char>>) -> Seq<char>
    decreases parts.len(),
{
    if parts.len() == 0 {
        Seq::<char>::empty()
    } else if parts.len() == 1 {
        parts[0]
    } else {
        amp_join(parts.drop_last()) + "&"@ + parts.last()
    }
}

/// The key-value pairs a query holds, in the fixed serialization order:
/// top, skip, filter, orderby, inlinecount, expand.  Keys carry the
/// percent-encoded `$` prefix; values stand as supplied.
pub open spec fn query_parts(q: DocQuery) -> Seq<Seq<char>> {
    let s = Seq::<Seq<char>>::empty();
    let s = if q.top is Some {
        s.push("%24top="@ + int_str(q.top->0 as int))
    } else {
        s
    };
    let s = if q.skip is Some {
        s.push("%24skip="@ + int_str(q.skip->0 as int))
    } else {
        s
    };
    let s = if q.filter is Some {
        s.push("%24filter="@ + q.filter->0@)
    } else {
        s
    };
    let s = if q.orderby is Some {
        s.push("%24orderby="@ + q.orderby->0@)
    } else {
        s
    };
    let s = if q.inlinecount is Some {
        s.push("%24inlinecount="@ + q.inlinecount->0@)
    } else {
        s
    };
    if q.expand is Some {
        s.push("%24expand="@ + q.expand->0@)
    } else {
        s
    }
}

/// The full query suffix: a question mark, then the present pairs.
pub open spec fn query_string(q: DocQuery) -> Seq<char> {
    "?"@ + amp_join(query_parts(q))
}

/// The six optional search parameters of a document or folder query.  Each
/// setter overwrites the prior value; no range is validated.
#[derive(Debug)]
pub struct DocQuery {
    pub top: Option<i32>,
    pub skip: Option<i32>,
    pub filter: Option<String>,
    pub orderby: Option<String>,
    pub inlinecount: Option<String>,
    pub expand: Option<String>,
}

impl DocQuery {
    /// A query with no parameter set.
    pub fn new() -> (r: Self)
        ensures
            r.top is None,
            r.skip is None,
            r.filter is None,
            r.orderby is None,
            r.inlinecount is None,
            r.expand is None,
    {
        DocQuery {
            top: None,
            skip: None,
            filter: None,
            orderby: None,
            inlinecount: None,
            expand: None,
        }
    }

    /// Sets how many records to return from the top of the result.
    pub fn top(&mut self, value: i32)
        ensures
            final(self).top == Some(value),
            final(self).skip == old(self).skip,
            final(self).filter == old(self).filter,
            final(self).orderby == old(self).orderby,
            final(self).inlinecount == old(self).inlinecount,
            final(self).expand == old(self).expand,
    {
        self.top = Some(value);
    }

    /// Sets how many records to skip.
    pub fn skip(&mut self, value: i32)
        ensures
            final(self).skip == Some(value),
            final(self).top == old(self).top,
            final(self).filter == old(self).filter,
            final(self).orderby == old(self).orderby,
            final(self).inlinecount == old(self).inlinecount,
            final(self).expand == old(self).expand,
    {
        self.skip = Some(value);
    }

    /// Sets the record filter expression.
    pub fn filter(&mut self, value: &str)
        ensures
            final(self).filter matches Some(v) && v@ == value@,
            final(self).top == old(self).top,
            final(self).skip == old(self).skip,
            final(self).orderby == old(self).orderby,
            final(self).inlinecount == old(self).inlinecount,
            final(self).expand == old(self).expand,
    {
        self.filter = Some(value.to_owned());
    }

    /// Sets the ordering expression.
    pub fn orderby(&mut self, value: &str)
        ensures
            final(self).orderby matches Some(v) && v@ == value@,
            final(self).top == old(self).top,
            final(self).skip == old(self).skip,
            final(self).filter == old(self).filter,
            final(self).inlinecount == old(self).inlinecount,
            final(self).expand == old(self).expand,
    {
        self.orderby = Some(value.to_owned());
    }

    /// Asks for pagination details when set to `allpages`.
    pub fn inlinecount(&mut self, value: &str)
        ensures
            final(self).inlinecount matches Some(v) && v@ == value@,
            final(self).top == old(self).top,
            final(self).skip == old(self).skip,
            final(self).filter == old(self).filter,
            final(self).orderby == old(self).orderby,
            final(self).expand == old(self).expand,
    {
        self.inlinecount = Some(value.to_owned());
    }

    /// Asks for expansion of the named detail categories.
    pub fn expand(&mut self, value: &str)
        ensures
            final(self).expand matches Some(v) && v@ == value@,
            final(self).top == old(self).top,
            final(self).skip == old(self).skip,
            final(self).filter == old(self).filter,
            final(self).orderby == old(self).orderby,
            final(self).inlinecount == old(self).inlinecount,
    {
        self.expand = Some(value.to_owned());
    }

    /// Serializes the present parameters: a lone `?` when none is set, else
    /// `?` followed by the `&`-joined pairs in the fixed order.
    pub fn query(&self) -> (r: String)
        ensures
            r@ == query_string(*self),
    {
        let mut args: Vec<String> = Vec::new();
        if let Some(t) = self.top {
            let mut a: String = "%24top=".to_owned();
            append_i64(&mut a, t as i64);
            args.push(a);
        }
        if let Some(t) = self.skip {
            let mut a: String = "%24skip=".to_owned();
            append_i64(&mut a, t as i64);
            args.push(a);
        }
        if let Some(f) = &self.filter {
            let mut a: String = "%24filter=".to_owned();
            a.append(f.as_str());
            args.push(a);
        }
        if let Some(f) = &self.orderby {
            let mut a: String = "%24orderby=".to_owned();
            a.append(f.as_str());
            args.push(a);
        }
        if let Some(f) = &self.inlinecount {
            let mut a: String = "%24inlinecount=".to_owned();
            a.append(f.as_str());
            args.push(a);
        }
        if let Some(f) = &self.expand {
            let mut a: String = "%24expand=".to_owned();
            a.append(f.as_str());
            args.push(a);
        }
        proof {
            assert(args.deep_view() =~~= query_parts(*self));
        }
        let mut query: String = "?".to_owned();
        let n = args.len();
        let mut i: usize = 0;
        while i < n
            invariant
                0 <= i <= n,
                n == args@.len(),
                args.deep_view() == query_parts(*self),
                query@ == "?"@ + amp_join(args.deep_view().take(i as int)),
            decreases n - i,
        {
            if i > 0 {
                query.append("&");
            }
            query.append(args[i].as_str());
            proof {
                let parts = args.deep_view();
                assert(parts.take(i + 1).drop_last() =~= parts.take(i as int));
                assert(parts.take(i + 1).last() == parts[i as int]);
                if i == 0 {
                    assert(amp_join(parts.take(1)) == parts[0]);
                    assert(query@ =~= "?"@ + amp_join(parts.take(i + 1)));
                } else {
                    assert(amp_join(parts.take(i + 1)) == amp_join(parts.take(i as int)) + "&"@
                        + parts[i as int]);
                    assert(query@ =~= "?"@ + amp_join(parts.take(i + 1)));
                }
            }
            i += 1;
        }
        proof {
            assert(args.deep_view().take(n as int) =~= args.deep_view());
        }
        query
    }
}

impl Clone for DocQuery {
    fn clone(&self) -> (r: Self)
        ensures
            r == *self,
    {
        let r = DocQuery {
            top: self.top,
            skip: self.skip,
            filter: match &self.filter {
                Some(v) => Some(v.clone()),
                None => None,
            },
            orderby: match &self.orderby {
                Some(v) => Some(v.clone()),
                None => None,
            },
            inlinecount: match &self.inlinecount {
                Some(v) => Some(v.clone()),
                None => None,
            },
            expand: match &self.expand {
                Some(v) => Some(v.clone()),
                None => None,
            },
        };
        r
    }
}

impl Default for DocQuery {
    /// A query with no parameter set, as [`DocQuery::new`] yields.
    fn default() -> (r: Self)
        ensures
            r.top is None,
            r.skip is None,
            r.filter is None,
            r.orderby is None,
            r.inlinecount is None,
            r.expand is None,
    {
        DocQuery::new()
    }
}

/// The header pairs of a folder or document query, in the order they are
/// sent.
pub open spec fn query_headers(h: DocumentHeaders, user: AuthorizedUser) -> Seq<(Seq<char>, Seq<char>)> {
    seq![
        ("accept"@, "application/json"@),
        (h.api_key@, user.api_key@),
        (h.partition@, user.partition@),
        (h.user_api_key@, user.user_api_key@),
    ]
}

/// Header names, query parameters and target endpoint of one document or
/// folder call, bound together so a call site can be rebuilt cheaply.
#[derive(Debug)]
pub struct DocInfo {
    pub headers: DocumentHeaders,
    pub query: DocQuery,
    pub url: String,
}

impl DocInfo {
    /// Binds headers, query parameters and the endpoint.
    pub fn new(headers: &DocumentHeaders, query: &DocQuery, url: &str) -> (r: Self)
        ensures
            r.headers == *headers,
            r.query == *query,
            r.url@ == url@,
    {
        DocInfo { headers: headers.clone(), query: query.clone(), url: url.to_owned() }
    }

    /// The configured header names.
    pub fn headers(&self) -> (r: DocumentHeaders)
        ensures
            r == self.headers,
    {
        self.headers.clone()
    }

    /// The bare endpoint, query suffix not included.
    pub fn url_ref(&self) -> (r: &String)
        ensures
            r == &self.url,
    {
        &self.url
    }

    /// The endpoint with the serialized query parameters appended.
    pub fn query(&self) -> (r: String)
        ensures
            r@ == self.url@ + query_string(self.query),
    {
        let mut s = self.url.clone();
        let q = self.query.query();
        s.append(q.as_str());
        s
    }

    /// The GET that resolves this call site: target with query suffix, the
    /// accept header and the three credential headers.
    pub fn request(&self, user: &AuthorizedUser) -> (r: HttpRequest)
        ensures
            r.method == Method::Get,
            r.url@ == self.url@ + query_string(self.query),
            r.headers.deep_view() == query_headers(self.headers, *user),
            r.body is None,
    {
        let mut headers: Vec<(String, String)> = Vec::new();
        headers.push(header_pair("accept", "application/json"));
        headers.push(header_pair(self.headers.api_key.as_str(), user.api_key.as_str()));
        headers.push(header_pair(self.headers.partition.as_str(), user.partition.as_str()));
        headers.push(header_pair(self.headers.user_api_key.as_str(), user.user_api_key.as_str()));
        proof {
            assert(headers.deep_view() =~~= query_headers(self.headers, *user));
        }
        HttpRequest { method: Method::Get, url: self.query(), headers, body: None }
    }
}

/// How a folder or document query answer is read: success exactly on the
/// service's OK status; any other status is the uniform authorization
/// failure, 4xx and 5xx not distinguished.
pub fn accept_query_status(status: u16) -> (r: Result<(), LinkError>)
    ensures
        r is Ok <==> status == 200,
        r matches Err(e) ==> e == LinkError::AuthError,
{
    if status == 200 {
        Ok(())
    } else {
        Err(LinkError::AuthError)
    }
}

/// A fresh option holding a copy of the same text.
fn clone_opt_string(v: &Option<String>) -> (r: Option<String>)
    ensures
        r == *v,
{
    match v {
        Some(s) => Some(s.clone()),
        None => None,
    }
}

/// The status code the service uses for a draft document.
pub const STATUS_DRAFT: i32 = 10;

/// What an update command makes of a record: `archive` marks it archived,
/// `draft` sets the draft status code, anything else changes nothing.
pub open spec fn commanded(d: Document, command: Seq<char>) -> Document {
    if command == "archive"@ {
        Document { is_archived: Some(true), ..d }
    } else if command == "draft"@ {
        Document { status: Some(STATUS_DRAFT as i32), ..d }
    } else {
        d
    }
}

/// The status code the service uses for a published document.
pub const STATUS_PUBLISHED: i32 = 30;

/// One document record of the document store.  File sizes are held in bytes
/// throughout the library.
#[derive(Debug)]
pub struct Document {
    pub id: i32,
    pub name: String,
    pub description: Option<String>,
    pub status: Option<i32>,
    pub file_size: Option<u64>,
    pub created_date: Option<String>,
    pub created_by: Option<i32>,
    pub file_uploaded_date: Option<String>,
    pub file_uploaded_by: Option<i32>,
    pub is_visible: Option<bool>,
    pub start_date: Option<String>,
    pub end_date: Option<String>,
    pub file_type: Option<String>,
    pub url: Option<String>,
    pub alt_text: Option<String>,
    pub folder_id: Option<i32>,
    pub convert_to_pdf: Option<bool>,
    pub file: Option<String>,
    pub file_name: Option<String>,
    pub is_archived: Option<bool>,
    pub is_chunked: Option<bool>,
    pub is_last_chunk: Option<bool>,
    pub upload_id: Option<String>,
    pub last_modified_by: Option<i32>,
    pub last_modified_on: Option<String>,
    pub show_archives: Option<bool>,
    pub show_in_rss_feed: Option<bool>,
}

impl Document {
    /// A record with only id and name filled in; callers set the remaining
    /// fields as the wire data supplies them.
    pub fn new(id: i32, name: &str) -> (r: Self)
        ensures
            r.id == id,
            r.name@ == name@,
            r.description is None,
            r.status is None,
            r.file_size is None,
            r.url is None,
            r.is_archived is None,
            r.folder_id is None,
            r.show_in_rss_feed is None,
    {
        Document {
            id,
            name: name.to_owned(),
            description: None,
            status: None,
            file_size: None,
            created_date: None,
            created_by: None,
            file_uploaded_date: None,
            file_uploaded_by: None,
            is_visible: None,
            start_date: None,
            end_date: None,
            file_type: None,
            url: None,
            alt_text: None,
            folder_id: None,
            convert_to_pdf: None,
            file: None,
            file_name: None,
            is_archived: None,
            is_chunked: None,
            is_last_chunk: None,
            upload_id: None,
            last_modified_by: None,
            last_modified_on: None,
            show_archives: None,
            show_in_rss_feed: None,
        }
    }

    /// The document id.
    pub fn id(&self) -> (r: i32)
        ensures
            r == self.id,
    {
        self.id
    }

    /// The document name.
    pub fn name(&self) -> (r: String)
        ensures
            r == self.name,
    {
        self.name.clone()
    }

    /// The stored file size in bytes, when the service reported one.
    pub fn file_size(&self) -> (r: Option<u64>)
        ensures
            r == self.file_size,
    {
        self.file_size
    }

    /// The integer-coded status: [`STATUS_DRAFT`] or [`STATUS_PUBLISHED`].
    pub fn status_ref(&self) -> (r: &Option<i32>)
        ensures
            r == &self.status,
    {
        &self.status
    }

    /// The stored file's address, cloned.
    pub fn url(&self) -> (r: Option<String>)
        ensures
            r == self.url,
    {
        clone_opt_string(&self.url)
    }

    /// The stored file's address.
    pub fn url_ref(&self) -> (r: &Option<String>)
        ensures
            r == &self.url,
    {
        &self.url
    }

    /// Whether the document is archived.
    pub fn is_archived(&self) -> (r: &Option<bool>)
        ensures
            r == &self.is_archived,
    {
        &self.is_archived
    }

    /// Whether the document is shown in the feed.
    pub fn rss_feed_ref(&self) -> (r: &Option<bool>)
        ensures
            r == &self.show_in_rss_feed,
    {
        &self.show_in_rss_feed
    }

    /// The copy of this record that an update command produces: `archive`
    /// marks it archived, `draft` sets the draft status code, and any other
    /// command leaves the record unchanged rather than failing.
    pub fn apply_command(&self, command: &str) -> (r: Document)
        ensures
            r == commanded(*self, command@),
    {
        proof {
            broadcast use vstd::string::group_string_axioms;

            reveal_strlit("archive");
            reveal_strlit("draft");
        }
        let mut doc = self.clone();
        let cmd = command.to_owned();
        if cmd == "archive".to_owned() {
            doc.is_archived = Some(true);
        } else if cmd == "draft".to_owned() {
            doc.status = Some(STATUS_DRAFT);
        }
        doc
    }
}

impl Clone for Document {
    fn clone(&self) -> (r: Self)
        ensures
            r == *self,
    {
        Document {
            id: self.id,
            name: self.name.clone(),
            description: clone_opt_string(&self.description),
            status: self.status,
            file_size: self.file_size,
            created_date: clone_opt_string(&self.created_date),
            created_by: self.created_by,
            file_uploaded_date: clone_opt_string(&self.file_uploaded_date),
            file_uploaded_by: self.file_uploaded_by,
            is_visible: self.is_visible,
            start_date: clone_opt_string(&self.start_date),
            end_date: clone_opt_string(&self.end_date),
            file_type: clone_opt_string(&self.file_type),
            url: clone_opt_string(&self.url),
            alt_text: clone_opt_string(&self.alt_text),
            folder_id: self.folder_id,
            convert_to_pdf: self.convert_to_pdf,
            file: clone_opt_string(&self.file),
            file_name: clone_opt_string(&self.file_name),
            is_archived: self.is_archived,
            is_chunked: self.is_chunked,
            is_last_chunk: self.is_last_chunk,
            upload_id: clone_opt_string(&self.upload_id),
            last_modified_by: self.last_modified_by,
            last_modified_on: clone_opt_string(&self.last_modified_on),
            show_archives: self.show_archives,
            show_in_rss_feed: self.show_in_rss_feed,
        }
    }
}

/// The header pairs of an upload, update or delete call, in the order they
/// are sent.
pub open spec fn upload_headers(h: DocumentHeaders, user: AuthorizedUser) -> Seq<
    (Seq<char>, Seq<char>),
> {
    seq![
        ("content-type"@, "application/json"@),
        ("accept"@, "application/json"@),
        (h.api_key@, user.api_key@),
        (h.partition@, user.partition@),
        (h.user_api_key@, user.user_api_key@),
    ]
}

/// The five header pairs every document upload, update and delete carries.
pub fn item_headers(info: &DocInfo, user: &AuthorizedUser) -> (r: Vec<(String, String)>)
    ensures
        r.deep_view() == upload_headers(info.headers, *user),
{
    let mut headers: Vec<(String, String)> = Vec::new();
    headers.push(header_pair("content-type", "application/json"));
    headers.push(header_pair("accept", "application/json"));
    headers.push(header_pair(info.headers.api_key.as_str(), user.api_key.as_str()));
    headers.push(header_pair(info.headers.partition.as_str(), user.partition.as_str()));
    headers.push(header_pair(info.headers.user_api_key.as_str(), user.user_api_key.as_str()));
    proof {
        assert(headers.deep_view() =~~= upload_headers(info.headers, *user));
    }
    headers
}

/// The JSON body of an upload: name, the name with the fixed `.pdf` suffix,
/// the base64-encoded payload, the target folder, the requested status, and
/// the fixed conversion and visibility flags.
pub open spec fn upload_body(
    name: Seq<char>,
    data: Seq<u8>,
    folder_id: int,
    published: bool,
) -> Seq<char> {
    "{\"Name\":"@ + json_quoted(name) + ",\"FileName\":"@ + json_quoted(name + ".pdf"@)
        + ",\"File\":"@ + json_quoted(base64_of(data)) + ",\"FolderId\":"@ + int_str(folder_id) + (
    if published {
        ",\"Status\":\"Published\""@
    } else {
        ",\"Status\":\"Draft\""@
    }) + ",\"ConvertToPdf\":\"false\",\"IsVisible\":\"false\"}"@
}

/// Builds the upload body for one named payload.
pub fn upload_body_string(name: &str, data: &[u8], folder_id: i32, published: bool) -> (r: String)
    requires
        data@.len() <= usize::MAX / 512,
    ensures
        r@ == upload_body(name@, data@, folder_id as int, published),
{
    let mut body = String::new();
    body.append("{\"Name\":");
    let quoted_name = json_string(name);
    body.append(quoted_name.as_str());
    body.append(",\"FileName\":");
    let mut file_name = name.to_owned();
    file_name.append(".pdf");
    let quoted_file = json_string(file_name.as_str());
    body.append(quoted_file.as_str());
    body.append(",\"File\":");
    let enc = base64_string(data);
    let quoted_payload = json_string(enc.as_str());
    body.append(quoted_payload.as_str());
    body.append(",\"FolderId\":");
    append_i64(&mut body, folder_id as i64);
    if published {
        body.append(",\"Status\":\"Published\"");
    } else {
        body.append(",\"Status\":\"Draft\"");
    }
    body.append(",\"ConvertToPdf\":\"false\",\"IsVisible\":\"false\"}");
    proof {
        assert(body@ =~= upload_body(name@, data@, folder_id as int, published));
    }
    body
}

/// The endpoint of one stored item: the base endpoint, a slash, the item id.
pub fn item_endpoint(info: &DocInfo, id: i32) -> (r: String)
    ensures
        r@ == info.url@ + "/"@ + int_str(id as int),
{
    let mut s = info.url.clone();
    s.append("/");
    append_i64(&mut s, id as i64);
    proof {
        assert(s@ =~= info.url@ + "/"@ + int_str(id as int));
    }
    s
}

impl Document {
    /// The POST that stores this record's payload: the body carries the
    /// base64 payload, this record's own id as the target folder, and the
    /// status the `publish` flag picks.
    pub fn upload_request(
        &self,
        data: &[u8],
        info: &DocInfo,
        user: &AuthorizedUser,
        publish: bool,
    ) -> (r: HttpRequest)
        requires
            data@.len() <= usize::MAX / 512,
        ensures
            r.method == Method::Post,
            r.url@ == info.url@,
            r.headers.deep_view() == upload_headers(info.headers, *user),
            r.body matches Some(b) && b@ == upload_body(self.name@, data@, self.id as int, publish),
    {
        let body = upload_body_string(self.name.as_str(), data, self.id, publish);
        HttpRequest {
            method: Method::Post,
            url: info.url.clone(),
            headers: item_headers(info, user),
            body: Some(body),
        }
    }

    /// What an update sends for this record: the record as the command leaves
    /// it, and the item endpoint the PUT goes to.  The caller serializes the
    /// record and attaches [`item_headers`].
    pub fn update_plan(&self, info: &DocInfo, command: &str) -> (r: (Document, String))
        ensures
            r.0 == commanded(*self, command@),
            r.1@ == info.url@ + "/"@ + int_str(self.id as int),
    {
        (self.apply_command(command), item_endpoint(info, self.id))
    }

    /// The DELETE that removes this record.
    pub fn delete_request(&self, info: &DocInfo, user: &AuthorizedUser) -> (r: HttpRequest)
        ensures
            r.method == Method::Delete,
            r.url@ == info.url@ + "/"@ + int_str(self.id as int),
            r.headers.deep_view() == upload_headers(info.headers, *user),
            r.body is None,
    {
        HttpRequest {
            method: Method::Delete,
            url: item_endpoint(info, self.id),
            headers: item_headers(info, user),
            body: None,
        }
    }
}

/// What one update or delete answer becomes: the decoded JSON string on the
/// OK status, or the status and raw body kept apart so a failure is never
/// mistaken for success output.
#[derive(Debug)]
pub enum ItemResponse {
    Parsed(String),
    Other { status: u16, body: String },
}

/// How a stored answer models one wire answer.
pub open spec fn response_models(resp: ItemResponse, status: u16, body: Seq<char>) -> bool {
    if status == 200 {
        resp matches ItemResponse::Parsed(s) && Some(s@) == crate::encode::json_parsed_string(body)
    } else {
        resp matches ItemResponse::Other { status: st, body: b } && st == status && b@ == body
    }
}

/// Reads one update or delete answer: the OK status must carry a JSON string
/// body, which is decoded; any other status keeps the raw body beside the
/// status instead of failing the batch.
pub fn classify_item_response(status: u16, body: String) -> (r: Result<ItemResponse, LinkError>)
    ensures
        r is Ok <==> (status != 200 || crate::encode::json_parsed_string(body@) is Some),
        r matches Ok(resp) ==> response_models(resp, status, body@),
        r matches Err(e) ==> e == LinkError::JsonError,
{
    if status == 200 {
        match crate::encode::parse_json_string(body.as_str()) {
            Ok(s) => Ok(ItemResponse::Parsed(s)),
            Err(_) => Err(LinkError::JsonError),
        }
    } else {
        Ok(ItemResponse::Other { status, body })
    }
}

/// Reads a whole batch of update or delete answers in order; one undecodable
/// OK body fails the batch, as each item's answer is owed to the caller.
pub fn collect_item_responses(outcomes: Vec<(u16, String)>) -> (r: Result<
    Vec<ItemResponse>,
    LinkError,
>)
    ensures
        r is Ok <==> (forall|i: int|
            0 <= i < outcomes@.len() ==> (outcomes@[i].0 != 200 || crate::encode::json_parsed_string(
                outcomes@[i].1@,
            ) is Some)),
        r matches Ok(v) ==> v@.len() == outcomes@.len() && (forall|i: int|
            0 <= i < v@.len() ==> response_models(v@[i], outcomes@[i].0, outcomes@[i].1@)),
        r matches Err(e) ==> e == LinkError::JsonError,
{
    let mut out: Vec<ItemResponse> = Vec::new();
    let n = outcomes.len();
    let mut i: usize = 0;
    while i < n
        invariant
            0 <= i <= n,
            n == outcomes@.len(),
            out@.len() == i,
            forall|j: int|
                0 <= j < i ==> (outcomes@[j].0 != 200 || crate::encode::json_parsed_string(
                    outcomes@[j].1@,
                ) is Some),
            forall|j: int| 0 <= j < i ==> response_models(out@[j], outcomes@[j].0, outcomes@[j].1@),
        decreases n - i,
    {
        let item = &outcomes[i];
        match classify_item_response(item.0, item.1.clone()) {
            Ok(resp) => out.push(resp),
            Err(e) => {
                return Err(e);
            },
        }
        i += 1;
    }
    Ok(out)
}

/// A page of document records with its pagination metadata, as one query
/// returns it.  Only this single page is modeled; no traversal follows
/// `has_next_page`.
#[derive(Debug)]
pub struct Documents {
    pub current_page: Option<i32>,
    pub page_size: Option<i32>,
    pub total_count: Option<i32>,
    pub total_pages: Option<i32>,
    pub source: Option<Vec<Document>>,
    pub sort_by: Option<String>,
    pub filter: Option<String>,
    pub has_previous_page: Option<bool>,
    pub has_next_page: Option<bool>,
}

/// The sum in bytes of the sizes a record page reports; records without a
/// size contribute nothing.
pub open spec fn sizes_sum(docs: Seq<Document>) -> int
    decreases docs.len(),
{
    if docs.len() == 0 {
        0
    } else {
        sizes_sum(docs.drop_last()) + (if docs.last().file_size is Some {
            docs.last().file_size->0 as int
        } else {
            0
        })
    }
}

/// The total size of a page: the sum over its records, zero without records.
pub open spec fn page_total_size(d: Documents) -> int {
    match d.source {
        Some(v) => sizes_sum(v@),
        None => 0,
    }
}

impl Documents {
    /// A page holding only records; callers set the pagination metadata as
    /// the wire data supplies it.
    pub fn from_source(source: Option<Vec<Document>>) -> (r: Self)
        ensures
            r.source == source,
            r.current_page is None,
            r.page_size is None,
            r.total_count is None,
            r.total_pages is None,
            r.sort_by is None,
            r.filter is None,
            r.has_previous_page is None,
            r.has_next_page is None,
    {
        Documents {
            current_page: None,
            page_size: None,
            total_count: None,
            total_pages: None,
            source,
            sort_by: None,
            filter: None,
            has_previous_page: None,
            has_next_page: None,
        }
    }

    /// The page number of this page.
    pub fn current_page_ref(&self) -> (r: &Option<i32>)
        ensures
            r == &self.current_page,
    {
        &self.current_page
    }

    /// The size of this page.
    pub fn page_size(&self) -> (r: Option<i32>)
        ensures
            r == self.page_size,
    {
        self.page_size
    }

    /// The total record count across all pages.
    pub fn total_count(&self) -> (r: Option<i32>)
        ensures
            r == self.total_count,
    {
        self.total_count
    }

    /// The page count.
    pub fn total_pages_ref(&self) -> (r: &Option<i32>)
        ensures
            r == &self.total_pages,
    {
        &self.total_pages
    }

    /// The records of this page, cloned.
    pub fn source(&self) -> (r: Option<Vec<Document>>)
        ensures
            r is Some <==> self.source is Some,
            r matches Some(v) ==> v@ == self.source->0@,
    {
        match &self.source {
            Some(v) => {
                let c = v.clone();
                proof {
                    assert(c@ =~= v@);
                }
                Some(c)
            },
            None => None,
        }
    }

    /// The records of this page.
    pub fn source_ref(&self) -> (r: &Option<Vec<Document>>)
        ensures
            r == &self.source,
    {
        &self.source
    }

    /// The sort order the service applied.
    pub fn sort_by_ref(&self) -> (r: &Option<String>)
        ensures
            r == &self.sort_by,
    {
        &self.sort_by
    }

    /// The filter the service applied.
    pub fn filter_ref(&self) -> (r: &Option<String>)
        ensures
            r == &self.filter,
    {
        &self.filter
    }

    /// Whether an earlier page exists.
    pub fn has_previous_page_ref(&self) -> (r: &Option<bool>)
        ensures
            r == &self.has_previous_page,
    {
        &self.has_previous_page
    }

    /// Whether a later page exists.
    pub fn has_next_page_ref(&self) -> (r: &Option<bool>)
        ensures
            r == &self.has_next_page,
    {
        &self.has_next_page
    }

    /// The total size in bytes over this page's records; absent sizes
    /// contribute zero.
    pub fn total_size(&self) -> (r: u128)
        ensures
            r == page_total_size(*self),
    {
        let mut size: u128 = 0;
        match &self.source {
            Some(docs) => {
                let n = docs.len();
                let mut i: usize = 0;
                while i < n
                    invariant
                        0 <= i <= n,
                        n == docs@.len(),
                        size == sizes_sum(docs@.take(i as int)),
                        size <= i * u64::MAX,
                    decreases n - i,
                {
                    proof {
                        assert(docs@.take(i + 1).drop_last() =~= docs@.take(i as int));
                        assert(docs@.take(i + 1).last() == docs@[i as int]);
                        assert((i + 1) * u64::MAX == i * u64::MAX + u64::MAX) by (nonlinear_arith);
                        assert(i * u64::MAX <= n * u64::MAX) by (nonlinear_arith)
                            requires
                                0 <= i <= n,
                        ;
                    }
                    if let Some(value) = docs[i].file_size {
                        size = size + value as u128;
                    }
                    i += 1;
                }
                proof {
                    assert(docs@.take(n as int) =~= docs@);
                }
            },
            None => {},
        }
        size
    }

    /// The records as one update command leaves them, in page order.
    pub fn update_items(&self, command: &str) -> (r: Vec<Document>)
        ensures
            self.source is None ==> r@.len() == 0,
            self.source matches Some(v) ==> r@.len() == v@.len() && (forall|i: int|
                0 <= i < v@.len() ==> r@[i] == commanded(v@[i], command@)),
    {
        let mut out: Vec<Document> = Vec::new();
        match &self.source {
            Some(docs) => {
                let n = docs.len();
                let mut i: usize = 0;
                while i < n
                    invariant
                        0 <= i <= n,
                        n == docs@.len(),
                        out@.len() == i,
                        forall|j: int| 0 <= j < i ==> out@[j] == commanded(docs@[j], command@),
                    decreases n - i,
                {
                    out.push(docs[i].apply_command(command));
                    i += 1;
                }
            },
            None => {},
        }
        out
    }

    /// The item endpoints of the records, in page order.
    pub fn item_endpoints(&self, info: &DocInfo) -> (r: Vec<String>)
        ensures
            self.source is None ==> r@.len() == 0,
            self.source matches Some(v) ==> r@.len() == v@.len() && (forall|i: int|
                0 <= i < v@.len() ==> r@[i]@ == info.url@ + "/"@ + int_str(v@[i].id as int)),
    {
        let mut out: Vec<String> = Vec::new();
        match &self.source {
            Some(docs) => {
                let n = docs.len();
                let mut i: usize = 0;
                while i < n
                    invariant
                        0 <= i <= n,
                        n == docs@.len(),
                        out@.len() == i,
                        forall|j: int|
                            0 <= j < i ==> out@[j]@ == info.url@ + "/"@ + int_str(
                                docs@[j].id as int,
                            ),
                    decreases n - i,
                {
                    out.push(item_endpoint(info, docs[i].id));
                    i += 1;
                }
            },
            None => {},
        }
        out
    }
}

/// One folder record of the document store.
#[derive(Debug)]
pub struct Folder {
    pub id: Option<i32>,
    pub description: Option<String>,
    pub status: Option<i32>,
    pub path: Option<String>,
    pub name: String,
    pub parent_id: Option<i32>,
    pub created_date: Option<String>,
    pub created_by: Option<i32>,
    pub last_modified_date: Option<String>,
    pub modified_by: Option<i32>,
    pub is_archived: Option<bool>,
    pub show_archive: Option<bool>,
    pub last_archived_date: Option<String>,
    pub update_integration_hub: Option<bool>,
    pub archived_by: Option<i32>,
    pub archived_reason: Option<i32>,
    pub archived_folder_id: Option<i32>,
    pub total_folder_size: Option<i32>,
    pub children_exist: Option<bool>,
    pub url: Option<String>,
    pub folder_root: Option<i32>,
    pub department_header_id: Option<i32>,
    pub show_archives: Option<bool>,
    pub permissions: Option<Vec<String>>,
    pub item_count: Option<i32>,
}

/// Whether two folder records agree on every field; the permission list is
/// compared text by text.
pub open spec fn same_folder(a: Folder, b: Folder) -> bool {
    &&& a.id == b.id
    &&& a.description == b.description
    &&& a.status == b.status
    &&& a.path == b.path
    &&& a.name == b.name
    &&& a.parent_id == b.parent_id
    &&& a.created_date == b.created_date
    &&& a.created_by == b.created_by
    &&& a.last_modified_date == b.last_modified_date
    &&& a.modified_by == b.modified_by
    &&& a.is_archived == b.is_archived
    &&& a.show_archive == b.show_archive
    &&& a.last_archived_date == b.last_archived_date
    &&& a.update_integration_hub == b.update_integration_hub
    &&& a.archived_by == b.archived_by
    &&& a.archived_reason == b.archived_reason
    &&& a.archived_folder_id == b.archived_folder_id
    &&& a.total_folder_size == b.total_folder_size
    &&& a.children_exist == b.children_exist
    &&& a.url == b.url
    &&& a.folder_root == b.folder_root
    &&& a.department_header_id == b.department_header_id
    &&& a.show_archives == b.show_archives
    &&& (a.permissions is Some <==> b.permissions is Some)
    &&& (a.permissions is Some ==> a.permissions->0@ == b.permissions->0@)
    &&& a.item_count == b.item_count
}

impl Folder {
    /// A record with only the name filled in; callers set the remaining
    /// fields as the wire data supplies them.
    pub fn new(name: &str) -> (r: Self)
        ensures
            r.name@ == name@,
            r.id is None,
            r.is_archived is None,
            r.parent_id is None,
            r.permissions is None,
    {
        Folder {
            id: None,
            description: None,
            status: None,
            path: None,
            name: name.to_owned(),
            parent_id: None,
            created_date: None,
            created_by: None,
            last_modified_date: None,
            modified_by: None,
            is_archived: None,
            show_archive: None,
            last_archived_date: None,
            update_integration_hub: None,
            archived_by: None,
            archived_reason: None,
            archived_folder_id: None,
            total_folder_size: None,
            children_exist: None,
            url: None,
            folder_root: None,
            department_header_id: None,
            show_archives: None,
            permissions: None,
            item_count: None,
        }
    }

    /// The folder id.
    pub fn id_ref(&self) -> (r: &Option<i32>)
        ensures
            r == &self.id,
    {
        &self.id
    }

    /// The folder description.
    pub fn description_ref(&self) -> (r: &Option<String>)
        ensures
            r == &self.description,
    {
        &self.description
    }

    /// The integer-coded folder status.
    pub fn status_ref(&self) -> (r: &Option<i32>)
        ensures
            r == &self.status,
    {
        &self.status
    }

    /// The folder path.
    pub fn path_ref(&self) -> (r: &Option<String>)
        ensures
            r == &self.path,
    {
        &self.path
    }

    /// The id of the parent folder.
    pub fn parent_id_ref(&self) -> (r: &Option<i32>)
        ensures
            r == &self.parent_id,
    {
        &self.parent_id
    }

    /// The creation date.
    pub fn created_date_ref(&self) -> (r: &Option<String>)
        ensures
            r == &self.created_date,
    {
        &self.created_date
    }

    /// The id of the account that created the folder.
    pub fn created_by_ref(&self) -> (r: &Option<i32>)
        ensures
            r == &self.created_by,
    {
        &self.created_by
    }

    /// The date of the last edit.
    pub fn last_modified_date_ref(&self) -> (r: &Option<String>)
        ensures
            r == &self.last_modified_date,
    {
        &self.last_modified_date
    }

    /// The id of the account that last edited the folder.
    pub fn modified_by_ref(&self) -> (r: &Option<i32>)
        ensures
            r == &self.modified_by,
    {
        &self.modified_by
    }

    /// Whether the folder is archived; a folder is active exactly when this
    /// holds `Some(false)`.
    pub fn is_archived_ref(&self) -> (r: &Option<bool>)
        ensures
            r == &self.is_archived,
    {
        &self.is_archived
    }

    /// Whether archived documents in the folder are shown.
    pub fn show_archive_ref(&self) -> (r: &Option<bool>)
        ensures
            r == &self.show_archive,
    {
        &self.show_archive
    }

    /// The date the folder was last archived.
    pub fn last_archived_date_ref(&self) -> (r: &Option<String>)
        ensures
            r == &self.last_archived_date,
    {
        &self.last_archived_date
    }

    /// Whether the integration hub is updated.
    pub fn update_integration_hub_ref(&self) -> (r: &Option<bool>)
        ensures
            r == &self.update_integration_hub,
    {
        &self.update_integration_hub
    }

    /// The id of the account that archived the folder.
    pub fn archived_by_ref(&self) -> (r: &Option<i32>)
        ensures
            r == &self.archived_by,
    {
        &self.archived_by
    }

    /// The integer-coded reason the folder was archived.
    pub fn archived_reason_ref(&self) -> (r: &Option<i32>)
        ensures
            r == &self.archived_reason,
    {
        &self.archived_reason
    }

    /// The id of the archived copy of the folder.
    pub fn archived_folder_id_ref(&self) -> (r: &Option<i32>)
        ensures
            r == &self.archived_folder_id,
    {
        &self.archived_folder_id
    }

    /// The folder's total size.
    pub fn total_folder_size_ref(&self) -> (r: &Option<i32>)
        ensures
            r == &self.total_folder_size,
    {
        &self.total_folder_size
    }

    /// Whether child folders exist.
    pub fn children_exist_ref(&self) -> (r: &Option<bool>)
        ensures
            r == &self.children_exist,
    {
        &self.children_exist
    }

    /// The folder's address.
    pub fn url_ref(&self) -> (r: &Option<String>)
        ensures
            r == &self.url,
    {
        &self.url
    }

    /// The integer-coded root area the folder belongs to.
    pub fn folder_root_ref(&self) -> (r: &Option<i32>)
        ensures
            r == &self.folder_root,
    {
        &self.folder_root
    }

    /// The department header stored for the folder.
    pub fn department_header_id_ref(&self) -> (r: &Option<i32>)
        ensures
            r == &self.department_header_id,
    {
        &self.department_header_id
    }

    /// Whether the folder shows archives publicly.
    pub fn show_archives_ref(&self) -> (r: &Option<bool>)
        ensures
            r == &self.show_archives,
    {
        &self.show_archives
    }

    /// The folder's permission entries.
    pub fn permissions_ref(&self) -> (r: &Option<Vec<String>>)
        ensures
            r == &self.permissions,
    {
        &self.permissions
    }

    /// The number of items the folder holds.
    pub fn item_count_ref(&self) -> (r: &Option<i32>)
        ensures
            r == &self.item_count,
    {
        &self.item_count
    }
}

impl Clone for Folder {
    fn clone(&self) -> (r: Self)
        ensures
            same_folder(*self, r),
    {
        let permissions: Option<Vec<String>> = match &self.permissions {
            Some(v) => {
                let c = v.clone();
                proof {
                    assert(c@ =~= v@);
                }
                Some(c)
            },
            None => None,
        };
        Folder {
            id: self.id,
            description: clone_opt_string(&self.description),
            status: self.status,
            path: clone_opt_string(&self.path),
            name: self.name.clone(),
            parent_id: self.parent_id,
            created_date: clone_opt_string(&self.created_date),
            created_by: self.created_by,
            last_modified_date: clone_opt_string(&self.last_modified_date),
            modified_by: self.modified_by,
            is_archived: self.is_archived,
            show_archive: self.show_archive,
            last_archived_date: clone_opt_string(&self.last_archived_date),
            update_integration_hub: self.update_integration_hub,
            archived_by: self.archived_by,
            archived_reason: self.archived_reason,
            archived_folder_id: self.archived_folder_id,
            total_folder_size: self.total_folder_size,
            children_exist: self.children_exist,
            url: clone_opt_string(&self.url),
            folder_root: self.folder_root,
            department_header_id: self.department_header_id,
            show_archives: self.show_archives,
            permissions,
            item_count: self.item_count,
        }
    }
}

/// The id the linear scan of a folder page yields for a name: the id field
/// of the latest record whose name matches and whose archived flag is
/// exactly `Some(false)`.
pub open spec fn scan_id(folders: Seq<Folder>, name: Seq<char>) -> Option<i32>
    decreases folders.len(),
{
    if folders.len() == 0 {
        None::<i32>
    } else if folders.last().name@ == name && folders.last().is_archived == Some(false) {
        folders.last().id
    } else {
        scan_id(folders.drop_last(), name)
    }
}

/// The folder id a name resolves to: the override name maps to its fixed id
/// whatever the page holds; any other name is resolved by the linear scan,
/// and a page without records resolves nothing.
pub open spec fn folder_id_of(f: Folders, name: Seq<char>) -> Option<i32> {
    if name == "Fee in Lieu"@ {
        Some(FEE_IN_LIEU_ID as i32)
    } else {
        match f.source {
            Some(v) => scan_id(v@, name),
            None => None::<i32>,
        }
    }
}

/// The fixed id that the folder name `Fee in Lieu` always resolves to, a
/// documented workaround for inconsistent data on the service side.
pub const FEE_IN_LIEU_ID: i32 = 1884;

/// The override name resolves to its fixed id whatever the page holds, an
/// empty page included.
pub proof fn lemma_override_id(f: Folders)
    ensures
        folder_id_of(f, "Fee in Lieu"@) == Some(FEE_IN_LIEU_ID as i32),
{
}

/// A page of folder records with its pagination metadata.
#[derive(Debug)]
pub struct Folders {
    pub current_page: Option<i32>,
    pub page_size: Option<i32>,
    pub total_count: Option<i32>,
    pub total_pages: Option<i32>,
    pub source: Option<Vec<Folder>>,
    pub sort_by: Option<String>,
    pub filter: Option<String>,
    pub has_previous_page: Option<bool>,
    pub has_next_page: Option<bool>,
}

impl Folders {
    /// A page holding only records; callers set the pagination metadata as
    /// the wire data supplies it.
    pub fn from_source(source: Option<Vec<Folder>>) -> (r: Self)
        ensures
            r.source == source,
            r.current_page is None,
            r.page_size is None,
            r.total_count is None,
            r.total_pages is None,
            r.sort_by is None,
            r.filter is None,
            r.has_previous_page is None,
            r.has_next_page is None,
    {
        Folders {
            current_page: None,
            page_size: None,
            total_count: None,
            total_pages: None,
            source,
            sort_by: None,
            filter: None,
            has_previous_page: None,
            has_next_page: None,
        }
    }

    /// The page number of this page.
    pub fn current_page_ref(&self) -> (r: &Option<i32>)
        ensures
            r == &self.current_page,
    {
        &self.current_page
    }

    /// The size of this page.
    pub fn page_size(&self) -> (r: Option<i32>)
        ensures
            r == self.page_size,
    {
        self.page_size
    }

    /// The total record count across all pages.
    pub fn total_count(&self) -> (r: Option<i32>)
        ensures
            r == self.total_count,
    {
        self.total_count
    }

    /// The page count.
    pub fn total_pages_ref(&self) -> (r: &Option<i32>)
        ensures
            r == &self.total_pages,
    {
        &self.total_pages
    }

    /// The records of this page, cloned record by record.
    pub fn source(&self) -> (r: Option<Vec<Folder>>)
        ensures
            r is Some <==> self.source is Some,
            r matches Some(v) ==> v@.len() == self.source->0@.len() && (forall|i: int|
                0 <= i < v@.len() ==> same_folder(self.source->0@[i], v@[i])),
    {
        match &self.source {
            Some(folders) => {
                let n = folders.len();
                let mut out: Vec<Folder> = Vec::new();
                let mut i: usize = 0;
                while i < n
                    invariant
                        0 <= i <= n,
                        n == folders@.len(),
                        out@.len() == i,
                        forall|j: int| 0 <= j < i ==> same_folder(folders@[j], out@[j]),
                    decreases n - i,
                {
                    out.push(folders[i].clone());
                    i += 1;
                }
                Some(out)
            },
            None => None,
        }
    }

    /// The sort order the service applied.
    pub fn sort_by_ref(&self) -> (r: &Option<String>)
        ensures
            r == &self.sort_by,
    {
        &self.sort_by
    }

    /// The filter the service applied.
    pub fn filter_ref(&self) -> (r: &Option<String>)
        ensures
            r == &self.filter,
    {
        &self.filter
    }

    /// Whether an earlier page exists.
    pub fn has_previous_page_ref(&self) -> (r: &Option<bool>)
        ensures
            r == &self.has_previous_page,
    {
        &self.has_previous_page
    }

    /// Whether a later page exists.
    pub fn has_next_page_ref(&self) -> (r: &Option<bool>)
        ensures
            r == &self.has_next_page,
    {
        &self.has_next_page
    }

    /// Resolves a folder name to an id: the latest active record with that
    /// exact name wins; the override name always yields its fixed id, even
    /// over an empty page; any other unmatched name yields nothing.
    pub fn get_id(&self, name: &str) -> (r: Option<i32>)
        ensures
            r == folder_id_of(*self, name@),
    {
        let wanted = name.to_owned();
        if wanted == "Fee in Lieu".to_owned() {
            return Some(FEE_IN_LIEU_ID);
        }
        let mut id: Option<i32> = None;
        match &self.source {
            Some(folders) => {
                let n = folders.len();
                let mut i: usize = 0;
                while i < n
                    invariant
                        0 <= i <= n,
                        n == folders@.len(),
                        id == scan_id(folders@.take(i as int), wanted@),
                    decreases n - i,
                {
                    proof {
                        assert(folders@.take(i + 1).drop_last() =~= folders@.take(i as int));
                        assert(folders@.take(i + 1).last() == folders@[i as int]);
                    }
                    let folder = &folders[i];
                    let active = match folder.is_archived {
                        Some(false) => true,
                        _ => false,
                    };
                    if folder.name == wanted && active {
                        id = folder.id;
                    }
                    i += 1;
                }
                proof {
                    assert(folders@.take(n as int) =~= folders@);
                }
            },
            None => {},
        }
        id
    }
}

/// What a name resolves to among a page of records: the address of the
/// latest record carrying that name and an address at all.
pub open spec fn link_lookup(docs: Seq<Document>, k: Seq<char>) -> Option<Seq<char>>
    decreases docs.len(),
{
    if docs.len() == 0 {
        None::<Seq<char>>
    } else if docs.last().url is Some && docs.last().name@ == k {
        Some(docs.last().url->0@)
    } else {
        link_lookup(docs.drop_last(), k)
    }
}

/// The link set: each stored document name mapped to its address, as
/// gathered from one page of records.
#[derive(Debug)]
pub struct DocumentLinks {
    pub links: NameMap,
}

impl DocumentLinks {
    /// The well-formedness every operation preserves.
    pub open spec fn wf(self) -> bool {
        self.links.wf()
    }

    /// Wraps an already-gathered name map.
    pub fn new(links: NameMap) -> (r: Self)
        ensures
            r.links.entries@ == links.entries@,
    {
        DocumentLinks { links }
    }

    /// The underlying name map.
    pub fn ref_links(&self) -> (r: &NameMap)
        ensures
            r == &self.links,
    {
        &self.links
    }

    /// Gathers the links of one record page: every record that carries an
    /// address is stored under its name, later records overriding earlier
    /// ones of the same name.
    pub fn from_documents(docs: &Documents) -> (r: Self)
        ensures
            r.wf(),
            forall|k: Seq<char>| r.links.spec_get(k) == match docs.source {
                Some(v) => link_lookup(v@, k),
                None => None::<Seq<char>>,
            },
    {
        let mut links = NameMap::new();
        match &docs.source {
            Some(documents) => {
                let n = documents.len();
                let mut i: usize = 0;
                while i < n
                    invariant
                        0 <= i <= n,
                        n == documents@.len(),
                        links.wf(),
                        forall|k: Seq<char>| #![auto] links.spec_get(k) == link_lookup(
                            documents@.take(i as int),
                            k,
                        ),
                    decreases n - i,
                {
                    proof {
                        assert(documents@.take(i + 1).drop_last() =~= documents@.take(i as int));
                        assert(documents@.take(i + 1).last() == documents@[i as int]);
                    }
                    let doc = &documents[i];
                    if let Some(url) = &doc.url {
                        links.insert(doc.name.clone(), url.clone());
                    }
                    i += 1;
                }
                proof {
                    assert(documents@.take(n as int) =~= documents@);
                }
            },
            None => {},
        }
        DocumentLinks { links }
    }
}

impl Default for DocumentLinks {
    /// An empty link set.
    fn default() -> (r: Self)
        ensures
            r.wf(),
            r.links.entries@.len() == 0,
    {
        DocumentLinks { links: NameMap::new() }
    }
}

/// Collects what the link update of one folder needs: the folder page to
/// resolve names against, the header names, the query parameters, the
/// document endpoint, the authorized session and the output directory.
#[derive(Debug)]
pub struct LinkUpdaterBuilder {
    pub folders: Option<Folders>,
    pub headers: Option<DocumentHeaders>,
    pub args: Option<DocQuery>,
    pub url: Option<String>,
    pub user: Option<AuthorizedUser>,
    pub output: Option<String>,
}

impl LinkUpdaterBuilder {
    /// An empty builder with no field supplied yet.
    pub fn new() -> (r: Self)
        ensures
            r.folders is None,
            r.headers is None,
            r.args is None,
            r.url is None,
            r.user is None,
            r.output is None,
    {
        LinkUpdaterBuilder {
            folders: None,
            headers: None,
            args: None,
            url: None,
            user: None,
            output: None,
        }
    }

    /// Supplies the folder page.
    pub fn folders(&mut self, value: Folders)
        ensures
            final(self).folders == Some(value),
            final(self).headers == old(self).headers,
            final(self).args == old(self).args,
            final(self).url == old(self).url,
            final(self).user == old(self).user,
            final(self).output == old(self).output,
    {
        self.folders = Some(value);
    }

    /// Supplies the header names.
    pub fn headers(&mut self, value: &DocumentHeaders)
        ensures
            final(self).headers == Some(*value),
            final(self).folders == old(self).folders,
            final(self).args == old(self).args,
            final(self).url == old(self).url,
            final(self).user == old(self).user,
            final(self).output == old(self).output,
    {
        self.headers = Some(value.clone());
    }

    /// Supplies the query parameters.
    pub fn args(&mut self, value: &DocQuery)
        ensures
            final(self).args == Some(*value),
            final(self).folders == old(self).folders,
            final(self).headers == old(self).headers,
            final(self).url == old(self).url,
            final(self).user == old(self).user,
            final(self).output == old(self).output,
    {
        self.args = Some(value.clone());
    }

    /// Supplies the document endpoint.
    pub fn url(&mut self, value: &str)
        ensures
            final(self).url matches Some(v) && v@ == value@,
            final(self).folders == old(self).folders,
            final(self).headers == old(self).headers,
            final(self).args == old(self).args,
            final(self).user == old(self).user,
            final(self).output == old(self).output,
    {
        self.url = Some(value.to_owned());
    }

    /// Supplies the authorized session.
    pub fn user(&mut self, value: &AuthorizedUser)
        ensures
            final(self).user == Some(*value),
            final(self).folders == old(self).folders,
            final(self).headers == old(self).headers,
            final(self).args == old(self).args,
            final(self).url == old(self).url,
            final(self).output == old(self).output,
    {
        self.user = Some(value.clone());
    }

    /// Supplies the output directory; a missing one is refused at once.
    pub fn output(&mut self, value: &Option<String>) -> (r: Result<(), LinkError>)
        ensures
            r is Ok <==> value is Some,
            r is Ok ==> (final(self).output matches Some(v) && v@ == value->0@),
            r matches Err(e) ==> (e == LinkError::BuildError && *final(self) == *old(self)),
            final(self).folders == old(self).folders,
            final(self).headers == old(self).headers,
            final(self).args == old(self).args,
            final(self).url == old(self).url,
            final(self).user == old(self).user,
    {
        match value {
            Some(v) => {
                self.output = Some(v.clone());
                Ok(())
            },
            None => Err(LinkError::BuildError),
        }
    }

    /// Checks all six fields at once: a complete builder yields the link
    /// updater holding exactly the supplied values, an incomplete one the
    /// builder failure.
    pub fn build(self) -> (r: Result<LinkUpdater, LinkError>)
        ensures
            r is Ok <==> (self.folders is Some && self.headers is Some && self.args is Some
                && self.url is Some && self.user is Some && self.output is Some),
            r matches Ok(u) ==> {
                &&& Some(u.folders) == self.folders
                &&& Some(u.headers) == self.headers
                &&& Some(u.args) == self.args
                &&& Some(u.url) == self.url
                &&& Some(u.user) == self.user
                &&& Some(u.output) == self.output
            },
            r matches Err(e) ==> e == LinkError::BuildError,
    {
        match (self.folders, self.headers, self.args, self.url, self.user, self.output) {
            (Some(folders), Some(headers), Some(args), Some(url), Some(user), Some(output)) => Ok(
                LinkUpdater { folders, headers, args, url, user, output },
            ),
            _ => Err(LinkError::BuildError),
        }
    }
}

impl Default for LinkUpdaterBuilder {
    /// An empty builder, as [`LinkUpdaterBuilder::new`] yields.
    fn default() -> (r: Self)
        ensures
            r.folders is None,
            r.headers is None,
            r.args is None,
            r.url is None,
            r.user is None,
            r.output is None,
    {
        LinkUpdaterBuilder::new()
    }
}

/// The query pairs with the filter pinned to a given expression, the other
/// parameters taken from the query as they stand.
pub open spec fn query_parts_filtered(q: DocQuery, filter: Seq<char>) -> Seq<Seq<char>> {
    let s = Seq::<Seq<char>>::empty();
    let s = if q.top is Some {
        s.push("%24top="@ + int_str(q.top->0 as int))
    } else {
        s
    };
    let s = if q.skip is Some {
        s.push("%24skip="@ + int_str(q.skip->0 as int))
    } else {
        s
    };
    let s = s.push("%24filter="@ + filter);
    let s = if q.orderby is Some {
        s.push("%24orderby="@ + q.orderby->0@)
    } else {
        s
    };
    let s = if q.inlinecount is Some {
        s.push("%24inlinecount="@ + q.inlinecount->0@)
    } else {
        s
    };
    if q.expand is Some {
        s.push("%24expand="@ + q.expand->0@)
    } else {
        s
    }
}

/// The filter expression that narrows a document query to one folder.
pub open spec fn folder_filter(id: int) -> Seq<char> {
    "FolderId eq "@ + int_str(id)
}

/// Everything the link update of one folder needs, bound together.
#[derive(Debug)]
pub struct LinkUpdater {
    pub folders: Folders,
    pub headers: DocumentHeaders,
    pub args: DocQuery,
    pub url: String,
    pub user: AuthorizedUser,
    pub output: String,
}

impl LinkUpdater {
    /// Starts an empty [`LinkUpdaterBuilder`].
    pub fn new() -> (r: LinkUpdaterBuilder)
        ensures
            r.folders is None,
            r.headers is None,
            r.args is None,
            r.url is None,
            r.user is None,
            r.output is None,
    {
        LinkUpdaterBuilder::new()
    }

    /// The document query of one named folder: nothing when the name does
    /// not resolve; otherwise the GET against the document endpoint with the
    /// filter pinned to the resolved folder id.
    pub fn folder_query(&self, folder: &str) -> (r: Option<HttpRequest>)
        ensures
            r is Some <==> folder_id_of(self.folders, folder@) is Some,
            r matches Some(req) ==> {
                &&& req.method == Method::Get
                &&& req.url@ == self.url@ + "?"@ + amp_join(
                    query_parts_filtered(
                        self.args,
                        folder_filter(folder_id_of(self.folders, folder@)->0 as int),
                    ),
                )
                &&& req.headers.deep_view() == query_headers(self.headers, self.user)
                &&& req.body is None
            },
    {
        match self.folders.get_id(folder) {
            Some(id) => {
                let mut filter: String = "FolderId eq ".to_owned();
                append_i64(&mut filter, id as i64);
                let mut args = self.args.clone();
                args.filter(filter.as_str());
                let info = DocInfo::new(&self.headers, &args, self.url.as_str());
                let req = info.request(&self.user);
                proof {
                    assert(filter@ =~= folder_filter(id as int));
                    assert(query_parts(args) =~~= query_parts_filtered(
                        self.args,
                        folder_filter(id as int),
                    ));
                }
                Some(req)
            },
            None => None,
        }
    }

    /// The path of the link file written for a folder: the output directory,
    /// a slash, the file name and the fixed `.csv` suffix.
    pub fn link_path(&self, file: &str) -> (r: String)
        ensures
            r@ == self.output@ + "/"@ + file@ + ".csv"@,
    {
        let mut s = self.output.clone();
        s.append("/");
        s.append(file);
        s.append(".csv");
        proof {
            assert(s@ =~= self.output@ + "/"@ + file@ + ".csv"@);
        }
        s
    }
}

} // verus!
