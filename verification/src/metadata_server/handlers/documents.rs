//! Locating, reading, deleting and searching documents.
use vstd::prelude::*;
use crate::common::types::jwt_types::{Claims, Role};
use crate::common::types::sql_types::{
    document_type_number, document_type_number_round_trip, document_type_of_number, DocumentType,
    ScientificDocumentRow,
    SearchResultRow,
};
use crate::ids::{endpoint_text, uuid_parse, uuid_text, NodeIp};
use crate::metadata_server::handlers::accounts::FailedDeletion;
use crate::metadata_server::messages::{
    DeleteDocumentRequest, DownloadNodeRequest, ScientificDocumentRequest, SearchRequest,
};
use crate::metadata_server::metadata::private::{
    authorize_owner, claims_or_internal, claims_or_unauthenticated, content_pattern,
    download_node, file_ids, insufficient_permissions, missing_claims, owner_or_admin,
    parse_document_id, parse_document_types, scientific_document, search_result, AssignedNode,
    ScientificDocument, SearchResult,
};
use crate::metadata_server::metadata::public::{first_chrono_second, last_chrono_second};
use crate::status::{status_is, Code, Status};
use crate::text::int_decimal;

verus! {

/// The checks every call about one document starts with: the request
/// carries claims, and the document id reads as a UUID.
pub open spec fn document_call_refusal(claims: Option<Claims>, id_text: Seq<char>) -> Option<
    (Code, Seq<char>),
> {
    if claims is None {
        Some((Code::Internal, missing_claims()))
    } else if uuid_parse(id_text) is None {
        Some((Code::InvalidArgument, "Invalid id format"@))
    } else {
        None
    }
}

fn check_document_call(claims: Option<Claims>, id_text: &String) -> (r: Result<(Claims, u128), Status>)
    ensures
        document_call_refusal(claims, id_text@) matches Some((c, m)) ==> (r matches Err(s)
            && status_is(s, c, m)),
        document_call_refusal(claims, id_text@) is None ==> (r matches Ok((cl, id)) && cl
            == claims->0 && Some(id) == uuid_parse(id_text@)),
{
    let c = match claims_or_internal(claims) {
        Ok(c) => c,
        Err(s) => return Err(s),
    };
    match parse_document_id(id_text.as_str()) {
        Ok(id) => Ok((c, id)),
        Err(s) => Err(s),
    }
}

/// The answer to "who owns this document" (`None`: no such document, or
/// the query failed): only the owner or an admin goes on.
pub open spec fn owner_refusal(claims: Claims, owner: Option<Seq<char>>) -> Option<(Code, Seq<char>)> {
    match owner {
        None => Some((Code::NotFound, "Nonexistent document"@)),
        Some(o) => if owner_or_admin(claims, o) {
            None
        } else {
            Some((Code::PermissionDenied, insufficient_permissions()))
        },
    }
}

/// Who may act on a document that exists: the user who owns it, and every
/// admin whoever owns it; another plain user is refused for want of
/// permission. A document without an owner on record is refused as
/// nonexistent.
pub proof fn document_owners_act(claims: Claims, owner: Seq<char>)
    ensures
        claims.role == Role::Admin ==> owner_refusal(claims, Some(owner)) is None,
        claims.sub@ == owner ==> owner_refusal(claims, Some(owner)) is None,
        claims.role == Role::User && claims.sub@ != owner ==> owner_refusal(claims, Some(owner))
            == Some((Code::PermissionDenied, "Insufficient permissions to do this operation"@)),
        owner_refusal(claims, None) == Some((Code::NotFound, "Nonexistent document"@)),
{
}

fn nonexistent_document() -> (s: Status)
    ensures
        status_is(s, Code::NotFound, "Nonexistent document"@),
{
    Status::new(Code::NotFound, "Nonexistent document")
}

fn check_owner(claims: &Claims, owner: Option<String>) -> (r: Result<(), Status>)
    ensures
        owner_refusal(
            *claims,
            match owner {
                Some(o) => Some(o@),
                None => None,
            },
        ) matches Some((c, m)) ==> (r matches Err(s) && status_is(s, c, m)),
        owner_refusal(
            *claims,
            match owner {
                Some(o) => Some(o@),
                None => None,
            },
        ) is None ==> r is Ok,
{
    match owner {
        None => Err(nonexistent_document()),
        Some(o) => authorize_owner(claims, &o),
    }
}

/// The owner's name as the lookup answered it.
pub open spec fn owner_view(owner: Option<String>) -> Option<Seq<char>> {
    match owner {
        Some(o) => Some(o@),
        None => None,
    }
}

// ------------------------------------------------------------ download node

/// A download request, waiting for the document's owner.
pub struct DownloadNodeOwner {
    claims: Claims,
    document_id: u128,
}

/// A download the caller may make, waiting for the node that stores the
/// document.
pub struct DownloadNodeLocate {
    document_id: u128,
}

/// Starts looking up the node to download a document from.
pub fn get_download_node(claims: Option<Claims>, request: DownloadNodeRequest) -> (r: Result<
    DownloadNodeOwner,
    Status,
>)
    ensures
        document_call_refusal(claims, request.document_id@) matches Some((c, m)) ==> (
        r matches Err(s) && status_is(s, c, m)),
        document_call_refusal(claims, request.document_id@) is None ==> (r matches Ok(n)
            && n.caller() == claims->0 && Some(n.document()) == uuid_parse(
            request.document_id@,
        )),
{
    match check_document_call(claims, &request.document_id) {
        Ok((c, id)) => Ok(DownloadNodeOwner { claims: c, document_id: id }),
        Err(s) => Err(s),
    }
}

impl DownloadNodeOwner {
    /// Who asks.
    pub closed spec fn caller(&self) -> Claims {
        self.claims
    }

    /// The document asked about.
    pub closed spec fn document(&self) -> u128 {
        self.document_id
    }

    /// The document whose owner to look up.
    pub fn document_id(&self) -> (r: u128)
        ensures
            r == self.document(),
    {
        self.document_id
    }

    /// Takes the document's owner (`None`: no such document, or the query
    /// failed).
    pub fn on_owner(self, owner: Option<String>) -> (r: Result<DownloadNodeLocate, Status>)
        ensures
            owner_refusal(self.caller(), owner_view(owner)) matches Some((c, m)) ==> (
            r matches Err(s) && status_is(s, c, m)),
            owner_refusal(self.caller(), owner_view(owner)) is None ==> (r matches Ok(n)
                && n.document() == self.document()),
    {
        match check_owner(&self.claims, owner) {
            Ok(()) => Ok(DownloadNodeLocate { document_id: self.document_id }),
            Err(s) => Err(s),
        }
    }
}

impl DownloadNodeLocate {
    /// The document to download.
    pub closed spec fn document(&self) -> u128 {
        self.document_id
    }

    /// The document whose node to look up.
    pub fn document_id(&self) -> (r: u128)
        ensures
            r == self.document(),
    {
        self.document_id
    }

    /// Takes the address and port of the node storing the document (`None`:
    /// none is recorded, or the query failed).
    pub fn on_node(self, node: Option<(NodeIp, i32)>) -> (r: Result<AssignedNode, Status>)
        ensures
            node is None ==> (r matches Err(s) && status_is(
                s,
                Code::NotFound,
                "Nonexistent document"@,
            )),
            node matches Some((ip, port)) ==> (r matches Ok(a) && a.end_point@ == endpoint_text(
                ip,
                port as int,
            ) && a.operation@ == Seq::<char>::empty()),
    {
        match node {
            None => Err(nonexistent_document()),
            Some((ip, port)) => Ok(download_node(&ip, port)),
        }
    }
}

// ------------------------------------------------------------ deletion

/// A document deletion, waiting for the document's owner.
pub struct DeleteDocumentOwner {
    claims: Claims,
    document_id: u128,
}

/// A document deletion the caller may make, waiting for the node that
/// stores the document.
pub struct DeleteDocumentLocate {
    document_id: u128,
}

/// A document deletion waiting for the document's record to be removed.
pub struct DeleteDocumentRemove {
    document_id: u128,
    node_id: u128,
    endpoint: String,
}

/// A removed document whose file its storage node is to delete.
pub struct DeleteDocumentFile {
    document_id: u128,
    node_id: u128,
    endpoint: String,
}

/// Starts deleting a document.
pub fn delete_document(claims: Option<Claims>, request: DeleteDocumentRequest) -> (r: Result<
    DeleteDocumentOwner,
    Status,
>)
    ensures
        document_call_refusal(claims, request.document_id@) matches Some((c, m)) ==> (
        r matches Err(s) && status_is(s, c, m)),
        document_call_refusal(claims, request.document_id@) is None ==> (r matches Ok(n)
            && n.caller() == claims->0 && Some(n.document()) == uuid_parse(
            request.document_id@,
        )),
{
    match check_document_call(claims, &request.document_id) {
        Ok((c, id)) => Ok(DeleteDocumentOwner { claims: c, document_id: id }),
        Err(s) => Err(s),
    }
}

impl DeleteDocumentOwner {
    /// Who asks.
    pub closed spec fn caller(&self) -> Claims {
        self.claims
    }

    /// The document to delete.
    pub closed spec fn document(&self) -> u128 {
        self.document_id
    }

    /// The document whose owner to look up.
    pub fn document_id(&self) -> (r: u128)
        ensures
            r == self.document(),
    {
        self.document_id
    }

    /// Takes the document's owner (`None`: no such document, or the query
    /// failed).
    pub fn on_owner(self, owner: Option<String>) -> (r: Result<DeleteDocumentLocate, Status>)
        ensures
            owner_refusal(self.caller(), owner_view(owner)) matches Some((c, m)) ==> (
            r matches Err(s) && status_is(s, c, m)),
            owner_refusal(self.caller(), owner_view(owner)) is None ==> (r matches Ok(n)
                && n.document() == self.document()),
    {
        match check_owner(&self.claims, owner) {
            Ok(()) => Ok(DeleteDocumentLocate { document_id: self.document_id }),
            Err(s) => Err(s),
        }
    }
}

impl DeleteDocumentLocate {
    /// The document to delete.
    pub closed spec fn document(&self) -> u128 {
        self.document_id
    }

    /// The document whose node to look up.
    pub fn document_id(&self) -> (r: u128)
        ensures
            r == self.document(),
    {
        self.document_id
    }

    /// Takes the id, address and port of the node storing the document
    /// (`None`: none is recorded, or the query failed).
    pub fn on_node(self, node: Option<(u128, NodeIp, i32)>) -> (r: Result<
        DeleteDocumentRemove,
        Status,
    >)
        ensures
            node is None ==> (r matches Err(s) && status_is(
                s,
                Code::NotFound,
                "Nonexistent document"@,
            )),
            node matches Some((n, ip, port)) ==> (r matches Ok(d) && d.document() == self.document()
                && d.node() == n && d.endpoint() == endpoint_text(ip, port as int)),
    {
        match node {
            None => Err(nonexistent_document()),
            Some((n, ip, port)) => Ok(
                DeleteDocumentRemove {
                    document_id: self.document_id,
                    node_id: n,
                    endpoint: crate::ids::storage_endpoint(&ip, port),
                },
            ),
        }
    }
}

impl DeleteDocumentRemove {
    /// The document to delete.
    pub closed spec fn document(&self) -> u128 {
        self.document_id
    }

    /// The node storing it.
    pub closed spec fn node(&self) -> u128 {
        self.node_id
    }

    /// The URL of the node storing it.
    pub closed spec fn endpoint(&self) -> Seq<char> {
        self.endpoint@
    }

    /// The document whose record to remove.
    pub fn document_id(&self) -> (r: u128)
        ensures
            r == self.document(),
    {
        self.document_id
    }

    /// Takes whether the record was removed.
    pub fn on_removed(self, removed: bool) -> (r: Result<DeleteDocumentFile, Status>)
        ensures
            !removed ==> (r matches Err(s) && status_is(s, Code::NotFound, "Nonexistent document"@)),
            removed ==> (r matches Ok(f) && f.document() == self.document() && f.node()
                == self.node() && f.endpoint() == self.endpoint()),
    {
        if !removed {
            return Err(nonexistent_document());
        }
        Ok(
            DeleteDocumentFile {
                document_id: self.document_id,
                node_id: self.node_id,
                endpoint: self.endpoint,
            },
        )
    }
}

impl DeleteDocumentFile {
    /// The deleted document.
    pub closed spec fn document(&self) -> u128 {
        self.document_id
    }

    /// The node storing its file.
    pub closed spec fn node(&self) -> u128 {
        self.node_id
    }

    /// The URL of that node.
    pub closed spec fn endpoint(&self) -> Seq<char> {
        self.endpoint@
    }

    /// The URL of the node to ask.
    pub fn endpoint_url(&self) -> (r: &str)
        ensures
            r@ == self.endpoint(),
    {
        self.endpoint.as_str()
    }

    /// The name of the file to delete there: the document id's text.
    pub fn file_id(&self) -> (r: String)
        ensures
            r@ == uuid_text(self.document() as nat),
    {
        let ids = file_ids(&vec![self.document_id]);
        ids[0].clone()
    }

    /// After contacting the node: an unreachable node's file is recorded as
    /// a failed deletion. Either way the deletion succeeds.
    pub fn on_contact(self, reached: bool) -> (r: Option<FailedDeletion>)
        ensures
            reached ==> r is None,
            !reached ==> (r matches Some(f) && f.node_id == self.node() && f.document_ids@ == seq![
                self.document(),
            ]),
    {
        if reached {
            None
        } else {
            Some(FailedDeletion { node_id: self.node_id, document_ids: vec![self.document_id] })
        }
    }
}

// ------------------------------------------------------------ reading

/// A document read, waiting for who posted the document.
pub struct ScientificDocumentOwner {
    claims: Claims,
    document_id: u128,
}

/// A document read the caller may make, waiting for the document's record.
pub struct ScientificDocumentRead {
    document_id: u128,
}

/// Starts reading a document.
pub fn get_scientific_document(claims: Option<Claims>, request: ScientificDocumentRequest) -> (r:
    Result<ScientificDocumentOwner, Status>)
    ensures
        document_call_refusal(claims, request.document_id@) matches Some((c, m)) ==> (
        r matches Err(s) && status_is(s, c, m)),
        document_call_refusal(claims, request.document_id@) is None ==> (r matches Ok(n)
            && n.caller() == claims->0 && Some(n.document()) == uuid_parse(
            request.document_id@,
        )),
{
    match check_document_call(claims, &request.document_id) {
        Ok((c, id)) => Ok(ScientificDocumentOwner { claims: c, document_id: id }),
        Err(s) => Err(s),
    }
}

/// Who may read a document whose poster the lookup gave (`None`: no such
/// document, or the query failed).
pub open spec fn poster_refusal(claims: Claims, poster: Option<Seq<char>>) -> Option<(Code, Seq<char>)> {
    match poster {
        None => Some((Code::Aborted, "Nonexistent document"@)),
        Some(p) => if owner_or_admin(claims, p) {
            None
        } else {
            Some((Code::PermissionDenied, insufficient_permissions()))
        },
    }
}

/// Who may read a document that exists: the user who posted it, and every
/// admin whoever posted it; any other user is refused for want of
/// permission. A document that does not exist is refused as such.
pub proof fn document_readers(claims: Claims, poster: Seq<char>)
    ensures
        claims.role == Role::Admin ==> poster_refusal(claims, Some(poster)) is None,
        claims.sub@ == poster ==> poster_refusal(claims, Some(poster)) is None,
        claims.role == Role::User && claims.sub@ != poster ==> poster_refusal(claims, Some(poster))
            == Some((Code::PermissionDenied, "Insufficient permissions to do this operation"@)),
        poster_refusal(claims, None) == Some((Code::Aborted, "Nonexistent document"@)),
{
}

impl ScientificDocumentOwner {
    /// Who asks.
    pub closed spec fn caller(&self) -> Claims {
        self.claims
    }

    /// The document to read.
    pub closed spec fn document(&self) -> u128 {
        self.document_id
    }

    /// The document whose poster to look up.
    pub fn document_id(&self) -> (r: u128)
        ensures
            r == self.document(),
    {
        self.document_id
    }

    /// Takes who posted the document.
    pub fn on_poster(self, poster: Option<String>) -> (r: Result<ScientificDocumentRead, Status>)
        ensures
            poster_refusal(self.caller(), owner_view(poster)) matches Some((c, m)) ==> (
            r matches Err(s) && status_is(s, c, m)),
            poster_refusal(self.caller(), owner_view(poster)) is None ==> (r matches Ok(n)
                && n.document() == self.document()),
    {
        match poster {
            None => Err(Status::new(Code::Aborted, "Nonexistent document")),
            Some(p) => match authorize_owner(&self.claims, &p) {
                Ok(()) => Ok(ScientificDocumentRead { document_id: self.document_id }),
                Err(s) => Err(s),
            },
        }
    }
}

/// `d` answers with the document record `row`.
pub open spec fn answers_document(row: ScientificDocumentRow, d: ScientificDocument) -> bool {
    &&& d.posted_by == row.posted_by
    &&& d.title == row.title
    &&& d.authors == row.authors
    &&& d.abstract_text == row.abstract_text
    &&& d.keywords == row.keywords
    &&& d.topics == row.topics
    &&& d.sub_topics == row.sub_topics
    &&& d.document_type as int == document_type_number(row.document_type)
    &&& d.publication_date == row.publication_date
    &&& d.language == row.language
}

impl ScientificDocumentRead {
    /// The document to read.
    pub closed spec fn document(&self) -> u128 {
        self.document_id
    }

    /// The document whose record to read.
    pub fn document_id(&self) -> (r: u128)
        ensures
            r == self.document(),
    {
        self.document_id
    }

    /// Takes the document's record, or the text of the query's error.
    pub fn on_row(self, row: Result<ScientificDocumentRow, String>) -> (r: Result<
        ScientificDocument,
        Status,
    >)
        ensures
            row matches Err(e) ==> (r matches Err(s) && status_is(s, Code::Aborted, e@)),
            row matches Ok(rw) ==> (r matches Ok(d) && answers_document(rw, d)),
    {
        match row {
            Err(e) => Err(Status::with_message(Code::Aborted, e)),
            Ok(rw) => Ok(scientific_document(rw)),
        }
    }
}

// ------------------------------------------------------------ search

/// A date bound of a search: the instant when `chrono` can hold it.
pub open spec fn date_bound(secs: int) -> Option<int> {
    if first_chrono_second() <= secs <= last_chrono_second() {
        Some(secs)
    } else {
        None
    }
}

/// `DateTime::<Utc>::from_timestamp_secs(secs).is_some()`. Claimed: it
/// holds exactly for the seconds `chrono` can represent (the function
/// returns `None` out of that range).
#[verifier::external_body]
fn timestamp_fits(secs: i64) -> (r: bool)
    ensures
        r == (first_chrono_second() <= secs <= last_chrono_second()),
{
    chrono::DateTime::<chrono::Utc>::from_timestamp_secs(secs).is_some()
}

fn date_bound_of(secs: i64) -> (r: Option<i64>)
    ensures
        match date_bound(secs as int) {
            Some(d) => r == Some(d as i64),
            None => r is None,
        },
{
    if timestamp_fits(secs) {
        Some(secs)
    } else {
        None
    }
}

/// The filters of a search as the database query takes them. A missing
/// pattern or date bound, or an empty list, filters nothing.
#[derive(Debug)]
pub struct SearchQuery {
    /// An admin sees every document, others only their own.
    pub is_admin: bool,
    pub user: String,
    pub pattern: Option<String>,
    pub search_kind: i32,
    pub content: String,
    pub topics: Vec<i32>,
    pub sub_topics: Vec<i32>,
    pub document_types: Vec<DocumentType>,
    pub languages: Vec<String>,
    pub start_date: Option<i64>,
    pub end_date: Option<i64>,
}

/// The query of a search by `claims` for `request`, whose document types
/// are `types`.
pub open spec fn query_of(claims: Claims, request: SearchRequest, q: SearchQuery) -> bool {
    &&& q.is_admin == (claims.role == Role::Admin)
    &&& q.user == claims.sub
    &&& (request.content@.len() == 0 ==> q.pattern is None)
    &&& (request.content@.len() > 0 ==> (q.pattern matches Some(p) && p@ == seq!['%']
        + request.content@ + seq!['%']))
    &&& q.search_kind == request.search_kind
    &&& q.content == request.content
    &&& q.topics == request.topics
    &&& q.sub_topics == request.sub_topics
    &&& q.languages == request.languages
    &&& q.document_types@.len() == request.document_types@.len()
    &&& (forall|i: int|
        0 <= i < request.document_types@.len() ==> document_type_of_number(
            request.document_types@[i] as int,
        ) == Some(#[trigger] q.document_types@[i]))
    &&& (match date_bound(request.start_date as int) {
        Some(d) => q.start_date == Some(d as i64),
        None => q.start_date is None,
    })
    &&& (match date_bound(request.end_date as int) {
        Some(d) => q.end_date == Some(d as i64),
        None => q.end_date is None,
    })
}

/// Reads a search request: only an authenticated caller may search, and
/// every document type must be known (the first unknown one is reported).
pub fn search_documents(claims: Option<Claims>, request: SearchRequest) -> (r: Result<
    SearchQuery,
    Status,
>)
    ensures
        claims is None ==> (r matches Err(s) && status_is(s, Code::Unauthenticated, missing_claims())),
        claims is Some && (forall|i: int|
            0 <= i < request.document_types@.len() ==> (#[trigger] document_type_of_number(
                request.document_types@[i] as int,
            )) is Some) ==> (r matches Ok(q) && query_of(claims->0, request, q)),
        claims is Some ==> (r matches Err(s) ==> exists|k: int|
            0 <= k < request.document_types@.len() && (#[trigger] document_type_of_number(
                request.document_types@[k] as int,
            )) is None && (forall|i: int|
                0 <= i < k ==> (#[trigger] document_type_of_number(
                    request.document_types@[i] as int,
                )) is Some) && status_is(
                s,
                Code::InvalidArgument,
                "Invalid scope value "@ + int_decimal(request.document_types@[k] as int),
            )),
        r matches Ok(q) ==> query_of(claims->0, request, q),
{
    let claims = match claims_or_unauthenticated(claims) {
        Ok(c) => c,
        Err(s) => return Err(s),
    };
    let is_admin = claims.role == Role::Admin;
    let document_types = match parse_document_types(&request.document_types) {
        Ok(ts) => ts,
        Err(s) => return Err(s),
    };
    let start_date = date_bound_of(request.start_date);
    let end_date = date_bound_of(request.end_date);
    let pattern = content_pattern(request.content.as_str());
    Ok(
        SearchQuery {
            is_admin,
            user: claims.sub,
            pattern,
            search_kind: request.search_kind,
            content: request.content,
            topics: request.topics,
            sub_topics: request.sub_topics,
            document_types,
            languages: request.languages,
            start_date,
            end_date,
        },
    )
}

/// A search filters by what its request asks and by who asks: the query's
/// topic filter is the request's topics and its subtopic filter the
/// request's subtopics, its languages, content and kind are the request's,
/// every requested document type is kept in order (by its wire number), a
/// non-empty content is searched as `%content%`, a date bound is kept when
/// `chrono` can hold it, and the search is limited to the caller's own
/// documents unless the caller is an admin.
pub proof fn search_query_follows_request(claims: Claims, request: SearchRequest, q: SearchQuery)
    requires
        query_of(claims, request, q),
    ensures
        q.topics@ == request.topics@,
        q.sub_topics@ == request.sub_topics@,
        q.languages@ == request.languages@,
        q.content@ == request.content@,
        q.search_kind == request.search_kind,
        q.user@ == claims.sub@,
        q.is_admin <==> claims.role == Role::Admin,
        q.document_types@.len() == request.document_types@.len(),
        forall|i: int|
            0 <= i < request.document_types@.len() ==> document_type_number(
                #[trigger] q.document_types@[i],
            ) == request.document_types@[i],
        request.content@.len() == 0 ==> q.pattern is None,
        request.content@.len() > 0 ==> (q.pattern matches Some(p) && p@ == "%"@ + request.content@
            + "%"@),
        q.start_date == (if -8334601228800 <= request.start_date <= 8210266876799 {
            Some(request.start_date)
        } else {
            None
        }),
        q.end_date == (if -8334601228800 <= request.end_date <= 8210266876799 {
            Some(request.end_date)
        } else {
            None
        }),
{
    reveal_strlit("%");
    assert forall|i: int| 0 <= i < request.document_types@.len() implies document_type_number(
        #[trigger] q.document_types@[i],
    ) == request.document_types@[i] by {
        document_type_number_round_trip(q.document_types@[i], request.document_types@[i] as int);
    }
}

/// `r` answers with the document found as `row`.
pub open spec fn answers_row(row: SearchResultRow, r: SearchResult) -> bool {
    &&& r.id@ == uuid_text(row.id as nat)
    &&& r.posted_by == row.posted_by
    &&& r.title == row.title
    &&& r.document_type as int == document_type_number(row.document_type)
    &&& r.publication_date == row.publication_date
    &&& r.language == row.language
}

/// The answer to a search, from the rows found or the text of the query's
/// error.
pub fn search_answer(rows: Result<Vec<SearchResultRow>, String>) -> (r: Result<
    Vec<SearchResult>,
    Status,
>)
    ensures
        rows matches Err(e) ==> (r matches Err(s) && status_is(s, Code::Internal, e@)),
        rows matches Ok(found) ==> (r matches Ok(results) && results@.len() == found@.len()
            && forall|i: int|
            0 <= i < found@.len() ==> answers_row(found@[i], #[trigger] results@[i])),
{
    let mut rows = match rows {
        Err(e) => return Err(Status::with_message(Code::Internal, e)),
        Ok(found) => found,
    };
    let ghost found = rows@;
    let mut results: Vec<SearchResult> = Vec::new();
    while rows.len() > 0
        invariant
            results@.len() + rows@.len() == found.len(),
            rows@ == found.subrange(results@.len() as int, found.len() as int),
            forall|i: int| 0 <= i < results@.len() ==> answers_row(found[i], #[trigger] results@[i]),
        decreases rows@.len(),
    {
        let row = rows.remove(0);
        assert(row == found[results@.len() as int]);
        results.push(search_result(row));
        assert(rows@ =~= found.subrange(results@.len() as int, found.len() as int));
    }
    Ok(results)
}

} // verus!
