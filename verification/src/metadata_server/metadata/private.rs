use vstd::prelude::*;
use crate::common::auth::{argon2_verifies, verify_password_hash};
use crate::common::types::jwt_types::{Claims, Role};
use crate::common::types::sql_types::{
    document_type_number, document_type_of_number, scope_of_number, DocumentType,
    ScientificDocumentRow, Scope, SearchResultRow,
};
use crate::ids::{
    endpoint_text, parse_uuid, storage_endpoint, uuid_parse, uuid_text, uuid_to_string, NodeIp,
};
use crate::status::{status_is, Code, Status};
use crate::text::{decimal_string, int_decimal};

verus! {

/// Where one of a user's documents is stored: the storage node's id and
/// address, and the document's id.
#[derive(Clone, Debug)]
pub struct DocumentLocation {
    pub node_id: u128,
    pub ip: NodeIp,
    pub port: i32,
    pub document_id: u128,
}

/// The documents to delete from one storage node, reached at `endpoint`.
#[derive(Debug)]
pub struct NodeDeletion {
    pub node_id: u128,
    pub endpoint: String,
    pub document_ids: Vec<u128>,
}

/// The storage node a location names: its id and the URL it serves at.
pub open spec fn location_key(l: DocumentLocation) -> (u128, Seq<char>) {
    (l.node_id, endpoint_text(l.ip, l.port as int))
}

/// The ids of the documents of `ls` stored at the node `key`, in order.
pub open spec fn documents_at(ls: Seq<DocumentLocation>, key: (u128, Seq<char>)) -> Seq<u128>
    decreases ls.len(),
{
    if ls.len() == 0 {
        seq![]
    } else if location_key(ls.last()) == key {
        documents_at(ls.drop_last(), key).push(ls.last().document_id)
    } else {
        documents_at(ls.drop_last(), key)
    }
}

/// The node a deletion group is for.
pub open spec fn group_key(g: NodeDeletion) -> (u128, Seq<char>) {
    (g.node_id, g.endpoint@)
}

/// `groups` gathers the documents of `ls` by storage node: one group per
/// node, each node of `ls` has its group, and each group lists exactly that
/// node's documents in their order in `ls`.
pub open spec fn grouped_by_node(ls: Seq<DocumentLocation>, groups: Seq<NodeDeletion>) -> bool {
    &&& forall|i: int, j: int|
        0 <= i < j < groups.len() ==> group_key(#[trigger] groups[i]) != group_key(
            #[trigger] groups[j],
        )
    &&& forall|i: int|
        0 <= i < groups.len() ==> (#[trigger] groups[i]).document_ids@ == documents_at(
            ls,
            group_key(groups[i]),
        )
    &&& forall|k: int| 0 <= k < ls.len() ==> has_group(groups, location_key(#[trigger] ls[k]))
}

/// Some group of `groups` is for the node `key`.
pub open spec fn has_group(groups: Seq<NodeDeletion>, key: (u128, Seq<char>)) -> bool {
    exists|i: int| 0 <= i < groups.len() && group_key(#[trigger] groups[i]) == key
}

proof fn documents_at_nonempty(ls: Seq<DocumentLocation>, k: int)
    requires
        0 <= k < ls.len(),
    ensures
        documents_at(ls, location_key(ls[k])).len() > 0,
    decreases ls.len(),
{
    if k < ls.len() - 1 {
        documents_at_nonempty(ls.drop_last(), k);
        assert(ls.drop_last()[k] == ls[k]);
    }
}

/// The node named by the `i`-th entry of a key list.
spec fn key_at(keys: Seq<(u128, String)>, i: int) -> (u128, Seq<char>) {
    (keys[i].0, keys[i].1@)
}

spec fn keys_distinct(keys: Seq<(u128, String)>) -> bool {
    forall|i: int, j: int|
        0 <= i < j < keys.len() ==> #[trigger] key_at(keys, i) != #[trigger] key_at(keys, j)
}

/// Every key names the node of some location.
spec fn keys_from(ls: Seq<DocumentLocation>, keys: Seq<(u128, String)>) -> bool {
    forall|i: int|
        0 <= i < keys.len() ==> exists|j: int|
            0 <= j < ls.len() && location_key(ls[j]) == #[trigger] key_at(keys, i)
}

/// The node of each of the first `k` locations has a key.
spec fn keys_cover(ls: Seq<DocumentLocation>, keys: Seq<(u128, String)>, k: int) -> bool {
    forall|j: int|
        0 <= j < k ==> exists|i: int|
            0 <= i < keys.len() && #[trigger] location_key(ls[j]) == key_at(keys, i)
}

spec fn endpoints_of(ls: Seq<DocumentLocation>, endpoints: Seq<String>) -> bool {
    &&& endpoints.len() == ls.len()
    &&& forall|j: int|
        0 <= j < ls.len() ==> (#[trigger] endpoints[j])@ == endpoint_text(ls[j].ip, ls[j].port as int)
}

/// The URL of each location's storage node.
fn endpoints_of_locations(locations: &Vec<DocumentLocation>) -> (r: Vec<String>)
    ensures
        endpoints_of(locations@, r@),
{
    let mut endpoints: Vec<String> = Vec::new();
    let mut k: usize = 0;
    while k < locations.len()
        invariant
            k <= locations@.len(),
            endpoints@.len() == k,
            forall|j: int|
                0 <= j < k ==> (#[trigger] endpoints@[j])@ == endpoint_text(
                    locations@[j].ip,
                    locations@[j].port as int,
                ),
        decreases locations@.len() - k,
    {
        endpoints.push(storage_endpoint(&locations[k].ip, locations[k].port));
        k = k + 1;
    }
    endpoints
}

/// Whether `keys` holds the node `(node, endpoint)`.
fn has_key(keys: &Vec<(u128, String)>, node: u128, endpoint: &String) -> (r: bool)
    ensures
        r <==> exists|i: int| 0 <= i < keys@.len() && #[trigger] key_at(keys@, i) == (
            node,
            endpoint@,
        ),
{
    let mut i: usize = 0;
    while i < keys.len()
        invariant
            i <= keys@.len(),
            forall|m: int| 0 <= m < i ==> #[trigger] key_at(keys@, m) != (node, endpoint@),
        decreases keys@.len() - i,
    {
        if keys[i].0 == node && keys[i].1 == *endpoint {
            assert(key_at(keys@, i as int) == (node, endpoint@));
            return true;
        }
        i = i + 1;
    }
    false
}

/// The distinct storage nodes of the locations, in order of first appearance.
fn distinct_nodes(locations: &Vec<DocumentLocation>, endpoints: &Vec<String>) -> (keys: Vec<
    (u128, String),
>)
    requires
        endpoints_of(locations@, endpoints@),
    ensures
        keys_distinct(keys@),
        keys_from(locations@, keys@),
        keys_cover(locations@, keys@, locations@.len() as int),
{
    let mut keys: Vec<(u128, String)> = Vec::new();
    let mut k: usize = 0;
    while k < locations.len()
        invariant
            k <= locations@.len(),
            endpoints_of(locations@, endpoints@),
            keys_distinct(keys@),
            keys_from(locations@, keys@),
            keys_cover(locations@, keys@, k as int),
        decreases locations@.len() - k,
    {
        let node = locations[k].node_id;
        assert(location_key(locations@[k as int]) == (node, endpoints@[k as int]@));
        if !has_key(&keys, node, &endpoints[k]) {
            let ghost old_keys = keys@;
            let endpoint = endpoints[k].clone();
            keys.push((node, endpoint));
            assert(key_at(keys@, old_keys.len() as int) == (node, endpoints@[k as int]@));
            assert forall|i: int| 0 <= i < old_keys.len() implies #[trigger] key_at(keys@, i)
                == key_at(old_keys, i) by {
                assert(keys@[i] == old_keys[i]);
            }
            assert(keys_distinct(keys@));
            assert(keys_from(locations@, keys@)) by {
                assert forall|i: int| 0 <= i < keys@.len() implies exists|j: int|
                    0 <= j < locations@.len() && location_key(locations@[j]) == #[trigger] key_at(
                        keys@,
                        i,
                    ) by {
                    if i < old_keys.len() {
                        assert(key_at(keys@, i) == key_at(old_keys, i));
                    } else {
                        assert(location_key(locations@[k as int]) == key_at(keys@, i));
                    }
                }
            }
            assert(keys_cover(locations@, keys@, k + 1)) by {
                assert forall|j: int| 0 <= j < k + 1 implies exists|i: int|
                    0 <= i < keys@.len() && #[trigger] location_key(locations@[j]) == key_at(
                        keys@,
                        i,
                    ) by {
                    if j < k {
                        assert(location_key(locations@[j]) == location_key(locations@[j]));
                        let i0 = choose|i: int|
                            0 <= i < old_keys.len() && location_key(locations@[j])
                                == #[trigger] key_at(old_keys, i);
                        assert(key_at(keys@, i0) == key_at(old_keys, i0));
                    } else {
                        assert(location_key(locations@[j]) == key_at(
                            keys@,
                            old_keys.len() as int,
                        ));
                    }
                }
            }
        }
        k = k + 1;
    }
    keys
}

/// The ids of the documents stored at node `key`.
fn documents_of_node(
    locations: &Vec<DocumentLocation>,
    endpoints: &Vec<String>,
    node: u128,
    endpoint: &String,
) -> (docs: Vec<u128>)
    requires
        endpoints_of(locations@, endpoints@),
    ensures
        docs@ == documents_at(locations@, (node, endpoint@)),
{
    let mut docs: Vec<u128> = Vec::new();
    let mut k: usize = 0;
    while k < locations.len()
        invariant
            k <= locations@.len(),
            endpoints_of(locations@, endpoints@),
            docs@ == documents_at(locations@.take(k as int), (node, endpoint@)),
        decreases locations@.len() - k,
    {
        assert(locations@.take(k + 1).drop_last() =~= locations@.take(k as int));
        assert(locations@.take(k + 1).last() == locations@[k as int]);
        assert(location_key(locations@[k as int]) == (locations@[k as int].node_id, endpoints@[k as int]@));
        if locations[k].node_id == node && endpoints[k] == *endpoint {
            docs.push(locations[k].document_id);
        }
        k = k + 1;
    }
    assert(locations@.take(locations@.len() as int) =~= locations@);
    docs
}

/// Gathers a user's documents by the storage node that holds them, so that
/// each node is asked once to delete all of them. Nodes come in the order in
/// which they first appear.
pub fn group_by_storage_node(locations: &Vec<DocumentLocation>) -> (groups: Vec<NodeDeletion>)
    ensures
        grouped_by_node(locations@, groups@),
        forall|i: int|
            0 <= i < groups@.len() ==> (#[trigger] groups@[i]).document_ids@.len() > 0,
{
    let endpoints = endpoints_of_locations(locations);
    let keys = distinct_nodes(locations, &endpoints);
    let mut groups: Vec<NodeDeletion> = Vec::new();
    let mut g: usize = 0;
    while g < keys.len()
        invariant
            g <= keys@.len(),
            endpoints_of(locations@, endpoints@),
            keys_distinct(keys@),
            keys_from(locations@, keys@),
            keys_cover(locations@, keys@, locations@.len() as int),
            groups@.len() == g,
            forall|i: int| 0 <= i < g ==> group_key(#[trigger] groups@[i]) == key_at(keys@, i),
            forall|i: int|
                0 <= i < g ==> (#[trigger] groups@[i]).document_ids@ == documents_at(
                    locations@,
                    group_key(groups@[i]),
                ),
        decreases keys@.len() - g,
    {
        let node = keys[g].0;
        let docs = documents_of_node(locations, &endpoints, node, &keys[g].1);
        let endpoint = keys[g].1.clone();
        groups.push(NodeDeletion { node_id: node, endpoint, document_ids: docs });
        g = g + 1;
    }
    assert forall|i: int, j: int| 0 <= i < j < groups@.len() implies group_key(
        #[trigger] groups@[i],
    ) != group_key(#[trigger] groups@[j]) by {
        assert(key_at(keys@, i) != key_at(keys@, j));
    }
    assert forall|k: int| 0 <= k < locations@.len() implies has_group(
        groups@,
        location_key(#[trigger] locations@[k]),
    ) by {
        assert(keys_cover(locations@, keys@, locations@.len() as int));
        assert(location_key(locations@[k]) == location_key(locations@[k]));
        let i0 = choose|i: int|
            0 <= i < keys@.len() && location_key(locations@[k]) == #[trigger] key_at(keys@, i);
        assert(group_key(groups@[i0]) == key_at(keys@, i0));
    }
    assert forall|i: int| 0 <= i < groups@.len() implies (
    #[trigger] groups@[i]).document_ids@.len() > 0 by {
        assert(group_key(groups@[i]) == key_at(keys@, i));
        let j = choose|j: int|
            0 <= j < locations@.len() && location_key(locations@[j]) == #[trigger] key_at(
                keys@,
                i,
            );
        documents_at_nonempty(locations@, j);
    }
    groups
}

/// The text form of each document id, as the storage node's delete request
/// carries them.
pub fn file_ids(document_ids: &Vec<u128>) -> (r: Vec<String>)
    ensures
        r@.len() == document_ids@.len(),
        forall|i: int|
            0 <= i < r@.len() ==> (#[trigger] r@[i])@ == uuid_text(document_ids@[i] as nat),
{
    let mut out: Vec<String> = Vec::new();
    for i in 0..document_ids.len()
        invariant
            out@.len() == i,
            forall|j: int|
                0 <= j < i ==> (#[trigger] out@[j])@ == uuid_text(document_ids@[j] as nat),
    {
        out.push(uuid_to_string(document_ids[i]));
    }
    out
}

/// The text of the refusal for a caller that may not act on a resource.
pub open spec fn insufficient_permissions() -> Seq<char> {
    "Insufficient permissions to do this operation"@
}

/// The text of the refusal for a request that reached a handler without claims.
pub open spec fn missing_claims() -> Seq<char> {
    "Authentication failure: Missing a required request extension \"jwt_claims"@
}

fn permission_denied() -> (s: Status)
    ensures
        status_is(s, Code::PermissionDenied, insufficient_permissions()),
{
    Status::new(Code::PermissionDenied, "Insufficient permissions to do this operation")
}

/// The claims the authentication layer attached to the request; without
/// them the handler answers with an internal error.
pub fn claims_or_internal(claims: Option<Claims>) -> (r: Result<Claims, Status>)
    ensures
        claims matches Some(c) ==> r == Ok::<Claims, Status>(c),
        claims is None ==> (r matches Err(s) && status_is(s, Code::Internal, missing_claims())),
{
    match claims {
        Some(c) => Ok(c),
        None => Err(
            Status::new(
                Code::Internal,
                "Authentication failure: Missing a required request extension \"jwt_claims",
            ),
        ),
    }
}

/// As `claims_or_internal`, for the search call, which answers a missing
/// extension as unauthenticated.
pub fn claims_or_unauthenticated(claims: Option<Claims>) -> (r: Result<Claims, Status>)
    ensures
        claims matches Some(c) ==> r == Ok::<Claims, Status>(c),
        claims is None ==> (r matches Err(s) && status_is(
            s,
            Code::Unauthenticated,
            missing_claims(),
        )),
{
    match claims {
        Some(c) => Ok(c),
        None => Err(
            Status::new(
                Code::Unauthenticated,
                "Authentication failure: Missing a required request extension \"jwt_claims",
            ),
        ),
    }
}

/// The caller may act on what belongs to `owner`: it is `owner`, or an admin.
pub open spec fn owner_or_admin(claims: Claims, owner: Seq<char>) -> bool {
    claims.sub@ == owner || claims.role == Role::Admin
}

/// An admin may act on what belongs to anyone; a plain user only on what is
/// its own.
pub proof fn owners_and_admins_act(claims: Claims, owner: Seq<char>)
    ensures
        claims.role == Role::Admin ==> owner_or_admin(claims, owner),
        claims.role == Role::User ==> (owner_or_admin(claims, owner) <==> claims.sub@ == owner),
{
}

/// Lets a caller act on an account or a document only when it is the owner
/// or an admin.
pub fn authorize_owner(claims: &Claims, owner: &String) -> (r: Result<(), Status>)
    ensures
        owner_or_admin(*claims, owner@) ==> r is Ok,
        !owner_or_admin(*claims, owner@) ==> (r matches Err(s) && status_is(
            s,
            Code::PermissionDenied,
            insufficient_permissions(),
        )),
{
    if !(claims.sub == *owner || claims.role == Role::Admin) {
        return Err(permission_denied());
    }
    Ok(())
}

/// Refuses a call about an account that does not exist.
pub fn require_existing_user(exists: bool) -> (r: Result<(), Status>)
    ensures
        exists ==> r is Ok,
        !exists ==> (r matches Err(s) && status_is(s, Code::NotFound, "Nonexistent user"@)),
{
    if !exists {
        return Err(Status::new(Code::NotFound, "Nonexistent user"));
    }
    Ok(())
}

/// A password change by a plain user must prove the current password;
/// admins may reset any password.
pub fn needs_current_password(claims: &Claims) -> (r: bool)
    ensures
        r == (claims.role == Role::User),
{
    claims.role == Role::User
}

/// Checks the current password given in a password change against the
/// stored hash.
pub fn check_current_password(current_password: &[u8], stored_hash: &str) -> (r: Result<
    (),
    Status,
>)
    ensures
        argon2_verifies(current_password@, stored_hash@) ==> r is Ok,
        !argon2_verifies(current_password@, stored_hash@) ==> (r matches Err(s) && status_is(
            s,
            Code::PermissionDenied,
            "Invalid user password"@,
        )),
{
    match verify_password_hash(current_password, stored_hash) {
        Ok(()) => Ok(()),
        Err(_) => Err(Status::new(Code::PermissionDenied, "Invalid user password")),
    }
}

/// Reads a document id (a UUID in any of the formats `uuid` parses).
pub fn parse_document_id(document_id: &str) -> (r: Result<u128, Status>)
    ensures
        uuid_parse(document_id@) matches Some(u) ==> r == Ok::<u128, Status>(u),
        uuid_parse(document_id@) is None ==> (r matches Err(s) && status_is(
            s,
            Code::InvalidArgument,
            "Invalid id format"@,
        )),
        forall|u: u128| #[trigger] uuid_text(u as nat) == document_id@ ==> r == Ok::<
            u128,
            Status,
        >(u),
{
    match parse_uuid(document_id) {
        Some(id) => Ok(id),
        None => Err(Status::new(Code::InvalidArgument, "Invalid id format")),
    }
}

/// The storage node assigned to a transfer, and the operation it is for.
#[derive(Debug)]
pub struct AssignedNode {
    pub end_point: String,
    pub operation: String,
}

/// The node from which a document is downloaded; no operation is assigned yet.
pub fn download_node(ip: &NodeIp, port: i32) -> (r: AssignedNode)
    ensures
        r.end_point@ == endpoint_text(*ip, port as int),
        r.operation@ == Seq::<char>::empty(),
{
    AssignedNode { end_point: storage_endpoint(ip, port), operation: String::new() }
}

/// Assigning a node for an upload is not offered: every request is aborted.
pub fn get_upload_node() -> (r: Result<AssignedNode, Status>)
    ensures
        r matches Err(s) && status_is(s, Code::Aborted, "aborted"@),
{
    Err(Status::new(Code::Aborted, "aborted"))
}

/// The caller may remove a topic or subtopic: it created it, or is an admin.
pub open spec fn creator_or_admin(claims: Claims, created_by: Option<Seq<char>>) -> bool {
    created_by == Some(claims.sub@) || claims.role == Role::Admin
}

/// An admin may remove any topic or subtopic, whoever created it and
/// whether or not it has a creator; a plain user only one it created.
pub proof fn topic_removers(claims: Claims, created_by: Option<Seq<char>>)
    ensures
        claims.role == Role::Admin ==> creator_or_admin(claims, created_by),
        claims.role == Role::User ==> (creator_or_admin(claims, created_by) <==> created_by
            == Some(claims.sub@)),
{
}

/// Lets a caller remove a topic or subtopic only when it created it or is
/// an admin (a topic without creator can only be removed by an admin).
pub fn authorize_topic_removal(claims: &Claims, created_by: &Option<String>) -> (r: Result<
    (),
    Status,
>)
    ensures
        creator_or_admin(
            *claims,
            match created_by {
                Some(c) => Some(c@),
                None => None,
            },
        ) ==> r is Ok,
        !creator_or_admin(
            *claims,
            match created_by {
                Some(c) => Some(c@),
                None => None,
            },
        ) ==> (r matches Err(s) && status_is(s, Code::PermissionDenied, insufficient_permissions())),
{
    let is_creator = match created_by {
        Some(c) => *c == claims.sub,
        None => false,
    };
    if !(is_creator || claims.role == Role::Admin) {
        return Err(permission_denied());
    }
    Ok(())
}

/// A topic or a subtopic.
#[derive(Clone, Copy, Debug, PartialEq, Eq, Structural)]
pub enum TopicLevel {
    Topic,
    SubTopic,
}

/// The refusal text for removing a topic or subtopic that documents use.
pub open spec fn related_topic_message(level: TopicLevel) -> Seq<char> {
    match level {
        TopicLevel::Topic => "Unable to delete a document related topic"@,
        TopicLevel::SubTopic => "Unable to delete a document related subtopic"@,
    }
}

/// A plain user may not remove a topic or subtopic that documents use;
/// an admin may.
pub fn check_topic_relations(has_relations: bool, claims: &Claims, level: TopicLevel) -> (r: Result<
    (),
    Status,
>)
    ensures
        !(has_relations && claims.role == Role::User) ==> r is Ok,
        has_relations && claims.role == Role::User ==> (r matches Err(s) && status_is(
            s,
            Code::Aborted,
            related_topic_message(level),
        )),
{
    if has_relations && claims.role == Role::User {
        return match level {
            TopicLevel::Topic => Err(
                Status::new(Code::Aborted, "Unable to delete a document related topic"),
            ),
            TopicLevel::SubTopic => Err(
                Status::new(Code::Aborted, "Unable to delete a document related subtopic"),
            ),
        };
    }
    Ok(())
}

/// Reads the scope of a new topic or subtopic; only admins create global ones.
pub fn authorize_scope(scope: i32, claims: &Claims) -> (r: Result<Scope, Status>)
    ensures
        scope_of_number(scope as int) is None ==> (r matches Err(s) && status_is(
            s,
            Code::InvalidArgument,
            "Invalid scope value "@ + int_decimal(scope as int),
        )),
        scope_of_number(scope as int) matches Some(sc) ==> (if sc == Scope::Global && claims.role
            == Role::User {
            r matches Err(s) && status_is(s, Code::PermissionDenied, insufficient_permissions())
        } else {
            r == Ok::<Scope, Status>(sc)
        }),
{
    let sc = match Scope::try_from(scope) {
        Ok(sc) => sc,
        Err(_) => {
            let mut message = String::new();
            message.append("Invalid scope value ");
            message.append(decimal_string(scope as i64).as_str());
            return Err(Status::with_message(Code::InvalidArgument, message));
        },
    };
    if sc == Scope::Global && claims.role == Role::User {
        return Err(permission_denied());
    }
    Ok(sc)
}

/// The `ILIKE` pattern of a content search: the text between `%` wildcards,
/// or no pattern for an empty text.
pub fn content_pattern(content: &str) -> (r: Option<String>)
    ensures
        content@.len() == 0 ==> r is None,
        content@.len() > 0 ==> (r matches Some(p) && p@ == seq!['%'] + content@ + seq!['%']),
{
    if !content.is_empty() {
        let mut p = String::new();
        p.append("%");
        p.append(content);
        p.append("%");
        proof {
            reveal_strlit("%");
        }
        Some(p)
    } else {
        None
    }
}

/// Reads the document types of a search; the first unknown number refuses
/// the search.
pub fn parse_document_types(values: &Vec<i32>) -> (r: Result<Vec<DocumentType>, Status>)
    ensures
        r matches Ok(ts) ==> ts@.len() == values@.len() && forall|i: int|
            0 <= i < values@.len() ==> document_type_of_number(values@[i] as int) == Some(
                #[trigger] ts@[i],
            ),
        (forall|i: int|
            0 <= i < values@.len() ==> (#[trigger] document_type_of_number(values@[i] as int))
                is Some) ==> r is Ok,
        r matches Err(s) ==> exists|k: int|
            0 <= k < values@.len() && (#[trigger] document_type_of_number(values@[k] as int))
                is None && (forall|i: int|
                0 <= i < k ==> (#[trigger] document_type_of_number(values@[i] as int)) is Some)
                && status_is(
                s,
                Code::InvalidArgument,
                "Invalid scope value "@ + int_decimal(values@[k] as int),
            ),
{
    let mut out: Vec<DocumentType> = Vec::new();
    let mut i: usize = 0;
    while i < values.len()
        invariant
            i <= values@.len(),
            out@.len() == i,
            forall|j: int|
                0 <= j < i ==> document_type_of_number(values@[j] as int) == Some(
                    #[trigger] out@[j],
                ),
        decreases values@.len() - i,
    {
        match DocumentType::try_from(values[i]) {
            Ok(t) => out.push(t),
            Err(_) => {
                let mut message = String::new();
                message.append("Invalid scope value ");
                message.append(decimal_string(values[i] as i64).as_str());
                let s = Status::with_message(Code::InvalidArgument, message);
                assert(forall|j: int|
                    0 <= j < i ==> (#[trigger] document_type_of_number(values@[j] as int)) is Some)
                    by {
                    assert forall|j: int| 0 <= j < i implies (#[trigger] document_type_of_number(
                        values@[j] as int,
                    )) is Some by {
                        assert(document_type_of_number(values@[j] as int) == Some(out@[j]));
                    }
                }
                return Err(s);
            },
        }
        i = i + 1;
    }
    Ok(out)
}

/// One document found by a search, as the search answers it.
#[derive(Debug)]
pub struct SearchResult {
    pub id: String,
    pub posted_by: String,
    pub title: String,
    pub document_type: i32,
    pub publication_date: i64,
    pub language: String,
}

/// The answer entry for a document found by a search.
pub fn search_result(row: SearchResultRow) -> (r: SearchResult)
    ensures
        r.id@ == uuid_text(row.id as nat),
        r.posted_by == row.posted_by,
        r.title == row.title,
        r.document_type as int == document_type_number(row.document_type),
        r.publication_date == row.publication_date,
        r.language == row.language,
{
    SearchResult {
        id: uuid_to_string(row.id),
        posted_by: row.posted_by,
        title: row.title,
        document_type: row.document_type.into(),
        publication_date: row.publication_date,
        language: row.language,
    }
}

/// A scientific document as the metadata service answers it.
#[derive(Debug)]
pub struct ScientificDocument {
    pub posted_by: String,
    pub title: String,
    pub authors: Vec<String>,
    pub abstract_text: String,
    pub keywords: Vec<String>,
    pub topics: Vec<String>,
    pub sub_topics: Vec<String>,
    pub document_type: i32,
    pub publication_date: i64,
    pub language: String,
}

/// The answer for a document read from the database.
pub fn scientific_document(row: ScientificDocumentRow) -> (r: ScientificDocument)
    ensures
        r.posted_by == row.posted_by,
        r.title == row.title,
        r.authors == row.authors,
        r.abstract_text == row.abstract_text,
        r.keywords == row.keywords,
        r.topics == row.topics,
        r.sub_topics == row.sub_topics,
        r.document_type as int == document_type_number(row.document_type),
        r.publication_date == row.publication_date,
        r.language == row.language,
{
    ScientificDocument {
        posted_by: row.posted_by,
        title: row.title,
        authors: row.authors,
        abstract_text: row.abstract_text,
        keywords: row.keywords,
        topics: row.topics,
        sub_topics: row.sub_topics,
        document_type: row.document_type.into(),
        publication_date: row.publication_date,
        language: row.language,
    }
}

/// A topic in an answer: its id and name.
#[derive(Debug)]
pub struct Topic {
    pub topic_id: i32,
    pub topic_name: String,
}

/// A subtopic in an answer: its id and name.
#[derive(Debug)]
pub struct SubTopic {
    pub subtopic_id: i32,
    pub subtopic_name: String,
}

/// The topics of an answer, from `(id, name)` rows, in row order.
pub fn topics_from_rows(rows: &Vec<(i32, String)>) -> (r: Vec<Topic>)
    ensures
        r@.len() == rows@.len(),
        forall|i: int|
            0 <= i < rows@.len() ==> (#[trigger] r@[i]).topic_id == rows@[i].0 && r@[i].topic_name
                == rows@[i].1,
{
    let mut out: Vec<Topic> = Vec::new();
    let mut i: usize = 0;
    while i < rows.len()
        invariant
            i <= rows@.len(),
            out@.len() == i,
            forall|j: int|
                0 <= j < i ==> (#[trigger] out@[j]).topic_id == rows@[j].0 && out@[j].topic_name
                    == rows@[j].1,
        decreases rows@.len() - i,
    {
        out.push(Topic { topic_id: rows[i].0, topic_name: rows[i].1.clone() });
        i = i + 1;
    }
    out
}

/// The subtopics of an answer, from `(id, name)` rows, in row order.
pub fn sub_topics_from_rows(rows: &Vec<(i32, String)>) -> (r: Vec<SubTopic>)
    ensures
        r@.len() == rows@.len(),
        forall|i: int|
            0 <= i < rows@.len() ==> (#[trigger] r@[i]).subtopic_id == rows@[i].0
                && r@[i].subtopic_name == rows@[i].1,
{
    let mut out: Vec<SubTopic> = Vec::new();
    let mut i: usize = 0;
    while i < rows.len()
        invariant
            i <= rows@.len(),
            out@.len() == i,
            forall|j: int|
                0 <= j < i ==> (#[trigger] out@[j]).subtopic_id == rows@[j].0
                    && out@[j].subtopic_name == rows@[j].1,
        decreases rows@.len() - i,
    {
        out.push(SubTopic { subtopic_id: rows[i].0, subtopic_name: rows[i].1.clone() });
        i = i + 1;
    }
    out
}

} // verus!
