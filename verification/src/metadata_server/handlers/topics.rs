//! Creating, deleting and listing topics and subtopics.
use vstd::prelude::*;
use crate::common::types::jwt_types::{Claims, Role};
use crate::common::types::sql_types::{scope_of_number, Scope};
use crate::metadata_server::messages::{
    CreateSubTopicRequest, CreateTopicRequest, DeleteSubTopicRequest, DeleteTopicRequest,
};
use crate::metadata_server::metadata::private::{
    authorize_scope, authorize_topic_removal, check_topic_relations, claims_or_internal,
    creator_or_admin, insufficient_permissions, missing_claims, related_topic_message,
    sub_topics_from_rows, topics_from_rows, SubTopic, Topic, TopicLevel,
};
use crate::status::{status_is, Code, Status};
use crate::text::int_decimal;

verus! {

/// The refusal for a topic or subtopic that already exists.
pub open spec fn duplicate_message(level: TopicLevel) -> Seq<char> {
    match level {
        TopicLevel::Topic => "Topic already exists"@,
        TopicLevel::SubTopic => "Subtopic already exists"@,
    }
}

/// The refusal for a topic or subtopic that does not exist.
pub open spec fn nonexistent_message(level: TopicLevel) -> Seq<char> {
    match level {
        TopicLevel::Topic => "Nonexistent topic"@,
        TopicLevel::SubTopic => "Nonexistent subtopic"@,
    }
}

fn nonexistent(level: TopicLevel) -> (s: Status)
    ensures
        status_is(s, Code::NotFound, nonexistent_message(level)),
{
    match level {
        TopicLevel::Topic => Status::new(Code::NotFound, "Nonexistent topic"),
        TopicLevel::SubTopic => Status::new(Code::NotFound, "Nonexistent subtopic"),
    }
}

/// Why creating a topic or subtopic of scope number `scope` is refused:
/// no claims, an unknown scope, or a plain user asking for a global one.
pub open spec fn creation_refusal(claims: Option<Claims>, scope: int) -> Option<(Code, Seq<char>)> {
    match claims {
        None => Some((Code::Internal, missing_claims())),
        Some(c) => match scope_of_number(scope) {
            None => Some((Code::InvalidArgument, "Invalid scope value "@ + int_decimal(scope))),
            Some(sc) => if sc == Scope::Global && c.role == Role::User {
                Some((Code::PermissionDenied, insufficient_permissions()))
            } else {
                None
            },
        },
    }
}

/// Who may create a topic or subtopic of scope number `scope`: anyone with
/// claims may create a local one (`0`), an admin a global one (`1`) too, and
/// a plain user asking for a global one is refused for want of permission;
/// any other number is refused as an invalid scope.
pub proof fn who_creates_topics(claims: Claims, scope: int)
    ensures
        scope == 0 ==> creation_refusal(Some(claims), scope) is None,
        scope == 1 && claims.role == Role::Admin ==> creation_refusal(Some(claims), scope) is None,
        scope == 1 && claims.role == Role::User ==> creation_refusal(Some(claims), scope) == Some(
            (Code::PermissionDenied, "Insufficient permissions to do this operation"@),
        ),
        scope != 0 && scope != 1 ==> (creation_refusal(Some(claims), scope) matches Some((c, _))
            && c == Code::InvalidArgument),
{
}

/// A topic or subtopic to insert: its name, its creator and its scope.
pub struct TopicInsert {
    level: TopicLevel,
    name: String,
    created_by: String,
    scope: Scope,
}

fn start_creation(claims: Option<Claims>, name: String, scope: i32, level: TopicLevel) -> (r: Result<
    TopicInsert,
    Status,
>)
    ensures
        creation_refusal(claims, scope as int) matches Some((c, m)) ==> (r matches Err(s)
            && status_is(s, c, m)),
        creation_refusal(claims, scope as int) is None ==> (r matches Ok(t) && t.level() == level
            && t.name() == name@ && t.creator() == claims->0.sub@ && Some(t.scope())
            == scope_of_number(scope as int)),
{
    let c = match claims_or_internal(claims) {
        Ok(c) => c,
        Err(s) => return Err(s),
    };
    match authorize_scope(scope, &c) {
        Ok(sc) => Ok(TopicInsert { level, name, created_by: c.sub, scope: sc }),
        Err(s) => Err(s),
    }
}

/// Starts creating a topic.
pub fn create_topic(claims: Option<Claims>, request: CreateTopicRequest) -> (r: Result<
    TopicInsert,
    Status,
>)
    ensures
        creation_refusal(claims, request.scope as int) matches Some((c, m)) ==> (r matches Err(s)
            && status_is(s, c, m)),
        creation_refusal(claims, request.scope as int) is None ==> (r matches Ok(t) && t.level()
            == TopicLevel::Topic && t.name() == request.name@ && t.creator() == claims->0.sub@
            && Some(t.scope()) == scope_of_number(request.scope as int)),
{
    start_creation(claims, request.name, request.scope, TopicLevel::Topic)
}

/// Starts creating a subtopic.
pub fn create_sub_topic(claims: Option<Claims>, request: CreateSubTopicRequest) -> (r: Result<
    TopicInsert,
    Status,
>)
    ensures
        creation_refusal(claims, request.scope as int) matches Some((c, m)) ==> (r matches Err(s)
            && status_is(s, c, m)),
        creation_refusal(claims, request.scope as int) is None ==> (r matches Ok(t) && t.level()
            == TopicLevel::SubTopic && t.name() == request.name@ && t.creator()
            == claims->0.sub@ && Some(t.scope()) == scope_of_number(request.scope as int)),
{
    start_creation(claims, request.name, request.scope, TopicLevel::SubTopic)
}

impl TopicInsert {
    /// Topic or subtopic.
    pub closed spec fn level(&self) -> TopicLevel {
        self.level
    }

    /// The new name.
    pub closed spec fn name(&self) -> Seq<char> {
        self.name@
    }

    /// The creating user.
    pub closed spec fn creator(&self) -> Seq<char> {
        self.created_by@
    }

    /// The scope.
    pub closed spec fn scope(&self) -> Scope {
        self.scope
    }

    /// Whether a topic or a subtopic is inserted.
    pub fn topic_level(&self) -> (r: TopicLevel)
        ensures
            r == self.level(),
    {
        self.level
    }

    /// The new name.
    pub fn topic_name(&self) -> (r: &str)
        ensures
            r@ == self.name(),
    {
        self.name.as_str()
    }

    /// The creating user.
    pub fn created_by(&self) -> (r: &str)
        ensures
            r@ == self.creator(),
    {
        self.created_by.as_str()
    }

    /// The scope.
    pub fn topic_scope(&self) -> (r: Scope)
        ensures
            r == self.scope(),
    {
        self.scope
    }

    /// Takes whether the insertion succeeded; it fails when the name is taken.
    pub fn on_inserted(self, inserted: bool) -> (r: Result<(), Status>)
        ensures
            inserted ==> r is Ok,
            !inserted ==> (r matches Err(s) && status_is(
                s,
                Code::AlreadyExists,
                duplicate_message(self.level()),
            )),
    {
        if inserted {
            return Ok(());
        }
        match self.level {
            TopicLevel::Topic => Err(Status::new(Code::AlreadyExists, "Topic already exists")),
            TopicLevel::SubTopic => Err(Status::new(Code::AlreadyExists, "Subtopic already exists")),
        }
    }
}

/// A topic or subtopic removal, waiting for who created it.
pub struct TopicRemovalCreator {
    level: TopicLevel,
    id: i32,
    claims: Claims,
}

/// A removal the caller may make, waiting for whether documents use the
/// topic or subtopic.
pub struct TopicRemovalRelations {
    level: TopicLevel,
    id: i32,
    claims: Claims,
}

/// A removal to carry out.
pub struct TopicRemoval {
    level: TopicLevel,
    id: i32,
}

fn start_removal(claims: Option<Claims>, id: i32, level: TopicLevel) -> (r: Result<
    TopicRemovalCreator,
    Status,
>)
    ensures
        claims is None ==> (r matches Err(s) && status_is(s, Code::Internal, missing_claims())),
        claims is Some ==> (r matches Ok(t) && t.level() == level && t.id() == id && t.caller()
            == claims->0),
{
    match claims_or_internal(claims) {
        Ok(c) => Ok(TopicRemovalCreator { level, id, claims: c }),
        Err(s) => Err(s),
    }
}

/// Starts deleting a topic.
pub fn delete_topic(claims: Option<Claims>, request: DeleteTopicRequest) -> (r: Result<
    TopicRemovalCreator,
    Status,
>)
    ensures
        claims is None ==> (r matches Err(s) && status_is(s, Code::Internal, missing_claims())),
        claims is Some ==> (r matches Ok(t) && t.level() == TopicLevel::Topic && t.id()
            == request.topic_id && t.caller() == claims->0),
{
    start_removal(claims, request.topic_id, TopicLevel::Topic)
}

/// Starts deleting a subtopic.
pub fn delete_sub_topic(claims: Option<Claims>, request: DeleteSubTopicRequest) -> (r: Result<
    TopicRemovalCreator,
    Status,
>)
    ensures
        claims is None ==> (r matches Err(s) && status_is(s, Code::Internal, missing_claims())),
        claims is Some ==> (r matches Ok(t) && t.level() == TopicLevel::SubTopic && t.id()
            == request.subtopic_id && t.caller() == claims->0),
{
    start_removal(claims, request.subtopic_id, TopicLevel::SubTopic)
}

/// The creator as the lookup answered it.
pub open spec fn creator_view(created_by: Option<String>) -> Option<Seq<char>> {
    match created_by {
        Some(c) => Some(c@),
        None => None,
    }
}

impl TopicRemovalCreator {
    /// Topic or subtopic.
    pub closed spec fn level(&self) -> TopicLevel {
        self.level
    }

    /// Its id.
    pub closed spec fn id(&self) -> i32 {
        self.id
    }

    /// Who asks.
    pub closed spec fn caller(&self) -> Claims {
        self.claims
    }

    /// Whether a topic or a subtopic is removed.
    pub fn topic_level(&self) -> (r: TopicLevel)
        ensures
            r == self.level(),
    {
        self.level
    }

    /// The id to look up.
    pub fn topic_id(&self) -> (r: i32)
        ensures
            r == self.id(),
    {
        self.id
    }

    /// Takes its creator: `None` when there is no such topic or the query
    /// failed, `Some(None)` for one without a creator.
    pub fn on_creator(self, created_by: Option<Option<String>>) -> (r: Result<
        TopicRemovalRelations,
        Status,
    >)
        ensures
            created_by is None ==> (r matches Err(s) && status_is(
                s,
                Code::NotFound,
                nonexistent_message(self.level()),
            )),
            created_by matches Some(cb) && !creator_or_admin(self.caller(), creator_view(cb)) ==> (
            r matches Err(s) && status_is(s, Code::PermissionDenied, insufficient_permissions())),
            created_by matches Some(cb) && creator_or_admin(self.caller(), creator_view(cb)) ==> (
            r matches Ok(t) && t.level() == self.level() && t.id() == self.id() && t.caller()
                == self.caller()),
    {
        let cb = match created_by {
            None => return Err(nonexistent(self.level)),
            Some(cb) => cb,
        };
        match authorize_topic_removal(&self.claims, &cb) {
            Ok(()) => Ok(TopicRemovalRelations { level: self.level, id: self.id, claims: self.claims }),
            Err(s) => Err(s),
        }
    }
}

impl TopicRemovalRelations {
    /// Topic or subtopic.
    pub closed spec fn level(&self) -> TopicLevel {
        self.level
    }

    /// Its id.
    pub closed spec fn id(&self) -> i32 {
        self.id
    }

    /// Who asks.
    pub closed spec fn caller(&self) -> Claims {
        self.claims
    }

    /// Whether a topic or a subtopic is removed.
    pub fn topic_level(&self) -> (r: TopicLevel)
        ensures
            r == self.level(),
    {
        self.level
    }

    /// The id to look up.
    pub fn topic_id(&self) -> (r: i32)
        ensures
            r == self.id(),
    {
        self.id
    }

    /// Takes whether documents use it (`None`: the query failed). A plain
    /// user may not remove one that documents use.
    pub fn on_relations(self, has_relations: Option<bool>) -> (r: Result<TopicRemoval, Status>)
        ensures
            has_relations is None ==> (r matches Err(s) && status_is(
                s,
                Code::NotFound,
                nonexistent_message(self.level()),
            )),
            has_relations == Some(true) && self.caller().role == Role::User ==> (r matches Err(s)
                && status_is(s, Code::Aborted, related_topic_message(self.level()))),
            has_relations matches Some(h) && !(h && self.caller().role == Role::User) ==> (
            r matches Ok(t) && t.level() == self.level() && t.id() == self.id()),
    {
        let h = match has_relations {
            None => return Err(nonexistent(self.level)),
            Some(h) => h,
        };
        match check_topic_relations(h, &self.claims, self.level) {
            Ok(()) => Ok(TopicRemoval { level: self.level, id: self.id }),
            Err(s) => Err(s),
        }
    }
}

impl TopicRemoval {
    /// Topic or subtopic.
    pub closed spec fn level(&self) -> TopicLevel {
        self.level
    }

    /// Its id.
    pub closed spec fn id(&self) -> i32 {
        self.id
    }

    /// Whether a topic or a subtopic is removed.
    pub fn topic_level(&self) -> (r: TopicLevel)
        ensures
            r == self.level(),
    {
        self.level
    }

    /// The id to remove.
    pub fn topic_id(&self) -> (r: i32)
        ensures
            r == self.id(),
    {
        self.id
    }

    /// Takes whether it was removed.
    pub fn on_removed(self, removed: bool) -> (r: Result<(), Status>)
        ensures
            removed ==> r is Ok,
            !removed ==> (r matches Err(s) && status_is(
                s,
                Code::NotFound,
                nonexistent_message(self.level()),
            )),
    {
        if removed {
            Ok(())
        } else {
            Err(nonexistent(self.level))
        }
    }
}

/// Whose local topics or subtopics a listing shows: the caller's.
pub fn local_listing_owner(claims: Option<Claims>) -> (r: Result<String, Status>)
    ensures
        claims is None ==> (r matches Err(s) && status_is(s, Code::Internal, missing_claims())),
        claims matches Some(c) ==> r == Ok::<String, Status>(c.sub),
{
    match claims_or_internal(claims) {
        Ok(c) => Ok(c.sub),
        Err(s) => Err(s),
    }
}

/// The answer to a topic listing, from the `(id, name)` rows found
/// (`None`: the query failed).
pub fn topic_listing(rows: Option<Vec<(i32, String)>>) -> (r: Result<Vec<Topic>, Status>)
    ensures
        rows is None ==> (r matches Err(s) && status_is(s, Code::Internal, "Internal database error"@)),
        rows matches Some(found) ==> (r matches Ok(ts) && ts@.len() == found@.len() && forall|
            i: int,
        |
            0 <= i < found@.len() ==> (#[trigger] ts@[i]).topic_id == found@[i].0
                && ts@[i].topic_name == found@[i].1),
{
    match rows {
        None => Err(Status::new(Code::Internal, "Internal database error")),
        Some(found) => Ok(topics_from_rows(&found)),
    }
}

/// The answer to a subtopic listing, from the `(id, name)` rows found
/// (`None`: the query failed).
pub fn sub_topic_listing(rows: Option<Vec<(i32, String)>>) -> (r: Result<Vec<SubTopic>, Status>)
    ensures
        rows is None ==> (r matches Err(s) && status_is(s, Code::Internal, "Internal database error"@)),
        rows matches Some(found) ==> (r matches Ok(ts) && ts@.len() == found@.len() && forall|
            i: int,
        |
            0 <= i < found@.len() ==> (#[trigger] ts@[i]).subtopic_id == found@[i].0
                && ts@[i].subtopic_name == found@[i].1),
{
    match rows {
        None => Err(Status::new(Code::Internal, "Internal database error")),
        Some(found) => Ok(sub_topics_from_rows(&found)),
    }
}

} // verus!
