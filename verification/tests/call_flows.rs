use doc_svc::common::auth::{
    claims_verdict, generate_jwt, hash_password, verificate_jwt, verify_password_hash, CheckedToken,
    JwtFailure,
};
use doc_svc::common::middleware::decoded_token_claims;
use doc_svc::common::types::jwt_types::{Claims, Role};
use doc_svc::common::types::sql_types::{self, DocumentType, Scope, SearchResultRow};
use doc_svc::common::types::{Role as TokenRole, TokenClaims};
use doc_svc::ids::NodeIp;
use doc_svc::metadata::middleware::{auth_logic, decoded_claims, JwtHeader};
use doc_svc::metadata_server::handlers::accounts::{
    after_node_contact, change_password, change_user_name, delete_user, ChangePasswordNext,
    PurgeOutcome,
};
use doc_svc::metadata_server::handlers::documents::{
    delete_document, get_download_node, get_scientific_document, search_answer, search_documents,
};
use doc_svc::metadata_server::handlers::sessions::{create_user, log_in, CreateUserNext};
use doc_svc::metadata_server::handlers::topics::{
    create_sub_topic, create_topic, delete_sub_topic, delete_topic, local_listing_owner,
    sub_topic_listing, topic_listing,
};
use doc_svc::metadata_server::messages::{
    ChangePasswordRequest, ChangeUserNameRequest, CreateSubTopicRequest, CreateTopicRequest,
    CreateUserRequest, DeleteDocumentRequest, DeleteSubTopicRequest, DeleteTopicRequest,
    DeleteUserRequest, DownloadNodeRequest, LogInRequest, ScientificDocumentRequest, SearchRequest,
};
use doc_svc::metadata_server::metadata::private::{DocumentLocation, TopicLevel};
use doc_svc::status::Code;

const SECRET: &[u8] = b"flow secret";
const ID: u128 = 0x79f8dacd_84be_49f8_addd_09977c28666b;
const ID_TEXT: &str = "79f8dacd-84be-49f8-addd-09977c28666b";

fn user(sub: &str) -> Claims {
    Claims { sub: sub.to_string(), role: Role::User, exp: 0, iat: 0 }
}

fn admin(sub: &str) -> Claims {
    Claims { sub: sub.to_string(), role: Role::Admin, exp: 0, iat: 0 }
}

fn refusal<T>(r: Result<T, doc_svc::status::Status>) -> (Code, String) {
    match r {
        Ok(_) => panic!("expected a refusal"),
        Err(s) => (s.code, s.message),
    }
}

fn form(name: &str, password: &str, confirm: &str, role: i32) -> CreateUserRequest {
    CreateUserRequest {
        user_name: name.to_string(),
        password: password.to_string(),
        confirm_password: confirm.to_string(),
        user_role: role,
    }
}

#[test]
fn account_deletion_flow() {
    let req = || DeleteUserRequest { user_name: "juanito".to_string() };
    assert_eq!(refusal(delete_user(None, req())).0, Code::Internal);
    assert_eq!(
        refusal(delete_user(Some(user("pedrito")), req())),
        (Code::PermissionDenied, "Insufficient permissions to do this operation".to_string())
    );
    let check = delete_user(Some(user("juanito")), req()).unwrap();
    assert_eq!(check.user_name(), "juanito");
    let check2 = delete_user(Some(admin("root")), req()).unwrap();
    assert_eq!(refusal(check2.on_account(None)), (Code::Internal, "Internal database error".to_string()));
    let check3 = delete_user(Some(admin("root")), req()).unwrap();
    assert_eq!(refusal(check3.on_account(Some(false))), (Code::NotFound, "Nonexistent user".to_string()));
    let locate = check.on_account(Some(true)).unwrap();
    let loc = |node: u128, last: u8, doc: u128| DocumentLocation {
        node_id: node,
        ip: NodeIp::V4([10, 0, 0, last]),
        port: 31416,
        document_id: doc,
    };
    let purge = locate.on_locations(Some(vec![loc(1, 1, 10), loc(2, 2, 20), loc(1, 1, 11)])).unwrap();
    assert_eq!(purge.user_name(), "juanito");
    let groups = purge.on_purge(PurgeOutcome::Committed).unwrap();
    assert_eq!(groups.len(), 2);
    assert_eq!(groups[0].endpoint, "https://10.0.0.1:31416");
    assert_eq!(groups[0].document_ids, vec![10, 11]);
    assert_eq!(groups[1].document_ids, vec![20]);
    let mut groups = groups;
    let second = groups.pop().unwrap();
    let first = groups.pop().unwrap();
    assert!(after_node_contact(first, true).is_none());
    let failed = after_node_contact(second, false).unwrap();
    assert_eq!((failed.node_id, failed.document_ids), (2, vec![20]));
}

#[test]
fn account_purge_failures() {
    let outcomes = [
        (PurgeOutcome::StartFailed, "Internal database error, unable to start transaction"),
        (PurgeOutcome::QueryFailed, "Internal database error"),
        (PurgeOutcome::CommitFailed, "Transaction commit failed"),
    ];
    for (outcome, message) in outcomes {
        let locate = delete_user(Some(admin("root")), DeleteUserRequest { user_name: "x".to_string() })
            .unwrap()
            .on_account(Some(true))
            .unwrap();
        let purge = locate.on_locations(Some(vec![])).unwrap();
        assert_eq!(refusal(purge.on_purge(outcome)), (Code::Internal, message.to_string()));
    }
    let locate = delete_user(Some(admin("root")), DeleteUserRequest { user_name: "x".to_string() })
        .unwrap()
        .on_account(Some(true))
        .unwrap();
    assert_eq!(refusal(locate.on_locations(None)).1, "Internal database error");
}

#[test]
fn password_change_flow() {
    let req = |current: &str| ChangePasswordRequest {
        user_name: "juanito".to_string(),
        current_password: current.to_string(),
        new_password: "NewSecret2@".to_string(),
    };
    assert_eq!(refusal(change_password(Some(user("pedrito")), req("x"))).0, Code::PermissionDenied);
    // A plain user proves the current password.
    let check = change_password(Some(user("juanito")), req("Secret1!")).unwrap();
    let verify = match check.on_account(Some(true)).unwrap() {
        ChangePasswordNext::VerifyCurrent(v) => v,
        ChangePasswordNext::Store(_) => panic!("a plain user must prove the password"),
    };
    assert_eq!(verify.user_name(), "juanito");
    let stored = hash_password(b"Secret1!").unwrap();
    let store = verify.on_stored_hash(Some(stored.clone())).unwrap();
    assert_eq!(store.user_name(), "juanito");
    assert!(verify_password_hash(b"NewSecret2@", store.password_hash()).is_ok());
    let write = store.on_clock(1_700_000_123);
    assert_eq!((write.user_name(), write.tokens_valid_after()), ("juanito", 1_700_000_123));
    assert!(verify_password_hash(b"NewSecret2@", write.password_hash()).is_ok());
    assert!(write.on_stored(true).is_ok());
    // A wrong current password is refused.
    let check = change_password(Some(user("juanito")), req("wrong")).unwrap();
    let verify = match check.on_account(Some(true)).unwrap() {
        ChangePasswordNext::VerifyCurrent(v) => v,
        ChangePasswordNext::Store(_) => panic!("a plain user must prove the password"),
    };
    assert_eq!(
        refusal(verify.on_stored_hash(Some(stored))),
        (Code::PermissionDenied, "Invalid user password".to_string())
    );
    // An admin's change is stored directly.
    let check = change_password(Some(admin("root")), req("")).unwrap();
    let store = match check.on_account(Some(true)).unwrap() {
        ChangePasswordNext::Store(s) => s,
        ChangePasswordNext::VerifyCurrent(_) => panic!("an admin resets directly"),
    };
    assert!(verify_password_hash(b"NewSecret2@", store.password_hash()).is_ok());
    assert_eq!(refusal(store.on_clock(5).on_stored(false)).1, "Internal database error");
    let check = change_password(Some(admin("root")), req("")).unwrap();
    assert_eq!(refusal(check.on_account(Some(false))).1, "Nonexistent user");
}

#[test]
fn renaming_flow() {
    let req = || ChangeUserNameRequest {
        current_user_name: "juanito".to_string(),
        new_user_name: "juan".to_string(),
    };
    assert_eq!(refusal(change_user_name(None, req())).0, Code::Internal);
    assert_eq!(refusal(change_user_name(Some(user("ana")), req())).0, Code::PermissionDenied);
    let store = change_user_name(Some(user("juanito")), req()).unwrap().on_account(Some(true)).unwrap();
    assert_eq!((store.current_user_name(), store.new_user_name()), ("juanito", "juan"));
    let write = store.on_clock(1_700_000_456);
    assert_eq!(
        (write.current_user_name(), write.new_user_name(), write.tokens_valid_after()),
        ("juanito", "juan", 1_700_000_456)
    );
    assert_eq!(
        refusal(write.on_stored(false)),
        (Code::AlreadyExists, "Username is already in use".to_string())
    );
}

#[test]
fn download_node_flow() {
    let req = |id: &str| DownloadNodeRequest { document_id: id.to_string() };
    assert_eq!(refusal(get_download_node(None, req("bad"))).0, Code::Internal);
    assert_eq!(
        refusal(get_download_node(Some(user("a")), req("bad"))),
        (Code::InvalidArgument, "Invalid id format".to_string())
    );
    let owner_step = get_download_node(Some(user("a")), req(ID_TEXT)).unwrap();
    assert_eq!(owner_step.document_id(), ID);
    let other = get_download_node(Some(user("a")), req(ID_TEXT)).unwrap();
    assert_eq!(refusal(other.on_owner(Some("b".to_string()))).0, Code::PermissionDenied);
    let missing = get_download_node(Some(user("a")), req(ID_TEXT)).unwrap();
    assert_eq!(refusal(missing.on_owner(None)), (Code::NotFound, "Nonexistent document".to_string()));
    let locate = owner_step.on_owner(Some("a".to_string())).unwrap();
    let node = locate.on_node(Some((NodeIp::V6("::1".to_string()), 31416))).unwrap();
    assert_eq!(node.end_point, "https://[::1]:31416");
    assert_eq!(node.operation, "");
}

#[test]
fn document_deletion_flow() {
    let req = || DeleteDocumentRequest { document_id: ID_TEXT.to_string() };
    let owner_step = delete_document(Some(admin("root")), req()).unwrap();
    let locate = owner_step.on_owner(Some("someone".to_string())).unwrap();
    let remove = locate.on_node(Some((7, NodeIp::V4([127, 0, 0, 1]), 9000))).unwrap();
    assert_eq!(remove.document_id(), ID);
    let file = remove.on_removed(true).unwrap();
    assert_eq!(file.endpoint_url(), "https://127.0.0.1:9000");
    assert_eq!(file.file_id(), ID_TEXT);
    let failed = file.on_contact(false).unwrap();
    assert_eq!((failed.node_id, failed.document_ids), (7, vec![ID]));

    let locate = delete_document(Some(admin("root")), req()).unwrap().on_owner(Some("x".to_string())).unwrap();
    assert_eq!(refusal(locate.on_node(None)).1, "Nonexistent document");
    let remove = delete_document(Some(admin("root")), req())
        .unwrap()
        .on_owner(Some("x".to_string()))
        .unwrap()
        .on_node(Some((7, NodeIp::V4([127, 0, 0, 1]), 9000)))
        .unwrap();
    assert_eq!(refusal(remove.on_removed(false)), (Code::NotFound, "Nonexistent document".to_string()));
}

#[test]
fn document_read_flow() {
    let req = || ScientificDocumentRequest { document_id: ID_TEXT.to_string() };
    let owner_step = get_scientific_document(Some(user("a")), req()).unwrap();
    assert_eq!(refusal(owner_step.on_poster(None)), (Code::Aborted, "Nonexistent document".to_string()));
    let owner_step = get_scientific_document(Some(user("a")), req()).unwrap();
    assert_eq!(refusal(owner_step.on_poster(Some("b".to_string()))).0, Code::PermissionDenied);
    let read = get_scientific_document(Some(user("a")), req()).unwrap().on_poster(Some("a".to_string())).unwrap();
    assert_eq!(refusal(read.on_row(Err("no rows".to_string()))), (Code::Aborted, "no rows".to_string()));
}

#[test]
fn search_flow() {
    let req = SearchRequest {
        content: "cell".to_string(),
        search_kind: 2,
        topics: vec![1],
        sub_topics: vec![],
        document_types: vec![6, 1],
        languages: vec!["es".to_string()],
        start_date: 0,
        end_date: i64::MAX,
    };
    assert_eq!(refusal(search_documents(None, req.clone())).0, Code::Unauthenticated);
    let q = search_documents(Some(user("ana")), req.clone()).unwrap();
    assert!(!q.is_admin);
    assert_eq!(q.user, "ana");
    assert_eq!(q.pattern, Some("%cell%".to_string()));
    assert_eq!(q.document_types, vec![DocumentType::Thesis, DocumentType::Review]);
    assert_eq!(q.start_date, Some(0));
    assert_eq!(q.end_date, None);
    let q = search_documents(Some(admin("root")), SearchRequest { content: String::new(), ..req.clone() }).unwrap();
    assert!(q.is_admin);
    assert_eq!(q.pattern, None);
    let s = search_documents(Some(admin("root")), SearchRequest { document_types: vec![3, 7], ..req }).unwrap_err();
    assert_eq!((s.code, s.message.as_str()), (Code::InvalidArgument, "Invalid scope value 7"));

    let rows = vec![SearchResultRow {
        id: ID,
        posted_by: "ana".to_string(),
        title: "T".to_string(),
        document_type: DocumentType::Editorial,
        publication_date: 99,
        language: "es".to_string(),
    }];
    let results = search_answer(Ok(rows)).unwrap();
    assert_eq!(results.len(), 1);
    assert_eq!(results[0].id, ID_TEXT);
    assert_eq!(results[0].document_type, 4);
    assert_eq!(refusal(search_answer(Err("boom".to_string()))), (Code::Internal, "boom".to_string()));
}

#[test]
fn topic_flows() {
    let insert = create_topic(Some(user("ana")), CreateTopicRequest { name: "bio".to_string(), scope: 0 }).unwrap();
    assert_eq!(insert.topic_level(), TopicLevel::Topic);
    assert_eq!((insert.topic_name(), insert.created_by()), ("bio", "ana"));
    assert_eq!(insert.topic_scope(), Scope::Local);
    assert_eq!(refusal(insert.on_inserted(false)), (Code::AlreadyExists, "Topic already exists".to_string()));
    let insert = create_sub_topic(Some(admin("root")), CreateSubTopicRequest { name: "g".to_string(), scope: 1 }).unwrap();
    assert_eq!(insert.topic_scope(), Scope::Global);
    assert_eq!(refusal(insert.on_inserted(false)).1, "Subtopic already exists");
    assert_eq!(
        refusal(create_topic(Some(user("ana")), CreateTopicRequest { name: "g".to_string(), scope: 1 })).0,
        Code::PermissionDenied
    );
    assert_eq!(
        refusal(create_sub_topic(Some(user("ana")), CreateSubTopicRequest { name: "g".to_string(), scope: 5 })).1,
        "Invalid scope value 5"
    );

    let step = delete_topic(Some(user("ana")), DeleteTopicRequest { topic_id: 3 }).unwrap();
    assert_eq!(step.topic_id(), 3);
    assert_eq!(refusal(step.on_creator(None)), (Code::NotFound, "Nonexistent topic".to_string()));
    let step = delete_sub_topic(Some(user("ana")), DeleteSubTopicRequest { subtopic_id: 4 }).unwrap();
    assert_eq!(refusal(step.on_creator(Some(Some("bob".to_string())))).0, Code::PermissionDenied);
    let step = delete_sub_topic(Some(user("ana")), DeleteSubTopicRequest { subtopic_id: 4 }).unwrap();
    let relations = step.on_creator(Some(Some("ana".to_string()))).unwrap();
    assert_eq!(
        refusal(relations.on_relations(Some(true))),
        (Code::Aborted, "Unable to delete a document related subtopic".to_string())
    );
    let step = delete_topic(Some(admin("root")), DeleteTopicRequest { topic_id: 3 }).unwrap();
    let removal = step.on_creator(Some(None)).unwrap().on_relations(Some(true)).unwrap();
    assert_eq!(removal.topic_id(), 3);
    assert_eq!(refusal(removal.on_removed(false)).1, "Nonexistent topic");

    assert_eq!(local_listing_owner(Some(user("ana"))).unwrap(), "ana");
    assert_eq!(refusal(topic_listing(None)).1, "Internal database error");
    let ts = topic_listing(Some(vec![(1, "bio".to_string())])).unwrap();
    assert_eq!((ts[0].topic_id, ts[0].topic_name.as_str()), (1, "bio"));
    let ss = sub_topic_listing(Some(vec![(2, "gen".to_string())])).unwrap();
    assert_eq!((ss[0].subtopic_id, ss[0].subtopic_name.as_str()), (2, "gen"));
}

#[test]
fn account_creation_flow() {
    // Without a token only plain accounts are created.
    let next = create_user(form("juanito", "Secret1!", "Secret1!", 0), JwtHeader::Missing, SECRET).unwrap();
    let insert = match next {
        CreateUserNext::Insert(i) => i,
        CreateUserNext::DecodeClaims(_) => panic!("no token was sent"),
    };
    assert_eq!(insert.user_name(), "juanito");
    assert_eq!(insert.account_role(), sql_types::Role::User);
    assert!(verify_password_hash(b"Secret1!", insert.password_hash()).is_ok());
    assert_eq!(refusal(insert.on_inserted(false)).0, Code::AlreadyExists);
    assert_eq!(
        refusal(create_user(form("juanito", "Secret1!", "Secret1!", 1), JwtHeader::Missing, SECRET)),
        (Code::PermissionDenied, "Insufficient permissions to do this operation".to_string())
    );
    assert_eq!(
        refusal(create_user(form("juanito", "Secret1!", "Secret1!", 5), JwtHeader::Missing, SECRET)),
        (Code::InvalidArgument, "Invalid role value 5".to_string())
    );
    assert_eq!(
        refusal(create_user(form("jo", "Secret1!", "Secret1!", 0), JwtHeader::Missing, SECRET)),
        (Code::InvalidArgument, "user_name: Invalid username".to_string())
    );
    assert_eq!(
        refusal(create_user(form("juanito", "Secret1!", "Secret1!", 0), JwtHeader::NotText, SECRET)).1,
        "Wrong \"jwt\" format"
    );
    // An admin's token lets an admin account be created.
    let token = generate_jwt(&Claims { sub: "root".to_string(), role: Role::Admin, exp: 4_000_000_000, iat: 1 }, SECRET).unwrap();
    let next = create_user(form("boss", "Secret1!", "Secret1!", 1), JwtHeader::Text(token), SECRET).unwrap();
    let pending = match next {
        CreateUserNext::DecodeClaims(p) => p,
        CreateUserNext::Insert(_) => panic!("a token was sent"),
    };
    assert!(pending.claims_json().contains("\"role\":\"Admin\""));
    let insert = pending.on_claims(Some(Role::Admin)).unwrap();
    assert_eq!(insert.account_role(), sql_types::Role::Admin);
    // A user's token does not.
    let token = generate_jwt(&Claims { sub: "ana".to_string(), role: Role::User, exp: 4_000_000_000, iat: 1 }, SECRET).unwrap();
    let pending = match create_user(form("boss", "Secret1!", "Secret1!", 1), JwtHeader::Text(token), SECRET).unwrap() {
        CreateUserNext::DecodeClaims(p) => p,
        CreateUserNext::Insert(_) => panic!("a token was sent"),
    };
    assert_eq!(refusal(pending.on_claims(Some(Role::User))).0, Code::PermissionDenied);
    let token = generate_jwt(&Claims { sub: "ana".to_string(), role: Role::User, exp: 4_000_000_000, iat: 1 }, SECRET).unwrap();
    let pending = match create_user(form("boss", "Secret1!", "Secret1!", 0), JwtHeader::Text(token), SECRET).unwrap() {
        CreateUserNext::DecodeClaims(p) => p,
        CreateUserNext::Insert(_) => panic!("a token was sent"),
    };
    assert_eq!(refusal(pending.on_claims(None)), (Code::InvalidArgument, "Token decodification failed".to_string()));
}

#[test]
fn log_in_flow() {
    let req = || LogInRequest { user_name: "juanito".to_string(), password: "Secret1!".to_string(), remember: true };
    let fetch = log_in(req());
    assert_eq!(fetch.user_name(), "juanito");
    assert_eq!(refusal(fetch.on_account(None)), (Code::NotFound, "Nonexistent user".to_string()));
    let stored = hash_password(b"Secret1!").unwrap();
    assert_eq!(
        refusal(log_in(req()).on_account(Some((sql_types::Role::User, hash_password(b"other").unwrap())))),
        (Code::PermissionDenied, "Invalid user password".to_string())
    );
    let issue = log_in(req()).on_account(Some((sql_types::Role::Admin, stored))).unwrap();
    let now = 1_800_000_000;
    let record = issue.on_clock(now, SECRET).unwrap();
    assert_eq!((record.user_name(), record.tokens_valid_after()), ("juanito", now));
    let token = record.on_recorded(true).unwrap();
    let expected = Claims { sub: "juanito".to_string(), role: Role::Admin, exp: now + 30 * 86_400, iat: now };
    assert_eq!(verificate_jwt(&token, SECRET).unwrap().payload, expected.to_json());
    let issue = log_in(req()).on_account(Some((sql_types::Role::User, hash_password(b"Secret1!").unwrap()))).unwrap();
    assert_eq!(refusal(issue.on_clock(i64::MAX, SECRET)).1, "Date out of the 64-bit limit");
}

#[test]
fn decoded_claims_answers() {
    let valid = || CheckedToken { payload: "{}".to_string(), verdict: Ok(()) };
    let expired = || CheckedToken {
        payload: "{}".to_string(),
        verdict: Err(JwtFailure { expired: true, claims_stage: true, json: false, message: "ExpiredSignature".to_string() }),
    };
    assert_eq!(decoded_claims(valid(), Some(user("a"))).unwrap().sub, "a");
    assert_eq!(refusal(decoded_claims(valid(), None)), (Code::InvalidArgument, "Token decodification failed".to_string()));
    assert_eq!(refusal(decoded_claims(expired(), Some(user("a")))), (Code::PermissionDenied, "Expired token".to_string()));
    // Claims that do not read fail as such, even when they have expired.
    assert_eq!(refusal(decoded_claims(expired(), None)), (Code::InvalidArgument, "Token decodification failed".to_string()));
    let c = || TokenClaims { sub: "x".to_string(), user_role: TokenRole::User, exp: 1 };
    assert_eq!(decoded_token_claims(valid(), Ok(c())).unwrap().sub, "x");
    assert_eq!(refusal(decoded_token_claims(expired(), Ok(c()))), (Code::Unauthenticated, "ExpiredSignature".to_string()));
    assert_eq!(
        refusal(decoded_token_claims(expired(), Err("missing field `exp` at line 1 column 9".to_string()))),
        (Code::Unauthenticated, "JSON error: missing field `exp` at line 1 column 9".to_string())
    );
}

#[test]
fn search_date_bounds() {
    let first: i64 = -8_334_601_228_800;
    let last: i64 = 8_210_266_876_799;
    let req = |start: i64, end: i64| SearchRequest { start_date: start, end_date: end, ..SearchRequest::default() };
    let q = search_documents(Some(user("a")), req(first, last)).unwrap();
    assert_eq!((q.start_date, q.end_date), (Some(first), Some(last)));
    let q = search_documents(Some(user("a")), req(first - 1, last + 1)).unwrap();
    assert_eq!((q.start_date, q.end_date), (None, None));
}

#[test]
fn metadata_authentication_flow() {
    assert_eq!(
        refusal(auth_logic(JwtHeader::Missing, SECRET)),
        (Code::Unauthenticated, "No \"jwt\" was provided".to_string())
    );
    assert_eq!(refusal(auth_logic(JwtHeader::NotText, SECRET)).0, Code::InvalidArgument);
    assert_eq!(
        refusal(auth_logic(JwtHeader::Text("garbage".to_string()), SECRET)),
        (Code::InvalidArgument, "Token decodification failed".to_string())
    );
    let claims = Claims { sub: "ana".to_string(), role: Role::User, exp: 4_000_000_000, iat: 100 };
    let token = generate_jwt(&claims, SECRET).unwrap();
    let decode = auth_logic(JwtHeader::Text(token), SECRET).unwrap();
    assert_eq!(decode.claims_json(), claims.to_json());
    let fresh = decode.on_claims(Some(user("ana"))).unwrap();
    assert_eq!(fresh.subject(), "ana");
    assert_eq!(
        refusal(fresh.on_tokens_valid_after(None)),
        (Code::NotFound, "Token subject not found in database".to_string())
    );
    let token = generate_jwt(&claims, SECRET).unwrap();
    let fresh = auth_logic(JwtHeader::Text(token), SECRET).unwrap().on_claims(Some(claims)).unwrap();
    assert_eq!(
        refusal(fresh.on_tokens_valid_after(Some(101))),
        (Code::PermissionDenied, "The given token is no longer valid".to_string())
    );
}

#[test]
fn expired_tokens_of_other_claims() {
    // A storage request token (no `iat`) signed with the key, long expired.
    let other = TokenClaims { sub: "ana".to_string(), user_role: TokenRole::User, exp: 1000 };
    let token = generate_jwt(&other, SECRET).unwrap();
    let checked = verificate_jwt(&token, SECRET).unwrap();
    assert_eq!(checked.payload, other.to_json());
    assert!(checked.verdict.as_ref().unwrap_err().expired);
    // Read as session claims it does not read: that failure comes first.
    let decode = auth_logic(JwtHeader::Text(token.clone()), SECRET).unwrap();
    assert_eq!(refusal(decode.on_claims(None)), (Code::InvalidArgument, "Token decodification failed".to_string()));
    let pending = match create_user(form("boss", "Secret1!", "Secret1!", 0), JwtHeader::Text(token.clone()), SECRET).unwrap() {
        CreateUserNext::DecodeClaims(p) => p,
        CreateUserNext::Insert(_) => panic!("a token was sent"),
    };
    assert_eq!(refusal(pending.on_claims(None)).1, "Token decodification failed");
    // Session claims that read but have expired are refused as expired.
    let session = Claims { sub: "ana".to_string(), role: Role::Admin, exp: 1000, iat: 1 };
    let token = generate_jwt(&session, SECRET).unwrap();
    let pending = match create_user(form("boss", "Secret1!", "Secret1!", 1), JwtHeader::Text(token), SECRET).unwrap() {
        CreateUserNext::DecodeClaims(p) => p,
        CreateUserNext::Insert(_) => panic!("a token was sent"),
    };
    assert_eq!(refusal(pending.on_claims(Some(Role::Admin))), (Code::PermissionDenied, "Expired token".to_string()));
    // The generic outcome: a text that does not read is a JSON error.
    let token = generate_jwt(&other, SECRET).unwrap();
    let f = claims_verdict::<Claims>(verificate_jwt(&token, SECRET).unwrap(), Err("missing field `iat`".to_string())).unwrap_err();
    assert!(!f.expired);
    assert_eq!(f.message, "JSON error: missing field `iat`");
}
