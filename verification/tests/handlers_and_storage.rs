use doc_svc::client::auth::{JWTClaims, Role as ClientRole, _generate_jwt, _verificate_jwt};
use doc_svc::client::checksum::{checksum_hex, hex_string};
use doc_svc::client::password_hash::{_hash_password, _verify_password_hash};
use doc_svc::common::types::jwt_types::{Claims, Role};
use doc_svc::common::types::sql_types::{DocumentType, Scope, ScientificDocumentRow, SearchResultRow};
use doc_svc::ids::{storage_endpoint, NodeIp};
use doc_svc::metadata_server::metadata::private::{
    authorize_owner, authorize_scope, authorize_topic_removal, check_current_password,
    check_topic_relations, claims_or_internal, claims_or_unauthenticated, content_pattern,
    download_node, file_ids, get_upload_node, group_by_storage_node, needs_current_password,
    parse_document_id, parse_document_types, require_existing_user, scientific_document,
    search_result, sub_topics_from_rows, topics_from_rows, DocumentLocation, TopicLevel,
};
use doc_svc::status::Code;
use doc_svc::storage::instructions::{available_space, DeletionReport, DiskInfo};
use doc_svc::storage_server::storage::metadata_instructions::file_removal_outcome;

fn user(sub: &str) -> Claims {
    Claims { sub: sub.to_string(), role: Role::User, exp: 0, iat: 0 }
}

fn admin(sub: &str) -> Claims {
    Claims { sub: sub.to_string(), role: Role::Admin, exp: 0, iat: 0 }
}

const ID: u128 = 0x79f8dacd_84be_49f8_addd_09977c28666b;
const ID_TEXT: &str = "79f8dacd-84be-49f8-addd-09977c28666b";

#[test]
fn uuid_text_round_trip() {
    assert_eq!(file_ids(&vec![ID, 0]), vec![ID_TEXT.to_string(), "00000000-0000-0000-0000-000000000000".to_string()]);
    assert_eq!(parse_document_id(ID_TEXT).unwrap(), ID);
    assert_eq!(parse_document_id("79F8DACD84BE49F8ADDD09977C28666B").unwrap(), ID);
    assert!(parse_document_id("not-a-uuid").is_err());
    let s = parse_document_id("123").unwrap_err();
    assert_eq!((s.code, s.message.as_str()), (Code::InvalidArgument, "Invalid id format"));
}

#[test]
fn endpoints() {
    assert_eq!(storage_endpoint(&NodeIp::V4([127, 0, 0, 1]), 31416), "https://127.0.0.1:31416");
    assert_eq!(storage_endpoint(&NodeIp::V4([10, 200, 3, 0]), 8080), "https://10.200.3.0:8080");
    assert_eq!(storage_endpoint(&NodeIp::V6("::1".to_string()), 31416), "https://[::1]:31416");
    let n = download_node(&NodeIp::V4([192, 168, 0, 7]), 443);
    assert_eq!(n.end_point, "https://192.168.0.7:443");
    assert_eq!(n.operation, "");
    let s = get_upload_node().unwrap_err();
    assert_eq!((s.code, s.message.as_str()), (Code::Aborted, "aborted"));
}

#[test]
fn owner_or_admin() {
    let owner = "juanito".to_string();
    assert!(authorize_owner(&user("juanito"), &owner).is_ok());
    assert!(authorize_owner(&admin("root"), &owner).is_ok());
    let s = authorize_owner(&user("pedrito"), &owner).unwrap_err();
    assert_eq!(
        (s.code, s.message.as_str()),
        (Code::PermissionDenied, "Insufficient permissions to do this operation")
    );
    assert!(needs_current_password(&user("a")));
    assert!(!needs_current_password(&admin("a")));
    assert!(require_existing_user(true).is_ok());
    assert_eq!(require_existing_user(false).unwrap_err().message, "Nonexistent user");
}

#[test]
fn missing_claims() {
    assert_eq!(claims_or_internal(Some(user("a"))).unwrap().sub, "a");
    let s = claims_or_internal(None).unwrap_err();
    assert_eq!(s.code, Code::Internal);
    assert_eq!(s.message, "Authentication failure: Missing a required request extension \"jwt_claims");
    assert_eq!(claims_or_unauthenticated(None).unwrap_err().code, Code::Unauthenticated);
}

#[test]
fn topic_rules() {
    let mine = Some("juanito".to_string());
    assert!(authorize_topic_removal(&user("juanito"), &mine).is_ok());
    assert!(authorize_topic_removal(&user("pedrito"), &mine).is_err());
    assert!(authorize_topic_removal(&user("juanito"), &None).is_err());
    assert!(authorize_topic_removal(&admin("root"), &None).is_ok());
    assert!(check_topic_relations(false, &user("a"), TopicLevel::Topic).is_ok());
    assert!(check_topic_relations(true, &admin("a"), TopicLevel::Topic).is_ok());
    let s = check_topic_relations(true, &user("a"), TopicLevel::Topic).unwrap_err();
    assert_eq!((s.code, s.message.as_str()), (Code::Aborted, "Unable to delete a document related topic"));
    let s = check_topic_relations(true, &user("a"), TopicLevel::SubTopic).unwrap_err();
    assert_eq!(s.message, "Unable to delete a document related subtopic");
}

#[test]
fn scopes() {
    assert_eq!(authorize_scope(0, &user("a")).unwrap(), Scope::Local);
    assert_eq!(authorize_scope(1, &admin("a")).unwrap(), Scope::Global);
    assert_eq!(authorize_scope(1, &user("a")).unwrap_err().code, Code::PermissionDenied);
    let s = authorize_scope(9, &admin("a")).unwrap_err();
    assert_eq!((s.code, s.message.as_str()), (Code::InvalidArgument, "Invalid scope value 9"));
}

#[test]
fn search_inputs() {
    assert_eq!(content_pattern(""), None);
    assert_eq!(content_pattern("cell"), Some("%cell%".to_string()));
    assert_eq!(parse_document_types(&vec![]).unwrap(), vec![]);
    assert_eq!(
        parse_document_types(&vec![6, 0, 2]).unwrap(),
        vec![DocumentType::Thesis, DocumentType::OriginalArticle, DocumentType::CaseReport]
    );
    let s = parse_document_types(&vec![1, 8, -1]).unwrap_err();
    assert_eq!((s.code, s.message.as_str()), (Code::InvalidArgument, "Invalid scope value 8"));
}

#[test]
fn answers_from_rows() {
    let r = search_result(SearchResultRow {
        id: ID,
        posted_by: "juanito".to_string(),
        title: "T".to_string(),
        document_type: DocumentType::Letter,
        publication_date: 1234,
        language: "es".to_string(),
    });
    assert_eq!(r.id, ID_TEXT);
    assert_eq!(r.document_type, 3);
    assert_eq!(r.publication_date, 1234);
    let d = scientific_document(ScientificDocumentRow {
        posted_by: "p".to_string(),
        title: "t".to_string(),
        authors: vec!["a".to_string()],
        abstract_text: "abs".to_string(),
        keywords: vec![],
        topics: vec!["x".to_string()],
        sub_topics: vec![],
        document_type: DocumentType::Thesis,
        publication_date: -1,
        language: "en".to_string(),
    });
    assert_eq!(d.document_type, 6);
    assert_eq!(d.topics, vec!["x".to_string()]);
    let ts = topics_from_rows(&vec![(3, "bio".to_string()), (1, "chem".to_string())]);
    assert_eq!((ts[0].topic_id, ts[0].topic_name.as_str()), (3, "bio"));
    assert_eq!((ts[1].topic_id, ts[1].topic_name.as_str()), (1, "chem"));
    let ss = sub_topics_from_rows(&vec![(5, "genes".to_string())]);
    assert_eq!((ss[0].subtopic_id, ss[0].subtopic_name.as_str()), (5, "genes"));
}

#[test]
fn current_password_check() {
    let h = doc_svc::common::auth::hash_password(b"Old1!pass").unwrap();
    assert!(check_current_password(b"Old1!pass", &h).is_ok());
    let s = check_current_password(b"wrong", &h).unwrap_err();
    assert_eq!((s.code, s.message.as_str()), (Code::PermissionDenied, "Invalid user password"));
}

fn loc(node: u128, ip: [u8; 4], port: i32, doc: u128) -> DocumentLocation {
    DocumentLocation { node_id: node, ip: NodeIp::V4(ip), port, document_id: doc }
}

#[test]
fn grouping_by_storage_node() {
    let ls = vec![
        loc(1, [10, 0, 0, 1], 80, 100),
        loc(2, [10, 0, 0, 2], 80, 200),
        loc(1, [10, 0, 0, 1], 80, 101),
        loc(1, [10, 0, 0, 1], 81, 102),
        loc(2, [10, 0, 0, 2], 80, 201),
    ];
    let g = group_by_storage_node(&ls);
    assert_eq!(g.len(), 3);
    assert_eq!((g[0].node_id, g[0].endpoint.as_str()), (1, "https://10.0.0.1:80"));
    assert_eq!(g[0].document_ids, vec![100, 101]);
    assert_eq!((g[1].node_id, g[1].endpoint.as_str()), (2, "https://10.0.0.2:80"));
    assert_eq!(g[1].document_ids, vec![200, 201]);
    assert_eq!((g[2].node_id, g[2].endpoint.as_str()), (1, "https://10.0.0.1:81"));
    assert_eq!(g[2].document_ids, vec![102]);
    assert!(group_by_storage_node(&vec![]).is_empty());
    assert_eq!(file_ids(&vec![ID, 0]), vec![ID_TEXT.to_string(), "00000000-0000-0000-0000-000000000000".to_string()]);
}

#[test]
fn batch_deletion_report() {
    let mut r = DeletionReport::new();
    r.record("a", true);
    r.record("b", true);
    assert!(r.finish().is_ok());
    let mut r = DeletionReport::new();
    r.record("a", false);
    r.record("b", true);
    r.record("c", false);
    let s = r.finish().unwrap_err();
    assert_eq!((s.code, s.message.as_str()), (Code::DataLoss, "Failed deleting file a\nFailed deleting file c"));
    assert!(file_removal_outcome(true).is_ok());
    let s = file_removal_outcome(false).unwrap_err();
    assert_eq!((s.code, s.message.as_str()), (Code::NotFound, "File not found"));
}

#[test]
fn heartbeat_space() {
    let d = |root: bool, space: u64| DiskInfo { mounted_at_root: root, available_space: space };
    assert_eq!(available_space(&vec![d(false, 5), d(true, 7), d(true, 9)]), 7);
    assert_eq!(available_space(&vec![d(false, 5), d(false, 6)]), 5);
    assert_eq!(available_space(&vec![d(true, 1)]), 1);
}

#[test]
fn checksums() {
    assert_eq!(
        checksum_hex(b"abc"),
        "ba7816bf8f01cfea414140de5dae2223b00361a396177a9cb410ff61f20015ad"
    );
    assert_eq!(
        checksum_hex(b""),
        "e3b0c44298fc1c149afbf4c8996fb92427ae41e4649b934ca495991b7852b855"
    );
    assert_eq!(hex_string(&[0, 15, 16, 255]), "000f10ff");
}

#[test]
fn client_tokens_and_passwords() {
    let c = JWTClaims { sub: ID, user_role: ClientRole::Admin, exp: 4_000_000_000 };
    assert_eq!(
        c.to_json(),
        format!(r#"{{"sub":"{}","user_role":"Admin","exp":4000000000}}"#, ID_TEXT)
    );
    let t = _generate_jwt(&c, b"k").unwrap();
    assert_eq!(_verificate_jwt(&t, b"k").unwrap().payload, c.to_json());
    let h = _hash_password("Secret1!").unwrap();
    assert!(_verify_password_hash(&h, b"Secret1!").is_ok());
    assert!(_verify_password_hash(&h, b"other").is_err());
}
