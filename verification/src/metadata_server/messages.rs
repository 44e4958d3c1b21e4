//! The requests the metadata service answers.
use vstd::prelude::*;

verus! {

/// A new account: name, password twice, and the wire number of its role.
#[derive(Clone, Debug, Default)]
pub struct CreateUserRequest {
    pub user_name: String,
    pub password: String,
    pub confirm_password: String,
    pub user_role: i32,
}

/// A log-in; `remember` asks for a long-lived token.
#[derive(Clone, Debug, Default)]
pub struct LogInRequest {
    pub user_name: String,
    pub password: String,
    pub remember: bool,
}

/// The account to delete.
#[derive(Clone, Debug, Default)]
pub struct DeleteUserRequest {
    pub user_name: String,
}

/// A password change: the account, its current password, the new one.
#[derive(Clone, Debug, Default)]
pub struct ChangePasswordRequest {
    pub user_name: String,
    pub current_password: String,
    pub new_password: String,
}

/// A renaming of an account.
#[derive(Clone, Debug, Default)]
pub struct ChangeUserNameRequest {
    pub current_user_name: String,
    pub new_user_name: String,
}

/// The document whose storage node is asked for, by its id's text.
#[derive(Clone, Debug, Default)]
pub struct DownloadNodeRequest {
    pub document_id: String,
}

/// A request for a node to upload to.
#[derive(Clone, Debug, Default)]
pub struct UploadNodeRequest {}

/// The document to delete, by its id's text.
#[derive(Clone, Debug, Default)]
pub struct DeleteDocumentRequest {
    pub document_id: String,
}

/// A new topic and the wire number of its scope.
#[derive(Clone, Debug, Default)]
pub struct CreateTopicRequest {
    pub name: String,
    pub scope: i32,
}

/// The topic to delete.
#[derive(Clone, Debug, Default)]
pub struct DeleteTopicRequest {
    pub topic_id: i32,
}

/// A new subtopic and the wire number of its scope.
#[derive(Clone, Debug, Default)]
pub struct CreateSubTopicRequest {
    pub name: String,
    pub scope: i32,
}

/// The subtopic to delete.
#[derive(Clone, Debug, Default)]
pub struct DeleteSubTopicRequest {
    pub subtopic_id: i32,
}

/// A document search: content text and how to match it, topic, subtopic,
/// type and language filters, and a publication date range (seconds since
/// the epoch).
#[derive(Clone, Debug, Default)]
pub struct SearchRequest {
    pub content: String,
    pub search_kind: i32,
    pub topics: Vec<i32>,
    pub sub_topics: Vec<i32>,
    pub document_types: Vec<i32>,
    pub languages: Vec<String>,
    pub start_date: i64,
    pub end_date: i64,
}

/// The document to read, by its id's text.
#[derive(Clone, Debug, Default)]
pub struct ScientificDocumentRequest {
    pub document_id: String,
}

} // verus!
