use vstd::prelude::*;

verus! {

/// The role of an account as the client knows it.
#[derive(Clone, Copy, Debug, PartialEq, Eq, Structural)]
enum Role {
    User,
    Admin,
}

/// Kind of a scientific document.
#[derive(Clone, Copy, Debug, PartialEq, Eq, Structural)]
pub enum DocumentType {
    OriginalArticle,
    Review,
    CaseReport,
    Letter,
    Editorial,
    ConferencePaper,
    Thesis,
}

/// An account: hashes of its name and password, and its role.
#[derive(Debug)]
pub struct User {
    username_hash: String,
    password_hash: String,
    user_role: Role,
}

/// A scientific document as the client handles it; the id is the UUID's
/// 128-bit value and the publication date is in seconds since the epoch.
#[derive(Debug)]
pub struct ScientificDocument {
    pub id: u128,
    pub posted_by: String,
    pub title: String,
    pub authors: Vec<String>,
    pub abstract_text: String,
    pub keywords: Vec<String>,
    pub topics: Vec<Topic>,
    pub sub_topics: Vec<SubTopic>,
    pub document_type: DocumentType,
    pub publication_date: i64,
    pub language: String,
}

/// A topic name.
#[derive(Debug)]
pub struct Topic(String);

/// A subtopic name.
#[derive(Debug)]
pub struct SubTopic(String);

} // verus!
