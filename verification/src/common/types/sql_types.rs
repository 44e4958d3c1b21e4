use vstd::prelude::*;
use super::jwt_types;

verus! {

/// Kind of a scientific document, as stored in the database.
#[derive(Clone, Copy, Debug, PartialEq, Eq, Structural)]
pub enum DocumentType {
    OriginalArticle,
    Review,
    CaseReport,
    Letter,
    Editorial,
    ConferencePaper,
    Thesis,
}

/// The wire number of a document type (`0` to `6`, in declaration order).
pub open spec fn document_type_number(t: DocumentType) -> int {
    match t {
        DocumentType::OriginalArticle => 0,
        DocumentType::Review => 1,
        DocumentType::CaseReport => 2,
        DocumentType::Letter => 3,
        DocumentType::Editorial => 4,
        DocumentType::ConferencePaper => 5,
        DocumentType::Thesis => 6,
    }
}

/// The document type with wire number `value`, if any.
pub open spec fn document_type_of_number(value: int) -> Option<DocumentType> {
    if value == 0 {
        Some(DocumentType::OriginalArticle)
    } else if value == 1 {
        Some(DocumentType::Review)
    } else if value == 2 {
        Some(DocumentType::CaseReport)
    } else if value == 3 {
        Some(DocumentType::Letter)
    } else if value == 4 {
        Some(DocumentType::Editorial)
    } else if value == 5 {
        Some(DocumentType::ConferencePaper)
    } else if value == 6 {
        Some(DocumentType::Thesis)
    } else {
        None
    }
}

impl DocumentType {
    /// The wire number of the document type.
    pub fn into(self) -> (r: i32)
        ensures
            r as int == document_type_number(self),
    {
        match self {
            DocumentType::OriginalArticle => 0,
            DocumentType::Review => 1,
            DocumentType::CaseReport => 2,
            DocumentType::Letter => 3,
            DocumentType::Editorial => 4,
            DocumentType::ConferencePaper => 5,
            DocumentType::Thesis => 6,
        }
    }

    /// The document type with wire number `value`; other numbers are refused.
    pub fn try_from(value: i32) -> (r: Result<DocumentType, &'static str>)
        ensures
            document_type_of_number(value as int) matches Some(t) ==> r == Ok::<
                DocumentType,
                &'static str,
            >(t),
            document_type_of_number(value as int) is None ==> (r matches Err(m) && m@
                == "Bad enum conversion"@),
    {
        match value {
            0 => Ok(DocumentType::OriginalArticle),
            1 => Ok(DocumentType::Review),
            2 => Ok(DocumentType::CaseReport),
            3 => Ok(DocumentType::Letter),
            4 => Ok(DocumentType::Editorial),
            5 => Ok(DocumentType::ConferencePaper),
            6 => Ok(DocumentType::Thesis),
            _ => Err("Bad enum conversion"),
        }
    }
}

/// Reading back the wire number of a document type gives the same type,
/// and every accepted wire number is the number of the type it gives.
pub proof fn document_type_number_round_trip(t: DocumentType, value: int)
    ensures
        document_type_of_number(document_type_number(t)) == Some(t),
        document_type_of_number(value) matches Some(u) ==> document_type_number(u) == value,
        document_type_of_number(value) is Some <==> 0 <= value <= 6,
{
}

/// Role of an account, as stored in the database.
#[derive(Clone, Copy, Debug, PartialEq, Eq, Structural)]
pub enum Role {
    User,
    Admin,
}

/// The account role with wire number `value`, if any (`0` user, `1` admin).
pub open spec fn role_of_number(value: int) -> Option<Role> {
    if value == 0 {
        Some(Role::User)
    } else if value == 1 {
        Some(Role::Admin)
    } else {
        None
    }
}

/// The session role that an account role grants.
pub open spec fn session_role(r: Role) -> jwt_types::Role {
    match r {
        Role::User => jwt_types::Role::User,
        Role::Admin => jwt_types::Role::Admin,
    }
}

impl Role {
    /// The account role with wire number `value`; other numbers are refused.
    pub fn try_from(value: i32) -> (r: Result<Role, &'static str>)
        ensures
            role_of_number(value as int) matches Some(role) ==> r == Ok::<Role, &'static str>(
                role,
            ),
            role_of_number(value as int) is None ==> (r matches Err(m) && m@
                == "Bad enum conversion"@),
    {
        match value {
            0 => Ok(Role::User),
            1 => Ok(Role::Admin),
            _ => Err("Bad enum conversion"),
        }
    }

    /// The session role written into the tokens of an account with this role.
    pub fn into(self) -> (r: jwt_types::Role)
        ensures
            r == session_role(self),
    {
        match self {
            Role::Admin => jwt_types::Role::Admin,
            Role::User => jwt_types::Role::User,
        }
    }
}

/// Visibility of a topic or subtopic.
#[derive(Clone, Copy, Debug, PartialEq, Eq, Structural)]
pub enum Scope {
    Local,
    Global,
}

/// The scope with wire number `value`, if any (`0` local, `1` global).
pub open spec fn scope_of_number(value: int) -> Option<Scope> {
    if value == 0 {
        Some(Scope::Local)
    } else if value == 1 {
        Some(Scope::Global)
    } else {
        None
    }
}

impl Scope {
    /// The scope with wire number `value`; other numbers are refused.
    pub fn try_from(value: i32) -> (r: Result<Scope, &'static str>)
        ensures
            scope_of_number(value as int) matches Some(s) ==> r == Ok::<Scope, &'static str>(s),
            scope_of_number(value as int) is None ==> (r matches Err(m) && m@
                == "Bad enum conversion"@),
    {
        match value {
            0 => Ok(Scope::Local),
            1 => Ok(Scope::Global),
            _ => Err("Bad enum conversion"),
        }
    }
}

/// Direction of a file transfer to a storage node.
#[derive(Clone, Copy, Debug, PartialEq, Eq, Structural)]
pub enum Kind {
    Upload,
    Download,
}

/// A scientific document as read from the database; topic and subtopic
/// names come aggregated, the publication date as seconds since the epoch.
#[derive(Debug)]
pub struct ScientificDocumentRow {
    pub posted_by: String,
    pub title: String,
    pub authors: Vec<String>,
    pub abstract_text: String,
    pub keywords: Vec<String>,
    pub topics: Vec<String>,
    pub sub_topics: Vec<String>,
    pub document_type: DocumentType,
    pub publication_date: i64,
    pub language: String,
}

/// One document found by a search, as read from the database; the id is the
/// document's UUID as a 128-bit number, the date in seconds since the epoch.
#[derive(Debug)]
pub struct SearchResultRow {
    pub id: u128,
    pub posted_by: String,
    pub title: String,
    pub document_type: DocumentType,
    pub publication_date: i64,
    pub language: String,
}

} // verus!
