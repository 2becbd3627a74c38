//! The route that describes one package.

use vstd::prelude::*;

verus! {

/// A package as the metadata store describes it.
#[derive(Debug, Clone, PartialEq, Eq)]
pub struct CrateRecord {
    pub id: i64,
    pub name: String,
    pub canon_name: String,
    pub description: Option<String>,
    pub created_at: String,
    pub updated_at: String,
    pub downloads: i64,
    pub documentation: Option<String>,
    pub repository: Option<String>,
}

/// Response body for this route.
#[derive(Debug, Clone, PartialEq, Eq)]
pub struct ResponseBody {
    /// The crate's name.
    pub name: String,
    /// The crate's description.
    pub description: Option<String>,
    /// The crate's repository link.
    pub repository: Option<String>,
    /// The crate's documentation link.
    pub documentation: Option<String>,
    /// The crate's download count.
    pub downloads: i64,
    /// The crate's creation date.
    pub created_at: String,
    /// The crate's last modification date.
    pub updated_at: String,
    /// The crate's keywords.
    pub keywords: Vec<String>,
    /// The crate's categories.
    pub categories: Vec<String>,
}

/// The answer for a package that the metadata store does not have.
#[derive(Debug, Clone, PartialEq, Eq)]
pub struct NotFound {
    pub status: u16,
    pub message: String,
}

/// The description of `krate` with its keywords and categories.
pub open spec fn described(krate: CrateRecord, keywords: Vec<String>, categories: Vec<String>) -> ResponseBody {
    ResponseBody {
        name: krate.name,
        description: krate.description,
        repository: krate.repository,
        documentation: krate.documentation,
        downloads: krate.downloads,
        created_at: krate.created_at,
        updated_at: krate.updated_at,
        keywords,
        categories,
    }
}

/// Decides on the lookup by canonical name: the record goes on to be
/// described, and a package that is not recorded is answered with status 404.
pub fn found(krate: Option<CrateRecord>) -> (looked_up: Result<CrateRecord, NotFound>)
    ensures
        krate matches Some(record) ==> looked_up == Ok::<CrateRecord, NotFound>(record),
        krate is None ==> (looked_up matches Err(answer) && answer.status == 404 && answer.message@
            == "the crate could not be found"@),
{
    match krate {
        Some(record) => Ok(record),
        None => Err(NotFound { status: 404, message: "the crate could not be found".to_owned() }),
    }
}

/// Builds the response for a package that was found: the record's own
/// fields, and the keywords and categories that were joined to it, in the
/// order in which the store gave them.
pub fn get(krate: CrateRecord, keywords: Vec<String>, categories: Vec<String>) -> (body: ResponseBody)
    ensures
        body == described(krate, keywords, categories),
{
    ResponseBody {
        keywords,
        categories,
        name: krate.name,
        description: krate.description,
        repository: krate.repository,
        documentation: krate.documentation,
        downloads: krate.downloads,
        created_at: krate.created_at,
        updated_at: krate.updated_at,
    }
}

} // verus!
