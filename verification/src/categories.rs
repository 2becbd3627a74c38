//! The route that lists the categories.

use vstd::prelude::*;

verus! {

/// A category as the metadata store holds it.
#[derive(Debug, Clone, PartialEq, Eq)]
pub struct Category {
    pub id: i64,
    pub tag: String,
    pub name: String,
    pub description: String,
}

/// A category as the route shows it.
#[derive(Debug, Clone, PartialEq, Eq)]
pub struct CategoriesResult {
    pub name: String,
    pub tag: String,
    pub description: String,
}

/// How many categories the response lists.
#[derive(Debug, Clone, PartialEq, Eq)]
pub struct CategoriesMeta {
    pub total: usize,
}

/// The response of the route.
#[derive(Debug, Clone, PartialEq, Eq)]
pub struct CategoriesResponse {
    pub categories: Vec<CategoriesResult>,
    pub meta: CategoriesMeta,
}

/// What the route shows of a category: everything but its row id.
pub open spec fn shown(category: Category) -> CategoriesResult {
    CategoriesResult { name: category.name, tag: category.tag, description: category.description }
}

impl From<Category> for CategoriesResult {
    fn from(category: Category) -> (result: CategoriesResult) {
        CategoriesResult { name: category.name, tag: category.tag, description: category.description }
    }
}

impl vstd::std_specs::convert::FromSpecImpl<Category> for CategoriesResult {
    open spec fn obeys_from_spec() -> bool {
        true
    }

    open spec fn from_spec(category: Category) -> CategoriesResult {
        shown(category)
    }
}

/// Builds the listing: every category of the store, in the store's order,
/// and their number.
pub fn get(categories: Vec<Category>) -> (listing: CategoriesResponse)
    ensures
        listing.categories@ == categories@.map_values(|c: Category| shown(c)),
        listing.meta.total == categories@.len(),
{
    let mut results: Vec<CategoriesResult> = Vec::new();
    let n: usize = categories.len();
    let mut i: usize = 0;
    while i < n
        invariant
            n == categories@.len(),
            i <= n,
            results@ == categories@.subrange(0, i as int).map_values(|c: Category| shown(c)),
        decreases n - i,
    {
        let category = &categories[i];
        let copy = Category {
            id: category.id,
            tag: category.tag.clone(),
            name: category.name.clone(),
            description: category.description.clone(),
        };
        results.push(CategoriesResult::from(copy));
        i = i + 1;
        assert(results@ =~= categories@.subrange(0, i as int).map_values(|c: Category| shown(c)));
    }
    assert(categories@.subrange(0, n as int) =~= categories@);
    let total: usize = results.len();
    CategoriesResponse { categories: results, meta: CategoriesMeta { total } }
}

} // verus!
