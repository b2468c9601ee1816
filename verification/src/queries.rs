//! What callers ask when they list things.

use vstd::prelude::*;
use crate::ident::EntityId;
use crate::value_objects::enums::TaskStatus;

verus! {

/// The number of entries on a page where none is asked for.
pub const DEFAULT_PER_PAGE: u32 = 20;

/// The greatest number of entries on a page.
pub const MAX_PER_PAGE: u32 = 100;

/// Which page of a list is asked for, and how long a page is.
#[derive(Clone, Copy, Debug, Default)]
pub struct PaginationQuery {
    pub page: Option<u32>,
    pub per_page: Option<u32>,
}

impl PaginationQuery {
    /// The page asked for, counted from one; none and zero count as one.
    pub open spec fn page_number(&self) -> u32 {
        match self.page {
            Some(page) => if page >= 1 {
                page
            } else {
                1
            },
            None => 1,
        }
    }

    /// The length of a page: what is asked for, but no more than the
    /// greatest length, and the default where nothing is asked for.
    pub open spec fn spec_per_page(&self) -> u32 {
        match self.per_page {
            Some(n) => if n <= MAX_PER_PAGE {
                n
            } else {
                MAX_PER_PAGE
            },
            None => DEFAULT_PER_PAGE,
        }
    }

    /// The number of entries before the page asked for.
    pub open spec fn spec_offset(&self) -> int {
        (self.page_number() - 1) * self.spec_per_page()
    }

    /// The number of entries before the page asked for.
    pub fn offset(&self) -> (r: u32)
        requires
            self.spec_offset() <= u32::MAX,
        ensures
            r == self.spec_offset(),
    {
        let page: u32 = match self.page {
            Some(page) => if page >= 1 {
                page
            } else {
                1
            },
            None => 1,
        };
        let per_page: u32 = self.per_page();
        (page - 1) * per_page
    }

    /// The length of a page.
    #[verifier::when_used_as_spec(spec_per_page)]
    pub fn per_page(&self) -> (r: u32)
        ensures
            r == self.spec_per_page(),
            r <= MAX_PER_PAGE,
    {
        match self.per_page {
            Some(n) => if n <= MAX_PER_PAGE {
                n
            } else {
                MAX_PER_PAGE
            },
            None => DEFAULT_PER_PAGE,
        }
    }
}

/// Which projects are asked for.
#[derive(Clone, Copy, Debug, Default)]
pub struct ProjectQuery {
    pub owner_id: Option<EntityId>,
    pub pagination: PaginationQuery,
}

/// Which tasks are asked for.
#[derive(Clone, Copy, Debug, Default)]
pub struct TaskQuery {
    pub project_id: Option<EntityId>,
    pub assignee_id: Option<EntityId>,
    pub status: Option<TaskStatus>,
    pub pagination: PaginationQuery,
}

/// The first page starts at the first entry, pages follow each other
/// without a gap, and the offset of every page up to the forty millionth
/// fits the machine's integers.
pub proof fn lemma_pages_tile(query: PaginationQuery, next: PaginationQuery)
    requires
        next.per_page == query.per_page,
        next.page_number() == query.page_number() + 1,
    ensures
        query.page_number() == 1 ==> query.spec_offset() == 0,
        next.spec_offset() == query.spec_offset() + query.spec_per_page(),
        query.page_number() <= 40_000_000 ==> query.spec_offset() <= u32::MAX,
{
    assert(query.page_number() == 1 ==> query.spec_offset() == 0) by (nonlinear_arith)
        requires
            query.spec_offset() == (query.page_number() - 1) * query.spec_per_page(),
    ;
    assert(next.spec_offset() == query.spec_offset() + query.spec_per_page()) by (nonlinear_arith)
        requires
            next.spec_offset() == (next.page_number() - 1) * next.spec_per_page(),
            query.spec_offset() == (query.page_number() - 1) * query.spec_per_page(),
            next.spec_per_page() == query.spec_per_page(),
            next.page_number() == query.page_number() + 1,
    ;
    assert(query.page_number() <= 40_000_000 ==> query.spec_offset() <= u32::MAX)
        by (nonlinear_arith)
        requires
            query.spec_offset() == (query.page_number() - 1) * query.spec_per_page(),
            query.spec_per_page() <= 100,
            query.page_number() >= 1,
    ;
}

} // verus!
