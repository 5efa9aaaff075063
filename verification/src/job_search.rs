//! The SQL of a job search: conditions for each present filter, the sort
//! order, paging, and the parameters bound to the placeholders. Running the
//! query is the application's part.
use vstd::prelude::*;
use crate::text::{chars_of, string_from_chars, append_chars, decimal, decimal_text};
use crate::models::{
    RemoteWorkType, EmploymentType, ExperienceLevel, JobStatus, JobPriority, ApplicationStatus,
    JobSortOption, SortOrder,
};

verus! {

/// A search over the stored job descriptions.
#[derive(Debug, Clone)]
pub struct JobSearchRequest {
    pub query: Option<String>,
    pub company: Option<String>,
    pub location: Option<String>,
    pub remote_options: Option<Vec<RemoteWorkType>>,
    pub employment_type: Option<Vec<EmploymentType>>,
    pub experience_level: Option<Vec<ExperienceLevel>>,
    pub salary_min: Option<i64>,
    pub salary_max: Option<i64>,
    pub status: Option<Vec<JobStatus>>,
    pub priority: Option<Vec<JobPriority>>,
    pub application_status: Option<Vec<ApplicationStatus>>,
    pub industry: Option<String>,
    pub tags: Option<Vec<String>>,
    /// Lower bound of the posting date, in RFC 3339 form.
    pub posted_after: Option<String>,
    /// Upper bound of the posting date, in RFC 3339 form.
    pub posted_before: Option<String>,
    pub include_archived: Option<bool>,
    pub limit: Option<i64>,
    pub offset: Option<i64>,
    pub sort_by: Option<JobSortOption>,
    pub sort_order: Option<SortOrder>,
}

/// The SQL of a search and of the count of its matches, with the values of
/// the placeholders.
#[derive(Debug, Clone)]
pub struct JobSearchQuery {
    pub query: String,
    pub count_query: String,
    /// Values of the placeholders `?1`, `?2`, ... of `query`, in order.
    pub params: Vec<String>,
    /// How many of `params`, from the first, are bound to `count_query`:
    /// all but the last two (all of them when there are fewer than two).
    pub count_params: usize,
}

/// Where-clause text and parameters built so far.
pub type Building = (Seq<char>, Seq<Seq<char>>);

/// `text` between percent signs, a pattern for `LIKE`.
pub open spec fn like_pattern(text: Seq<char>) -> Seq<char> {
    "%"@ + text + "%"@
}

/// Adds a condition `clause` with the next placeholder, bound to `value`.
pub open spec fn add_condition(b: Building, clause: Seq<char>, value: Seq<char>) -> Building {
    (b.0 + clause + decimal((b.1.len() + 1) as int), b.1.push(value))
}

/// The column that a sort option names.
pub open spec fn sort_column(s: JobSortOption) -> Seq<char> {
    match s {
        JobSortOption::CreatedAt => "created_at"@,
        JobSortOption::UpdatedAt => "updated_at"@,
        JobSortOption::PostedDate => "posted_date"@,
        JobSortOption::ApplicationDeadline => "application_deadline"@,
        JobSortOption::Priority => "priority"@,
        JobSortOption::Title => "title"@,
        JobSortOption::Company => "company"@,
        JobSortOption::SalaryMin => "salary_range_min"@,
        JobSortOption::SalaryMax => "salary_range_max"@,
    }
}

/// The conditions and parameters of the filters of `r`: text search,
/// company, location, salary bounds, industry, and archived jobs left out
/// unless asked for.
pub open spec fn search_conditions(r: JobSearchRequest) -> Building {
    let b0: Building = (Seq::empty(), Seq::empty());
    let b1 = match r.query {
        Some(q) => (
            b0.0 + " AND (title LIKE ?1 OR company LIKE ?1 OR content LIKE ?1)"@,
            b0.1.push(like_pattern(q@)),
        ),
        None => b0,
    };
    let b2 = match r.company {
        Some(c) => add_condition(b1, " AND company LIKE ?"@, like_pattern(c@)),
        None => b1,
    };
    let b3 = match r.location {
        Some(l) => add_condition(b2, " AND location LIKE ?"@, like_pattern(l@)),
        None => b2,
    };
    let b4 = match r.salary_min {
        Some(m) => add_condition(b3, " AND salary_range_max >= ?"@, decimal(m as int)),
        None => b3,
    };
    let b5 = match r.salary_max {
        Some(m) => add_condition(b4, " AND salary_range_min <= ?"@, decimal(m as int)),
        None => b4,
    };
    let b6 = match r.industry {
        Some(i) => add_condition(b5, " AND industry LIKE ?"@, like_pattern(i@)),
        None => b5,
    };
    if r.include_archived == Some(true) {
        b6
    } else {
        (b6.0 + " AND is_archived = FALSE"@, b6.1)
    }
}

/// The sort clause: by the chosen column, descending unless ascending is
/// asked for; by the time of the last change, descending, by default.
pub open spec fn order_clause(r: JobSearchRequest) -> Seq<char> {
    match r.sort_by {
        Some(s) => " ORDER BY "@ + sort_column(s) + if r.sort_order == Some(SortOrder::Asc) {
            " ASC"@
        } else {
            " DESC"@
        },
        None => " ORDER BY updated_at DESC"@,
    }
}

/// The paging clauses and parameters, after the filter ones.
pub open spec fn paging(r: JobSearchRequest, b: Building) -> Building {
    let b1 = match r.limit {
        Some(n) => add_condition(b, " LIMIT ?"@, decimal(n as int)),
        None => b,
    };
    match r.offset {
        Some(n) => add_condition(b1, " OFFSET ?"@, decimal(n as int)),
        None => b1,
    }
}

/// The search SQL and its parameters.
pub open spec fn search_query(r: JobSearchRequest) -> Building {
    let c = search_conditions(r);
    paging(r, ("SELECT * FROM job_descriptions WHERE 1=1"@ + c.0 + order_clause(r), c.1))
}

/// The count SQL.
pub open spec fn count_query(r: JobSearchRequest) -> Seq<char> {
    "SELECT COUNT(*) as total FROM job_descriptions WHERE 1=1"@ + search_conditions(r).0
}

/// Appends a condition with the next placeholder and binds `value`.
fn push_condition(text: &mut Vec<char>, params: &mut Vec<String>, clause: &str, value: String)
    requires
        old(params).len() < 100,
    ensures
        final(params).len() == old(params).len() + 1,
        (final(text)@, final(params)@.map_values(|p: String| p@)) == add_condition(
            (old(text)@, old(params)@.map_values(|p: String| p@)),
            clause@,
            value@,
        ),
{
    append_chars(text, &chars_of(clause));
    let idx = decimal_text((params.len() + 1) as i64);
    append_chars(text, &chars_of(idx.as_str()));
    let ghost before = params@;
    params.push(value);
    assert(params@.map_values(|p: String| p@) == before.map_values(|p: String| p@).push(value@));
}

/// `text` between percent signs.
fn like_of(text: &String) -> (res: String)
    ensures
        res@ == like_pattern(text@),
{
    let mut v: Vec<char> = Vec::new();
    append_chars(&mut v, &chars_of("%"));
    append_chars(&mut v, &chars_of(text.as_str()));
    append_chars(&mut v, &chars_of("%"));
    string_from_chars(&v)
}

/// The conditions and parameters of the filters of `request`.
fn build_conditions(request: &JobSearchRequest) -> (res: (Vec<char>, Vec<String>))
    ensures
        (res.0@, res.1@.map_values(|p: String| p@)) == search_conditions(*request),
        res.1.len() <= 6,
{
    let mut w: Vec<char> = Vec::new();
    let mut params: Vec<String> = Vec::new();
    if let Some(q) = &request.query {
        append_chars(&mut w, &chars_of(" AND (title LIKE ?1 OR company LIKE ?1 OR content LIKE ?1)"));
        let pat = like_of(q);
        params.push(pat);
        assert(params@.map_values(|p: String| p@) == seq![pat@]);
    }
    let ghost b1: Building = (w@, params@.map_values(|p: String| p@));
    if let Some(c) = &request.company {
        push_condition(&mut w, &mut params, " AND company LIKE ?", like_of(c));
    }
    let ghost b2: Building = (w@, params@.map_values(|p: String| p@));
    if let Some(l) = &request.location {
        push_condition(&mut w, &mut params, " AND location LIKE ?", like_of(l));
    }
    let ghost b3: Building = (w@, params@.map_values(|p: String| p@));
    if let Some(m) = request.salary_min {
        push_condition(&mut w, &mut params, " AND salary_range_max >= ?", decimal_text(m));
    }
    let ghost b4: Building = (w@, params@.map_values(|p: String| p@));
    if let Some(m) = request.salary_max {
        push_condition(&mut w, &mut params, " AND salary_range_min <= ?", decimal_text(m));
    }
    let ghost b5: Building = (w@, params@.map_values(|p: String| p@));
    if let Some(i) = &request.industry {
        push_condition(&mut w, &mut params, " AND industry LIKE ?", like_of(i));
    }
    let keep_archived = match request.include_archived {
        Some(b) => b,
        None => false,
    };
    if !keep_archived {
        append_chars(&mut w, &chars_of(" AND is_archived = FALSE"));
    }
    (w, params)
}

/// Appends the sort clause of `request`.
fn push_order(q: &mut Vec<char>, request: &JobSearchRequest)
    ensures
        final(q)@ == old(q)@ + order_clause(*request),
{
    match request.sort_by {
        Some(s) => {
            append_chars(q, &chars_of(" ORDER BY "));
            let column = match s {
                JobSortOption::CreatedAt => "created_at",
                JobSortOption::UpdatedAt => "updated_at",
                JobSortOption::PostedDate => "posted_date",
                JobSortOption::ApplicationDeadline => "application_deadline",
                JobSortOption::Priority => "priority",
                JobSortOption::Title => "title",
                JobSortOption::Company => "company",
                JobSortOption::SalaryMin => "salary_range_min",
                JobSortOption::SalaryMax => "salary_range_max",
            };
            append_chars(q, &chars_of(column));
            let asc = match request.sort_order {
                Some(SortOrder::Asc) => true,
                _ => false,
            };
            if asc {
                append_chars(q, &chars_of(" ASC"));
            } else {
                append_chars(q, &chars_of(" DESC"));
            }
        },
        None => {
            append_chars(q, &chars_of(" ORDER BY updated_at DESC"));
        },
    }
}

/// The SQL of a search, the SQL counting its matches, and the parameters.
pub fn build_search_query(request: &JobSearchRequest) -> (res: JobSearchQuery)
    ensures
        res.query@ == search_query(*request).0,
        res.params@.map_values(|p: String| p@) == search_query(*request).1,
        res.count_query@ == count_query(*request),
        res.count_params == search_conditions(*request).1.len(),
{
    let (w, mut params) = build_conditions(request);
    let count_params = params.len();
    let mut q: Vec<char> = Vec::new();
    append_chars(&mut q, &chars_of("SELECT * FROM job_descriptions WHERE 1=1"));
    append_chars(&mut q, &w);
    push_order(&mut q, request);
    let ghost b: Building = (q@, params@.map_values(|p: String| p@));
    if let Some(n) = request.limit {
        push_condition(&mut q, &mut params, " LIMIT ?", decimal_text(n));
    }
    if let Some(n) = request.offset {
        push_condition(&mut q, &mut params, " OFFSET ?", decimal_text(n));
    }
    let mut c: Vec<char> = Vec::new();
    append_chars(&mut c, &chars_of("SELECT COUNT(*) as total FROM job_descriptions WHERE 1=1"));
    append_chars(&mut c, &w);
    JobSearchQuery {
        query: string_from_chars(&q),
        count_query: string_from_chars(&c),
        params,
        count_params,
    }
}

/// Whether more results may follow: the page is full, that is, as many jobs
/// came back as the limit asked for.
pub fn search_has_more(limit: Option<i64>, returned: usize) -> (res: bool)
    ensures
        res == match limit {
            Some(n) => returned == n,
            None => false,
        },
{
    match limit {
        Some(n) => n >= 0 && (returned as u128) == (n as u128),
        None => false,
    }
}

} // verus!
