use vstd::prelude::*;

verus! {

/// The page served when a request names none, or names one below 1.
pub const DEFAULT_PAGE: i64 = 1;

/// The page size used when a request names none, or names one below 1.
pub const DEFAULT_PAGE_SIZE: i64 = 20;

/// A page request as it arrives from a query string: either part may be absent
/// or out of range.
pub struct Pagination {
    pub page: Option<i64>,
    pub page_size: Option<i64>,
}

/// A page request after normalization: both parts are at least 1.
#[derive(Clone, Copy, Debug, PartialEq, Eq, Structural)]
pub struct PageRequest {
    pub page: i64,
    pub page_size: i64,
}

/// One page of results together with the numbers needed to navigate the others.
pub struct PaginatedResponse<T> {
    pub data: Vec<T>,
    pub page: i64,
    pub page_size: i64,
    pub total_count: u64,
    pub total_pages: u64,
}

/// The mathematical content of a `PaginatedResponse`.
pub struct PageModel<T> {
    pub data: Seq<T>,
    pub page: int,
    pub page_size: int,
    pub total_count: nat,
    pub total_pages: nat,
}

impl<T> View for PaginatedResponse<T> {
    type V = PageModel<T>;

    open spec fn view(&self) -> PageModel<T> {
        PageModel {
            data: self.data@,
            page: self.page as int,
            page_size: self.page_size as int,
            total_count: self.total_count as nat,
            total_pages: self.total_pages as nat,
        }
    }
}

/// A value taken from a request: kept when it is at least 1, else the default.
pub open spec fn normalized(value: Option<i64>, default: i64) -> i64 {
    match value {
        Some(v) => if v >= 1 { v } else { default },
        None => default,
    }
}

/// The normalized form of a page request.
pub open spec fn normalized_request(p: Pagination) -> PageRequest {
    PageRequest {
        page: normalized(p.page, DEFAULT_PAGE),
        page_size: normalized(p.page_size, DEFAULT_PAGE_SIZE),
    }
}

/// The number of pages needed for `count` rows, `size` rows to a page: the
/// ceiling of `count / size`, which is 0 for no rows.
pub open spec fn pages_for(count: nat, size: nat) -> nat
    recommends
        size > 0,
{
    if count % size == 0 {
        count / size
    } else {
        count / size + 1
    }
}

/// The number of rows that come before the requested page, capped at the
/// largest offset a query can carry.
pub open spec fn offset_of(r: PageRequest) -> int {
    let raw = (r.page - 1) * r.page_size;
    if raw > i64::MAX {
        i64::MAX as int
    } else {
        raw
    }
}

/// The rows of `rows` that fall on the requested page: those at positions
/// `offset .. offset + page_size`, as far as `rows` reaches.
pub open spec fn page_slice<T>(rows: Seq<T>, r: PageRequest) -> Seq<T> {
    let start = if offset_of(r) < rows.len() { offset_of(r) } else { rows.len() as int };
    let end = if start + r.page_size < rows.len() { start + r.page_size } else { rows.len() as int };
    rows.subrange(start, end)
}

/// The response that `rows` (all rows that match, in order) give for request `r`.
pub open spec fn page_model<T>(rows: Seq<T>, r: PageRequest) -> PageModel<T> {
    PageModel {
        data: page_slice(rows, r),
        page: r.page as int,
        page_size: r.page_size as int,
        total_count: rows.len(),
        total_pages: pages_for(rows.len(), r.page_size as nat),
    }
}

impl PageRequest {
    pub open spec fn wf(&self) -> bool {
        self.page >= 1 && self.page_size >= 1
    }

    /// The number of rows to skip before this page.
    pub fn offset(&self) -> (r: i64)
        requires
            self.wf(),
        ensures
            r as int == offset_of(*self),
            r >= 0,
    {
        let before = self.page - 1;
        match before.checked_mul(self.page_size) {
            Some(n) => n,
            None => {
                assert((self.page - 1) * self.page_size >= 0) by (nonlinear_arith)
                    requires
                        self.page >= 1,
                        self.page_size >= 1,
                ;
                i64::MAX
            },
        }
    }
}

impl Pagination {
    /// Fills in absent parts and replaces values below 1 with the defaults;
    /// never fails.
    pub fn normalize(&self) -> (r: PageRequest)
        ensures
            r == normalized_request(*self),
            r.wf(),
    {
        let page = match self.page {
            Some(p) => if p >= 1 { p } else { DEFAULT_PAGE },
            None => DEFAULT_PAGE,
        };
        let page_size = match self.page_size {
            Some(s) => if s >= 1 { s } else { DEFAULT_PAGE_SIZE },
            None => DEFAULT_PAGE_SIZE,
        };
        PageRequest { page, page_size }
    }
}

impl Default for Pagination {
    fn default() -> (r: Pagination)
        ensures
            r.page is None,
            r.page_size is None,
    {
        Pagination { page: None, page_size: None }
    }
}

/// The number of pages needed for `total_count` rows, `page_size` to a page.
pub fn total_pages(total_count: u64, page_size: i64) -> (r: u64)
    requires
        page_size >= 1,
    ensures
        r as nat == pages_for(total_count as nat, page_size as nat),
{
    let size = page_size as u64;
    let whole = total_count / size;
    if total_count % size == 0 {
        whole
    } else {
        assert(whole < total_count) by (nonlinear_arith)
            requires
                whole == total_count / size,
                size >= 1,
                total_count % size != 0,
        ;
        whole + 1
    }
}

/// A predicate written by the developer, never built from request input:
/// only a `'static` string can become one. It may end with an `ORDER BY`
/// clause, and refers to bind values with `?` placeholders in order.
pub struct Fragment {
    pub text: &'static str,
}

/// The two statements that fetch one page, and what they are bound with.
/// `count_sql` takes `binds`; `data_sql` takes `binds`, then `limit`, then `offset`.
pub struct QueryPlan {
    pub request: PageRequest,
    pub count_sql: String,
    pub data_sql: String,
    pub binds: Vec<String>,
    pub limit: i64,
    pub offset: i64,
}

/// The predicate of the statements: the fragment, or `TRUE` without one.
pub open spec fn predicate_of(filter: Option<Fragment>) -> Seq<char> {
    match filter {
        Some(f) => f.text@,
        None => "TRUE"@,
    }
}

/// The statement that counts the matching rows of `table`.
pub open spec fn count_sql_of(table: Seq<char>, predicate: Seq<char>) -> Seq<char> {
    "SELECT COUNT(*) FROM "@ + table + " WHERE "@ + predicate
}

/// The statement that fetches one page of the matching rows of `table`.
pub open spec fn data_sql_of(table: Seq<char>, predicate: Seq<char>) -> Seq<char> {
    "SELECT * FROM "@ + table + " WHERE "@ + predicate + " LIMIT ? OFFSET ?"@
}

/// What a plan for `table`, request `p`, `filter` and `binds` holds.
pub open spec fn is_plan_for(
    plan: QueryPlan,
    table: Seq<char>,
    p: Pagination,
    filter: Option<Fragment>,
    binds: Seq<String>,
) -> bool {
    &&& plan.request == normalized_request(p)
    &&& plan.count_sql@ == count_sql_of(table, predicate_of(filter))
    &&& plan.data_sql@ == data_sql_of(table, predicate_of(filter))
    &&& plan.binds@ == binds
    &&& plan.limit == plan.request.page_size
    &&& plan.offset as int == offset_of(plan.request)
}

fn predicate_text(filter: &Option<Fragment>) -> (r: &str)
    ensures
        r@ == predicate_of(*filter),
{
    match filter {
        Some(f) => f.text,
        None => "TRUE",
    }
}

/// Plans the count and data statements for one page of the rows of `table`
/// that satisfy `filter`, with `binds` for its placeholders.
pub fn plan_filter(table: &str, pagination: &Pagination, filter: Option<Fragment>, binds: Vec<
    String,
>) -> (r: QueryPlan)
    ensures
        is_plan_for(r, table@, *pagination, filter, binds@),
{
    let request = pagination.normalize();
    let predicate = predicate_text(&filter);
    let mut count_sql = String::from_str("SELECT COUNT(*) FROM ");
    count_sql.append(table);
    count_sql.append(" WHERE ");
    count_sql.append(predicate);
    let mut data_sql = String::from_str("SELECT * FROM ");
    data_sql.append(table);
    data_sql.append(" WHERE ");
    data_sql.append(predicate);
    data_sql.append(" LIMIT ? OFFSET ?");
    let offset = request.offset();
    QueryPlan { request, count_sql, data_sql, binds, limit: request.page_size, offset }
}

/// Plans one page of all the rows of `table`.
pub fn plan(table: &str, pagination: &Pagination) -> (r: QueryPlan)
    ensures
        is_plan_for(r, table@, *pagination, None, Seq::empty()),
{
    let binds: Vec<String> = Vec::new();
    plan_filter(table, pagination, None, binds)
}

/// The response built from a count and the rows that the data statement gave:
/// at most one page of them is kept.
pub open spec fn assembled<T>(r: PageRequest, total_count: nat, rows: Seq<T>) -> PageModel<T> {
    PageModel {
        data: if rows.len() <= r.page_size { rows } else { rows.subrange(0, r.page_size as int) },
        page: r.page as int,
        page_size: r.page_size as int,
        total_count,
        total_pages: pages_for(total_count, r.page_size as nat),
    }
}

/// Builds the response for `request` from the result of the count statement
/// and the rows of the data statement.
pub fn assemble<T>(request: PageRequest, total_count: u64, rows: Vec<T>) -> (r: PaginatedResponse<
    T,
>)
    requires
        request.wf(),
    ensures
        r@ == assembled(request, total_count as nat, rows@),
        r.data@.len() <= r.page_size,
{
    let mut data = rows;
    if (request.page_size as u64) < (data.len() as u64) {
        data.truncate(request.page_size as usize);
    }
    let total_pages = total_pages(total_count, request.page_size);
    PaginatedResponse {
        data,
        page: request.page,
        page_size: request.page_size,
        total_count,
        total_pages,
    }
}

/// Serves one page of `rows`, which hold every matching row in order.
pub fn paginate_rows<T>(rows: Vec<T>, pagination: &Pagination) -> (r: PaginatedResponse<T>)
    ensures
        r@ == page_model(rows@, normalized_request(*pagination)),
        r.data@.len() <= r.page_size,
{
    let request = pagination.normalize();
    let offset = request.offset();
    let total_count = rows.len() as u64;
    let mut rest = rows;
    let start: usize = if (offset as u64) < (rest.len() as u64) {
        offset as usize
    } else {
        rest.len()
    };
    let ghost all = rows@;
    let mut data = rest.split_off(start);
    assert(data@ =~= all.subrange(start as int, all.len() as int));
    if (request.page_size as u64) < (data.len() as u64) {
        data.truncate(request.page_size as usize);
    }
    assert(data@ =~= page_slice(all, request));
    let total_pages = total_pages(total_count, request.page_size);
    PaginatedResponse {
        data,
        page: request.page,
        page_size: request.page_size,
        total_count,
        total_pages,
    }
}

/// A page never holds more rows than the page size.
pub proof fn lemma_page_fits<T>(rows: Seq<T>, r: PageRequest, total_count: nat)
    requires
        r.wf(),
    ensures
        page_model(rows, r).data.len() <= r.page_size,
        assembled(r, total_count, rows).data.len() <= r.page_size,
{
}

/// The page count is the ceiling of the row count over the page size, and is 0
/// when there are no rows.
pub proof fn lemma_total_pages_is_ceiling(count: nat, size: nat)
    requires
        size > 0,
    ensures
        pages_for(count, size) * size >= count,
        count > 0 ==> (pages_for(count, size) - 1) * size < count,
        count == 0 ==> pages_for(count, size) == 0,
{
    let q = count / size;
    let m = count % size;
    assert(count == q * size + m && 0 <= m < size) by (nonlinear_arith)
        requires
            size > 0,
            q == count / size,
            m == count % size,
    ;
    if m == 0 {
        assert(pages_for(count, size) * size == count && (count > 0 ==> (pages_for(count, size)
            - 1) * size < count)) by (nonlinear_arith)
            requires
                pages_for(count, size) == q,
                count == q * size + m,
                m == 0,
                size > 0,
        ;
    } else {
        assert(pages_for(count, size) * size >= count && (pages_for(count, size) - 1) * size
            < count) by (nonlinear_arith)
            requires
                pages_for(count, size) == q + 1,
                count == q * size + m,
                0 < m < size,
        ;
    }
}

/// A page past the last one holds no rows and is still a well-formed response.
pub proof fn lemma_past_last_page_is_empty<T>(rows: Seq<T>, r: PageRequest)
    requires
        r.wf(),
        rows.len() <= i64::MAX,
        r.page > pages_for(rows.len(), r.page_size as nat),
    ensures
        page_model(rows, r).data.len() == 0,
        page_model(rows, r).total_count == rows.len(),
{
    let size = r.page_size as nat;
    let pages = pages_for(rows.len(), size);
    lemma_total_pages_is_ceiling(rows.len(), size);
    assert((r.page - 1) * r.page_size >= pages * size) by (nonlinear_arith)
        requires
            r.page - 1 >= pages,
            size == r.page_size,
            size > 0,
    ;
}

/// Absent values, and values below 1, become the defaults; values of 1 or more
/// are kept. Normalization never fails.
pub proof fn lemma_out_of_range_uses_defaults(p: Pagination)
    ensures
        normalized_request(p).wf(),
        (p.page is None || p.page->0 <= 0) ==> normalized_request(p).page == DEFAULT_PAGE,
        (p.page_size is None || p.page_size->0 <= 0) ==> normalized_request(p).page_size
            == DEFAULT_PAGE_SIZE,
        (p.page is Some && p.page->0 >= 1) ==> normalized_request(p).page == p.page->0,
        (p.page_size is Some && p.page_size->0 >= 1) ==> normalized_request(p).page_size
            == p.page_size->0,
{
}

/// Two plans made from the same inputs are the same, and the same count and rows
/// give the same response: repeating a request against unchanged data repeats
/// its response.
pub proof fn lemma_repeatable<T>(
    table: Seq<char>,
    p: Pagination,
    filter: Option<Fragment>,
    binds: Seq<String>,
    first: QueryPlan,
    second: QueryPlan,
    total_count: nat,
    rows: Seq<T>,
)
    requires
        is_plan_for(first, table, p, filter, binds),
        is_plan_for(second, table, p, filter, binds),
    ensures
        first.request == second.request,
        first.count_sql@ == second.count_sql@,
        first.data_sql@ == second.data_sql@,
        first.binds@ == second.binds@,
        first.limit == second.limit,
        first.offset == second.offset,
        assembled(first.request, total_count, rows) == assembled(second.request, total_count, rows),
        page_model(rows, first.request) == page_model(rows, second.request),
{
}

/// When the data statement returns the window of the matching rows that its
/// `LIMIT` and `OFFSET` select, and the count statement their number, the
/// assembled response is the page of those rows.
pub proof fn lemma_assembled_is_page<T>(rows: Seq<T>, r: PageRequest)
    requires
        r.wf(),
    ensures
        assembled(r, rows.len(), page_slice(rows, r)) == page_model(rows, r),
{
}

} // verus!
