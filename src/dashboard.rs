use vstd::prelude::*;

use crate::models::ActivityPoint;

verus! {

/// How many records fell on one date, as storage reports it.
#[derive(Clone, Copy, Debug, PartialEq, Eq, Structural)]
pub struct DateCount {
    pub year: i32,
    pub month: u32,
    pub day: u32,
    pub count: i64,
}

/// The largest count that a chart takes; thirteen of them still fit in an `i64`.
pub const MAX_CHART_COUNT: i64 = 0x0800_0000_0000_0000;

/// The earliest and latest years that chrono's dates cover.
pub const MIN_CHART_YEAR: i32 = -262143;

pub const MAX_CHART_YEAR: i32 = 262142;

/// The text of the first day of `month` in `year`, as `%Y-%m-%d` writes it.
pub uninterp spec fn month_start_text(year: int, month: int) -> Seq<char>;

/// Relies on chrono's `NaiveDate::from_ymd_opt` and its `%Y-%m-%d` format:
/// the first day of the month, which exists for every month of a year in
/// chrono's range.
#[verifier::external_body]
fn month_start_label(year: i32, month: u32) -> (r: String)
    requires
        MIN_CHART_YEAR <= year <= MAX_CHART_YEAR,
        1 <= month <= 12,
    ensures
        r@ == month_start_text(year as int, month as int),
{
    chrono::NaiveDate::from_ymd_opt(year, month, 1).map(|d| d.format("%Y-%m-%d").to_string()).unwrap_or_default()
}

/// Whether `d` is the first day of `month` in `year`.
pub open spec fn starts_month(d: DateCount, year: i32, month: int) -> bool {
    d.year == year && d.month as int == month && d.day == 1
}

/// The count reported for the first day of `month` in `year`: the last such
/// record wins, and a month without one counts zero.
pub open spec fn count_for(rows: Seq<DateCount>, year: i32, month: int) -> i64
    decreases rows.len(),
{
    if rows.len() == 0 {
        0
    } else if starts_month(rows.last(), year, month) {
        rows.last().count
    } else {
        count_for(rows.drop_last(), year, month)
    }
}

pub open spec fn counts_bounded(rows: Seq<DateCount>) -> bool {
    forall|i: int| 0 <= i < rows.len() ==> 0 <= #[trigger] rows[i].count <= MAX_CHART_COUNT
}

/// The missions active at the end of month `k` (1 to 12), going back from
/// `active` at the end of the year: each month takes away what was created
/// and joined in the month after it and gives back what was completed there,
/// never going below zero.
pub open spec fn active_at(created: Seq<DateCount>, joined: Seq<DateCount>, completed: Seq<DateCount>, year: i32, active: int, k: int) -> int
    decreases 12 - k,
{
    if k >= 12 {
        active
    } else {
        let next = active_at(created, joined, completed, year, active, k + 1);
        let back = next - count_for(created, year, k + 1) - count_for(joined, year, k + 1)
            + count_for(completed, year, k + 1);
        if back < 0 {
            0
        } else {
            back
        }
    }
}

proof fn lemma_count_bounded(rows: Seq<DateCount>, year: i32, month: int)
    requires
        counts_bounded(rows),
    ensures
        0 <= count_for(rows, year, month) <= MAX_CHART_COUNT,
    decreases rows.len(),
{
    if rows.len() > 0 {
        assert(rows.last() == rows[rows.len() - 1]);
        assert(counts_bounded(rows.drop_last())) by {
            assert forall|i: int| 0 <= i < rows.drop_last().len() implies 0 <= #[trigger] rows.drop_last()[i].count
                <= MAX_CHART_COUNT by {
                assert(rows.drop_last()[i] == rows[i]);
            }
        }
        lemma_count_bounded(rows.drop_last(), year, month);
    }
}

proof fn lemma_active_bounded(created: Seq<DateCount>, joined: Seq<DateCount>, completed: Seq<DateCount>, year: i32, active: int, k: int)
    requires
        counts_bounded(created),
        counts_bounded(joined),
        counts_bounded(completed),
        0 <= active <= MAX_CHART_COUNT,
        1 <= k <= 12,
    ensures
        0 <= active_at(created, joined, completed, year, active, k) <= (13 - k) * MAX_CHART_COUNT,
    decreases 12 - k,
{
    if k < 12 {
        lemma_active_bounded(created, joined, completed, year, active, k + 1);
        lemma_count_bounded(created, year, k + 1);
        lemma_count_bounded(joined, year, k + 1);
        lemma_count_bounded(completed, year, k + 1);
        assert((12 - k) * MAX_CHART_COUNT + MAX_CHART_COUNT == (13 - k) * MAX_CHART_COUNT)
            by (nonlinear_arith);
    } else {
        assert((13 - k) * MAX_CHART_COUNT == MAX_CHART_COUNT);
    }
}

fn lookup(rows: &Vec<DateCount>, year: i32, month: u32) -> (r: i64)
    ensures
        r == count_for(rows@, year, month as int),
{
    let mut i: usize = rows.len();
    assert(rows@.subrange(0, i as int) =~= rows@);
    while i > 0
        invariant
            i <= rows@.len(),
            count_for(rows@, year, month as int) == count_for(rows@.subrange(0, i as int), year, month as int),
        decreases i,
    {
        assert(rows@.subrange(0, i as int).drop_last() =~= rows@.subrange(0, i - 1));
        let d = rows[i - 1];
        if d.year == year && d.month == month && d.day == 1 {
            return d.count;
        }
        i = i - 1;
    }
    0
}

/// The chart of `year`: one point per month, in order, dated on its first
/// day, with the month's created, joined and completed counts and the
/// missions active at its end, going back from `active`.
pub fn build_chart(year: i32, created: &Vec<DateCount>, joined: &Vec<DateCount>, completed: &Vec<DateCount>, active: i64) -> (r: Vec<ActivityPoint>)
    requires
        MIN_CHART_YEAR <= year <= MAX_CHART_YEAR,
        counts_bounded(created@),
        counts_bounded(joined@),
        counts_bounded(completed@),
        0 <= active <= MAX_CHART_COUNT,
    ensures
        r@.len() == 12,
        forall|k: int|
            0 <= k < 12 ==> {
                &&& (#[trigger] r@[k]).date@ == month_start_text(year as int, k + 1)
                &&& r@[k].created == count_for(created@, year, k + 1)
                &&& r@[k].joined == count_for(joined@, year, k + 1)
                &&& r@[k].completed == count_for(completed@, year, k + 1)
                &&& r@[k].active == active_at(created@, joined@, completed@, year, active as int, k + 1)
            },
{
    let mut points: Vec<ActivityPoint> = Vec::new();
    let mut m: u32 = 1;
    while m <= 12
        invariant
            1 <= m <= 13,
            MIN_CHART_YEAR <= year <= MAX_CHART_YEAR,
            points@.len() == m - 1,
            forall|k: int|
                0 <= k < m - 1 ==> {
                    &&& (#[trigger] points@[k]).date@ == month_start_text(year as int, k + 1)
                    &&& points@[k].created == count_for(created@, year, k + 1)
                    &&& points@[k].joined == count_for(joined@, year, k + 1)
                    &&& points@[k].completed == count_for(completed@, year, k + 1)
                },
        decreases 13 - m,
    {
        points.push(
            ActivityPoint {
                date: month_start_label(year, m),
                created: lookup(created, year, m),
                joined: lookup(joined, year, m),
                completed: lookup(completed, year, m),
                active: 0,
            },
        );
        m = m + 1;
    }
    let mut current: i64 = active;
    let mut i: usize = 12;
    while i > 0
        invariant
            i <= 12,
            points@.len() == 12,
            0 <= active <= MAX_CHART_COUNT,
            counts_bounded(created@),
            counts_bounded(joined@),
            counts_bounded(completed@),
            current == active_at(created@, joined@, completed@, year, active as int, i as int),
            forall|k: int|
                0 <= k < 12 ==> {
                    &&& (#[trigger] points@[k]).date@ == month_start_text(year as int, k + 1)
                    &&& points@[k].created == count_for(created@, year, k + 1)
                    &&& points@[k].joined == count_for(joined@, year, k + 1)
                    &&& points@[k].completed == count_for(completed@, year, k + 1)
                },
            forall|k: int|
                i <= k < 12 ==> (#[trigger] points@[k]).active == active_at(
                    created@,
                    joined@,
                    completed@,
                    year,
                    active as int,
                    k + 1,
                ),
        decreases i,
    {
        let ghost k = i as int - 1;
        proof {
            lemma_active_bounded(created@, joined@, completed@, year, active as int, i as int);
            lemma_count_bounded(created@, year, i as int);
            lemma_count_bounded(joined@, year, i as int);
            lemma_count_bounded(completed@, year, i as int);
        }
        let p = &points[i - 1];
        let point = ActivityPoint {
            date: p.date.clone(),
            created: p.created,
            joined: p.joined,
            completed: p.completed,
            active: current,
        };
        let back = current - point.created - point.joined + point.completed;
        points.set(i - 1, point);
        current = if back < 0 {
            0
        } else {
            back
        };
        i = i - 1;
    }
    points
}

} // verus!
