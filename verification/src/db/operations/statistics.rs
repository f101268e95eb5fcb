use crate::text::{decimal_int, i64_to_string};
use vstd::hash_map::StringHashMap;
use vstd::prelude::*;

verus! {

/// The headline figures of the statistics page.
#[derive(Clone, Debug)]
pub struct StatisticsOverview {
    pub open_tickets: i64,
    pub total_closed: i64,
    pub closed_today: i64,
    pub closed_this_week: i64,
    pub closed_this_month: i64,
    pub avg_response_time_seconds: Option<i64>,
    pub avg_resolution_time_seconds: Option<i64>,
}

/// The tickets created and closed on one day (`YYYY-MM-DD`).
#[derive(Clone, Debug)]
pub struct DailyActivity {
    pub date: String,
    pub created: i64,
    pub closed: i64,
}

/// A staff member's line in the leaderboard.
#[derive(Clone, Debug)]
pub struct StaffMember {
    pub user_id: String,
    pub username: String,
    pub messages_count: i64,
    pub tickets_closed: i64,
    pub avg_response_time_seconds: Option<i64>,
}

/// The best staff member for one measure.
#[derive(Clone, Debug)]
pub struct TopPerformer {
    pub user_id: String,
    pub username: String,
    pub value: i64,
}

/// The best staff members: fastest to answer, most messages, most tickets closed.
#[derive(Clone, Debug)]
pub struct TopPerformers {
    pub fastest_responder: Option<TopPerformer>,
    pub most_messages: Option<TopPerformer>,
    pub most_tickets_closed: Option<TopPerformer>,
}

impl StaffMember {
    /// A leaderboard line from a counted row: the numeric user id is written in
    /// decimal and no average response time is given.
    pub fn from_row(user_id: i64, username: String, messages_count: i64, tickets_closed: i64) -> (r:
        Self)
        ensures
            r.user_id@ == decimal_int(user_id as int),
            r.username == username,
            r.messages_count == messages_count,
            r.tickets_closed == tickets_closed,
            r.avg_response_time_seconds is None,
    {
        StaffMember {
            user_id: i64_to_string(user_id),
            username,
            messages_count,
            tickets_closed,
            avg_response_time_seconds: None,
        }
    }
}

impl TopPerformer {
    /// A top performer from a row whose user id is numeric.
    pub fn from_numeric_row(user_id: i64, username: String, value: i64) -> (r: Self)
        ensures
            r.user_id@ == decimal_int(user_id as int),
            r.username == username,
            r.value == value,
    {
        TopPerformer { user_id: i64_to_string(user_id), username, value }
    }
}

/// The counts of a list of `(day, count)` rows, by day; a later row for the
/// same day replaces an earlier one.
pub open spec fn counts_by_day(rows: Seq<(Seq<char>, i64)>) -> Map<Seq<char>, i64>
    decreases rows.len(),
{
    if rows.len() == 0 {
        Map::empty()
    } else {
        counts_by_day(rows.drop_last()).insert(rows.last().0, rows.last().1)
    }
}

/// The count of a day, zero when no row gives one.
pub open spec fn count_on(counts: Map<Seq<char>, i64>, day: Seq<char>) -> i64 {
    if counts.contains_key(day) {
        counts[day]
    } else {
        0
    }
}

/// The activity of each of the given days, in order.
pub open spec fn activity_spec(
    days: Seq<Seq<char>>,
    created: Map<Seq<char>, i64>,
    closed: Map<Seq<char>, i64>,
) -> Seq<(Seq<char>, i64, i64)> {
    Seq::new(days.len(), |i: int| (days[i], count_on(created, days[i]), count_on(closed, days[i])))
}

/// The view of a list of `(day, count)` rows.
pub open spec fn rows_view(rows: Seq<(String, i64)>) -> Seq<(Seq<char>, i64)> {
    rows.map_values(|r: (String, i64)| (r.0@, r.1))
}

fn count_map(rows: &Vec<(String, i64)>) -> (r: StringHashMap<i64>)
    ensures
        r@ == counts_by_day(rows_view(rows@)),
{
    let mut m: StringHashMap<i64> = StringHashMap::new();
    let mut i: usize = 0;
    assert(rows_view(rows@).take(0) =~= Seq::<(Seq<char>, i64)>::empty());
    while i < rows.len()
        invariant
            i <= rows.len(),
            m@ == counts_by_day(rows_view(rows@).take(i as int)),
        decreases rows.len() - i,
    {
        let (day, n) = &rows[i];
        m.insert(day.clone(), *n);
        assert(rows_view(rows@).take(i + 1).drop_last() =~= rows_view(rows@).take(i as int));
        i = i + 1;
    }
    assert(rows_view(rows@).take(rows.len() as int) =~= rows_view(rows@));
    m
}

/// The activity of each day of `days`, from the rows counting created and
/// closed tickets by day.
pub fn daily_activity(
    days: &Vec<String>,
    created_rows: &Vec<(String, i64)>,
    closed_rows: &Vec<(String, i64)>,
) -> (r: Vec<DailyActivity>)
    ensures
        r@.map_values(|d: DailyActivity| (d.date@, d.created, d.closed)) == activity_spec(
            days@.map_values(|s: String| s@),
            counts_by_day(rows_view(created_rows@)),
            counts_by_day(rows_view(closed_rows@)),
        ),
{
    let created = count_map(created_rows);
    let closed = count_map(closed_rows);
    let ghost dv = days@.map_values(|s: String| s@);
    let mut out: Vec<DailyActivity> = Vec::new();
    let mut i: usize = 0;
    while i < days.len()
        invariant
            i <= days.len(),
            out@.len() == i,
            dv == days@.map_values(|s: String| s@),
            created@ == counts_by_day(rows_view(created_rows@)),
            closed@ == counts_by_day(rows_view(closed_rows@)),
            out@.map_values(|d: DailyActivity| (d.date@, d.created, d.closed)) == activity_spec(
                dv,
                created@,
                closed@,
            ).take(i as int),
        decreases days.len() - i,
    {
        let day = &days[i];
        let c = match created.get(day.as_str()) {
            Some(n) => *n,
            None => 0,
        };
        let d = match closed.get(day.as_str()) {
            Some(n) => *n,
            None => 0,
        };
        let ghost before = out@;
        out.push(DailyActivity { date: day.clone(), created: c, closed: d });
        assert(dv[i as int] == days@[i as int]@);
        assert(out@[i as int].date@ == dv[i as int]);
        assert forall|k: int| 0 <= k < i implies out@[k] == before[k] by {}
        assert(before.map_values(|d: DailyActivity| (d.date@, d.created, d.closed)).len() == i);
        assert(out@.map_values(|d: DailyActivity| (d.date@, d.created, d.closed)) =~= activity_spec(
            dv,
            created@,
            closed@,
        ).take(i + 1));
        i = i + 1;
    }
    assert(activity_spec(dv, created@, closed@).take(days.len() as int) =~= activity_spec(
        dv,
        created@,
        closed@,
    ));
    out
}

/// The rows of a day count query, gathered by day: a day has a count exactly
/// when some row names it, and that count is the one of the last row naming it.
pub proof fn lemma_counts_by_day(rows: Seq<(Seq<char>, i64)>, day: Seq<char>, j: int)
    ensures
        counts_by_day(rows).contains_key(day) <==> exists|i: int|
            0 <= i < rows.len() && (#[trigger] rows[i]).0 == day,
        (0 <= j < rows.len() && rows[j].0 == day && forall|k: int|
            j < k < rows.len() ==> (#[trigger] rows[k]).0 != day) ==> counts_by_day(rows)[day]
            == rows[j].1,
    decreases rows.len(),
{
    if rows.len() > 0 {
        let init = rows.drop_last();
        lemma_counts_by_day(init, day, j);
        if rows.last().0 == day {
            assert(rows[rows.len() - 1].0 == day);
        } else {
            assert forall|i: int| 0 <= i < rows.len() && (#[trigger] rows[i]).0 == day implies exists|
                i2: int,
            | 0 <= i2 < init.len() && (#[trigger] init[i2]).0 == day by {
                assert(init[i] == rows[i]);
            }
            assert forall|i: int| 0 <= i < init.len() && (#[trigger] init[i]).0 == day implies exists|
                i2: int,
            | 0 <= i2 < rows.len() && (#[trigger] rows[i2]).0 == day by {
                assert(init[i] == rows[i]);
            }
            if 0 <= j < rows.len() && rows[j].0 == day && forall|k: int|
                j < k < rows.len() ==> (#[trigger] rows[k]).0 != day {
                assert(j < rows.len() - 1);
                assert(init[j] == rows[j]);
                assert forall|k: int| j < k < init.len() implies (#[trigger] init[k]).0 != day by {
                    assert(init[k] == rows[k]);
                }
            }
        }
    }
}

} // verus!
