//! Impression and click statistics: recording events, reading a popup's
//! totals, and listing daily totals.

use vstd::prelude::*;
use crate::models::{
    CtrRatio, DailyStatsQuery, LiveRoomPopupStatsRow, PopupStatsDaily, PopupStatsSummary,
    TrackEventRequest, TrackEventResult,
};
use crate::popup_handler::POPUP_NOT_FOUND;
use crate::query::{
    bind_of, clause_if, confirms_existence, count_placeholders, lemma_count_at, lemma_count_concat, lemma_count_free,
    lemma_count_one_inside, lemma_count_one_last, has_text, single_value_query, spec_confirms, string_views, SqlQuery,
};
use crate::reply::{
    bad_request, internal_error, is_failure, is_success, not_found, ok, well_formed,
    DbError, Reply,
};
use crate::stamps::{is_date_text, is_utc_rfc3339, now_rfc3339, today_date};

verus! {

/// The click-through rate of a popup: defined only once it has been shown.
pub open spec fn spec_ctr(impressions: i64, clicks: i64) -> Option<CtrRatio> {
    if impressions > 0 {
        Some(CtrRatio { clicks, impressions })
    } else {
        None
    }
}

/// The click-through rate of `clicks` over `impressions`, or none when the
/// popup has not been shown.
pub fn compute_ctr(impressions: i64, clicks: i64) -> (r: Option<CtrRatio>)
    ensures
        r == spec_ctr(impressions, clicks),
        r is Some <==> impressions > 0,
        r matches Some(c) ==> c.clicks == clicks && c.impressions == impressions,
{
    if impressions > 0 {
        Some(CtrRatio { clicks, impressions })
    } else {
        None
    }
}

/// A stored row of running totals.
#[derive(Debug)]
pub struct SummaryRow {
    pub popup_id: String,
    pub live_room_id: String,
    pub impression_count: i64,
    pub click_count: i64,
    pub last_impression_at: Option<String>,
    pub last_click_at: Option<String>,
    pub updated_at: String,
}

/// The summary reported for a stored row of totals.
pub open spec fn spec_summary(row: SummaryRow) -> PopupStatsSummary {
    PopupStatsSummary {
        popup_id: row.popup_id,
        live_room_id: row.live_room_id,
        impression_count: row.impression_count,
        click_count: row.click_count,
        ctr: spec_ctr(row.impression_count, row.click_count),
        last_impression_at: row.last_impression_at,
        last_click_at: row.last_click_at,
        updated_at: row.updated_at,
    }
}

/// The summary reported for a stored row of totals: the row's fields and the
/// rate of its counts.
pub fn summary_from_row(row: SummaryRow) -> (s: PopupStatsSummary)
    ensures
        s == spec_summary(row),
        s.popup_id == row.popup_id,
        s.live_room_id == row.live_room_id,
        s.impression_count == row.impression_count,
        s.click_count == row.click_count,
        s.last_impression_at == row.last_impression_at,
        s.last_click_at == row.last_click_at,
        s.updated_at == row.updated_at,
        s.ctr is Some <==> row.impression_count > 0,
        s.ctr matches Some(c) ==> c.clicks == row.click_count && c.impressions == row.impression_count,
{
    let ctr = compute_ctr(row.impression_count, row.click_count);
    PopupStatsSummary {
        popup_id: row.popup_id,
        live_room_id: row.live_room_id,
        impression_count: row.impression_count,
        click_count: row.click_count,
        ctr,
        last_impression_at: row.last_impression_at,
        last_click_at: row.last_click_at,
        updated_at: row.updated_at,
    }
}

/// The summary of a popup that exists but has no recorded event.
pub open spec fn spec_zero_summary(popup_id: String, live_room_id: String, now: String) -> PopupStatsSummary {
    PopupStatsSummary {
        popup_id,
        live_room_id,
        impression_count: 0,
        click_count: 0,
        ctr: None,
        last_impression_at: None,
        last_click_at: None,
        updated_at: now,
    }
}

/// The summary of a popup that exists but has no recorded event: zero counts,
/// no rate, no event times.
pub fn zero_summary(popup_id: String, live_room_id: String, now: String) -> (s: PopupStatsSummary)
    ensures
        s == spec_zero_summary(popup_id, live_room_id, now),
        s.popup_id == popup_id,
        s.live_room_id == live_room_id,
        s.impression_count == 0,
        s.click_count == 0,
        s.ctr is None,
        s.last_impression_at is None,
        s.last_click_at is None,
        s.updated_at == now,
{
    PopupStatsSummary {
        popup_id,
        live_room_id,
        impression_count: 0,
        click_count: 0,
        ctr: None,
        last_impression_at: None,
        last_click_at: None,
        updated_at: now,
    }
}

/// A popup's reported summary carries every field of its stored row
/// unchanged, and has a rate exactly when the popup has been shown, made of the
/// row's own click and impression counts.
pub proof fn lemma_summary_reports_row(row: SummaryRow)
    ensures
        ({
            let s = spec_summary(row);
            &&& s.popup_id == row.popup_id
            &&& s.live_room_id == row.live_room_id
            &&& s.impression_count == row.impression_count
            &&& s.click_count == row.click_count
            &&& s.last_impression_at == row.last_impression_at
            &&& s.last_click_at == row.last_click_at
            &&& s.updated_at == row.updated_at
            &&& (s.ctr is Some <==> row.impression_count > 0)
            &&& (s.ctr matches Some(c) ==> c.clicks == row.click_count && c.impressions == row.impression_count)
        }),
{
}

/// Each reported day carries the stored day's fields and counts unchanged,
/// and has a rate exactly when the popup was shown that day, made of that
/// day's own counts.
pub proof fn lemma_daily_reports_row(row: DailyRow)
    ensures
        ({
            let d = spec_daily(row);
            &&& d.popup_id == row.popup_id
            &&& d.live_room_id == row.live_room_id
            &&& d.stat_date == row.stat_date
            &&& d.impression_count == row.impression_count
            &&& d.click_count == row.click_count
            &&& d.updated_at == row.updated_at
            &&& (d.ctr is Some <==> row.impression_count > 0)
            &&& (d.ctr matches Some(c) ==> c.clicks == row.click_count && c.impressions == row.impression_count)
        }),
{
}

/// A popup without stored totals is reported with zero counts, no rate and no
/// event times, in the given room and at the given time.
pub proof fn lemma_zero_summary_is_empty(popup_id: String, live_room_id: String, now: String)
    ensures
        ({
            let s = spec_zero_summary(popup_id, live_room_id, now);
            &&& s.popup_id == popup_id
            &&& s.live_room_id == live_room_id
            &&& s.impression_count == 0
            &&& s.click_count == 0
            &&& s.ctr is None
            &&& s.last_impression_at is None
            &&& s.last_click_at is None
            &&& s.updated_at == now
        }),
{
}

/// The statistics lookups read what their names say: the stored totals of
/// the given popup, the live room of the given popup, and the popups of the
/// given room joined with their totals.
pub proof fn lemma_stats_statements_say_what_they_do()
    ensures
        has_text(SUMMARY_OF_POPUP@, "FROM popup_stats_summary WHERE popup_id = ?"@),
        has_text(ROOM_OF_POPUP@, "SELECT live_room_id FROM live_room_popup WHERE id = ?"@),
        has_text(ROOM_POPUP_STATS@, "LEFT JOIN popup_stats_summary s ON s.popup_id = p.id"@),
        has_text(ROOM_POPUP_STATS@, "WHERE p.live_room_id = ?"@),
{
    reveal_strlit("SELECT popup_id, live_room_id, impression_count, click_count, last_impression_at, last_click_at, updated_at FROM popup_stats_summary WHERE popup_id = ?");
    reveal_strlit("SELECT live_room_id FROM live_room_popup WHERE id = ?");
    reveal_strlit("SELECT p.id, p.live_room_id, p.product_id, p.product_name, p.product_image, p.product_price, p.original_price, p.popup_type, p.title, p.description, p.action_url, p.sort_order, p.enabled, COALESCE(s.impression_count, 0) AS impression_count, COALESCE(s.click_count, 0) AS click_count, CASE WHEN COALESCE(s.impression_count, 0) > 0 THEN (COALESCE(s.click_count, 0) * 100.0 / s.impression_count) ELSE NULL END AS ctr FROM live_room_popup p LEFT JOIN popup_stats_summary s ON s.popup_id = p.id WHERE p.live_room_id = ? ORDER BY p.sort_order ASC, p.created_at DESC");
    reveal_strlit("FROM popup_stats_summary WHERE popup_id = ?");
    reveal_strlit("SELECT live_room_id FROM live_room_popup WHERE id = ?");
    reveal_strlit("LEFT JOIN popup_stats_summary s ON s.popup_id = p.id");
    reveal_strlit("WHERE p.live_room_id = ?");
    assert(SUMMARY_OF_POPUP@.subrange(108, 108 + "FROM popup_stats_summary WHERE popup_id = ?"@.len() as int) =~= "FROM popup_stats_summary WHERE popup_id = ?"@);
    assert(ROOM_OF_POPUP@.subrange(0, 0 + "SELECT live_room_id FROM live_room_popup WHERE id = ?"@.len() as int) =~= "SELECT live_room_id FROM live_room_popup WHERE id = ?"@);
    assert(ROOM_POPUP_STATS@.subrange(437, 437 + "LEFT JOIN popup_stats_summary s ON s.popup_id = p.id"@.len() as int) =~= "LEFT JOIN popup_stats_summary s ON s.popup_id = p.id"@);
    assert(ROOM_POPUP_STATS@.subrange(490, 490 + "WHERE p.live_room_id = ?"@.len() as int) =~= "WHERE p.live_room_id = ?"@);
}

/// A rate exists exactly when the popup has been shown, and it is made of the
/// given click and impression counts.
pub proof fn lemma_ctr_of_counts(impressions: i64, clicks: i64)
    ensures
        spec_ctr(impressions, clicks) is Some <==> impressions > 0,
        spec_ctr(impressions, clicks) matches Some(c) ==> c.clicks == clicks && c.impressions == impressions,
{
}

/// The clauses of a daily listing filter what their names say: the popup,
/// the live room, days from the first day on, days up to the last day, read
/// from the daily totals and ordered oldest day first.
pub proof fn lemma_daily_clauses_say_what_they_do()
    ensures
        has_text(DAILY_BY_POPUP@, "popup_id = ?"@),
        has_text(DAILY_BY_ROOM@, "live_room_id = ?"@),
        has_text(DAILY_FROM@, "stat_date >= ?"@),
        has_text(DAILY_UNTIL@, "stat_date <= ?"@),
        has_text(DAILY_ORDER@, "ORDER BY stat_date ASC"@),
        has_text(DAILY_SELECT@, "FROM popup_stats_daily"@),
{
    reveal_strlit(" AND popup_id = ?");
    reveal_strlit("popup_id = ?");
    reveal_strlit(" AND live_room_id = ?");
    reveal_strlit("live_room_id = ?");
    reveal_strlit(" AND stat_date >= ?");
    reveal_strlit("stat_date >= ?");
    reveal_strlit(" AND stat_date <= ?");
    reveal_strlit("stat_date <= ?");
    reveal_strlit(" ORDER BY stat_date ASC");
    reveal_strlit("ORDER BY stat_date ASC");
    reveal_strlit("SELECT popup_id, live_room_id, stat_date, impression_count, click_count, updated_at FROM popup_stats_daily WHERE 1=1");
    reveal_strlit("FROM popup_stats_daily");
    assert(DAILY_BY_POPUP@.subrange(5, 5 + "popup_id = ?"@.len() as int) =~= "popup_id = ?"@);
    assert(DAILY_BY_ROOM@.subrange(5, 5 + "live_room_id = ?"@.len() as int) =~= "live_room_id = ?"@);
    assert(DAILY_FROM@.subrange(5, 5 + "stat_date >= ?"@.len() as int) =~= "stat_date >= ?"@);
    assert(DAILY_UNTIL@.subrange(5, 5 + "stat_date <= ?"@.len() as int) =~= "stat_date <= ?"@);
    assert(DAILY_ORDER@.subrange(1, 1 + "ORDER BY stat_date ASC"@.len() as int) =~= "ORDER BY stat_date ASC"@);
    assert(DAILY_SELECT@.subrange(84, 84 + "FROM popup_stats_daily"@.len() as int) =~= "FROM popup_stats_daily"@);
}

/// A daily listing binds exactly the filters it was given, in the order
/// popup, room, first day, last day, and has a clause for each of them.
pub proof fn lemma_daily_query_filters(q: DailyStatsQuery)
    ensures
        q.popup_id matches Some(p) ==> spec_daily_binds(q)[0] == p@ && has_text(spec_daily_sql(q), DAILY_BY_POPUP@),
        q.end_date matches Some(e) ==> spec_daily_binds(q).last() == e@ && has_text(spec_daily_sql(q), DAILY_UNTIL@),
        (q.popup_id is None && q.live_room_id is Some) ==> spec_daily_binds(q)[0] == q.live_room_id->0@,
        (q.popup_id is Some && q.live_room_id is Some && q.start_date is Some && q.end_date is Some) ==> spec_daily_binds(q)
            == seq![q.popup_id->0@, q.live_room_id->0@, q.start_date->0@, q.end_date->0@],
        (q.popup_id is None && q.live_room_id is None && q.start_date is None && q.end_date is None) ==> spec_daily_binds(q).len() == 0,
{
    let a = DAILY_SELECT@;
    let c1 = clause_if(q.popup_id is Some, DAILY_BY_POPUP@);
    let c2 = clause_if(q.live_room_id is Some, DAILY_BY_ROOM@);
    let c3 = clause_if(q.start_date is Some, DAILY_FROM@);
    let c4 = clause_if(q.end_date is Some, DAILY_UNTIL@);
    let sql = a + c1 + c2 + c3 + c4 + DAILY_ORDER@;
    if q.popup_id is Some {
        assert(sql.subrange(a.len() as int, (a.len() + DAILY_BY_POPUP@.len()) as int) =~= DAILY_BY_POPUP@);
    }
    if q.end_date is Some {
        let k = (a + c1 + c2 + c3).len();
        assert(sql.subrange(k as int, (k + DAILY_UNTIL@.len()) as int) =~= DAILY_UNTIL@);
    }
}

// ---------------------------------------------------------------------------
// Recording events

/// The two kinds of event a popup records.
#[derive(Clone, Copy, Debug, PartialEq, Eq, Structural)]
pub enum TrackKind {
    Impression,
    Click,
}

/// The name of an event kind in replies.
pub open spec fn kind_name(kind: TrackKind) -> Seq<char> {
    match kind {
        TrackKind::Impression => "impression"@,
        TrackKind::Click => "click"@,
    }
}

/// What an event writes: one more event of `kind` for the popup, in its
/// running totals stamped `now` and in the totals of day `stat_date`.
#[derive(Debug)]
pub struct TrackWrite {
    pub kind: TrackKind,
    pub popup_id: String,
    pub live_room_id: String,
    pub stat_date: String,
    pub now: String,
}

/// Where the recording of an event stands, and what the service does next.
#[derive(Debug)]
pub enum TrackStep {
    /// Add the event to the popup's running totals and report the new total.
    UpsertSummary(TrackWrite),
    /// Add the event to the day's totals; `total` is the new running total.
    UpsertDaily(TrackWrite, i64),
    /// Answer with this reply.
    Done(Reply<TrackEventResult>),
}

/// The first step of recording an event, given the answer of the query that
/// asks whether the popup exists. An unknown popup (or a failed query) is
/// answered 400 "Popup not found"; otherwise the running totals are written
/// first, stamped with the current time and day.
pub fn track_begin(kind: TrackKind, req: TrackEventRequest, exists: Result<i32, DbError>) -> (step: TrackStep)
    ensures
        !spec_confirms(exists) <==> step is Done,
        spec_confirms(exists) ==> step is UpsertSummary,
        step matches TrackStep::Done(r) ==> is_failure(r, 400, POPUP_NOT_FOUND@) && well_formed(r),
        step matches TrackStep::UpsertSummary(w) ==> {
            &&& w.kind == kind
            &&& w.popup_id == req.popup_id
            &&& w.live_room_id == req.live_room_id
            &&& is_utc_rfc3339(w.now@)
            &&& is_date_text(w.stat_date@)
        },
{
    if !confirms_existence(exists) {
        return TrackStep::Done(bad_request(POPUP_NOT_FOUND));
    }
    let now = now_rfc3339();
    let stat_date = today_date();
    TrackStep::UpsertSummary(TrackWrite {
        kind,
        popup_id: req.popup_id,
        live_room_id: req.live_room_id,
        stat_date,
        now,
    })
}

/// The step after the running totals were written: on failure the 500 reply,
/// otherwise the day's totals are written next, with the same values.
pub fn track_on_summary(w: TrackWrite, written: Result<i64, DbError>) -> (step: TrackStep)
    ensures
        match written {
            Ok(total) => step == TrackStep::UpsertDaily(w, total),
            Err(e) => step matches TrackStep::Done(r) && is_failure(r, 500, e.message@) && well_formed(r),
        },
{
    match written {
        Ok(total) => TrackStep::UpsertDaily(w, total),
        Err(e) => TrackStep::Done(internal_error(e)),
    }
}

/// `r` reports the event written by `w` with the popup's new running total.
pub open spec fn is_track_success(r: Reply<TrackEventResult>, w: TrackWrite, total: i64) -> bool {
    &&& r.status == 200
    &&& r.body.code == 0
    &&& r.body.message@ == "success"@
    &&& r.body.data matches Some(d)
    &&& d.popup_id == w.popup_id
    &&& d.event_type@ == kind_name(w.kind)
    &&& d.total_count == total
}

/// The last step: once the day's totals are written the popup's new running
/// total is reported with the kind of the event; a failure is the 500 reply.
pub fn track_on_daily(w: TrackWrite, total: i64, written: Result<(), DbError>) -> (step: TrackStep)
    ensures
        step matches TrackStep::Done(r) && well_formed(r),
        match written {
            Ok(_) => step matches TrackStep::Done(r) && is_track_success(r, w, total),
            Err(e) => step matches TrackStep::Done(r) && is_failure(r, 500, e.message@),
        },
{
    match written {
        Ok(_) => {
            let event_type = match w.kind {
                TrackKind::Impression => String::from_str("impression"),
                TrackKind::Click => String::from_str("click"),
            };
            TrackStep::Done(ok(TrackEventResult { popup_id: w.popup_id, event_type, total_count: total }))
        },
        Err(e) => TrackStep::Done(internal_error(e)),
    }
}

// ---------------------------------------------------------------------------
// The writes of an event

/// Adds an impression to a popup's running totals, creating them at one.
pub const SUMMARY_IMPRESSION: &'static str = "INSERT INTO popup_stats_summary (popup_id, live_room_id, impression_count, click_count, last_impression_at, created_at, updated_at) VALUES (?, ?, 1, 0, ?, ?, ?) ON CONFLICT(popup_id) DO UPDATE SET impression_count = impression_count + 1, last_impression_at = excluded.last_impression_at, updated_at = excluded.updated_at";
/// Adds a click to a popup's running totals, creating them at one.
pub const SUMMARY_CLICK: &'static str = "INSERT INTO popup_stats_summary (popup_id, live_room_id, impression_count, click_count, last_click_at, created_at, updated_at) VALUES (?, ?, 0, 1, ?, ?, ?) ON CONFLICT(popup_id) DO UPDATE SET click_count = click_count + 1, last_click_at = excluded.last_click_at, updated_at = excluded.updated_at";
/// Reads a popup's total of impressions.
pub const IMPRESSION_TOTAL: &'static str = "SELECT impression_count FROM popup_stats_summary WHERE popup_id = ?";
/// Reads a popup's total of clicks.
pub const CLICK_TOTAL: &'static str = "SELECT click_count FROM popup_stats_summary WHERE popup_id = ?";
/// Adds an impression to a popup's totals of a day, creating them at one.
pub const DAILY_IMPRESSION: &'static str = "INSERT INTO popup_stats_daily (popup_id, live_room_id, stat_date, impression_count, click_count, created_at, updated_at) VALUES (?, ?, ?, 1, 0, ?, ?) ON CONFLICT(popup_id, stat_date) DO UPDATE SET impression_count = impression_count + 1, updated_at = excluded.updated_at";
/// Adds a click to a popup's totals of a day, creating them at one.
pub const DAILY_CLICK: &'static str = "INSERT INTO popup_stats_daily (popup_id, live_room_id, stat_date, impression_count, click_count, created_at, updated_at) VALUES (?, ?, ?, 0, 1, ?, ?) ON CONFLICT(popup_id, stat_date) DO UPDATE SET click_count = click_count + 1, updated_at = excluded.updated_at";

/// The text that adds an event of `kind` to the running totals.
pub open spec fn summary_upsert_sql(kind: TrackKind) -> Seq<char> {
    match kind {
        TrackKind::Impression => SUMMARY_IMPRESSION@,
        TrackKind::Click => SUMMARY_CLICK@,
    }
}

/// The text that reads the running total of events of `kind`.
pub open spec fn total_sql(kind: TrackKind) -> Seq<char> {
    match kind {
        TrackKind::Impression => IMPRESSION_TOTAL@,
        TrackKind::Click => CLICK_TOTAL@,
    }
}

/// The text that adds an event of `kind` to the totals of a day.
pub open spec fn daily_upsert_sql(kind: TrackKind) -> Seq<char> {
    match kind {
        TrackKind::Impression => DAILY_IMPRESSION@,
        TrackKind::Click => DAILY_CLICK@,
    }
}

/// The query adding the event `w` to the popup's running totals: bound to the
/// popup, its room, and the event time as last event, creation and change
/// time.
pub fn summary_upsert_query(w: &TrackWrite) -> (q: SqlQuery)
    ensures
        q.sql@ == summary_upsert_sql(w.kind),
        w.kind == TrackKind::Impression ==> q.sql@ == SUMMARY_IMPRESSION@,
        w.kind == TrackKind::Click ==> q.sql@ == SUMMARY_CLICK@,
        string_views(q.binds@) == seq![w.popup_id@, w.live_room_id@, w.now@, w.now@, w.now@],
        count_placeholders(q.sql@) == q.binds@.len(),
{
    proof {
        reveal_strlit("INSERT INTO popup_stats_summary (popup_id, live_room_id, impression_count, click_count, last_impression_at, created_at, updated_at) VALUES (?, ?, 1, 0, ?, ?, ?) ON CONFLICT(popup_id) DO UPDATE SET impression_count = impression_count + 1, last_impression_at = excluded.last_impression_at, updated_at = excluded.updated_at");
        reveal_strlit("INSERT INTO popup_stats_summary (popup_id, live_room_id, impression_count, click_count, last_click_at, created_at, updated_at) VALUES (?, ?, 0, 1, ?, ?, ?) ON CONFLICT(popup_id) DO UPDATE SET click_count = click_count + 1, last_click_at = excluded.last_click_at, updated_at = excluded.updated_at");
        lemma_count_at(SUMMARY_IMPRESSION@, seq![140int, 143int, 152int, 155int, 158int]);
        lemma_count_at(SUMMARY_CLICK@, seq![135int, 138int, 147int, 150int, 153int]);
    }
    let sql = match w.kind {
        TrackKind::Impression => String::from_str(SUMMARY_IMPRESSION),
        TrackKind::Click => String::from_str(SUMMARY_CLICK),
    };
    let mut binds: Vec<String> = Vec::new();
    binds.push(w.popup_id.clone());
    binds.push(w.live_room_id.clone());
    binds.push(w.now.clone());
    binds.push(w.now.clone());
    binds.push(w.now.clone());
    proof {
        assert(string_views(binds@) =~= seq![w.popup_id@, w.live_room_id@, w.now@, w.now@, w.now@]);
    }
    SqlQuery { sql, binds }
}

/// The query reading the popup's new running total of events of `w`'s kind.
pub fn total_count_query(w: &TrackWrite) -> (q: SqlQuery)
    ensures
        q.sql@ == total_sql(w.kind),
        w.kind == TrackKind::Impression ==> q.sql@ == IMPRESSION_TOTAL@,
        w.kind == TrackKind::Click ==> q.sql@ == CLICK_TOTAL@,
        string_views(q.binds@) == seq![w.popup_id@],
        count_placeholders(q.sql@) == q.binds@.len(),
{
    proof {
        reveal_strlit("SELECT impression_count FROM popup_stats_summary WHERE popup_id = ?");
        reveal_strlit("SELECT click_count FROM popup_stats_summary WHERE popup_id = ?");
        lemma_count_one_inside(IMPRESSION_TOTAL@, 66);
        lemma_count_one_inside(CLICK_TOTAL@, 61);
    }
    let sql = match w.kind {
        TrackKind::Impression => String::from_str(IMPRESSION_TOTAL),
        TrackKind::Click => String::from_str(CLICK_TOTAL),
    };
    let mut binds: Vec<String> = Vec::new();
    binds.push(w.popup_id.clone());
    proof {
        assert(string_views(binds@) =~= seq![w.popup_id@]);
    }
    SqlQuery { sql, binds }
}

/// The query adding the event `w` to the popup's totals of its day: bound to
/// the popup, its room, the day, and the event time as creation and change
/// time.
pub fn daily_upsert_query(w: &TrackWrite) -> (q: SqlQuery)
    ensures
        q.sql@ == daily_upsert_sql(w.kind),
        w.kind == TrackKind::Impression ==> q.sql@ == DAILY_IMPRESSION@,
        w.kind == TrackKind::Click ==> q.sql@ == DAILY_CLICK@,
        string_views(q.binds@) == seq![w.popup_id@, w.live_room_id@, w.stat_date@, w.now@, w.now@],
        count_placeholders(q.sql@) == q.binds@.len(),
{
    proof {
        reveal_strlit("INSERT INTO popup_stats_daily (popup_id, live_room_id, stat_date, impression_count, click_count, created_at, updated_at) VALUES (?, ?, ?, 1, 0, ?, ?) ON CONFLICT(popup_id, stat_date) DO UPDATE SET impression_count = impression_count + 1, updated_at = excluded.updated_at");
        reveal_strlit("INSERT INTO popup_stats_daily (popup_id, live_room_id, stat_date, impression_count, click_count, created_at, updated_at) VALUES (?, ?, ?, 0, 1, ?, ?) ON CONFLICT(popup_id, stat_date) DO UPDATE SET click_count = click_count + 1, updated_at = excluded.updated_at");
        lemma_count_at(DAILY_IMPRESSION@, seq![129int, 132int, 135int, 144int, 147int]);
        lemma_count_at(DAILY_CLICK@, seq![129int, 132int, 135int, 144int, 147int]);
    }
    let sql = match w.kind {
        TrackKind::Impression => String::from_str(DAILY_IMPRESSION),
        TrackKind::Click => String::from_str(DAILY_CLICK),
    };
    let mut binds: Vec<String> = Vec::new();
    binds.push(w.popup_id.clone());
    binds.push(w.live_room_id.clone());
    binds.push(w.stat_date.clone());
    binds.push(w.now.clone());
    binds.push(w.now.clone());
    proof {
        assert(string_views(binds@) =~= seq![w.popup_id@, w.live_room_id@, w.stat_date@, w.now@, w.now@]);
    }
    SqlQuery { sql, binds }
}

/// An event of each kind is written by the statements that count that kind:
/// an impression creates totals at one impression and no click (or adds one
/// impression) and stamps the last impression; a click creates them at no
/// impression and one click (or adds one click) and stamps the last click;
/// the running total read back is the one of the same kind. This holds of the
/// statements the builders choose for each kind.
pub proof fn lemma_event_statements_count_their_kind()
    ensures
        summary_upsert_sql(TrackKind::Impression) == SUMMARY_IMPRESSION@,
        summary_upsert_sql(TrackKind::Click) == SUMMARY_CLICK@,
        total_sql(TrackKind::Impression) == IMPRESSION_TOTAL@,
        total_sql(TrackKind::Click) == CLICK_TOTAL@,
        daily_upsert_sql(TrackKind::Impression) == DAILY_IMPRESSION@,
        daily_upsert_sql(TrackKind::Click) == DAILY_CLICK@,
        kind_name(TrackKind::Impression) == "impression"@,
        kind_name(TrackKind::Click) == "click"@,
        has_text(DAILY_IMPRESSION@, "VALUES (?, ?, ?, 1, 0, ?, ?)"@),
        has_text(DAILY_IMPRESSION@, "impression_count = impression_count + 1"@),
        has_text(DAILY_CLICK@, "VALUES (?, ?, ?, 0, 1, ?, ?)"@),
        has_text(DAILY_CLICK@, "click_count = click_count + 1"@),
        has_text(SUMMARY_IMPRESSION@, "VALUES (?, ?, 1, 0, ?, ?, ?)"@),
        has_text(SUMMARY_IMPRESSION@, "impression_count = impression_count + 1"@),
        has_text(SUMMARY_IMPRESSION@, "last_impression_at = excluded.last_impression_at"@),
        has_text(SUMMARY_CLICK@, "VALUES (?, ?, 0, 1, ?, ?, ?)"@),
        has_text(SUMMARY_CLICK@, "click_count = click_count + 1"@),
        has_text(SUMMARY_CLICK@, "last_click_at = excluded.last_click_at"@),
        has_text(IMPRESSION_TOTAL@, "SELECT impression_count "@),
        has_text(CLICK_TOTAL@, "SELECT click_count "@),
{
        reveal_strlit("INSERT INTO popup_stats_daily (popup_id, live_room_id, stat_date, impression_count, click_count, created_at, updated_at) VALUES (?, ?, ?, 1, 0, ?, ?) ON CONFLICT(popup_id, stat_date) DO UPDATE SET impression_count = impression_count + 1, updated_at = excluded.updated_at");
        reveal_strlit("INSERT INTO popup_stats_daily (popup_id, live_room_id, stat_date, impression_count, click_count, created_at, updated_at) VALUES (?, ?, ?, 0, 1, ?, ?) ON CONFLICT(popup_id, stat_date) DO UPDATE SET click_count = click_count + 1, updated_at = excluded.updated_at");
        reveal_strlit("INSERT INTO popup_stats_summary (popup_id, live_room_id, impression_count, click_count, last_impression_at, created_at, updated_at) VALUES (?, ?, 1, 0, ?, ?, ?) ON CONFLICT(popup_id) DO UPDATE SET impression_count = impression_count + 1, last_impression_at = excluded.last_impression_at, updated_at = excluded.updated_at");
        reveal_strlit("INSERT INTO popup_stats_summary (popup_id, live_room_id, impression_count, click_count, last_click_at, created_at, updated_at) VALUES (?, ?, 0, 1, ?, ?, ?) ON CONFLICT(popup_id) DO UPDATE SET click_count = click_count + 1, last_click_at = excluded.last_click_at, updated_at = excluded.updated_at");
        reveal_strlit("SELECT impression_count FROM popup_stats_summary WHERE popup_id = ?");
        reveal_strlit("SELECT click_count FROM popup_stats_summary WHERE popup_id = ?");
        reveal_strlit("SELECT click_count ");
        reveal_strlit("SELECT impression_count ");
        reveal_strlit("VALUES (?, ?, 0, 1, ?, ?, ?)");
        reveal_strlit("VALUES (?, ?, 1, 0, ?, ?, ?)");
        reveal_strlit("VALUES (?, ?, ?, 0, 1, ?, ?)");
        reveal_strlit("VALUES (?, ?, ?, 1, 0, ?, ?)");
        reveal_strlit("click_count = click_count + 1");
        reveal_strlit("impression_count = impression_count + 1");
        reveal_strlit("last_click_at = excluded.last_click_at");
        reveal_strlit("last_impression_at = excluded.last_impression_at");
    assert(DAILY_IMPRESSION@.subrange(121, 121 + "VALUES (?, ?, ?, 1, 0, ?, ?)"@.len() as int) =~= "VALUES (?, ?, ?, 1, 0, ?, ?)"@);
    assert(DAILY_IMPRESSION@.subrange(197, 197 + "impression_count = impression_count + 1"@.len() as int) =~= "impression_count = impression_count + 1"@);
    assert(DAILY_CLICK@.subrange(121, 121 + "VALUES (?, ?, ?, 0, 1, ?, ?)"@.len() as int) =~= "VALUES (?, ?, ?, 0, 1, ?, ?)"@);
    assert(DAILY_CLICK@.subrange(197, 197 + "click_count = click_count + 1"@.len() as int) =~= "click_count = click_count + 1"@);
    assert(SUMMARY_IMPRESSION@.subrange(132, 132 + "VALUES (?, ?, 1, 0, ?, ?, ?)"@.len() as int) =~= "VALUES (?, ?, 1, 0, ?, ?, ?)"@);
    assert(SUMMARY_IMPRESSION@.subrange(197, 197 + "impression_count = impression_count + 1"@.len() as int) =~= "impression_count = impression_count + 1"@);
    assert(SUMMARY_IMPRESSION@.subrange(238, 238 + "last_impression_at = excluded.last_impression_at"@.len() as int) =~= "last_impression_at = excluded.last_impression_at"@);
    assert(SUMMARY_CLICK@.subrange(127, 127 + "VALUES (?, ?, 0, 1, ?, ?, ?)"@.len() as int) =~= "VALUES (?, ?, 0, 1, ?, ?, ?)"@);
    assert(SUMMARY_CLICK@.subrange(192, 192 + "click_count = click_count + 1"@.len() as int) =~= "click_count = click_count + 1"@);
    assert(SUMMARY_CLICK@.subrange(223, 223 + "last_click_at = excluded.last_click_at"@.len() as int) =~= "last_click_at = excluded.last_click_at"@);
    assert(IMPRESSION_TOTAL@.subrange(0, 0 + "SELECT impression_count "@.len() as int) =~= "SELECT impression_count "@);
    assert(CLICK_TOTAL@.subrange(0, 0 + "SELECT click_count "@.len() as int) =~= "SELECT click_count "@);
}

// ---------------------------------------------------------------------------
// Daily totals

/// The columns and table every daily listing reads.
pub const DAILY_SELECT: &'static str = "SELECT popup_id, live_room_id, stat_date, impression_count, click_count, updated_at FROM popup_stats_daily WHERE 1=1";
/// The filter on the popup.
pub const DAILY_BY_POPUP: &'static str = " AND popup_id = ?";
/// The filter on the live room.
pub const DAILY_BY_ROOM: &'static str = " AND live_room_id = ?";
/// The filter on the first day.
pub const DAILY_FROM: &'static str = " AND stat_date >= ?";
/// The filter on the last day.
pub const DAILY_UNTIL: &'static str = " AND stat_date <= ?";
/// The order of a daily listing: oldest day first.
pub const DAILY_ORDER: &'static str = " ORDER BY stat_date ASC";

/// The message of a daily listing that names neither a popup nor a room.
pub const DAILY_NEEDS_FILTER: &'static str = "Either popup_id or live_room_id is required";

/// The text of the daily listing for `q`: the select, one filter clause for
/// each given filter in the order popup, room, first day, last day, then the
/// order clause.
pub open spec fn spec_daily_sql(q: DailyStatsQuery) -> Seq<char> {
    DAILY_SELECT@ + clause_if(q.popup_id is Some, DAILY_BY_POPUP@) + clause_if(
        q.live_room_id is Some,
        DAILY_BY_ROOM@,
    ) + clause_if(q.start_date is Some, DAILY_FROM@) + clause_if(q.end_date is Some, DAILY_UNTIL@)
        + DAILY_ORDER@
}

/// The values bound to the daily listing for `q`, in the order of its clauses.
pub open spec fn spec_daily_binds(q: DailyStatsQuery) -> Seq<Seq<char>> {
    bind_of(q.popup_id) + bind_of(q.live_room_id) + bind_of(q.start_date) + bind_of(q.end_date)
}

/// A daily listing must name a popup or a live room.
pub open spec fn daily_query_accepted(q: DailyStatsQuery) -> bool {
    q.popup_id is Some || q.live_room_id is Some
}

/// The query of a daily listing, or the 400 reply when `q` names neither a
/// popup nor a live room.
pub fn daily_stats_sql(q: DailyStatsQuery) -> (r: Result<SqlQuery, Reply<Vec<PopupStatsDaily>>>)
    ensures
        r is Ok <==> daily_query_accepted(q),
        r matches Ok(query) ==> query.sql@ == spec_daily_sql(q) && string_views(query.binds@)
            == spec_daily_binds(q),
        r matches Ok(query) ==> count_placeholders(query.sql@) == query.binds@.len(),
        r matches Err(reply) ==> is_failure(reply, 400, DAILY_NEEDS_FILTER@) && well_formed(reply),
{
    if q.popup_id.is_none() && q.live_room_id.is_none() {
        return Err(bad_request(DAILY_NEEDS_FILTER));
    }
    let ghost q0 = q;
    let mut sql = String::from_str(DAILY_SELECT);
    let mut binds: Vec<String> = Vec::new();
    let DailyStatsQuery { popup_id, live_room_id, start_date, end_date } = q;
    match popup_id {
        Some(v) => {
            sql.append(DAILY_BY_POPUP);
            binds.push(v);
        },
        None => {},
    }
    assert(sql@ == DAILY_SELECT@ + clause_if(q0.popup_id is Some, DAILY_BY_POPUP@));
    assert(string_views(binds@) == bind_of(q0.popup_id));
    match live_room_id {
        Some(v) => {
            sql.append(DAILY_BY_ROOM);
            binds.push(v);
        },
        None => {},
    }
    assert(string_views(binds@) == bind_of(q0.popup_id) + bind_of(q0.live_room_id));
    match start_date {
        Some(v) => {
            sql.append(DAILY_FROM);
            binds.push(v);
        },
        None => {},
    }
    assert(string_views(binds@) == bind_of(q0.popup_id) + bind_of(q0.live_room_id) + bind_of(
        q0.start_date,
    ));
    match end_date {
        Some(v) => {
            sql.append(DAILY_UNTIL);
            binds.push(v);
        },
        None => {},
    }
    assert(string_views(binds@) == spec_daily_binds(q0));
    sql.append(DAILY_ORDER);
    proof {
        lemma_daily_placeholders_match_binds(q0);
        assert(string_views(binds@).len() == binds@.len());
    }
    Ok(SqlQuery { sql, binds })
}

/// A stored row of one popup's totals on one day.
#[derive(Debug)]
pub struct DailyRow {
    pub popup_id: String,
    pub live_room_id: String,
    pub stat_date: String,
    pub impression_count: i64,
    pub click_count: i64,
    pub updated_at: String,
}

/// The daily totals reported for a stored daily row.
pub open spec fn spec_daily(row: DailyRow) -> PopupStatsDaily {
    PopupStatsDaily {
        popup_id: row.popup_id,
        live_room_id: row.live_room_id,
        stat_date: row.stat_date,
        impression_count: row.impression_count,
        click_count: row.click_count,
        ctr: spec_ctr(row.impression_count, row.click_count),
        updated_at: row.updated_at,
    }
}

/// The daily totals reported for a stored daily row: its fields and the rate
/// of its counts.
pub fn daily_from_row(row: &DailyRow) -> (d: PopupStatsDaily)
    ensures
        d == spec_daily(*row),
        d.popup_id == row.popup_id,
        d.live_room_id == row.live_room_id,
        d.stat_date == row.stat_date,
        d.impression_count == row.impression_count,
        d.click_count == row.click_count,
        d.updated_at == row.updated_at,
        d.ctr is Some <==> row.impression_count > 0,
        d.ctr matches Some(c) ==> c.clicks == row.click_count && c.impressions == row.impression_count,
{
    PopupStatsDaily {
        popup_id: row.popup_id.clone(),
        live_room_id: row.live_room_id.clone(),
        stat_date: row.stat_date.clone(),
        impression_count: row.impression_count,
        click_count: row.click_count,
        ctr: compute_ctr(row.impression_count, row.click_count),
        updated_at: row.updated_at.clone(),
    }
}

/// The reply to a daily listing: 200 with one entry per stored row, in the
/// rows' order, or 500 when the query failed.
pub fn daily_stats_reply(result: Result<Vec<DailyRow>, DbError>) -> (r: Reply<Vec<PopupStatsDaily>>)
    ensures
        well_formed(r),
        match result {
            Ok(rows) => {
                &&& r.status == 200
                &&& r.body.code == 0
                &&& r.body.message@ == "success"@
                &&& r.body.data matches Some(out)
                &&& out@ == rows@.map_values(|row: DailyRow| spec_daily(row))
                &&& out@.len() == rows@.len()
                &&& forall|i: int|
                    0 <= i < rows@.len() ==> {
                        &&& (#[trigger] out@[i]).popup_id == rows@[i].popup_id
                        &&& out@[i].stat_date == rows@[i].stat_date
                        &&& out@[i].impression_count == rows@[i].impression_count
                        &&& out@[i].click_count == rows@[i].click_count
                        &&& out@[i].live_room_id == rows@[i].live_room_id
                        &&& out@[i].updated_at == rows@[i].updated_at
                        &&& (out@[i].ctr is Some <==> rows@[i].impression_count > 0)
                        &&& (out@[i].ctr matches Some(c) ==> c.clicks == rows@[i].click_count
                            && c.impressions == rows@[i].impression_count)
                    }
            },
            Err(e) => is_failure(r, 500, e.message@),
        },
{
    match result {
        Ok(rows) => {
            let mut out: Vec<PopupStatsDaily> = Vec::new();
            let n = rows.len();
            for i in 0..n
                invariant
                    n == rows@.len(),
                    out@ == rows@.take(i as int).map_values(|row: DailyRow| spec_daily(row)),
            {
                let d = daily_from_row(&rows[i]);
                out.push(d);
                assert(rows@.take(i + 1) =~= rows@.take(i as int).push(rows@[i as int]));
            }
            assert(rows@.take(n as int) =~= rows@);
            ok(out)
        },
        Err(e) => internal_error(e),
    }
}

// ---------------------------------------------------------------------------
// Totals of a live room

/// The listing of a live room's popups with their totals, in the order of the
/// popup listing; the rate is computed by the database.
pub const ROOM_POPUP_STATS: &'static str = "SELECT p.id, p.live_room_id, p.product_id, p.product_name, p.product_image, p.product_price, p.original_price, p.popup_type, p.title, p.description, p.action_url, p.sort_order, p.enabled, COALESCE(s.impression_count, 0) AS impression_count, COALESCE(s.click_count, 0) AS click_count, CASE WHEN COALESCE(s.impression_count, 0) > 0 THEN (COALESCE(s.click_count, 0) * 100.0 / s.impression_count) ELSE NULL END AS ctr FROM live_room_popup p LEFT JOIN popup_stats_summary s ON s.popup_id = p.id WHERE p.live_room_id = ? ORDER BY p.sort_order ASC, p.created_at DESC";

/// The query listing the popups of the live room `live_room_id` with their
/// totals (zero where none are stored).
pub fn live_room_stats_query(live_room_id: String) -> (r: SqlQuery)
    ensures
        r.sql@ == ROOM_POPUP_STATS@,
        string_views(r.binds@) == seq![live_room_id@],
        count_placeholders(r.sql@) == r.binds@.len(),
{
    proof {
        reveal_strlit("SELECT p.id, p.live_room_id, p.product_id, p.product_name, p.product_image, p.product_price, p.original_price, p.popup_type, p.title, p.description, p.action_url, p.sort_order, p.enabled, COALESCE(s.impression_count, 0) AS impression_count, COALESCE(s.click_count, 0) AS click_count, CASE WHEN COALESCE(s.impression_count, 0) > 0 THEN (COALESCE(s.click_count, 0) * 100.0 / s.impression_count) ELSE NULL END AS ctr FROM live_room_popup p LEFT JOIN popup_stats_summary s ON s.popup_id = p.id WHERE p.live_room_id = ? ORDER BY p.sort_order ASC, p.created_at DESC");
        lemma_count_one_inside(ROOM_POPUP_STATS@, 513);
    }
    let ghost room = live_room_id;
    let mut binds: Vec<String> = Vec::new();
    binds.push(live_room_id);
    proof {
        assert(string_views(binds@) =~= seq![room@]);
    }
    SqlQuery { sql: String::from_str(ROOM_POPUP_STATS), binds }
}

/// The reply to the listing of a live room's popups with their totals: 200
/// with the rows as the database returned them, or 500.
pub fn live_room_stats_reply(result: Result<Vec<LiveRoomPopupStatsRow>, DbError>) -> (r: Reply<
    Vec<LiveRoomPopupStatsRow>,
>)
    ensures
        well_formed(r),
        match result {
            Ok(rows) => is_success(r, 200, rows),
            Err(e) => is_failure(r, 500, e.message@),
        },
{
    crate::reply::fetched_reply(result)
}

// ---------------------------------------------------------------------------
// Totals of one popup

/// Where the reading of a popup's totals stands, and what the service does
/// next.
#[derive(Debug)]
pub enum PopupStatsStep {
    /// Ask whether the popup exists; `row` is its stored totals, if any.
    CheckExists { popup_id: String, row: Option<SummaryRow> },
    /// Read the live room of a popup without stored totals.
    FetchLiveRoom { popup_id: String },
    /// Answer with this reply.
    Done(Reply<PopupStatsSummary>),
}

/// The step after the popup's stored totals were read: whatever was found,
/// the popup's existence is checked next; a failed read is the 500 reply.
pub fn popup_stats_on_summary(popup_id: String, fetched: Result<Option<SummaryRow>, DbError>) -> (step:
    PopupStatsStep)
    ensures
        match fetched {
            Ok(row) => step == (PopupStatsStep::CheckExists { popup_id, row }),
            Err(e) => step matches PopupStatsStep::Done(r) && is_failure(r, 500, e.message@)
                && well_formed(r),
        },
{
    match fetched {
        Ok(row) => PopupStatsStep::CheckExists { popup_id, row },
        Err(e) => PopupStatsStep::Done(internal_error(e)),
    }
}

/// The step after the existence check: an unknown popup (or a failed check) is
/// answered 404; stored totals are reported; without them the popup's live
/// room is read next.
pub fn popup_stats_on_exists(popup_id: String, row: Option<SummaryRow>, exists: Result<i32, DbError>) -> (step:
    PopupStatsStep)
    ensures
        !spec_confirms(exists) ==> (step is Done && is_failure(step->Done_0, 404, POPUP_NOT_FOUND@)
            && well_formed(step->Done_0)),
        spec_confirms(exists) ==> match row {
            Some(found) => step is Done && is_success(step->Done_0, 200, spec_summary(found))
                && well_formed(step->Done_0),
            None => step == (PopupStatsStep::FetchLiveRoom { popup_id }),
        },
{
    if !confirms_existence(exists) {
        return PopupStatsStep::Done(not_found(POPUP_NOT_FOUND));
    }
    match row {
        Some(found) => PopupStatsStep::Done(ok(summary_from_row(found))),
        None => PopupStatsStep::FetchLiveRoom { popup_id },
    }
}

/// Reads a popup's stored running totals.
pub const SUMMARY_OF_POPUP: &'static str = "SELECT popup_id, live_room_id, impression_count, click_count, last_impression_at, last_click_at, updated_at FROM popup_stats_summary WHERE popup_id = ?";

/// The query reading the stored running totals of the popup `popup_id`.
pub fn summary_query(popup_id: String) -> (r: SqlQuery)
    ensures
        r.sql@ == SUMMARY_OF_POPUP@,
        string_views(r.binds@) == seq![popup_id@],
        count_placeholders(r.sql@) == r.binds@.len(),
{
    proof {
        reveal_strlit("SELECT popup_id, live_room_id, impression_count, click_count, last_impression_at, last_click_at, updated_at FROM popup_stats_summary WHERE popup_id = ?");
        lemma_count_one_inside(SUMMARY_OF_POPUP@, 150);
    }
    single_value_query(SUMMARY_OF_POPUP, popup_id)
}

/// Reads the live room of a popup.
pub const ROOM_OF_POPUP: &'static str = "SELECT live_room_id FROM live_room_popup WHERE id = ?";

/// The query reading the live room of the popup `popup_id`.
pub fn popup_room_query(popup_id: String) -> (r: SqlQuery)
    ensures
        r.sql@ == ROOM_OF_POPUP@,
        string_views(r.binds@) == seq![popup_id@],
        count_placeholders(r.sql@) == r.binds@.len(),
{
    proof {
        reveal_strlit("SELECT live_room_id FROM live_room_popup WHERE id = ?");
        lemma_count_one_inside(ROOM_OF_POPUP@, 52);
    }
    single_value_query(ROOM_OF_POPUP, popup_id)
}

/// `r` reports zero totals for `popup_id` in `room`, stamped with a UTC time.
pub open spec fn is_zero_stats_reply(r: Reply<PopupStatsSummary>, popup_id: String, room: String) -> bool {
    &&& r.status == 200
    &&& r.body.code == 0
    &&& r.body.message@ == "success"@
    &&& r.body.data matches Some(s)
    &&& s == spec_zero_summary(popup_id, room, s.updated_at)
    &&& is_utc_rfc3339(s.updated_at@)
}

/// The last step for a popup without stored totals: zero totals in the
/// popup's live room, stamped with the current time; a failed read is the 500
/// reply.
pub fn popup_stats_on_live_room(popup_id: String, live_room: Result<String, DbError>) -> (step: PopupStatsStep)
    ensures
        step matches PopupStatsStep::Done(r) && well_formed(r),
        match live_room {
            Ok(room) => step is Done && is_zero_stats_reply(step->Done_0, popup_id, room),
            Err(e) => step matches PopupStatsStep::Done(r) && is_failure(r, 500, e.message@),
        },
{
    match live_room {
        Ok(room) => {
            let now = now_rfc3339();
            PopupStatsStep::Done(ok(zero_summary(popup_id, room, now)))
        },
        Err(e) => PopupStatsStep::Done(internal_error(e)),
    }
}

/// Every daily listing binds exactly as many values as its text has
/// placeholders.
pub proof fn lemma_daily_placeholders_match_binds(q: DailyStatsQuery)
    ensures
        count_placeholders(spec_daily_sql(q)) == spec_daily_binds(q).len(),
{
    reveal_strlit("SELECT popup_id, live_room_id, stat_date, impression_count, click_count, updated_at FROM popup_stats_daily WHERE 1=1");
    reveal_strlit(" AND popup_id = ?");
    reveal_strlit(" AND live_room_id = ?");
    reveal_strlit(" AND stat_date >= ?");
    reveal_strlit(" AND stat_date <= ?");
    reveal_strlit(" ORDER BY stat_date ASC");
    lemma_count_free(DAILY_SELECT@);
    lemma_count_one_last(DAILY_BY_POPUP@);
    lemma_count_one_last(DAILY_BY_ROOM@);
    lemma_count_one_last(DAILY_FROM@);
    lemma_count_one_last(DAILY_UNTIL@);
    lemma_count_free(DAILY_ORDER@);
    lemma_count_free(Seq::<char>::empty());
    let c1 = clause_if(q.popup_id is Some, DAILY_BY_POPUP@);
    let c2 = clause_if(q.live_room_id is Some, DAILY_BY_ROOM@);
    let c3 = clause_if(q.start_date is Some, DAILY_FROM@);
    let c4 = clause_if(q.end_date is Some, DAILY_UNTIL@);
    lemma_count_concat(DAILY_SELECT@, c1);
    lemma_count_concat(DAILY_SELECT@ + c1, c2);
    lemma_count_concat(DAILY_SELECT@ + c1 + c2, c3);
    lemma_count_concat(DAILY_SELECT@ + c1 + c2 + c3, c4);
    lemma_count_concat(DAILY_SELECT@ + c1 + c2 + c3 + c4, DAILY_ORDER@);
}

} // verus!
