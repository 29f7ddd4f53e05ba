use live_popup::models::{CtrRatio, DailyStatsQuery, TrackEventRequest};
use live_popup::reply::DbError;
use live_popup::stats_handler::{
    compute_ctr, daily_stats_reply, daily_upsert_query, summary_upsert_query, total_count_query, daily_stats_sql, live_room_stats_query, live_room_stats_reply, popup_stats_on_exists,
    popup_stats_on_live_room, popup_stats_on_summary, summary_from_row, track_begin, track_on_daily,
    track_on_summary, zero_summary, DailyRow, PopupStatsStep, SummaryRow, TrackKind, TrackStep,
    TrackWrite,
};

fn db_err(m: &str) -> DbError {
    DbError { message: m.to_string() }
}

fn summary_row(impressions: i64, clicks: i64) -> SummaryRow {
    SummaryRow {
        popup_id: "p-1".to_string(),
        live_room_id: "room-1".to_string(),
        impression_count: impressions,
        click_count: clicks,
        last_impression_at: Some("t1".to_string()),
        last_click_at: None,
        updated_at: "t2".to_string(),
    }
}

fn write(kind: TrackKind) -> TrackWrite {
    TrackWrite {
        kind,
        popup_id: "p-1".to_string(),
        live_room_id: "room-1".to_string(),
        stat_date: "2024-05-01".to_string(),
        now: "2024-05-01T00:00:00+00:00".to_string(),
    }
}

fn query(p: Option<&str>, r: Option<&str>, s: Option<&str>, e: Option<&str>) -> DailyStatsQuery {
    DailyStatsQuery {
        popup_id: p.map(|x| x.to_string()),
        live_room_id: r.map(|x| x.to_string()),
        start_date: s.map(|x| x.to_string()),
        end_date: e.map(|x| x.to_string()),
    }
}

#[test]
fn ctr_needs_impressions() {
    assert_eq!(compute_ctr(0, 0), None);
    assert_eq!(compute_ctr(0, 5), None);
    assert_eq!(compute_ctr(-1, 0), None);
    assert_eq!(compute_ctr(200, 7), Some(CtrRatio { clicks: 7, impressions: 200 }));
    let r = compute_ctr(8, 2).unwrap();
    assert_eq!((r.clicks as f64 / r.impressions as f64) * 100.0, 25.0);
}

#[test]
fn summary_from_row_carries_fields() {
    let s = summary_from_row(summary_row(40, 10));
    assert_eq!(s.popup_id, "p-1");
    assert_eq!(s.live_room_id, "room-1");
    assert_eq!((s.impression_count, s.click_count), (40, 10));
    assert_eq!(s.ctr, Some(CtrRatio { clicks: 10, impressions: 40 }));
    assert_eq!(s.last_impression_at.as_deref(), Some("t1"));
    assert_eq!(s.last_click_at, None);
    assert_eq!(s.updated_at, "t2");
    assert_eq!(summary_from_row(summary_row(0, 0)).ctr, None);
}

#[test]
fn zero_summary_has_no_counts() {
    let s = zero_summary("p-1".to_string(), "room-1".to_string(), "t".to_string());
    assert_eq!((s.impression_count, s.click_count), (0, 0));
    assert_eq!(s.ctr, None);
    assert_eq!(s.last_impression_at, None);
    assert_eq!(s.updated_at, "t");
}

#[test]
fn track_unknown_popup_is_400() {
    let req = TrackEventRequest { popup_id: "p-x".to_string(), live_room_id: "room-1".to_string() };
    match track_begin(TrackKind::Impression, req, Ok(0)) {
        TrackStep::Done(r) => {
            assert_eq!((r.status, r.body.code, r.body.message.as_str()), (400, 400, "Popup not found"))
        },
        _ => panic!("expected a reply"),
    }
    let req = TrackEventRequest { popup_id: "p-x".to_string(), live_room_id: "room-1".to_string() };
    assert!(matches!(track_begin(TrackKind::Click, req, Err(db_err("e"))), TrackStep::Done(_)));
}

#[test]
fn track_impression_full_flow() {
    let req = TrackEventRequest { popup_id: "p-1".to_string(), live_room_id: "room-1".to_string() };
    let w = match track_begin(TrackKind::Impression, req, Ok(1)) {
        TrackStep::UpsertSummary(w) => w,
        _ => panic!("expected the summary write"),
    };
    assert_eq!(w.kind, TrackKind::Impression);
    assert_eq!(w.popup_id, "p-1");
    assert_eq!(w.live_room_id, "room-1");
    assert!(w.now.ends_with("+00:00"));
    assert_eq!(w.stat_date.len(), 10);
    assert_eq!(w.stat_date.as_bytes()[4], b'-');
    let (w, total) = match track_on_summary(w, Ok(42)) {
        TrackStep::UpsertDaily(w, t) => (w, t),
        _ => panic!("expected the daily write"),
    };
    assert_eq!(total, 42);
    match track_on_daily(w, total, Ok(())) {
        TrackStep::Done(r) => {
            assert_eq!((r.status, r.body.code), (200, 0));
            let d = r.body.data.unwrap();
            assert_eq!(d.popup_id, "p-1");
            assert_eq!(d.event_type, "impression");
            assert_eq!(d.total_count, 42);
        },
        _ => panic!("expected a reply"),
    }
}

#[test]
fn track_click_reports_click() {
    match track_on_daily(write(TrackKind::Click), 3, Ok(())) {
        TrackStep::Done(r) => assert_eq!(r.body.data.unwrap().event_type, "click"),
        _ => panic!("expected a reply"),
    }
}

#[test]
fn track_failures_are_500() {
    match track_on_summary(write(TrackKind::Click), Err(db_err("summary failed"))) {
        TrackStep::Done(r) => assert_eq!((r.status, r.body.message.as_str()), (500, "summary failed")),
        _ => panic!("expected a reply"),
    }
    match track_on_daily(write(TrackKind::Click), 3, Err(db_err("daily failed"))) {
        TrackStep::Done(r) => {
            assert_eq!((r.status, r.body.message.as_str()), (500, "daily failed"));
            assert!(r.body.data.is_none());
        },
        _ => panic!("expected a reply"),
    }
}

#[test]
fn popup_stats_with_stored_totals() {
    let step = popup_stats_on_summary("p-1".to_string(), Ok(Some(summary_row(10, 1))));
    let (id, row) = match step {
        PopupStatsStep::CheckExists { popup_id, row } => (popup_id, row),
        _ => panic!("expected the existence check"),
    };
    match popup_stats_on_exists(id, row, Ok(1)) {
        PopupStatsStep::Done(r) => {
            assert_eq!(r.status, 200);
            let s = r.body.data.unwrap();
            assert_eq!((s.impression_count, s.click_count), (10, 1));
            assert_eq!(s.ctr, Some(CtrRatio { clicks: 1, impressions: 10 }));
        },
        _ => panic!("expected a reply"),
    }
}

#[test]
fn popup_stats_of_deleted_popup_is_404() {
    match popup_stats_on_exists("p-1".to_string(), Some(summary_row(1, 1)), Ok(0)) {
        PopupStatsStep::Done(r) => {
            assert_eq!((r.status, r.body.code, r.body.message.as_str()), (404, 404, "Popup not found"))
        },
        _ => panic!("expected a reply"),
    }
    match popup_stats_on_exists("p-1".to_string(), None, Err(db_err("x"))) {
        PopupStatsStep::Done(r) => assert_eq!(r.status, 404),
        _ => panic!("expected a reply"),
    }
}

#[test]
fn popup_stats_without_totals_is_zero() {
    let step = popup_stats_on_summary("p-1".to_string(), Ok(None));
    let (id, row) = match step {
        PopupStatsStep::CheckExists { popup_id, row } => (popup_id, row),
        _ => panic!("expected the existence check"),
    };
    assert!(row.is_none());
    let id = match popup_stats_on_exists(id, row, Ok(1)) {
        PopupStatsStep::FetchLiveRoom { popup_id } => popup_id,
        _ => panic!("expected the room lookup"),
    };
    match popup_stats_on_live_room(id, Ok("room-7".to_string())) {
        PopupStatsStep::Done(r) => {
            assert_eq!(r.status, 200);
            let s = r.body.data.unwrap();
            assert_eq!(s.popup_id, "p-1");
            assert_eq!(s.live_room_id, "room-7");
            assert_eq!((s.impression_count, s.click_count), (0, 0));
            assert_eq!(s.ctr, None);
            assert!(s.updated_at.ends_with("+00:00"));
        },
        _ => panic!("expected a reply"),
    }
}

#[test]
fn popup_stats_failures_are_500() {
    match popup_stats_on_summary("p-1".to_string(), Err(db_err("a"))) {
        PopupStatsStep::Done(r) => assert_eq!((r.status, r.body.message.as_str()), (500, "a")),
        _ => panic!("expected a reply"),
    }
    match popup_stats_on_live_room("p-1".to_string(), Err(db_err("b"))) {
        PopupStatsStep::Done(r) => assert_eq!((r.status, r.body.message.as_str()), (500, "b")),
        _ => panic!("expected a reply"),
    }
}

#[test]
fn daily_sql_needs_popup_or_room() {
    let r = daily_stats_sql(query(None, None, Some("2024-01-01"), None)).err().unwrap();
    assert_eq!((r.status, r.body.code), (400, 400));
    assert_eq!(r.body.message, "Either popup_id or live_room_id is required");
}

#[test]
fn daily_sql_all_filters() {
    let q = daily_stats_sql(query(Some("p-1"), Some("room-1"), Some("2024-01-01"), Some("2024-01-31")))
        .ok()
        .unwrap();
    assert_eq!(
        q.sql,
        "SELECT popup_id, live_room_id, stat_date, impression_count, click_count, updated_at FROM popup_stats_daily WHERE 1=1 AND popup_id = ? AND live_room_id = ? AND stat_date >= ? AND stat_date <= ? ORDER BY stat_date ASC"
    );
    assert_eq!(q.binds, vec!["p-1", "room-1", "2024-01-01", "2024-01-31"]);
    assert_eq!(q.sql.matches('?').count(), q.binds.len());
}

#[test]
fn daily_sql_room_and_end_only() {
    let q = daily_stats_sql(query(None, Some("room-1"), None, Some("2024-02-01"))).ok().unwrap();
    assert_eq!(
        q.sql,
        "SELECT popup_id, live_room_id, stat_date, impression_count, click_count, updated_at FROM popup_stats_daily WHERE 1=1 AND live_room_id = ? AND stat_date <= ? ORDER BY stat_date ASC"
    );
    assert_eq!(q.binds, vec!["room-1", "2024-02-01"]);
    assert_eq!(q.sql.matches('?').count(), 2);
}

#[test]
fn daily_reply_maps_rows() {
    let rows = vec![
        DailyRow {
            popup_id: "p-1".to_string(),
            live_room_id: "room-1".to_string(),
            stat_date: "2024-01-01".to_string(),
            impression_count: 4,
            click_count: 1,
            updated_at: "u1".to_string(),
        },
        DailyRow {
            popup_id: "p-1".to_string(),
            live_room_id: "room-1".to_string(),
            stat_date: "2024-01-02".to_string(),
            impression_count: 0,
            click_count: 0,
            updated_at: "u2".to_string(),
        },
    ];
    let r = daily_stats_reply(Ok(rows));
    assert_eq!(r.status, 200);
    let out = r.body.data.unwrap();
    assert_eq!(out.len(), 2);
    assert_eq!(out[0].stat_date, "2024-01-01");
    assert_eq!(out[0].ctr, Some(CtrRatio { clicks: 1, impressions: 4 }));
    assert_eq!(out[1].stat_date, "2024-01-02");
    assert_eq!(out[1].ctr, None);
    assert_eq!(out[1].updated_at, "u2");
    let r = daily_stats_reply(Err(db_err("q")));
    assert_eq!((r.status, r.body.message.as_str()), (500, "q"));
}

#[test]
fn live_room_stats_reply_outcomes() {
    let r = live_room_stats_reply(Ok(Vec::new()));
    assert_eq!((r.status, r.body.code), (200, 0));
    assert_eq!(r.body.data.unwrap().len(), 0);
    assert_eq!(live_room_stats_reply(Err(db_err("x"))).status, 500);
}

#[test]
fn live_room_stats_query_binds_room() {
    let q = live_room_stats_query("room-5".to_string());
    assert!(q.sql.contains("LEFT JOIN popup_stats_summary s ON s.popup_id = p.id"));
    assert!(q.sql.ends_with("WHERE p.live_room_id = ? ORDER BY p.sort_order ASC, p.created_at DESC"));
    assert_eq!(q.binds, vec!["room-5"]);
    assert_eq!(q.sql.matches('?').count(), 1);
}

#[test]
fn event_writes_follow_the_kind() {
    let w = write(TrackKind::Impression);
    let q = summary_upsert_query(&w);
    assert!(q.sql.starts_with("INSERT INTO popup_stats_summary"));
    assert!(q.sql.contains("impression_count = impression_count + 1"));
    assert_eq!(q.binds, vec!["p-1", "room-1", w.now.as_str(), w.now.as_str(), w.now.as_str()]);
    assert_eq!(q.sql.matches('?').count(), q.binds.len());
    let q = total_count_query(&w);
    assert_eq!(q.sql, "SELECT impression_count FROM popup_stats_summary WHERE popup_id = ?");
    assert_eq!(q.binds, vec!["p-1"]);
    let q = daily_upsert_query(&w);
    assert!(q.sql.starts_with("INSERT INTO popup_stats_daily"));
    assert_eq!(q.binds, vec!["p-1", "room-1", "2024-05-01", w.now.as_str(), w.now.as_str()]);
    assert_eq!(q.sql.matches('?').count(), 5);

    let w = write(TrackKind::Click);
    assert!(summary_upsert_query(&w).sql.contains("click_count = click_count + 1"));
    assert_eq!(total_count_query(&w).sql, "SELECT click_count FROM popup_stats_summary WHERE popup_id = ?");
    assert!(daily_upsert_query(&w).sql.contains("click_count = click_count + 1"));
}

#[test]
fn popup_totals_lookups_bind_the_popup() {
    let q = live_popup::stats_handler::summary_query("p-2".to_string());
    assert!(q.sql.starts_with("SELECT popup_id, live_room_id, impression_count, click_count"));
    assert!(q.sql.ends_with("FROM popup_stats_summary WHERE popup_id = ?"));
    assert_eq!(q.binds, vec!["p-2"]);
    let q = live_popup::stats_handler::popup_room_query("p-2".to_string());
    assert_eq!(q.sql, "SELECT live_room_id FROM live_room_popup WHERE id = ?");
    assert_eq!(q.binds, vec!["p-2"]);
}

#[test]
fn confirmed_popup_writes_running_totals_first() {
    let req = TrackEventRequest { popup_id: "p-1".to_string(), live_room_id: "room-1".to_string() };
    assert!(matches!(track_begin(TrackKind::Click, req, Ok(1)), TrackStep::UpsertSummary(_)));
}
