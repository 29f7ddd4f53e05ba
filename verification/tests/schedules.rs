use live_popup::models::{CreateScheduleRequest, PopupDisplaySchedule, UpdateScheduleRequest};
use live_popup::reply::DbError;
use live_popup::schedule_handler::{
    create_schedule_on_exists, create_schedule_reply, ListScheduleQuery, delete_schedule_reply, get_schedule_reply,
    list_schedules_query, list_schedules_reply, merge_schedule_update, new_schedule,
    update_schedule_on_fetch, update_schedule_reply,
};

fn create_request() -> CreateScheduleRequest {
    CreateScheduleRequest {
        popup_id: "p-1".to_string(),
        live_room_id: "room-1".to_string(),
        start_time: "2024-05-01T20:00:00+08:00".to_string(),
        end_time: "2024-05-01T21:00:00+08:00".to_string(),
        repeat_mode: "interval".to_string(),
        repeat_interval_secs: Some(300),
        display_duration_secs: 15,
        enabled: true,
    }
}

fn stored() -> PopupDisplaySchedule {
    new_schedule(create_request(), "s-1".to_string(), "now".to_string())
}

fn empty_update() -> UpdateScheduleRequest {
    UpdateScheduleRequest {
        start_time: None,
        end_time: None,
        repeat_mode: None,
        repeat_interval_secs: None,
        display_duration_secs: None,
        enabled: None,
    }
}

fn db_err(m: &str) -> DbError {
    DbError { message: m.to_string() }
}

#[test]
fn new_schedule_copies_request() {
    let s = stored();
    assert_eq!(s.id, "s-1");
    assert_eq!(s.popup_id, "p-1");
    assert_eq!(s.repeat_interval_secs, Some(300));
    assert_eq!(s.display_duration_secs, 15);
    assert_eq!(s.created_at, "now");
    assert_eq!(s.updated_at, "now");
}

#[test]
fn create_requires_existing_popup() {
    let r = create_schedule_on_exists(create_request(), Ok(0)).err().unwrap();
    assert_eq!((r.status, r.body.code, r.body.message.as_str()), (400, 400, "Popup not found"));
    let r = create_schedule_on_exists(create_request(), Err(db_err("no table"))).err().unwrap();
    assert_eq!((r.status, r.body.message.as_str()), (400, "Popup not found"));
    let s = create_schedule_on_exists(create_request(), Ok(1)).ok().unwrap();
    assert_eq!(s.id.len(), 36);
    assert!(s.created_at.ends_with("+00:00"));
    assert_eq!(s.created_at, s.updated_at);
    assert_eq!(s.start_time, "2024-05-01T20:00:00+08:00");
}

#[test]
fn schedule_create_reply_outcomes() {
    let r = create_schedule_reply(Ok(stored()));
    assert_eq!((r.status, r.body.code), (201, 0));
    let r = create_schedule_reply(Err(db_err("fk")));
    assert_eq!((r.status, r.body.message.as_str()), (500, "fk"));
}

#[test]
fn listing_prefers_popup_over_room() {
    let q = list_schedules_query(ListScheduleQuery {
        live_room_id: Some("room-1".to_string()),
        popup_id: Some("p-1".to_string()),
    });
    assert_eq!(q.sql, "SELECT * FROM popup_display_schedule WHERE popup_id = ? ORDER BY start_time ASC");
    assert_eq!(q.binds, vec!["p-1"]);
    let q = list_schedules_query(ListScheduleQuery { live_room_id: Some("room-1".to_string()), popup_id: None });
    assert_eq!(q.sql, "SELECT * FROM popup_display_schedule WHERE live_room_id = ? ORDER BY start_time ASC");
    assert_eq!(q.binds, vec!["room-1"]);
    let q = list_schedules_query(ListScheduleQuery { live_room_id: None, popup_id: None });
    assert_eq!(q.sql, "SELECT * FROM popup_display_schedule ORDER BY start_time ASC");
    assert!(q.binds.is_empty());
    assert_eq!(q.sql.matches('?').count(), 0);
}

#[test]
fn list_and_get_replies() {
    let r = list_schedules_reply(Ok(vec![stored()]));
    assert_eq!(r.status, 200);
    assert_eq!(r.body.data.unwrap().len(), 1);
    assert_eq!(list_schedules_reply(Err(db_err("x"))).status, 500);
    assert_eq!(get_schedule_reply(Ok(Some(stored()))).status, 200);
    let r = get_schedule_reply(Ok(None));
    assert_eq!((r.status, r.body.message.as_str()), (404, "Schedule not found"));
    assert_eq!(get_schedule_reply(Err(db_err("x"))).status, 500);
}

#[test]
fn merge_schedule_fields() {
    let mut req = empty_update();
    req.end_time = Some("later".to_string());
    req.enabled = Some(false);
    let u = merge_schedule_update("s-1".to_string(), stored(), req, "t".to_string());
    assert_eq!(u.end_time, "later");
    assert!(!u.enabled);
    assert_eq!(u.start_time, "2024-05-01T20:00:00+08:00");
    assert_eq!(u.repeat_mode, "interval");
    assert_eq!(u.repeat_interval_secs, Some(300));
    assert_eq!(u.display_duration_secs, 15);
    assert_eq!(u.updated_at, "t");
}

#[test]
fn empty_schedule_update_keeps_values() {
    let s = stored();
    let u = merge_schedule_update(s.id.clone(), stored(), empty_update(), "t".to_string());
    assert_eq!(u.start_time, s.start_time);
    assert_eq!(u.end_time, s.end_time);
    assert_eq!(u.repeat_mode, s.repeat_mode);
    assert_eq!(u.repeat_interval_secs, s.repeat_interval_secs);
    assert_eq!(u.display_duration_secs, s.display_duration_secs);
    assert_eq!(u.enabled, s.enabled);
}

#[test]
fn schedule_update_on_fetch_outcomes() {
    let mut req = empty_update();
    req.display_duration_secs = Some(30);
    let u = update_schedule_on_fetch("s-1".to_string(), req, Ok(Some(stored()))).ok().unwrap();
    assert_eq!(u.display_duration_secs, 30);
    assert!(u.updated_at.ends_with("+00:00"));
    let r = update_schedule_on_fetch("s-2".to_string(), empty_update(), Ok(None)).err().unwrap();
    assert_eq!((r.status, r.body.message.as_str()), (404, "Schedule not found"));
    let r = update_schedule_on_fetch("s-2".to_string(), empty_update(), Err(db_err("e"))).err().unwrap();
    assert_eq!(r.status, 500);
}

#[test]
fn update_and_delete_replies() {
    assert_eq!(update_schedule_reply(Ok(stored())).status, 200);
    assert_eq!(update_schedule_reply(Err(db_err("e"))).status, 500);
    assert_eq!(delete_schedule_reply(Ok(2)).status, 200);
    let r = delete_schedule_reply(Ok(0));
    assert_eq!((r.status, r.body.message.as_str()), (404, "Schedule not found"));
    assert_eq!(delete_schedule_reply(Err(db_err("e"))).status, 500);
}

#[test]
fn schedule_statements_bind_in_column_order() {
    let st = live_popup::schedule_handler::insert_schedule_statement(stored());
    assert!(st.sql.starts_with("INSERT INTO popup_display_schedule (id, popup_id"));
    assert_eq!(st.params.len(), 11);
    assert_eq!(st.sql.matches('?').count(), 11);
    assert!(matches!(&st.params[6], live_popup::query::Param::MaybeInt(Some(300))));
    assert!(matches!(&st.params[7], live_popup::query::Param::Int(15)));

    let u = merge_schedule_update("s-1".to_string(), stored(), empty_update(), "t".to_string());
    let st = live_popup::schedule_handler::update_schedule_statement(u);
    assert!(st.sql.starts_with("UPDATE popup_display_schedule SET start_time = ?"));
    assert_eq!(st.params.len(), 8);
    assert_eq!(st.sql.matches('?').count(), 8);
    assert!(matches!(&st.params[7], live_popup::query::Param::Text(v) if v == "s-1"));

    let q = live_popup::schedule_handler::schedule_by_id_query("s-9".to_string());
    assert_eq!(q.sql, "SELECT * FROM popup_display_schedule WHERE id = ?");
    assert_eq!(q.binds, vec!["s-9"]);
    let q = live_popup::schedule_handler::delete_schedule_query("s-9".to_string());
    assert_eq!(q.sql, "DELETE FROM popup_display_schedule WHERE id = ?");
    assert_eq!(q.binds, vec!["s-9"]);
}
