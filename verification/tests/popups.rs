use live_popup::models::{CreatePopupRequest, FloatBits, LiveRoomPopup, UpdatePopupRequest};
use live_popup::popup_handler::{
    create_popup_reply, delete_popup_reply, ListPopupQuery, get_popup_reply, list_popups_query, list_popups_reply, merge_popup_update,
    new_popup, prepare_popup_insert, update_popup_on_fetch, update_popup_reply, PopupUpdate,
};
use live_popup::reply::DbError;

fn price(x: f64) -> FloatBits {
    FloatBits { bits: x.to_bits() }
}

fn create_request() -> CreatePopupRequest {
    CreatePopupRequest {
        live_room_id: "room-1".to_string(),
        product_id: "sku-9".to_string(),
        product_name: "Tea set".to_string(),
        product_image: Some("https://img/tea.png".to_string()),
        product_price: price(99.5),
        original_price: Some(price(129.0)),
        popup_type: "product_card".to_string(),
        title: Some("Today only".to_string()),
        description: None,
        action_url: None,
        sort_order: 3,
        enabled: true,
    }
}

fn stored_popup() -> LiveRoomPopup {
    new_popup(create_request(), "p-1".to_string(), "2024-05-01T10:00:00+00:00".to_string())
}

fn empty_update() -> UpdatePopupRequest {
    UpdatePopupRequest {
        product_name: None,
        product_image: None,
        product_price: None,
        original_price: None,
        popup_type: None,
        title: None,
        description: None,
        action_url: None,
        sort_order: None,
        enabled: None,
    }
}

fn apply(row: &LiveRoomPopup, u: &PopupUpdate) -> LiveRoomPopup {
    LiveRoomPopup {
        id: row.id.clone(),
        live_room_id: row.live_room_id.clone(),
        product_id: row.product_id.clone(),
        product_name: u.product_name.clone(),
        product_image: u.product_image.clone(),
        product_price: u.product_price,
        original_price: u.original_price,
        popup_type: u.popup_type.clone(),
        title: u.title.clone(),
        description: u.description.clone(),
        action_url: u.action_url.clone(),
        sort_order: u.sort_order,
        enabled: u.enabled,
        created_at: row.created_at.clone(),
        updated_at: u.updated_at.clone(),
    }
}

fn db_err(m: &str) -> DbError {
    DbError { message: m.to_string() }
}

#[test]
fn new_popup_copies_request_and_stamps() {
    let p = stored_popup();
    assert_eq!(p.id, "p-1");
    assert_eq!(p.live_room_id, "room-1");
    assert_eq!(p.product_name, "Tea set");
    assert_eq!(f64::from_bits(p.product_price.bits), 99.5);
    assert_eq!(p.original_price.map(|b| f64::from_bits(b.bits)), Some(129.0));
    assert_eq!(p.sort_order, 3);
    assert!(p.enabled);
    assert_eq!(p.created_at, "2024-05-01T10:00:00+00:00");
    assert_eq!(p.updated_at, p.created_at);
}

#[test]
fn prepare_insert_uses_uuid_and_utc_time() {
    let p = prepare_popup_insert(create_request());
    assert_eq!(p.id.len(), 36);
    let chars: Vec<char> = p.id.chars().collect();
    for (i, c) in chars.iter().enumerate() {
        if i == 8 || i == 13 || i == 18 || i == 23 {
            assert_eq!(*c, '-');
        } else {
            assert!(c.is_ascii_digit() || ('a'..='f').contains(c));
        }
    }
    assert_eq!(chars[14], '4');
    assert!(['8', '9', 'a', 'b'].contains(&chars[19]));
    assert!(p.created_at.ends_with("+00:00"));
    assert_eq!(p.created_at, p.updated_at);
    assert_eq!(p.product_id, "sku-9");
}

#[test]
fn two_inserts_get_different_ids() {
    let a = prepare_popup_insert(create_request());
    let b = prepare_popup_insert(create_request());
    assert_ne!(a.id, b.id);
}

#[test]
fn create_reply_is_201_or_500() {
    let r = create_popup_reply(Ok(stored_popup()));
    assert_eq!(r.status, 201);
    assert_eq!(r.body.code, 0);
    assert_eq!(r.body.message, "success");
    assert_eq!(r.body.data.unwrap().id, "p-1");
    let r = create_popup_reply(Err(db_err("disk full")));
    assert_eq!(r.status, 500);
    assert_eq!(r.body.code, 500);
    assert_eq!(r.body.message, "disk full");
    assert!(r.body.data.is_none());
}

#[test]
fn list_reply_keeps_rows_in_order() {
    let mut second = stored_popup();
    second.id = "p-2".to_string();
    let r = list_popups_reply(Ok(vec![stored_popup(), second]));
    assert_eq!(r.status, 200);
    let ids: Vec<String> = r.body.data.unwrap().into_iter().map(|p| p.id).collect();
    assert_eq!(ids, vec!["p-1".to_string(), "p-2".to_string()]);
    let r = list_popups_reply(Err(db_err("locked")));
    assert_eq!((r.status, r.body.code), (500, 500));
}

#[test]
fn get_reply_found_missing_failed() {
    assert_eq!(get_popup_reply(Ok(Some(stored_popup()))).status, 200);
    let r = get_popup_reply(Ok(None));
    assert_eq!((r.status, r.body.code), (404, 404));
    assert_eq!(r.body.message, "Popup not found");
    assert!(r.body.data.is_none());
    let r = get_popup_reply(Err(db_err("io")));
    assert_eq!((r.status, r.body.message.as_str()), (500, "io"));
}

#[test]
fn merge_takes_given_fields_and_keeps_others() {
    let existing = stored_popup();
    let mut req = empty_update();
    req.product_name = Some("Mug".to_string());
    req.sort_order = Some(7);
    req.enabled = Some(false);
    req.description = Some("new".to_string());
    let u = merge_popup_update("p-1".to_string(), existing, req, "t2".to_string());
    assert_eq!(u.id, "p-1");
    assert_eq!(u.product_name, "Mug");
    assert_eq!(u.sort_order, 7);
    assert!(!u.enabled);
    assert_eq!(u.description.as_deref(), Some("new"));
    assert_eq!(u.title.as_deref(), Some("Today only"));
    assert_eq!(u.product_image.as_deref(), Some("https://img/tea.png"));
    assert_eq!(f64::from_bits(u.product_price.bits), 99.5);
    assert_eq!(u.popup_type, "product_card");
    assert_eq!(u.updated_at, "t2");
}

#[test]
fn empty_update_keeps_row() {
    let existing = stored_popup();
    let u = merge_popup_update(existing.id.clone(), stored_popup(), empty_update(), "t9".to_string());
    let after = apply(&existing, &u);
    assert_eq!(after.product_name, existing.product_name);
    assert_eq!(after.product_image, existing.product_image);
    assert_eq!(after.original_price, existing.original_price);
    assert_eq!(after.title, existing.title);
    assert_eq!(after.description, existing.description);
    assert_eq!(after.sort_order, existing.sort_order);
    assert_eq!(after.enabled, existing.enabled);
    assert_eq!(after.created_at, existing.created_at);
    assert_eq!(after.updated_at, "t9");
}

#[test]
fn update_twice_same_as_once() {
    let existing = stored_popup();
    let req = || {
        let mut r = empty_update();
        r.title = Some("Flash".to_string());
        r.product_price = Some(price(10.0));
        r
    };
    let u1 = merge_popup_update(existing.id.clone(), stored_popup(), req(), "t1".to_string());
    let once = apply(&existing, &u1);
    let u2 = merge_popup_update(once.id.clone(), apply(&existing, &u1), req(), "t2".to_string());
    let twice = apply(&once, &u2);
    assert_eq!(twice.title, once.title);
    assert_eq!(twice.product_price, once.product_price);
    assert_eq!(twice.product_name, once.product_name);
    assert_eq!(twice.description, once.description);
    assert_eq!(twice.updated_at, "t2");
}

#[test]
fn absent_optional_field_does_not_clear() {
    let existing = stored_popup();
    let u = merge_popup_update(existing.id.clone(), stored_popup(), empty_update(), "t".to_string());
    assert!(u.product_image.is_some());
    assert!(u.original_price.is_some());
    assert!(u.title.is_some());
}

#[test]
fn popup_update_on_fetch_outcomes() {
    let mut req = empty_update();
    req.sort_order = Some(1);
    let step = update_popup_on_fetch("p-1".to_string(), req, Ok(Some(stored_popup())));
    let u = step.ok().unwrap();
    assert_eq!(u.sort_order, 1);
    assert_eq!(u.id, "p-1");
    assert!(u.updated_at.ends_with("+00:00"));

    let step = update_popup_on_fetch("p-x".to_string(), empty_update(), Ok(None));
    let r = step.err().unwrap();
    assert_eq!((r.status, r.body.message.as_str()), (404, "Popup not found"));

    let step = update_popup_on_fetch("p-x".to_string(), empty_update(), Err(db_err("busy")));
    let r = step.err().unwrap();
    assert_eq!((r.status, r.body.code, r.body.message.as_str()), (500, 500, "busy"));
}

#[test]
fn update_reply_outcomes() {
    assert_eq!(update_popup_reply(Ok(stored_popup())).status, 200);
    assert_eq!(update_popup_reply(Err(db_err("x"))).status, 500);
}

#[test]
fn delete_reply_outcomes() {
    let r = delete_popup_reply(Ok(1));
    assert_eq!(r.status, 200);
    assert!(r.body.data.unwrap().deleted);
    let r = delete_popup_reply(Ok(0));
    assert_eq!((r.status, r.body.code, r.body.message.as_str()), (404, 404, "Popup not found"));
    let r = delete_popup_reply(Err(db_err("gone")));
    assert_eq!((r.status, r.body.message.as_str()), (500, "gone"));
}

#[test]
fn list_popups_query_binds_room() {
    let q = list_popups_query(ListPopupQuery { live_room_id: "room-3".to_string() });
    assert_eq!(
        q.sql,
        "SELECT * FROM live_room_popup WHERE live_room_id = ? ORDER BY sort_order ASC, created_at DESC"
    );
    assert_eq!(q.binds, vec!["room-3"]);
}

#[test]
fn popup_statements_bind_in_column_order() {
    let st = live_popup::popup_handler::insert_popup_statement(stored_popup());
    assert!(st.sql.starts_with("INSERT INTO live_room_popup (id, live_room_id, product_id"));
    assert!(st.sql.ends_with("RETURNING *"));
    assert_eq!(st.params.len(), 15);
    assert_eq!(st.sql.matches('?').count(), 15);
    assert!(matches!(&st.params[0], live_popup::query::Param::Text(v) if v == "p-1"));
    assert!(matches!(&st.params[5], live_popup::query::Param::Real(v) if f64::from_bits(v.bits) == 99.5));
    assert!(matches!(&st.params[11], live_popup::query::Param::Int(3)));
    assert!(matches!(&st.params[12], live_popup::query::Param::Bool(true)));

    let mut req = empty_update();
    req.product_name = Some("Mug".to_string());
    let u = merge_popup_update("p-1".to_string(), stored_popup(), req, "t2".to_string());
    let st = live_popup::popup_handler::update_popup_statement(u);
    assert!(st.sql.starts_with("UPDATE live_room_popup SET product_name = ?"));
    assert_eq!(st.params.len(), 12);
    assert_eq!(st.sql.matches('?').count(), 12);
    assert!(matches!(&st.params[0], live_popup::query::Param::Text(v) if v == "Mug"));
    assert!(matches!(&st.params[10], live_popup::query::Param::Text(v) if v == "t2"));
    assert!(matches!(&st.params[11], live_popup::query::Param::Text(v) if v == "p-1"));
}

#[test]
fn popup_lookups_bind_the_id() {
    let q = live_popup::popup_handler::popup_by_id_query("p-7".to_string());
    assert_eq!(q.sql, "SELECT * FROM live_room_popup WHERE id = ?");
    assert_eq!(q.binds, vec!["p-7"]);
    let q = live_popup::popup_handler::delete_popup_query("p-7".to_string());
    assert_eq!(q.sql, "DELETE FROM live_room_popup WHERE id = ?");
    assert_eq!(q.binds, vec!["p-7"]);
    let q = live_popup::popup_handler::popup_exists_query("p-7".to_string());
    assert_eq!(q.sql, "SELECT EXISTS(SELECT 1 FROM live_room_popup WHERE id = ?)");
    assert_eq!(q.binds, vec!["p-7"]);
}
