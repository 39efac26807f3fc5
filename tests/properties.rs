use nightlog::{
    add_response, found_log, log_deletion, log_insertion, log_listing, log_replacement,
    log_retrieval, ok_response, Config, ConfigError, DeleteLogRequest, GetListRequest,
    GetLogRequest, HandlerError, Log, LogFilter, LogId, LogStore, Observation,
    ObservationRequest, StoreError,
};

fn request(user_id: &str, object_name: &str) -> ObservationRequest {
    ObservationRequest {
        user_id: user_id.to_string(),
        object_name: object_name.to_string(),
        object_location: "Andromeda".to_string(),
        equipment: "Dobson 254/1250".to_string(),
        eyepiece: "25mm".to_string(),
        notes: "clear sky".to_string(),
    }
}

fn insert(store: &mut LogStore, user_id: &str, object_name: &str) -> LogId {
    let log = Log::from_observation_request(&request(user_id, object_name));
    log_insertion(&log, store).unwrap().unwrap()
}

fn get(id: LogId, user_id: &str) -> GetLogRequest {
    GetLogRequest { log_id: id, user_id: user_id.to_string() }
}

fn del(id: LogId, user_id: &str) -> DeleteLogRequest {
    DeleteLogRequest { log_id: id, user_id: user_id.to_string() }
}

#[test]
fn created_log_has_id_time_and_fields() {
    let before = chrono::Utc::now().timestamp();
    let req = request("u1", "M31");
    let log = Log::from_observation_request(&req);
    let after = chrono::Utc::now().timestamp();
    assert!(log._id.is_some());
    assert!(before <= log.date && log.date <= after);
    assert_eq!(log.user_id, "u1");
    assert_eq!(log.observation.object_name, "M31");
    assert_eq!(log.observation.notes, "clear sky");
}

#[test]
fn two_created_logs_get_different_ids() {
    let a = Log::from_observation_request(&request("u1", "M31"));
    let b = Log::from_observation_request(&request("u1", "M31"));
    assert_ne!(a._id.unwrap().bytes, b._id.unwrap().bytes);
}

#[test]
fn observation_from_request_copies_verbatim() {
    let req = ObservationRequest {
        user_id: "u".to_string(),
        object_name: "  M42 ".to_string(),
        object_location: "".to_string(),
        equipment: "x".to_string(),
        eyepiece: "y".to_string(),
        notes: "z".to_string(),
    };
    let obs = Observation::from_request(&req);
    assert_eq!(obs.object_name, "  M42 ");
    assert_eq!(obs.object_location, "");
    let other = Observation::new(
        "  M42 ".to_string(),
        "".to_string(),
        "x".to_string(),
        "y".to_string(),
        "z".to_string(),
    );
    assert!(obs.same_as(&other));
}

#[test]
fn scenario_retrieve_by_owner() {
    let mut store = LogStore::new();
    let id = insert(&mut store, "u1", "M31");
    let found = log_retrieval(&store, &get(id, "u1")).unwrap();
    assert_eq!(found.observation.object_name, "M31");
    assert!(log_retrieval(&store, &get(id, "u2")).is_none());
}

#[test]
fn scenario_list_two_logs() {
    let mut store = LogStore::new();
    let a = insert(&mut store, "u1", "M31");
    let b = insert(&mut store, "u1", "M1");
    insert(&mut store, "u2", "M42");
    let list = log_listing(&store, &GetListRequest { user_id: "u1".to_string() });
    assert_eq!(list.len(), 2);
    assert!(list.iter().any(|l| l._id.unwrap().same_as(&a)));
    assert!(list.iter().any(|l| l._id.unwrap().same_as(&b)));
    assert!(list.iter().all(|l| l.user_id == "u1"));
}

#[test]
fn scenario_delete_then_retrieve_and_delete_again() {
    let mut store = LogStore::new();
    let id = insert(&mut store, "u1", "M31");
    assert_eq!(log_deletion(&mut store, &del(id, "u1")).deleted_count, 1);
    assert!(log_retrieval(&store, &get(id, "u1")).is_none());
    assert_eq!(log_deletion(&mut store, &del(id, "u1")).deleted_count, 0);
    assert_eq!(store.len(), 0);
}

#[test]
fn other_owner_cannot_replace_or_delete() {
    let mut store = LogStore::new();
    let id = insert(&mut store, "u1", "M31");
    assert_eq!(log_deletion(&mut store, &del(id, "u2")).deleted_count, 0);
    let mut intruder = Log::from_observation_request(&request("u2", "M1"));
    intruder._id = Some(id);
    let rep = log_replacement(&intruder, &mut store);
    assert_eq!(rep.matched_count, 0);
    assert_eq!(rep.modified_count, 0);
    let kept = log_retrieval(&store, &get(id, "u1")).unwrap();
    assert_eq!(kept.observation.object_name, "M31");
    assert_eq!(store.len(), 1);
}

#[test]
fn replacing_missing_log_creates_nothing() {
    let mut store = LogStore::new();
    insert(&mut store, "u1", "M31");
    let log = Log::from_observation_request(&request("u1", "M1"));
    let rep = log_replacement(&log, &mut store);
    assert_eq!(rep.matched_count, 0);
    assert_eq!(rep.modified_count, 0);
    assert_eq!(store.len(), 1);
    let list = log_listing(&store, &GetListRequest { user_id: "u1".to_string() });
    assert_eq!(list[0].observation.object_name, "M31");
}

#[test]
fn replacing_with_same_log_modifies_nothing() {
    let mut store = LogStore::new();
    let log = Log::from_observation_request(&request("u1", "M31"));
    log_insertion(&log, &mut store).unwrap();
    let rep = log_replacement(&log, &mut store);
    assert_eq!(rep.matched_count, 1);
    assert_eq!(rep.modified_count, 0);
}

#[test]
fn inserting_same_id_twice_is_duplicate_key() {
    let mut store = LogStore::new();
    let log = Log::from_observation_request(&request("u1", "M31"));
    assert!(log_insertion(&log, &mut store).is_ok());
    assert!(matches!(log_insertion(&log, &mut store), Err(StoreError::DuplicateKey)));
    assert_eq!(store.len(), 1);
}

#[test]
fn log_without_id_gets_one() {
    let mut store = LogStore::new();
    let obs = Observation::from_request(&request("u1", "M31"));
    let log = Log::with_parts(None, "u1".to_string(), 0, obs);
    let id = log_insertion(&log, &mut store).unwrap().unwrap();
    let found = log_retrieval(&store, &get(id, "u1")).unwrap();
    assert!(found._id.unwrap().same_as(&id));
    assert_eq!(found.date, 0);
}

#[test]
fn empty_listing() {
    let store = LogStore::new();
    assert!(log_listing(&store, &GetListRequest { user_id: "u1".to_string() }).is_empty());
}

#[test]
fn filter_reaches_owner_only() {
    let log = Log::from_observation_request(&request("u1", "M31"));
    assert!(LogFilter::Owner { user_id: "u1".to_string() }.admits_log(&log));
    assert!(!LogFilter::Owner { user_id: "u2".to_string() }.admits_log(&log));
    let by_id = LogFilter::IdAndOwner { log_id: log._id, user_id: "u2".to_string() };
    assert!(!by_id.admits_log(&log));
    let no_id = LogFilter::IdAndOwner { log_id: None, user_id: "u1".to_string() };
    assert!(!no_id.admits_log(&log));
}

#[test]
fn config_requires_all_settings() {
    let s = |v: &str| Some(v.to_string());
    let c = Config::from_settings(s("mongodb://h"), s("db"), s("logs")).unwrap();
    assert_eq!(c.database_url, "mongodb://h");
    assert_eq!(c.database_name, "db");
    assert_eq!(c.database_collection, "logs");
    let e = Config::from_settings(None, None, s("logs")).unwrap_err();
    assert_eq!(e, ConfigError::MissingDatabaseUrl);
    assert_eq!(e.setting(), "DATABASE_URL");
    let e = Config::from_settings(s("u"), None, None).unwrap_err();
    assert_eq!(e, ConfigError::MissingDatabaseName);
    assert_eq!(e.setting(), "DATABASE_NAME");
    let e = Config::from_settings(s("u"), s("d"), None).unwrap_err();
    assert_eq!(e, ConfigError::MissingDatabaseCollection);
    assert_eq!(e.setting(), "DATABASE_COLLECTION");
}

#[test]
fn add_response_writes_id_as_json() {
    let id = LogId::from_bytes([0x65, 0x1f, 0, 1, 2, 3, 4, 5, 6, 7, 8, 0xab]);
    let resp = add_response(Some(id)).unwrap();
    assert_eq!(resp.status_code, 200);
    assert_eq!(resp.body, "{\"$oid\":\"651f000102030405060708ab\"}");
}

#[test]
fn add_response_without_id_fails() {
    let e = add_response(None).unwrap_err();
    assert_eq!(e, HandlerError::NoIdReturned);
    assert_eq!(e.message(), "no id returned from insert operation");
}

#[test]
fn ok_response_keeps_body() {
    let ok = ok_response("[]".to_string());
    assert_eq!(ok.status_code, 200);
    assert_eq!(ok.body, "[]");
}

#[test]
fn add_response_writes_every_byte() {
    let id = LogId::from_bytes([0, 0x0f, 0x10, 0xff, 0x9a, 0xa9, 1, 2, 3, 4, 5, 6]);
    let resp = add_response(Some(id)).unwrap();
    assert_eq!(resp.body, "{\"$oid\":\"000f10ff9aa9010203040506\"}");
}

#[test]
fn missing_log_is_not_found() {
    let e = found_log(None).unwrap_err();
    assert_eq!(e, HandlerError::NotFound);
    let log = Log::from_observation_request(&request("u1", "M31"));
    let id = log._id;
    let got = found_log(Some(log)).unwrap();
    assert!(got.same_as(&Log::with_parts(
        id,
        "u1".to_string(),
        got.date,
        Observation::from_request(&request("u1", "M31"))
    )));
}

#[test]
fn log_ids_compare_by_bytes() {
    let a = LogId::from_bytes([1; 12]);
    let b = LogId::from_bytes([1; 12]);
    let mut c_bytes = [1u8; 12];
    c_bytes[11] = 2;
    let c = LogId::from_bytes(c_bytes);
    assert!(a.same_as(&b));
    assert!(!a.same_as(&c));
}
