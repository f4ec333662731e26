use ravage::headers::Header;
use ravage::load_tests::{
    JsonData, LoadConfig, LoadRequest, RequestSource, chosen_requests, load_config,
    load_test_files, load_test_headers, load_test_ids, load_test_record, new_load_test_files,
    next_batch_end, request_source, time_stamp_now,
};
use ravage::models::{Request, RequestHeader};

fn form() -> JsonData {
    JsonData {
        name: "smoke".to_string(),
        collection_id: "4".to_string(),
        request_id: None,
        timeout: None,
        hatch_rate: None,
        launch_all_users: None,
        total_users: None,
        follow: None,
        runtime: None,
        body_type: None,
        body_content: None,
        headers: None,
    }
}

fn req(id: i32) -> LoadRequest {
    LoadRequest {
        request: Request {
            id,
            collection_id: 4,
            name: format!("r{}", id),
            path: "/p".to_string(),
            method: "POST".to_string(),
            body_type: Some("json".to_string()),
            body_content: Some("{}".to_string()),
            created_at: "2024-01-01 00:00:00".to_string(),
            updated_at: None,
        },
        headers: vec![RequestHeader {
            id: 1,
            request_id: id,
            key: "K".to_string(),
            value: "V".to_string(),
            created_at: "2024-01-01 00:00:00".to_string(),
            updated_at: None,
        }],
    }
}

#[test]
fn ids_default_to_the_whole_collection() {
    assert_eq!(load_test_ids(&form()), (4, 0));
    let mut f = form();
    f.request_id = Some("9".to_string());
    assert_eq!(load_test_ids(&f), (4, 9));
    assert_eq!(request_source(4, 0), RequestSource::AllOf(4));
    assert_eq!(request_source(4, 9), RequestSource::One(9));
}

#[test]
fn a_named_request_runs_alone_with_the_form_body() {
    let out = chosen_requests(1, vec![req(1)], Some("text".to_string()), None);
    assert_eq!(out.len(), 1);
    assert_eq!(out[0].request.body_type.as_deref(), Some("text"));
    assert_eq!(out[0].request.body_content.as_deref(), Some("{}"));
    assert_eq!(out[0].headers.len(), 1);
    let out = chosen_requests(1, vec![req(1)], None, Some("x=1".to_string()));
    assert_eq!(out[0].request.body_type.as_deref(), Some("json"));
    assert_eq!(out[0].request.body_content.as_deref(), Some("x=1"));
}

#[test]
fn the_whole_collection_runs_unchanged() {
    let out = chosen_requests(0, vec![req(1), req(2)], Some("text".to_string()), None);
    assert_eq!(out.len(), 2);
    assert_eq!(out[1].request.name, "r2");
    assert_eq!(out[0].request.body_type.as_deref(), Some("json"));
    assert!(chosen_requests(5, vec![], None, None).is_empty());
}

#[test]
fn form_headers_replace_collection_headers_by_key() {
    let c = vec![Header { key: "A".into(), value: "1".into() }, Header { key: "B".into(), value: "2".into() }];
    let f = vec![Header { key: "A".into(), value: "9".into() }];
    let out = load_test_headers(c.clone(), Some(f));
    let kv: Vec<(String, String)> = out.iter().map(|h| (h.key.clone(), h.value.clone())).collect();
    assert_eq!(kv, vec![("B".to_string(), "2".to_string()), ("A".to_string(), "9".to_string())]);
    assert_eq!(load_test_headers(c, None).len(), 2);
}

#[test]
fn files_are_named_after_one_stamp() {
    let files = load_test_files(None, "20240102_030405");
    assert_eq!(files.log_path, "/opt/data/log_20240102_030405.txt");
    assert_eq!(files.report_path, "/opt/data/report_20240102_030405.html");
    assert_eq!(files.stored_log_path, "/data/log_20240102_030405.txt");
    assert_eq!(files.stored_report_path, "/data/report_20240102_030405.html");
    let files = load_test_files(Some("/srv".to_string()), "s");
    assert_eq!(files.log_path, "/srv/log_s.txt");
}

#[test]
fn a_new_run_is_stamped_with_the_current_time() {
    let files = new_load_test_files(None).expect("the clock gives a stamp");
    assert_eq!(files.stamp.len(), 15);
    assert!(files.stamp.chars().enumerate().all(|(i, c)| if i == 8 { c == '_' } else { c.is_ascii_digit() }));
    assert_eq!(files.log_path, format!("/opt/data/log_{}.txt", files.stamp));
}

#[test]
fn the_record_names_its_source() {
    let files = load_test_files(None, "s");
    let r = load_test_record(&form(), 4, &files);
    assert_eq!((r.name.as_str(), r.source_type.as_str(), r.source_id), ("smoke", "4", 4));
    assert_eq!((r.log_path.as_str(), r.report_path.as_str()), ("/data/log_s.txt", "/data/report_s.html"));
}

#[test]
fn settings_take_their_defaults() {
    let files = load_test_files(None, "s");
    let c = load_config(&form(), &files);
    assert_eq!((c.timeout.as_str(), c.hatch_rate.as_str()), ("100", "100"));
    assert_eq!((c.launch_all_users, c.total_users, c.runtime, c.follow), (30, 500, 30, true));
    assert_eq!(c.log_path, "/opt/data/log_s.txt");
}

#[test]
fn settings_from_the_form() {
    let mut f = form();
    f.timeout = Some("5".into());
    f.hatch_rate = Some("7".into());
    f.launch_all_users = Some("2".into());
    f.total_users = Some("3".into());
    f.runtime = Some("4".into());
    f.follow = Some("off".into());
    let c = load_config(&f, &load_test_files(None, "s"));
    assert_eq!((c.timeout.as_str(), c.hatch_rate.as_str()), ("5", "7"));
    assert_eq!((c.launch_all_users, c.total_users, c.runtime, c.follow), (2, 3, 4, false));
}

fn config(launch: usize, total: usize) -> LoadConfig {
    LoadConfig {
        log_path: "l".into(),
        report_path: "r".into(),
        launch_all_users: launch,
        timeout: "100".into(),
        hatch_rate: "100".into(),
        runtime: 30,
        follow: true,
        total_users: total,
    }
}

#[test]
fn users_start_in_batches_up_to_the_total() {
    let c = config(30, 100);
    assert_eq!(next_batch_end(0, &c, true), Some(30));
    assert_eq!(next_batch_end(90, &c, true), Some(100));
    assert_eq!(next_batch_end(100, &c, true), None);
    assert_eq!(next_batch_end(0, &c, false), None);
    assert_eq!(next_batch_end(5, &config(0, 10), true), Some(6));
    assert_eq!(next_batch_end(1, &config(usize::MAX, usize::MAX), true), Some(usize::MAX));
}

#[test]
fn stamps_have_the_file_name_shape() {
    let s = time_stamp_now().expect("the clock gives a stamp");
    assert_eq!(s.len(), 15);
    assert!(s.chars().enumerate().all(|(i, c)| if i == 8 { c == '_' } else { c.is_ascii_digit() }));
}
