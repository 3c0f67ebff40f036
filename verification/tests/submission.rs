use std::collections::HashMap;

use form_collect::submission::appended_rows;
use form_collect::submission::try_appended_rows;
use form_collect::submission::try_plan_submission;
use form_collect::submission::try_updated_table_config;
use form_collect::submission::plan_submission;
use form_collect::submission::rows_with_record;
use form_collect::submission::submit_reply;
use form_collect::submission::updated_table_config;
use form_collect::submission::StoreError;
use form_collect::submission::SubmitError;
use form_collect::submission::SUBMIT_FAILED;
use form_collect::submission::SUBMIT_OK;

fn strings(items: &[&str]) -> Vec<String> {
    items.iter().map(|s| s.to_string()).collect()
}

fn config_of(text: &str) -> HashMap<String, String> {
    serde_json::from_str(text).unwrap()
}

#[test]
fn plan_reads_task_and_order() {
    let body = "{\"time_millisecond\":\"1\",\"task_name\":\"t1\",\"name\":\"Li\"}";
    let s = plan_submission(body).ok().unwrap();
    assert_eq!(s.task_name, "t1");
    assert_eq!(s.order, strings(&["time_millisecond", "task_name", "name"]));
    assert_eq!(s.record, serde_json::from_str::<serde_json::Value>(body).unwrap());
}

#[test]
fn plan_rejects_text_that_is_not_json() {
    assert!(matches!(try_plan_submission("{\"task_name\":"), Err(SubmitError::Json(_))));
    assert!(matches!(try_plan_submission(""), Err(SubmitError::Json(_))));
}

#[test]
fn plan_rejects_json_that_is_not_an_object() {
    assert!(matches!(try_plan_submission("[1,2]"), Err(SubmitError::NotObject)));
    assert!(matches!(try_plan_submission("\"task_name\""), Err(SubmitError::NotObject)));
}

#[test]
fn plan_needs_a_task_name() {
    assert!(matches!(try_plan_submission("{\"a\":\"1\"}"), Err(SubmitError::MissingTaskName)));
    assert!(matches!(try_plan_submission("{\"task_name\":7}"), Err(SubmitError::TaskNameNotText)));
}

#[test]
fn plan_needs_names_written_verbatim() {
    match try_plan_submission("{\"task_name\":\"t\",\"a\\u0062\":1}") {
        Err(SubmitError::FieldNotInText(t)) => assert_eq!(t, "t"),
        _ => panic!("expected FieldNotInText"),
    }
}

#[test]
fn config_is_created_with_the_order() {
    let c = try_updated_table_config(&None, &strings(&["a", "b"])).unwrap();
    let m = config_of(&c);
    assert_eq!(m.len(), 1);
    assert_eq!(m["order_config"], "[\"a\",\"b\"]");
}

#[test]
fn config_keeps_other_entries_and_replaces_the_order() {
    let stored = b"{\"title\":\"x\",\"order_config\":\"[\\\"old\\\"]\"}".to_vec();
    let c = try_updated_table_config(&Some(stored), &strings(&["n"])).unwrap();
    let m = config_of(&c);
    assert_eq!(m.len(), 2);
    assert_eq!(m["title"], "x");
    assert_eq!(m["order_config"], "[\"n\"]");
}

#[test]
fn config_adds_the_order_to_other_entries() {
    let c = try_updated_table_config(&Some(b"{\"k\":\"v\"}".to_vec()), &Vec::new()).unwrap();
    let m = config_of(&c);
    assert_eq!(m.len(), 2);
    assert_eq!(m["k"], "v");
    assert_eq!(m["order_config"], "[]");
}

#[test]
fn config_that_does_not_read_back_is_refused() {
    assert_eq!(
        try_updated_table_config(&Some(vec![0xff, 0xfe]), &Vec::new()),
        Err(StoreError::NotUtf8)
    );
    assert_eq!(
        try_updated_table_config(&Some(b"[\"a\"]".to_vec()), &Vec::new()),
        Err(StoreError::NotJson)
    );
    assert_eq!(
        try_updated_table_config(&Some(b"{\"a\":1}".to_vec()), &Vec::new()),
        Err(StoreError::NotJson)
    );
}

#[test]
fn first_row_starts_the_list() {
    let record: serde_json::Value = serde_json::from_str("{\"b\":\"2\",\"a\":\"1\"}").unwrap();
    let rows = rows_with_record(&None, record.clone());
    assert_eq!(rows, vec![record.clone()]);
    assert_eq!(appended_rows(&None, record), "[{\"a\":\"1\",\"b\":\"2\"}]");
}

#[test]
fn later_rows_are_appended() {
    let record: serde_json::Value = serde_json::from_str("{\"x\":true}").unwrap();
    let stored = b"[1, {\"y\": null}]".to_vec();
    let rows = rows_with_record(&Some(stored.clone()), record.clone());
    assert_eq!(rows.len(), 3);
    assert_eq!(rows[2], record);
    assert_eq!(
        appended_rows(&Some(stored), record),
        "[1,{\"y\":null},{\"x\":true}]"
    );
}

#[test]
fn rows_that_do_not_read_back_are_refused() {
    let record = serde_json::Value::Null;
    assert_eq!(
        try_appended_rows(&Some(vec![0xc3]), record.clone()).err(),
        Some(StoreError::NotUtf8)
    );
    assert_eq!(
        try_appended_rows(&Some(b"{}".to_vec()), record.clone()).err(),
        Some(StoreError::NotJson)
    );
    assert_eq!(try_appended_rows(&Some(b"nope".to_vec()), record).err(), Some(StoreError::NotJson));
}

#[test]
fn replies_to_a_submission() {
    assert_eq!(submit_reply(true), SUBMIT_OK);
    assert_eq!(submit_reply(false), SUBMIT_FAILED);
    assert_eq!(SUBMIT_OK, "提交成功");
    assert_eq!(SUBMIT_FAILED, "提交失败");
}

#[test]
fn config_in_any_script_reads_back() {
    let stored = "{\"标题\":\"报名表\"}".as_bytes().to_vec();
    let c = try_updated_table_config(&Some(stored), &strings(&["姓名"])).unwrap();
    let m = config_of(&c);
    assert_eq!(m["标题"], "报名表");
    assert_eq!(m["order_config"], "[\"姓名\"]");
}

#[test]
fn written_config_is_stable_under_resubmission() {
    let order = strings(&["task_name", "x"]);
    let first = try_updated_table_config(&None, &order).unwrap();
    let second = try_updated_table_config(&Some(first.as_bytes().to_vec()), &order).unwrap();
    assert_eq!(config_of(&first), config_of(&second));
}

#[test]
fn order_names_are_escaped_as_json_strings() {
    let order = strings(&["a\"b", "c\\d", "e\nf\tg", "\u{1}\u{1f}", "表"]);
    let c = try_updated_table_config(&None, &order).unwrap();
    let m = config_of(&c);
    assert_eq!(
        m["order_config"],
        "[\"a\\\"b\",\"c\\\\d\",\"e\\nf\\tg\",\"\\u0001\\u001f\",\"表\"]"
    );
}

#[test]
fn stored_rows_are_kept_in_order() {
    let record: serde_json::Value = serde_json::from_str("{\"n\":\"4\"}").unwrap();
    let rows = rows_with_record(&Some(b"[1,\"2\",[3]]".to_vec()), record.clone());
    let expected: Vec<serde_json::Value> =
        serde_json::from_str("[1,\"2\",[3],{\"n\":\"4\"}]").unwrap();
    assert_eq!(rows, expected);
}

#[test]
fn a_configuration_is_not_a_list_of_rows() {
    // A task named like the configuration key finds its configuration where
    // its rows should be.
    let config = try_updated_table_config(&None, &strings(&["task_name"])).unwrap();
    let record = serde_json::Value::Null;
    assert_eq!(
        try_appended_rows(&Some(config.as_bytes().to_vec()), record.clone()).err(),
        Some(StoreError::NotJson)
    );
    assert_eq!(try_appended_rows(&Some(config.as_bytes().to_vec()), record).err(), Some(StoreError::NotJson));
}

#[test]
fn plan_and_config_where_the_service_stores() {
    let s = plan_submission("{\"task_name\":\"t\",\"b\":\"1\"}").ok().unwrap();
    assert_eq!(s.order, strings(&["task_name", "b"]));
    let c = updated_table_config(&None, &s.order);
    assert_eq!(c, "{\"order_config\":\"[\\\"task_name\\\",\\\"b\\\"]\"}");
    let again = updated_table_config(&Some(c.clone().into_bytes()), &s.order);
    assert_eq!(again, c);
    let rows = appended_rows(&None, s.record);
    assert_eq!(rows, "[{\"b\":\"1\",\"task_name\":\"t\"}]");
}

#[test]
fn a_record_nested_to_the_depth_limit_does_not_read_back() {
    let depth = 127;
    let text = format!("{}{}", "[".repeat(depth), "]".repeat(depth));
    let value: serde_json::Value = serde_json::from_str(&text).unwrap();
    let rows = appended_rows(&None, value);
    assert!(try_appended_rows(&Some(rows.into_bytes()), serde_json::Value::Null).is_err());
}
