use form_collect::access::admin_refusal;
use form_collect::access::allowed_origin;
use form_collect::access::excel_refusal;
use form_collect::access::is_not_local_host;
use form_collect::access::listen_address;
use form_collect::excel::table_obj;
use form_collect::excel::try_table_obj;
use form_collect::html::FORM_HEAD;
use form_collect::html::FORM_TAIL;
use form_collect::html::HTML_HEAD;
use form_collect::html::HTML_TAIL;
use form_collect::html::SCRIPT;
use form_collect::pages::admin_page;
use form_collect::pages::form_content_path;
use form_collect::pages::index_page;
use form_collect::pages::jump_page;
use form_collect::pages::parse_task_line;
use form_collect::pages::try_parse_task_line;
use form_collect::pages::show_page;
use form_collect::pages::TaskEntry;
use form_collect::submission::StoreError;
use form_collect::submission::{appended_rows, plan_submission, updated_table_config};
use form_collect::table_page::REFRESH_BUTTON;
use form_collect::table_page::TABLE;

fn task(name: &str, title: &str) -> TaskEntry {
    TaskEntry { name: name.to_string(), title: title.to_string() }
}

#[test]
fn form_page_wraps_the_fields() {
    let page = show_page("t1", "报名", "<input name='a'>");
    let expected = format!(
        "{}{}<h1 class='col-sm-12' style='text-align:center'>报名</h1><input type='hidden' name='task_name' value='t1'><input name='a'>{}{}{}",
        HTML_HEAD, FORM_HEAD, FORM_TAIL, SCRIPT, HTML_TAIL
    );
    assert_eq!(page, expected);
}

#[test]
fn form_fields_live_beside_the_service() {
    assert_eq!(form_content_path("t1"), "../t1/form_content.html");
}

#[test]
fn spreadsheet_page_names_the_task() {
    let page = jump_page("t1", "报名");
    let expected = format!(
        "{}{}<input type='hidden' id='the_task_name' value='t1'><input type='hidden' id='the_task_title' value='报名'>{}{}",
        HTML_HEAD, REFRESH_BUTTON, TABLE, HTML_TAIL
    );
    assert_eq!(page, expected);
}

#[test]
fn task_list_for_a_local_visitor_links_the_spreadsheet() {
    let page = index_page(&vec![task("t1", "A"), task("t2", "B")], false);
    let expected = format!(
        "{}<div style='height:100px'><span><a href='/jump/t1/A'>查看</a>&nbsp;&nbsp;&nbsp;&nbsp;</span><a href='/show/t1/A' style='font-size:80px'>A</a></div><div style='height:100px'><span><a href='/jump/t2/B'>查看</a>&nbsp;&nbsp;&nbsp;&nbsp;</span><a href='/show/t2/B' style='font-size:80px'>B</a></div>{}",
        HTML_HEAD, HTML_TAIL
    );
    assert_eq!(page, expected);
}

#[test]
fn task_list_for_a_remote_visitor_only_links_the_form() {
    let page = index_page(&vec![task("t1", "A")], true);
    let expected = format!(
        "{}<div style='height:100px'><a href='/show/t1/A' style='font-size:80px'>A</a></div>{}",
        HTML_HEAD, HTML_TAIL
    );
    assert_eq!(page, expected);
}

#[test]
fn empty_task_lists_say_so() {
    let expected = format!("{}<div>当前无可收集表单</div>{}", HTML_HEAD, HTML_TAIL);
    assert_eq!(index_page(&Vec::new(), false), expected);
    assert_eq!(index_page(&Vec::new(), true), expected);
    assert_eq!(admin_page(&Vec::new()), expected);
}

#[test]
fn admin_list_links_the_rows() {
    let page = admin_page(&vec![task("t1", "A")]);
    let expected = format!(
        "{}<div style=\"height:100px\"><a href=\"/show_excel/t1/A\" style=\"font-size:80px\">A</a></div>{}",
        HTML_HEAD, HTML_TAIL
    );
    assert_eq!(page, expected);
}

#[test]
fn task_lines_give_name_and_title() {
    let t = parse_task_line("sign_up  报名表");
    assert_eq!(t.name, "sign_up");
    assert_eq!(t.title, "报名表");
    assert!(try_parse_task_line("lonely").is_none());
    assert!(try_parse_task_line("a b c").is_some());
}

#[test]
fn only_the_own_host_is_local() {
    assert!(!is_not_local_host("192.168.1.5", "192.168.1.5"));
    assert!(is_not_local_host("10.0.0.2", "192.168.1.5"));
    assert_eq!(excel_refusal("10.0.0.2", "192.168.1.5"), Some("no permission"));
    assert_eq!(excel_refusal("192.168.1.5", "192.168.1.5"), None);
    assert_eq!(admin_refusal("10.0.0.2", "192.168.1.5"), Some("无权限"));
    assert_eq!(admin_refusal("192.168.1.5", "192.168.1.5"), None);
}

#[test]
fn service_addresses() {
    let address = listen_address("192.168.1.5");
    assert_eq!(address, "192.168.1.5:14324");
    assert_eq!(allowed_origin(&address), "http://192.168.1.5:14324");
}

#[test]
fn rows_default_to_empty_lists() {
    let t = table_obj("t1", &None, &None);
    assert_eq!(t.name, "t1");
    assert_eq!(t.rows, serde_json::Value::Array(Vec::new()));
    assert_eq!(t.config, serde_json::Value::Array(Vec::new()));
}

#[test]
fn stored_rows_and_config_are_served() {
    let t = table_obj(
        "t1",
        &Some(b"[{\"a\":\"1\"}]".to_vec()),
        &Some(b"{\"order_config\":\"[\\\"a\\\"]\"}".to_vec()),
    );
    assert_eq!(t.rows, serde_json::from_str::<serde_json::Value>("[{\"a\":\"1\"}]").unwrap());
    assert_eq!(t.config["order_config"], "[\"a\"]");
}

#[test]
fn unreadable_rows_are_refused_first() {
    assert_eq!(try_table_obj("t", &Some(vec![0xff]), &Some(b"x".to_vec())).err(), Some(StoreError::NotUtf8));
    assert_eq!(try_table_obj("t", &Some(b"x".to_vec()), &Some(vec![0xff])).err(), Some(StoreError::NotJson));
    assert_eq!(try_table_obj("t", &None, &Some(vec![0xff])).err(), Some(StoreError::NotUtf8));
    assert_eq!(try_table_obj("t", &None, &Some(b"{".to_vec())).err(), Some(StoreError::NotJson));
}

#[test]
fn a_written_task_line_reads_back() {
    let t = parse_task_line(&format!("{} {}", "sign_up", "报名表"));
    assert_eq!((t.name.as_str(), t.title.as_str()), ("sign_up", "报名表"));
}

#[test]
fn two_submissions_are_served_in_order() {
    let first = "{\"task_name\":\"t\",\"x\":\"1\"}";
    let second = "{\"task_name\":\"t\",\"c\":\"2\"}";
    let mut config: Option<Vec<u8>> = None;
    let mut rows: Option<Vec<u8>> = None;
    for body in [first, second] {
        let plan = plan_submission(body).ok().unwrap();
        config = Some(updated_table_config(&config, &plan.order).into_bytes());
        rows = Some(appended_rows(&rows, plan.record).into_bytes());
    }
    let t = table_obj("t", &rows, &config);
    let expected_rows: serde_json::Value =
        serde_json::from_str("[{\"task_name\":\"t\",\"x\":\"1\"},{\"task_name\":\"t\",\"c\":\"2\"}]")
            .unwrap();
    assert_eq!(t.rows, expected_rows);
    let expected_config: serde_json::Value =
        serde_json::from_str("{\"order_config\":\"[\\\"task_name\\\",\\\"c\\\"]\"}").unwrap();
    assert_eq!(t.config, expected_config);
}
