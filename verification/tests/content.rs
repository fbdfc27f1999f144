use rio_notifier::content::{notification_title, notify_request, toast_xml, NotifyRequest};

#[test]
fn empty_title_falls_back_to_rio() {
    assert_eq!(notification_title(""), "Rio");
}

#[test]
fn given_title_is_kept() {
    assert_eq!(notification_title("Terminal bell"), "Terminal bell");
    assert_eq!(notification_title(" "), " ");
}

#[test]
fn plain_request_offers_no_actions() {
    let request = notify_request("Terminal bell".to_string(), "tab 2".to_string(), false);
    assert_eq!(
        request,
        NotifyRequest {
            app_name: "Rio".to_string(),
            replaces_id: 0,
            app_icon: "rio".to_string(),
            summary: "Terminal bell".to_string(),
            body: "tab 2".to_string(),
            actions: vec![],
            expire_timeout: -1,
        }
    );
}

#[test]
fn clickable_request_offers_default_action() {
    let request = notify_request("t".to_string(), "b".to_string(), true);
    assert_eq!(request.actions, vec!["default".to_string(), "Open".to_string()]);
    assert_eq!(request.summary, "t");
    assert_eq!(request.body, "b");
    assert_eq!(request.expire_timeout, -1);
}

#[test]
fn toast_document_holds_title_and_body() {
    assert_eq!(
        toast_xml("Bell", "pane 3"),
        "<toast><visual><binding template=\"ToastGeneric\"><text>Bell</text><text>pane 3</text></binding></visual></toast>"
    );
}

#[test]
fn toast_document_inserts_text_as_given() {
    assert_eq!(
        toast_xml("a<b", ""),
        "<toast><visual><binding template=\"ToastGeneric\"><text>a<b</text><text></text></binding></visual></toast>"
    );
}
