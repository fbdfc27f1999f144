//! What a notification says: its title, the D-Bus `Notify` request, and the
//! toast document shown on Windows.
use vstd::prelude::*;

verus! {

/// The title shown for a notification: the caller's title, or `Rio` when
/// the caller gave none.
pub open spec fn shown_title(title: Seq<char>) -> Seq<char> {
    if title.len() == 0 {
        "Rio"@
    } else {
        title
    }
}

/// The title to show for `title`: an empty title falls back to `Rio`.
pub fn notification_title(title: &str) -> (shown: String)
    ensures
        shown@ == shown_title(title@),
{
    if title.is_empty() {
        "Rio".to_owned()
    } else {
        title.to_owned()
    }
}

/// The views of a list of strings.
pub open spec fn texts(v: Seq<String>) -> Seq<Seq<char>> {
    v.map_values(|s: String| s@)
}

/// The arguments of an `org.freedesktop.Notifications.Notify` call. The
/// hints map is always empty and is not part of the request.
#[derive(Debug, PartialEq, Eq)]
pub struct NotifyRequest {
    pub app_name: String,
    pub replaces_id: u32,
    pub app_icon: String,
    pub summary: String,
    pub body: String,
    pub actions: Vec<String>,
    pub expire_timeout: i32,
}

pub struct NotifyRequestView {
    pub app_name: Seq<char>,
    pub replaces_id: u32,
    pub app_icon: Seq<char>,
    pub summary: Seq<char>,
    pub body: Seq<char>,
    pub actions: Seq<Seq<char>>,
    pub expire_timeout: i32,
}

impl View for NotifyRequest {
    type V = NotifyRequestView;

    open spec fn view(&self) -> NotifyRequestView {
        NotifyRequestView {
            app_name: self.app_name@,
            replaces_id: self.replaces_id,
            app_icon: self.app_icon@,
            summary: self.summary@,
            body: self.body@,
            actions: texts(self.actions@),
            expire_timeout: self.expire_timeout,
        }
    }
}

/// The actions a notification offers. A clickable one offers `default`,
/// the action a daemon invokes when the body (not a button) is clicked,
/// labelled `Open` for daemons that show it as a button.
pub open spec fn offered_actions(clickable: bool) -> Seq<Seq<char>> {
    if clickable {
        seq!["default"@, "Open"@]
    } else {
        seq![]
    }
}

/// The `Notify` request for a notification: posted by `Rio` with the `rio`
/// icon, replacing nothing (id 0), with the server's default expiry (-1).
pub open spec fn notify_request_view(summary: Seq<char>, body: Seq<char>, clickable: bool) -> NotifyRequestView {
    NotifyRequestView {
        app_name: "Rio"@,
        replaces_id: 0,
        app_icon: "rio"@,
        summary,
        body,
        actions: offered_actions(clickable),
        expire_timeout: -1i32,
    }
}

/// Builds the `Notify` request for `summary` and `body`, clickable or not.
pub fn notify_request(summary: String, body: String, clickable: bool) -> (request: NotifyRequest)
    ensures
        request@ == notify_request_view(summary@, body@, clickable),
{
    let mut actions: Vec<String> = Vec::new();
    if clickable {
        actions.push("default".to_owned());
        actions.push("Open".to_owned());
    }
    proof {
        assert(texts(actions@) =~= offered_actions(clickable));
    }
    NotifyRequest {
        app_name: "Rio".to_owned(),
        replaces_id: 0,
        app_icon: "rio".to_owned(),
        summary,
        body,
        actions,
        expire_timeout: -1,
    }
}

/// The toast document shown on Windows: a generic toast binding with the
/// title and the body as its two text lines, inserted as given.
pub open spec fn toast_xml_view(title: Seq<char>, body: Seq<char>) -> Seq<char> {
    "<toast><visual><binding template=\"ToastGeneric\"><text>"@ + title + "</text><text>"@ + body
        + "</text></binding></visual></toast>"@
}

/// Builds the toast document for `title` and `body`.
pub fn toast_xml(title: &str, body: &str) -> (xml: String)
    ensures
        xml@ == toast_xml_view(title@, body@),
{
    let mut xml = "<toast><visual><binding template=\"ToastGeneric\"><text>".to_owned();
    xml.append(title);
    xml.append("</text><text>");
    xml.append(body);
    xml.append("</text></binding></visual></toast>");
    xml
}

/// A title is shown as given, whole, unless it is empty; an empty title
/// shows as `Rio`.
pub proof fn law_title_shown_whole_unless_empty(title: Seq<char>)
    ensures
        title.len() > 0 ==> shown_title(title) == title,
        title.len() == 0 ==> shown_title(title) == seq!['R', 'i', 'o'],
{
    reveal_strlit("Rio");
}

/// The toast document holds the title and the body whole and verbatim, at
/// fixed places between fixed markup: it is exactly as long as the markup
/// and the two texts together, the title starts where the opening markup
/// ends, and the body starts right after the title and the markup between.
pub proof fn law_toast_holds_both_texts_whole(title: Seq<char>, body: Seq<char>)
    ensures
        ({
            let open = "<toast><visual><binding template=\"ToastGeneric\"><text>"@;
            let between = "</text><text>"@;
            let close = "</text></binding></visual></toast>"@;
            let xml = toast_xml_view(title, body);
            let t = open.len() as int;
            let b = t + title.len() + between.len();
            &&& xml.len() == open.len() + title.len() + between.len() + body.len() + close.len()
            &&& xml.subrange(0, t) == open
            &&& xml.subrange(t, t + title.len()) == title
            &&& xml.subrange(t + title.len(), b) == between
            &&& xml.subrange(b, b + body.len()) == body
            &&& xml.subrange(b + body.len(), xml.len() as int) == close
        }),
{
    let open = "<toast><visual><binding template=\"ToastGeneric\"><text>"@;
    let between = "</text><text>"@;
    let close = "</text></binding></visual></toast>"@;
    let xml = toast_xml_view(title, body);
    let t = open.len() as int;
    let b = t + title.len() + between.len();
    assert(xml =~= open + title + between + body + close);
    assert(xml.subrange(0, t) =~= open);
    assert(xml.subrange(t, t + title.len()) =~= title);
    assert(xml.subrange(t + title.len(), b) =~= between);
    assert(xml.subrange(b, b + body.len()) =~= body);
    assert(xml.subrange(b + body.len(), xml.len() as int) =~= close);
}

} // verus!
