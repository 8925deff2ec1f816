use dsh_launcher::effect::{Effect, Notice};
use dsh_launcher::error::LauncherError;
use dsh_launcher::pages::{
    ensure_parsed, ensure_webview, has_label, hide_all_webviews, is_dsh_webview, page_created,
    page_loaded, relayout_dsh_webview, webview_label_for, Host,
};

fn strings(list: &[&str]) -> Vec<String> {
    list.iter().map(|s| s.to_string()).collect()
}

fn host(labels: &[&str]) -> Host {
    Host { labels: strings(labels), main_view: true, main_window: true }
}

#[test]
fn labels_are_stable() {
    assert_eq!(webview_label_for(""), "dsh-cbf29ce484222325");
    assert_eq!(webview_label_for("a"), "dsh-af63dc4c8601ec8c");
    assert_eq!(webview_label_for("foobar"), "dsh-85944171f73967e8");
    assert_eq!(webview_label_for("http://127.0.0.1:3080"), "dsh-d4f5f158a80c3279");
    assert_eq!(webview_label_for("http://例子:3080"), "dsh-9c0c44fe35bfbb81");
}

#[test]
fn labels_agree_with_formatting() {
    for url in ["", "x", "http://a", "http://b", "长地址", "http://10.0.0.1:3080/?q=1"] {
        let mut h: u64 = 0xcbf29ce484222325;
        for b in url.bytes() {
            h ^= u64::from(b);
            h = h.wrapping_mul(0x100000001b3);
        }
        let label = webview_label_for(url);
        assert_eq!(label, format!("dsh-{:016x}", h));
        assert!(is_dsh_webview(&label));
        assert_eq!(label.len(), 20);
    }
}

#[test]
fn labels_differ_with_addresses() {
    assert_ne!(
        webview_label_for("http://127.0.0.1:3080"),
        webview_label_for("http://192.168.1.50:3080")
    );
}

#[test]
fn one_byte_makes_another_label() {
    let mut labels = vec![];
    for last in b'0'..=b'9' {
        labels.push(webview_label_for(&format!("http://192.168.1.5{}:3080", last as char)));
        labels.push(webview_label_for(&format!("http://192.168.{}.50:3080/a", last as char)));
    }
    for (i, label) in labels.iter().enumerate() {
        assert!(!labels[..i].contains(label));
    }
}

#[test]
fn labels_agree_where_hashes_do() {
    assert_eq!(webview_label_for("!0IC=VloaY"), "dsh-0000000000000000");
    assert_eq!(webview_label_for("77kepQFQ8Kl"), "dsh-0000000000000000");
}

#[test]
fn main_view_is_no_page() {
    assert!(!is_dsh_webview("main"));
    assert!(!is_dsh_webview("dsh"));
    assert!(!is_dsh_webview("xdsh-1"));
    assert!(is_dsh_webview("dsh-"));
    assert!(is_dsh_webview("dsh-1"));
}

#[test]
fn only_pages_are_hidden_and_placed() {
    let labels = strings(&["dsh-1", "main", "dsh-2", "other"]);
    assert_eq!(
        hide_all_webviews(&labels),
        vec![Effect::Hide("dsh-1".to_string()), Effect::Hide("dsh-2".to_string())]
    );
    assert_eq!(
        relayout_dsh_webview(&labels),
        vec![Effect::Place("dsh-1".to_string()), Effect::Place("dsh-2".to_string())]
    );
    assert_eq!(hide_all_webviews(&strings(&["main"])), vec![]);
    assert_eq!(relayout_dsh_webview(&vec![]), vec![]);
}

#[test]
fn labels_are_found() {
    let labels = strings(&["main", "dsh-1"]);
    assert!(has_label(&labels, &"dsh-1".to_string()));
    assert!(!has_label(&labels, &"dsh-2".to_string()));
}

#[test]
fn a_missing_page_is_created() {
    let url = "http://127.0.0.1:3080";
    let label = webview_label_for(url);
    assert_eq!(
        ensure_webview(url, &host(&["main"])),
        Ok(vec![Effect::Create { label: label.clone(), url: url.to_string() }])
    );
    assert_eq!(ensure_webview(url, &host(&["main", &label])), Ok(vec![]));
}

#[test]
fn a_page_needs_the_main_window_and_a_url() {
    let nowhere = Host { labels: vec![], main_view: false, main_window: false };
    assert_eq!(ensure_webview("http://a", &nowhere), Err(LauncherError::NoMainWindow));
    assert_eq!(ensure_webview("no url", &nowhere), Err(LauncherError::NoMainWindow));
    assert_eq!(ensure_webview("no url", &host(&[])), Ok(vec![]));
    assert_eq!(
        ensure_parsed("anything", &host(&[]), &Err("relative URL without a base".to_string())),
        Ok(vec![])
    );
    assert_eq!(
        ensure_parsed("anything", &host(&[]), &Ok("ftp".to_string())),
        Ok(vec![Effect::Create {
            label: webview_label_for("anything"),
            url: "anything".to_string()
        }])
    );
}

#[test]
fn a_page_shows_itself_once_loaded() {
    let label = "dsh-1".to_string();
    assert_eq!(page_created(&label, true), vec![Effect::Hide(label.clone())]);
    assert_eq!(page_created(&label, false), vec![]);
    assert_eq!(
        page_loaded(&label, true),
        vec![Effect::Show(label.clone()), Effect::Emit(Notice::PageShown)]
    );
    assert_eq!(page_loaded(&label, false), vec![]);
}

#[test]
fn notice_names() {
    assert_eq!(Notice::Output(String::new()).name(), "dsh-output");
    assert_eq!(Notice::Ready.name(), "dsh-ready");
    assert_eq!(Notice::Exit(None).name(), "dsh-exit");
    assert_eq!(Notice::PageShown.name(), "dsh-page-shown");
}
