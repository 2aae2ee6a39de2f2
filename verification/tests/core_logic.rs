use webhere::classify::{classify, classify_from_kind, FsEntry, FsSnapshot, NodeKind, PathClassification};
use webhere::config::{parse_u16, port_or_default, root_or_default};
use webhere::counter::Counter;
use webhere::fanout::{Broadcaster, RecvOutcome};
use webhere::handler::{handle, HandleResult, Resource};
use webhere::listing::render;
use webhere::live::{live_script_tag, live_step, page_with_live, reload_payload, LiveAction};
use webhere::paths::{extension_of, file_name_str, target_path, trim_leading_slashes};
use webhere::watch::{watch_step, Debouncer, WatchAction, WatchEvent, WatchOutcome};
use webhere::xts::AsString;

fn entry(path: &str, is_dir: bool) -> FsEntry {
    FsEntry { path: path.to_string(), is_dir }
}

// --- path logic

#[test]
fn trims_leading_slashes() {
    assert_eq!(trim_leading_slashes("/a/b"), "a/b");
    assert_eq!(trim_leading_slashes("///x"), "x");
    assert_eq!(trim_leading_slashes("plain"), "plain");
    assert_eq!(trim_leading_slashes(""), "");
    assert_eq!(trim_leading_slashes("///"), "");
}

#[test]
fn joins_request_under_root() {
    assert_eq!(target_path("/site", "/a.txt"), "/site/a.txt");
    assert_eq!(target_path("/site/", "/a.txt"), "/site/a.txt");
    assert_eq!(target_path("/site", "//sub/x"), "/site/sub/x");
    assert_eq!(target_path("/site", "/"), "/site/");
}

#[test]
fn file_names_and_extensions() {
    assert_eq!(file_name_str("/site/a.txt"), "a.txt");
    assert_eq!(file_name_str("readme"), "readme");
    assert_eq!(file_name_str("/site/"), "");
    assert_eq!(extension_of("/site/a.txt"), Some("txt"));
    assert_eq!(extension_of("/site/readme"), None);
    assert_eq!(extension_of("/site/.bashrc"), None);
    assert_eq!(extension_of("/site/.config.yml"), Some("yml"));
    assert_eq!(extension_of("/site/trailing."), Some(""));
}

// --- classification

#[test]
fn classifies_each_kind() {
    let snap = FsSnapshot {
        entries: vec![
            entry("/site/sub", true),
            entry("/site/readme", false),
            entry("/site/index.html", false),
            entry("/site/logo.png", false),
        ],
    };
    assert_eq!(
        classify(&snap, "/site", "/sub"),
        PathClassification::Directory { target: "/site/sub".to_string() },
    );
    assert_eq!(
        classify(&snap, "/site", "/readme"),
        PathClassification::ExtensionlessFile { target: "/site/readme".to_string() },
    );
    assert_eq!(
        classify(&snap, "/site", "/index.html"),
        PathClassification::HtmlFile { target: "/site/index.html".to_string() },
    );
    assert_eq!(classify(&snap, "/site", "/logo.png"), PathClassification::Ordinary);
    assert_eq!(classify(&snap, "/site", "/absent"), PathClassification::Ordinary);
}

#[test]
fn classify_is_deterministic_on_a_snapshot() {
    let snap = FsSnapshot {
        entries: vec![entry("/site/readme", false), entry("/site/sub", true)],
    };
    for request in ["/readme", "/sub", "/nothing", "/"] {
        let first = classify(&snap, "/site", request);
        let second = classify(&snap, "/site", request);
        assert_eq!(first, second);
    }
}

#[test]
fn html_extension_is_case_insensitive() {
    let upper = classify_from_kind("/site/A.HTML".to_string(), NodeKind::File);
    assert_eq!(upper, PathClassification::HtmlFile { target: "/site/A.HTML".to_string() });
    let mixed = classify_from_kind("/site/b.HtMl".to_string(), NodeKind::File);
    assert_eq!(mixed, PathClassification::HtmlFile { target: "/site/b.HtMl".to_string() });
    let other = classify_from_kind("/site/c.htm".to_string(), NodeKind::File);
    assert_eq!(other, PathClassification::Ordinary);
}

// --- listing rendering

#[test]
fn render_two_children() {
    let children = vec![entry("/site/a.txt", false), entry("/site/sub", true)];
    let doc = render("/site", "/site", Some(&children));
    let expected = "<!DOCTYPE html>\n<html>\n<body>\n\
                    <a href=\"/a.txt\">a.txt</a><a href=\"/sub\">sub/</a>\
                    \n</body>\n</html>";
    assert_eq!(doc, expected);
    assert_eq!(doc.matches("<a href=").count(), 2);
}

#[test]
fn render_unreadable_dir_reports_inline() {
    let doc = render("/site", "/site/locked", None);
    assert!(doc.contains("Cannot read dir of '/site/locked'"));
    assert!(doc.starts_with("<!DOCTYPE html>"));
    assert!(doc.ends_with("</html>"));
}

// --- script injection

#[test]
fn live_mode_appends_exactly_one_tag() {
    let tag = live_script_tag();
    let with = page_with_live("<p>hi</p>".to_string(), true);
    assert_eq!(with, format!("<p>hi</p>{}", tag));
    assert_eq!(with.matches(tag).count(), 1);
    let without = page_with_live("<p>hi</p>".to_string(), false);
    assert_eq!(without, "<p>hi</p>");
    assert_eq!(without.matches(tag).count(), 0);
}

// --- special-file handling

#[test]
fn extensionless_file_served_as_html_body() {
    let c = PathClassification::ExtensionlessFile { target: "/site/readme".to_string() };
    let r = handle(c, false, Resource::FileContent("hi".to_string()), "/site");
    assert_eq!(r, HandleResult::Page("hi".to_string()));

    let c = PathClassification::ExtensionlessFile { target: "/site/readme".to_string() };
    let r = handle(c, true, Resource::FileContent("hi".to_string()), "/site");
    assert_eq!(r, HandleResult::Page(format!("hi{}", live_script_tag())));
}

#[test]
fn directory_request_lists_children() {
    let snap = FsSnapshot {
        entries: vec![
            entry("/site/", true),
            entry("/site/index.html", false),
            entry("/site/readme", false),
        ],
    };
    let c = classify(&snap, "/site", "/");
    assert_eq!(c, PathClassification::Directory { target: "/site/".to_string() });
    let children = vec![entry("/site/index.html", false), entry("/site/readme", false)];
    let r = handle(c, false, Resource::DirEntries(children), "/site");
    match r {
        HandleResult::Page(doc) => {
            assert!(doc.contains("<a href=\"/index.html\">index.html</a>"));
        },
        other => panic!("expected a page, got {:?}", other),
    }
}

#[test]
fn missing_path_is_deferred() {
    let snap = FsSnapshot { entries: vec![entry("/site/index.html", false)] };
    let c = classify(&snap, "/site", "/missing.png");
    assert_eq!(c, PathClassification::Ordinary);
    let r = handle(c, true, Resource::NoResource, "/site");
    assert_eq!(r, HandleResult::Deferred);
}

#[test]
fn unreadable_file_becomes_request_error() {
    let c = PathClassification::HtmlFile { target: "/site/index.html".to_string() };
    let r = handle(c, true, Resource::FileUnreadable, "/site");
    assert_eq!(r, HandleResult::InternalError);
}

// --- watch decisions and debouncing

#[test]
fn only_writes_broadcast() {
    assert_eq!(watch_step(&WatchOutcome::Event(WatchEvent::Write)), WatchAction::Broadcast);
    assert_eq!(watch_step(&WatchOutcome::Event(WatchEvent::Create)), WatchAction::Ignore);
    assert_eq!(watch_step(&WatchOutcome::Event(WatchEvent::Remove)), WatchAction::Ignore);
    assert_eq!(watch_step(&WatchOutcome::Event(WatchEvent::Rename)), WatchAction::Ignore);
    assert_eq!(watch_step(&WatchOutcome::ChannelError), WatchAction::LogAndContinue);
}

#[test]
fn burst_collapses_to_one_signal() {
    let mut d = Debouncer::new(200);
    let mut emitted = 0;
    for t in [1000u64, 1010, 1060, 1140, 1199] {
        if d.note_write(t) {
            emitted += 1;
        }
    }
    assert_eq!(emitted, 1);
    assert!(d.note_write(1300));
}

// --- broadcast fan-out

#[test]
fn one_signal_per_subscriber_per_send() {
    let mut b = Broadcaster::new();
    let mut s1 = b.subscribe();
    let mut s2 = b.subscribe();
    assert_eq!(s1.poll(&b), RecvOutcome::Pending);
    b.send();
    assert_eq!(s1.poll(&b), RecvOutcome::Signal);
    assert_eq!(s1.poll(&b), RecvOutcome::Pending);
    assert_eq!(s2.poll(&b), RecvOutcome::Signal);
    assert_eq!(s2.poll(&b), RecvOutcome::Pending);
}

#[test]
fn disconnecting_one_does_not_starve_others() {
    let mut b = Broadcaster::new();
    let mut s1 = b.subscribe();
    let s2 = b.subscribe();
    let mut s3 = b.subscribe();
    b.send();
    assert_eq!(s1.poll(&b), RecvOutcome::Signal);
    drop(s2);
    b.send();
    assert_eq!(s1.poll(&b), RecvOutcome::Signal);
    assert_eq!(s3.poll(&b), RecvOutcome::Signal);
    assert_eq!(s3.poll(&b), RecvOutcome::Signal);
    assert_eq!(s3.poll(&b), RecvOutcome::Pending);
}

#[test]
fn lag_means_at_least_one_change() {
    let mut b = Broadcaster::new();
    let mut s = b.subscribe();
    for _ in 0..40 {
        b.send();
    }
    let first = s.poll(&b);
    assert_eq!(first, RecvOutcome::Lagged);
    assert_eq!(live_step(&first), LiveAction::SendPayload);
    assert_eq!(s.poll(&b), RecvOutcome::Signal);
}

#[test]
fn reload_connection_scenario() {
    let mut b = Broadcaster::new();
    let mut sub = b.subscribe();
    assert_eq!(live_step(&sub.poll(&b)), LiveAction::Wait);
    let mut d = Debouncer::new(200);
    if d.note_write(500) {
        b.send();
    }
    if d.note_write(600) {
        b.send();
    }
    let got = sub.poll(&b);
    assert_eq!(got, RecvOutcome::Signal);
    assert_eq!(live_step(&got), LiveAction::SendPayload);
    assert_eq!(reload_payload(), "server_files_changed");
    assert_eq!(live_step(&sub.poll(&b)), LiveAction::Wait);
    let mut closed = b;
    closed.close();
    assert_eq!(live_step(&sub.poll(&closed)), LiveAction::Stop);
}

// --- configuration

#[test]
fn port_parsing_is_lenient() {
    assert_eq!(parse_u16("8080"), Some(8080));
    assert_eq!(parse_u16("+3000"), Some(3000));
    assert_eq!(parse_u16("0"), Some(0));
    assert_eq!(parse_u16("000080"), Some(80));
    assert_eq!(parse_u16("65535"), Some(65535));
    assert_eq!(parse_u16("65536"), None);
    assert_eq!(parse_u16("99999999"), None);
    assert_eq!(parse_u16("12ab"), None);
    assert_eq!(parse_u16(""), None);
    assert_eq!(parse_u16("+"), None);
    assert_eq!(port_or_default(Some("3000")), 3000);
    assert_eq!(port_or_default(Some("not-a-port")), 8080);
    assert_eq!(port_or_default(None), 8080);
}

#[test]
fn root_defaults_to_current_dir() {
    assert_eq!(root_or_default(Some("/srv/www".to_string())), "/srv/www");
    assert_eq!(root_or_default(None), "./");
}

// --- small helpers

#[test]
fn counter_counts_connections() {
    let mut c = Counter::default();
    assert_eq!(c.inc(), 1);
    assert_eq!(c.inc(), 2);
    assert_eq!(c.inc(), 3);
}

#[test]
fn as_string_forms() {
    let e = entry("/site/a.txt", false);
    assert_eq!(e.x_as_string(), Some("/site/a.txt".to_string()));
    assert_eq!(Some(entry("/site/sub", true)).x_as_string(), Some("/site/sub".to_string()));
    assert_eq!(None::<FsEntry>.x_as_string(), None);
    let c = PathClassification::Ordinary;
    assert_eq!(c.x_as_string(), None);
    let c = PathClassification::HtmlFile { target: "/site/i.html".to_string() };
    assert_eq!(c.x_as_string(), Some("/site/i.html".to_string()));
}
