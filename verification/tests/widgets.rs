//! Widgets, their settings, and how they are served.

use jarvis_ui::keyed::KeyedList;
use jarvis_ui::serving::{
    is_inside, requested_path, requested_widget, route_request, widget_content_type, widget_protocol_response,
    widget_serve_dir, FoundFile, WidgetResponse, WidgetRoute, CONTENT_SECURITY_POLICY,
};
use jarvis_ui::settings::LocalSettings;
use jarvis_ui::widgets::{
    after_appearance_set, after_widget_set, choose_widget_appearance, find_widget, list_widgets,
    open_widget_window, picked_appearance, reopen_enabled_widgets, widget_of_window, widget_window_label,
    WidgetManifest, WindowChange, WindowPlan,
};

fn widget(id: &str, dir: u8) -> WidgetManifest<u8> {
    WidgetManifest {
        id: id.to_string(),
        name: format!("The {id}"),
        entry: "index.html".to_string(),
        dir,
    }
}

#[test]
fn settings_start_out_empty() {
    let settings = LocalSettings::default();
    assert!(!settings.get_quit_on_daemon_shutdown());
    assert!(settings.enabled_widgets.is_empty());
    assert!(settings.widget_positions.entries().is_empty());
    assert!(settings.widget_appearance_overrides.entries().is_empty());
    assert!(!settings.is_widget_enabled("orb"));
}

#[test]
fn quitting_with_the_daemon_is_set() {
    let mut settings = LocalSettings::default();
    settings.set_quit_on_daemon_shutdown(true);
    assert!(settings.get_quit_on_daemon_shutdown());
    settings.set_quit_on_daemon_shutdown(false);
    assert_eq!(settings, LocalSettings::default());
}

#[test]
fn a_widget_is_as_it_was_last_set() {
    let mut settings = LocalSettings::default();
    settings.set_widget_enabled("a", true);
    settings.set_widget_enabled("b", true);
    settings.set_widget_enabled("a", true);
    assert_eq!(settings.enabled_widgets, vec!["b".to_string(), "a".to_string()]);
    settings.set_widget_enabled("b", false);
    assert_eq!(settings.enabled_widgets, vec!["a".to_string()]);
    assert!(settings.is_widget_enabled("a"));
    assert!(!settings.is_widget_enabled("b"));
    settings.set_widget_enabled("b", false);
    assert_eq!(settings.enabled_widgets, vec!["a".to_string()]);
}

#[test]
fn turning_a_widget_off_removes_all_of_its_entries() {
    let mut settings = LocalSettings::default();
    settings.enabled_widgets = vec!["a".into(), "b".into(), "a".into()];
    settings.set_widget_enabled("a", false);
    assert_eq!(settings.enabled_widgets, vec!["b".to_string()]);
}

#[test]
fn places_and_appearances_are_kept() {
    let mut settings = LocalSettings::default();
    settings.set_widget_position("a".into(), 1, 2);
    settings.set_widget_position("b".into(), -3, 4);
    settings.set_widget_position("a".into(), 5, 6);
    assert_eq!(settings.widget_position("a"), Some((5, 6)));
    assert_eq!(settings.widget_position("b"), Some((-3, 4)));
    assert_eq!(settings.widget_position("c"), None);
    settings.set_appearance("a".into(), "/x".into());
    settings.set_appearance("b".into(), "/y".into());
    settings.reset_appearance("a");
    settings.reset_appearance("c");
    assert_eq!(settings.appearance_override("a"), None);
    assert_eq!(settings.appearance_override("b"), Some("/y".to_string()));
}

#[test]
fn a_keyed_list_keeps_one_value_for_each_key() {
    let mut list: KeyedList<(i32, i32)> = KeyedList::new();
    list.insert("k".into(), (1, 1));
    list.insert("k".into(), (2, 2));
    list.insert("l".into(), (3, 3));
    assert_eq!(list.entries().len(), 2);
    assert_eq!(list.get("k"), Some(&(2, 2)));
    list.remove("k");
    assert_eq!(list.get("k"), None);
    assert_eq!(list.get("l"), Some(&(3, 3)));
}

#[test]
fn the_first_widget_of_an_id_is_found() {
    let all = || vec![widget("a", 1), widget("b", 2), widget("a", 3)];
    assert_eq!(find_widget(all(), "a"), Some(widget("a", 1)));
    assert_eq!(find_widget(all(), "b"), Some(widget("b", 2)));
    assert_eq!(find_widget(all(), "c"), None);
}

#[test]
fn widgets_are_listed_with_whether_they_are_on() {
    let mut settings = LocalSettings::default();
    settings.set_widget_enabled("b", true);
    let infos = list_widgets(vec![widget("a", 1), widget("b", 2)], &settings);
    assert_eq!(infos.len(), 2);
    assert_eq!(infos[0].manifest, widget("a", 1));
    assert!(!infos[0].enabled);
    assert_eq!(infos[1].manifest, widget("b", 2));
    assert!(infos[1].enabled);
}

#[test]
fn widgets_that_are_on_are_opened_again_in_their_order() {
    let mut settings = LocalSettings::default();
    settings.set_widget_enabled("b", true);
    settings.set_widget_enabled("gone", true);
    settings.set_widget_enabled("a", true);
    let all = vec![widget("a", 1), widget("b", 2), widget("c", 3)];
    let open = reopen_enabled_widgets(&all, &settings);
    assert_eq!(open, vec![&all[1], &all[0]]);
    assert!(reopen_enabled_widgets(&all, &LocalSettings::default()).is_empty());
}

#[test]
fn a_label_gives_the_widget_back() {
    assert_eq!(widget_window_label("orb"), "widget-orb");
    assert_eq!(widget_of_window("widget-orb"), Some("orb".to_string()));
    assert_eq!(widget_of_window(&widget_window_label("\u{e9}-x")), Some("\u{e9}-x".to_string()));
    assert_eq!(widget_of_window("widget-"), Some(String::new()));
    assert_eq!(widget_of_window("widget"), None);
    assert_eq!(widget_of_window("main"), None);
}

#[test]
fn a_widget_window_is_shown_or_made() {
    let mut settings = LocalSettings::default();
    let orb = widget("orb", 1);
    assert_eq!(open_widget_window(&orb, true, &settings), WindowPlan::Show);
    assert_eq!(
        open_widget_window(&orb, false, &settings),
        WindowPlan::Create {
            label: "widget-orb".into(),
            url: "widget://orb/index.html".into(),
            title: "The orb".into(),
            position: None,
        }
    );
    settings.set_widget_position("orb".into(), 10, 20);
    match open_widget_window(&orb, false, &settings) {
        WindowPlan::Create { position, .. } => assert_eq!(position, Some((10, 20))),
        WindowPlan::Show => unreachable!(),
    }
}

#[test]
fn windows_follow_the_settings() {
    assert_eq!(after_widget_set(true, true), WindowChange::Open);
    assert_eq!(after_widget_set(true, false), WindowChange::Close);
    assert_eq!(after_widget_set(false, true), WindowChange::Keep);
    assert_eq!(after_widget_set(false, false), WindowChange::Keep);
    let mut settings = LocalSettings::default();
    assert_eq!(after_appearance_set(true, &settings, "orb"), WindowChange::Keep);
    settings.set_widget_enabled("orb", true);
    assert_eq!(after_appearance_set(true, &settings, "orb"), WindowChange::Reopen);
    assert_eq!(after_appearance_set(false, &settings, "orb"), WindowChange::Keep);
}

#[test]
fn a_directory_without_a_manifest_is_not_taken() {
    let mut settings = LocalSettings::default();
    assert!(!choose_widget_appearance(&mut settings, "orb".into(), "/d".into(), false));
    assert_eq!(settings, LocalSettings::default());
    assert!(choose_widget_appearance(&mut settings, "orb".into(), "/d".into(), true));
    assert_eq!(settings.appearance_override("orb"), Some("/d".to_string()));
}

#[test]
fn content_types_go_by_the_extension() {
    assert_eq!(widget_content_type("index.html"), "text/html");
    assert_eq!(widget_content_type("a.b.css"), "text/css");
    assert_eq!(widget_content_type("x.js"), "application/javascript");
    assert_eq!(widget_content_type("x.json"), "application/json");
    assert_eq!(widget_content_type("x.png"), "image/png");
    assert_eq!(widget_content_type("x.svg"), "image/svg+xml");
    assert_eq!(widget_content_type("x.wav"), "audio/wav");
    assert_eq!(widget_content_type("x.HTML"), "application/octet-stream");
    assert_eq!(widget_content_type("html"), "application/octet-stream");
    assert_eq!(widget_content_type(".html"), "application/octet-stream");
    assert_eq!(widget_content_type("x.html."), "application/octet-stream");
    assert_eq!(widget_content_type(""), "application/octet-stream");
}

#[test]
fn served_paths_stay_below() {
    assert_eq!(requested_path("/index.html"), Some("index.html".to_string()));
    assert_eq!(requested_path("///a/b.css"), Some("a/b.css".to_string()));
    assert_eq!(requested_path("a/...x"), Some("a/...x".to_string()));
    assert_eq!(requested_path("/a/./b"), Some("a/./b".to_string()));
    assert_eq!(requested_path(""), None);
    assert_eq!(requested_path("/"), None);
    assert_eq!(requested_path("/a/"), None);
    assert_eq!(requested_path("/a//b"), None);
    assert_eq!(requested_path("/../a"), None);
    assert_eq!(requested_path("/a/.."), None);
    assert_eq!(requested_path("/a/../b"), None);
}

#[test]
fn a_request_is_for_a_file_of_a_widget() {
    assert_eq!(
        route_request(Some("orb"), "/index.html"),
        Some(WidgetRoute { id: "orb".into(), file: "index.html".into() })
    );
    assert_eq!(route_request(None, "/index.html"), None);
    assert_eq!(route_request(Some("orb"), "/../x"), None);
}

#[test]
fn a_chosen_directory_serves_while_it_is_there() {
    assert_eq!(widget_serve_dir(Some(1u8), true, 2), 1);
    assert_eq!(widget_serve_dir(Some(1u8), false, 2), 2);
    assert_eq!(widget_serve_dir(None, true, 2u8), 2);
}

fn parts(path: &str) -> Vec<String> {
    path.split('/').map(String::from).collect()
}

fn found(name: &str, path: &str, bytes: Option<Vec<u8>>) -> Option<FoundFile> {
    Some(FoundFile { name: name.to_string(), dir: parts("/w/orb"), path: parts(path), bytes })
}

#[test]
fn every_answer_carries_the_policy() {
    assert_eq!(
        widget_protocol_response(found("index.html", "/w/orb/index.html", Some(vec![1, 2]))),
        WidgetResponse {
            status: 200,
            content_type: Some("text/html"),
            content_security_policy: Some(CONTENT_SECURITY_POLICY),
            body: vec![1, 2],
        }
    );
    assert_eq!(
        widget_protocol_response(found("x.svg", "/w/orb/a/x.svg", Some(vec![3]))),
        WidgetResponse {
            status: 200,
            content_type: Some("image/svg+xml"),
            content_security_policy: Some(CONTENT_SECURITY_POLICY),
            body: vec![3],
        }
    );
    assert_eq!(
        widget_protocol_response(found("readme", "/w/orb/readme", Some(vec![]))),
        WidgetResponse {
            status: 200,
            content_type: Some("application/octet-stream"),
            content_security_policy: Some(CONTENT_SECURITY_POLICY),
            body: vec![],
        }
    );
    let nothing = WidgetResponse {
        status: 404,
        content_type: None,
        content_security_policy: Some(CONTENT_SECURITY_POLICY),
        body: vec![],
    };
    assert_eq!(widget_protocol_response(None), nothing);
    assert_eq!(widget_protocol_response(found("x.css", "/w/orb/x.css", None)), nothing);
    assert_eq!(
        CONTENT_SECURITY_POLICY,
        "default-src 'self'; script-src 'self'; style-src 'self' 'unsafe-inline'; \
         img-src 'self' data:; connect-src 'none'; frame-src 'none'; object-src 'none';"
    );
}

#[test]
fn a_file_outside_the_directory_is_not_served() {
    for path in ["/w/x.css", "/w/orb2/x.css", "/x/orb/x.css", "/w"] {
        let response = widget_protocol_response(found("x.css", path, Some(vec![3])));
        assert_eq!(response.status, 404);
        assert!(response.body.is_empty());
    }
    let inside = widget_protocol_response(found("x.css", "/w/orb/a/x.css", Some(vec![3])));
    assert_eq!(inside.status, 200);
    assert_eq!(inside.body, vec![3]);
}

#[test]
fn inside_goes_by_the_parts_of_the_path() {
    let inside = |dir: &str, file: &str| is_inside(&parts(dir), &parts(file));
    assert!(inside("/a/b", "/a/b/c"));
    assert!(inside("/a/b", "/a/b"));
    assert!(!inside("/a/b", "/a"));
    assert!(!inside("/a/b", "/a/bc"));
    assert!(!inside("/a/b", "/x/b/c"));
    assert!(is_inside(&vec![], &parts("/a")));
}

#[test]
fn a_request_finds_its_widget() {
    let all = || vec![widget("a", 1), widget("b", 2), widget("b", 3)];
    assert_eq!(
        requested_widget(Some("b"), "/x/y.css", all()),
        Some((widget("b", 2), "x/y.css".to_string()))
    );
    assert_eq!(requested_widget(Some("c"), "/x", all()), None);
    assert_eq!(requested_widget(None, "/x", all()), None);
    assert_eq!(requested_widget(Some("a"), "/../x", all()), None);
}

#[test]
fn a_picked_directory_is_told_where_it_was_taken_and_written() {
    assert_eq!(picked_appearance(true, true, "/d".into()), Some("/d".to_string()));
    assert_eq!(picked_appearance(true, false, "/d".into()), None);
    assert_eq!(picked_appearance(false, true, "/d".into()), None);
    assert_eq!(picked_appearance(false, false, "/d".into()), None);
}
