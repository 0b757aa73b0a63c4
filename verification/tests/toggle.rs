use tomoon::api::{get_clash_status, reset_network, set_clash_status, set_sub};
use tomoon::control::{ProcessAction, RuntimeState};
use tomoon::primitive::Primitive;
use tomoon::settings::{Settings, Subscription};

fn sub(path: &str, url: &str) -> Subscription {
    Subscription::new(path.to_string(), url.to_string())
}

fn settings_with(enable: bool, current: &str, subs: Vec<Subscription>) -> Settings {
    Settings { enable, current_sub: current.to_string(), subscriptions: subs }
}

fn state() -> RuntimeState {
    RuntimeState::new("/home/deck".to_string())
}

#[test]
fn fresh_settings_are_disabled_and_empty() {
    let settings = Settings::new();
    assert!(!settings.enable);
    assert_eq!(settings.current_sub, "");
    assert!(settings.subscriptions.is_empty());
    let state = state();
    assert_eq!(state.home, "/home/deck");
    assert!(!state.dirty);
}

#[test]
fn status_query_reports_a_running_proxy() {
    let mut settings = settings_with(true, "a.yaml", vec![sub("a.yaml", "http://a")]);
    let reply = get_clash_status(&mut settings, true);
    assert_eq!(reply, vec![Primitive::Bool(true)]);
    assert!(settings.enable);
    assert_eq!(settings.current_sub, "a.yaml");
    assert_eq!(settings.subscriptions.len(), 1);
}

#[test]
fn status_query_puts_stale_enabled_flag_right() {
    let mut settings = settings_with(true, "a.yaml", vec![sub("a.yaml", "http://a")]);
    let reply = get_clash_status(&mut settings, false);
    assert_eq!(reply, vec![Primitive::Bool(false)]);
    assert!(!settings.enable);
    assert_eq!(settings.current_sub, "a.yaml");
    assert_eq!(settings.subscriptions, vec![sub("a.yaml", "http://a")]);
}

#[test]
fn status_query_does_not_enable_a_running_proxy() {
    let mut settings = settings_with(false, "", vec![]);
    let reply = get_clash_status(&mut settings, true);
    assert_eq!(reply, vec![Primitive::Bool(true)]);
    assert!(!settings.enable);
}

#[test]
fn toggle_to_current_value_is_a_no_op() {
    for enable in [false, true] {
        let mut settings = settings_with(enable, "", vec![sub("a.yaml", "http://a")]);
        let mut state = state();
        let out = set_clash_status(&mut settings, &mut state, &vec![Primitive::Bool(enable)]);
        assert_eq!(out.reply, vec![Primitive::Bool(enable)]);
        assert_eq!(out.action, ProcessAction::Keep);
        assert_eq!(settings, settings_with(enable, "", vec![sub("a.yaml", "http://a")]));
        assert!(!state.dirty);
    }
}

#[test]
fn toggle_to_current_value_keeps_a_dirty_flag() {
    let mut settings = settings_with(true, "a.yaml", vec![]);
    let mut state = state();
    state.dirty = true;
    let out = set_clash_status(&mut settings, &mut state, &vec![Primitive::Bool(true)]);
    assert_eq!(out.action, ProcessAction::Keep);
    assert!(state.dirty);
}

#[test]
fn enabling_without_profile_selects_the_first_subscription() {
    let subs = vec![sub("/subs/first.yaml", "http://a"), sub("/subs/second.yaml", "http://b")];
    let mut settings = settings_with(false, "", subs);
    let mut state = state();
    let out = set_clash_status(&mut settings, &mut state, &vec![Primitive::Bool(true)]);
    assert_eq!(out.reply, vec![Primitive::Bool(true)]);
    assert_eq!(out.action, ProcessAction::Start("/subs/first.yaml".to_string()));
    assert!(settings.enable);
    assert_eq!(settings.current_sub, "/subs/first.yaml");
    assert_eq!(settings.subscriptions.len(), 2);
    assert!(state.dirty);
}

#[test]
fn enabling_keeps_a_selected_profile() {
    let subs = vec![sub("/subs/first.yaml", "http://a"), sub("/subs/second.yaml", "http://b")];
    let mut settings = settings_with(false, "/subs/second.yaml", subs);
    let mut state = state();
    let out = set_clash_status(&mut settings, &mut state, &vec![Primitive::Bool(true)]);
    assert_eq!(out.action, ProcessAction::Start("/subs/second.yaml".to_string()));
    assert_eq!(settings.current_sub, "/subs/second.yaml");
    assert!(settings.enable);
    assert!(state.dirty);
}

#[test]
fn enabling_with_nothing_to_select_starts_with_an_empty_path() {
    let mut settings = Settings::new();
    let mut state = state();
    let out = set_clash_status(&mut settings, &mut state, &vec![Primitive::Bool(true)]);
    assert_eq!(out.reply, vec![Primitive::Bool(true)]);
    assert_eq!(out.action, ProcessAction::Start(String::new()));
    assert!(settings.enable);
    assert_eq!(settings.current_sub, "");
    assert!(state.dirty);
}

#[test]
fn disabling_stops_the_proxy_and_selects_nothing() {
    let mut settings = settings_with(true, "", vec![sub("a.yaml", "http://a")]);
    let mut state = state();
    let out = set_clash_status(&mut settings, &mut state, &vec![Primitive::Bool(false)]);
    assert_eq!(out.reply, vec![Primitive::Bool(false)]);
    assert_eq!(out.action, ProcessAction::Stop);
    assert!(!settings.enable);
    assert_eq!(settings.current_sub, "");
    assert!(state.dirty);
}

#[test]
fn toggle_without_a_flag_does_nothing() {
    let calls: Vec<Vec<Primitive>> = vec![
        vec![],
        vec![Primitive::Empty],
        vec![Primitive::Text("true".to_string())],
        vec![Primitive::Index(1)],
        vec![Primitive::Empty, Primitive::Bool(true)],
    ];
    for params in calls {
        let mut settings = settings_with(false, "", vec![sub("a.yaml", "http://a")]);
        let mut state = state();
        let out = set_clash_status(&mut settings, &mut state, &params);
        assert_eq!(out.reply, vec![]);
        assert_eq!(out.action, ProcessAction::Keep);
        assert_eq!(settings, settings_with(false, "", vec![sub("a.yaml", "http://a")]));
        assert!(!state.dirty);
    }
}

#[test]
fn toggle_reads_only_the_first_position() {
    let mut settings = Settings::new();
    let mut state = state();
    let params = vec![Primitive::Bool(true), Primitive::Bool(false)];
    let out = set_clash_status(&mut settings, &mut state, &params);
    assert_eq!(out.reply, vec![Primitive::Bool(true)]);
    assert!(settings.enable);
}

#[test]
fn network_reset_replies_with_nothing() {
    assert_eq!(reset_network(true), vec![]);
    assert_eq!(reset_network(false), vec![]);
}

#[test]
fn select_overwrites_the_profile_and_marks_dirty() {
    let mut settings = settings_with(true, "a.yaml", vec![sub("a.yaml", "http://a")]);
    let mut state = state();
    let reply = set_sub(&mut settings, &mut state, &vec![Primitive::Text("nowhere.yaml".to_string())]);
    assert_eq!(reply, vec![]);
    assert_eq!(settings, settings_with(true, "nowhere.yaml", vec![sub("a.yaml", "http://a")]));
    assert!(state.dirty);
    assert_eq!(state.home, "/home/deck");
}

#[test]
fn select_accepts_the_empty_path() {
    let mut settings = settings_with(true, "a.yaml", vec![]);
    let mut state = state();
    set_sub(&mut settings, &mut state, &vec![Primitive::Text(String::new())]);
    assert_eq!(settings.current_sub, "");
    assert!(settings.enable);
    assert!(state.dirty);
}

#[test]
fn select_without_text_does_nothing() {
    let calls: Vec<Vec<Primitive>> =
        vec![vec![], vec![Primitive::Bool(true)], vec![Primitive::Index(0)], vec![Primitive::Empty]];
    for params in calls {
        let mut settings = settings_with(false, "a.yaml", vec![]);
        let mut state = state();
        let reply = set_sub(&mut settings, &mut state, &params);
        assert_eq!(reply, vec![]);
        assert_eq!(settings.current_sub, "a.yaml");
        assert!(!state.dirty);
    }
}
