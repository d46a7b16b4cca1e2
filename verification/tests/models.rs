use roku_ecp::{ActiveApp, App, Apps, Buffering, MediaPlayer, Screensaver};

#[test]
fn an_active_app_may_have_a_name_and_nothing_else() {
    let active =
        ActiveApp { app: App { id: None, name: "Roku".to_string(), version: None }, screensaver: None };
    assert_eq!(active.app.name, "Roku");
    assert!(active.app.id.is_none());
    assert!(active.app.version.is_none());
    assert!(active.screensaver.is_none());
}

#[test]
fn an_absent_screensaver_differs_from_a_present_one() {
    let screensaver = Screensaver {
        black: None,
        id: "5533".to_string(),
        name: "Roku Digital Clock".to_string(),
        screensaver_type: "ssvr".to_string(),
        version: "2.0.1".to_string(),
    };
    let active = ActiveApp {
        app: App { id: Some("12".to_string()), name: "Netflix".to_string(), version: None },
        screensaver: Some(screensaver),
    };
    let running = active.screensaver.unwrap();
    assert_eq!(running.black, None);
    assert_eq!(running.screensaver_type, "ssvr");
}

#[test]
fn an_app_list_keeps_order_and_duplicates() {
    let app = |id: &str, name: &str| App {
        id: Some(id.to_string()),
        name: name.to_string(),
        version: Some("1.0".to_string()),
    };
    let apps = Apps { apps: vec![app("12", "Netflix"), app("13", "Prime"), app("12", "Netflix")] };
    let ids: Vec<&str> = apps.apps.iter().map(|app| app.id.as_deref().unwrap()).collect();
    assert_eq!(ids, vec!["12", "13", "12"]);
}

#[test]
fn an_idle_media_player_has_a_state_and_little_else() {
    let player = MediaPlayer {
        buffering: None,
        duration: None,
        error: false,
        format: None,
        is_live: None,
        new_stream: None,
        plugin: None,
        position: None,
        runtime: None,
        state: "close".to_string(),
        stream_segment: None,
    };
    assert_eq!(player.state, "close");
    assert!(player.buffering.is_none());
    let buffering = Buffering { current: 1000, max: 1000, target: 0 };
    assert_eq!(buffering.current, 1000);
}
