use astraos::lock::{password_hash, submit, verify_password, SubmitOutcome};
use astraos::onboarding::{step_view, Forward, OnboardingState, Page};
use astraos::photos::{is_image, navigate_target};
use astraos::qmp::{
    balloon_from_reply, capabilities_message, classify_reply, command_message, cpu_from_reply,
    screendump_args, status_from_reply, JsonValue, QmpAnswer, QmpClient, QmpError, QmpQuery, ReplyStep,
};
use astraos::capture::{capture_result, capture_vm_screen, CaptureError};
use astraos::screenshot::{build_command, pictures_dir, screenshot_path};
use astraos::tictactoe::{AppState, Player};
use astraos::weather::{pick_emoji, snapshot_from, widget_labels, wttr_url, WeatherSnapshot, WttrCurrent, WttrDesc, WttrResponse};
use sha2::Digest;

fn obj(members: Vec<(&str, JsonValue)>) -> JsonValue {
    let keys = members.iter().map(|(k, _)| k.to_string()).collect();
    let vals = members.into_iter().map(|(_, v)| v).collect();
    JsonValue::Object(keys, vals)
}

fn s(t: &str) -> JsonValue {
    JsonValue::Str(t.to_string())
}

#[test]
fn tictactoe_row_win_scores_x() {
    let mut g = AppState::new();
    assert_eq!(g.status(), "X's turn");
    g.play(0, 0);
    g.play(1, 0);
    g.play(0, 1);
    g.play(1, 1);
    g.play(0, 2);
    assert!(g.is_over());
    assert_eq!(g.scores(), (1, 0, 0));
    assert_eq!(g.status(), "X wins! Click Reset for a new round.");
    assert_eq!(g.winner_line(), Some([(0, 0), (0, 1), (0, 2)]));
    g.play(2, 2);
    assert_eq!(g.cell(2, 2), None);
    g.reset_board();
    assert_eq!(g.scores(), (1, 0, 0));
    assert_eq!(g.current(), Player::X);
    assert_eq!(g.cell(0, 0), None);
}

#[test]
fn tictactoe_draw_and_ignored_moves() {
    let mut g = AppState::new();
    g.play(0, 0);
    g.play(0, 0);
    assert_eq!(g.current(), Player::O);
    g.play(3, 0);
    assert_eq!(g.current(), Player::O);
    for (r, c) in [(0, 1), (0, 2), (1, 1), (1, 0), (1, 2), (2, 1), (2, 0), (2, 2)] {
        g.play(r, c);
    }
    assert!(g.is_over());
    assert_eq!(g.scores(), (0, 0, 1));
    assert_eq!(g.status(), "Draw! Click Reset for a new round.");
    assert!(g.check_winner().is_none());
}

#[test]
fn tictactoe_diagonal_for_o() {
    let mut g = AppState::new();
    for (r, c) in [(0, 0), (0, 2), (0, 1), (1, 1), (2, 2), (2, 0)] {
        g.play(r, c);
    }
    assert_eq!(g.scores(), (0, 1, 0));
    assert_eq!(g.check_winner(), Some([(0, 2), (1, 1), (2, 0)]));
    assert_eq!(g.status(), "O wins! Click Reset for a new round.");
    assert_eq!(Player::O.label(), "O");
    assert_eq!(Player::X.css(), "x");
    assert_eq!(Player::X.other(), Player::O);
}

#[test]
fn onboarding_navigation() {
    let mut st = OnboardingState::new();
    assert_eq!(st.current_step, 1);
    st.back();
    assert_eq!(st.current_step, 1);
    for _ in 0..10 {
        st.next();
    }
    assert_eq!(st.current_step, 6);
    let v = step_view(6);
    assert_eq!(v.dots, vec![false, false, false, false, false, true]);
    assert_eq!(v.page, Page::Customization);
    assert!(v.show_back);
    assert_eq!(v.forward, Forward::Finish);
    let v = step_view(1);
    assert_eq!(v.page, Page::Language);
    assert!(!v.show_back);
    assert_eq!(v.forward, Forward::Next);
    assert_eq!(step_view(7).page, Page::Complete);
}

#[test]
fn photo_files_and_navigation() {
    assert!(is_image("/p/a.PNG"));
    assert!(is_image("b.jpeg"));
    assert!(!is_image("/p/notes.txt"));
    assert!(!is_image("/p/.png"));
    assert!(!is_image("/p/noext"));
    assert_eq!(navigate_target(Some(0), -1, 3), Some(2));
    assert_eq!(navigate_target(Some(2), 1, 3), Some(0));
    assert_eq!(navigate_target(Some(1), 1, 3), Some(2));
    assert_eq!(navigate_target(None, 1, 3), None);
    assert_eq!(navigate_target(Some(0), 1, 0), None);
}

#[test]
fn screenshot_commands() {
    assert_eq!(build_command("region", "/p/s.png"), "slurp | grim -g - '/p/s.png'");
    assert_eq!(build_command("full", "/p/s.png"), "grim -t png '/p/s.png'");
    assert!(build_command("window", "/p/s.png").starts_with("hyprctl -j activewindow > /tmp/window.json && grim -l "));
    assert!(build_command("window", "/p/s.png").ends_with(" '/p/s.png'"));
    assert_eq!(pictures_dir(Some("/home/a")), "/home/a/Pictures");
    assert_eq!(pictures_dir(None), "/tmp/Pictures");
    assert_eq!(screenshot_path("/home/a/Pictures", "20240101_120000"), "/home/a/Pictures/Screenshot_20240101_120000.png");
}

#[test]
fn weather_emoji() {
    assert_eq!(pick_emoji("113", "Sunny"), "☀️");
    assert_eq!(pick_emoji("116", ""), "⛅");
    assert_eq!(pick_emoji("122", ""), "⛅");
    assert_eq!(pick_emoji("119", "Cloudy"), "⛅");
    assert_eq!(pick_emoji("248", ""), "⛅");
    assert_eq!(pick_emoji("296", ""), "🌧️");
    assert_eq!(pick_emoji("338", ""), "❄️");
    assert_eq!(pick_emoji("200", ""), "🌧️");
    assert_eq!(pick_emoji("999", "Light rain"), "⛅");
    assert_eq!(pick_emoji("999", "Light SNOW"), "⛅");
    for code in ["113", "116", "119", "143", "176", "179", "200", "999", ""] {
        assert!(["☀️", "🌧️", "⛅", "❄️"].contains(&pick_emoji(code, "x")));
    }
}

#[test]
fn weather_snapshot() {
    let resp = WttrResponse {
        current_condition: vec![WttrCurrent {
            temp_c: "-3".to_string(),
            weather_code: "113".to_string(),
            weather_desc: vec![WttrDesc { value: "Sunny".to_string() }],
        }],
    };
    let snap = snapshot_from("Paris", &resp).unwrap();
    assert_eq!((snap.city.as_str(), snap.temp_c, snap.desc.as_str(), snap.emoji), ("Paris", -3, "Sunny", "☀️"));
    let bad = WttrResponse {
        current_condition: vec![WttrCurrent { temp_c: "warm".to_string(), weather_code: "1".to_string(), weather_desc: vec![] }],
    };
    assert_eq!(snapshot_from("Paris", &bad).unwrap_err(), "temp_C not a number");
    assert_eq!(snapshot_from("X", &WttrResponse { current_condition: vec![] }).unwrap_err(), "no current_condition in response");
    let nodesc = WttrResponse {
        current_condition: vec![WttrCurrent { temp_c: "+18".to_string(), weather_code: "0".to_string(), weather_desc: vec![] }],
    };
    let snap = snapshot_from("Lyon", &nodesc).unwrap();
    assert_eq!((snap.temp_c, snap.desc.as_str(), snap.emoji), (18, "Unknown", "⛅"));
}

#[test]
fn lock_screen_password() {
    let expected = hex::encode(sha2::Sha256::digest(b"hunter2::astra_salt_v1"));
    assert_eq!(password_hash("hunter2"), expected);
    assert!(verify_password("hunter2", Some(&format!("{}\n", expected))));
    assert!(!verify_password("hunter3", Some(&expected)));
    assert!(verify_password("astraos", None));
    assert!(!verify_password("hunter2", None));
}

#[test]
fn qmp_messages_and_replies() {
    match command_message("quit", None) {
        JsonValue::Object(k, v) => {
            assert_eq!(k, vec!["execute".to_string()]);
            assert!(matches!(&v[0], JsonValue::Str(t) if t == "quit"));
        }
        _ => panic!("not an object"),
    }
    assert!(matches!(capabilities_message(), JsonValue::Object(k, _) if k.len() == 1));
    assert!(matches!(command_message("screendump", Some(screendump_args("/a.ppm"))), JsonValue::Object(k, _) if k.len() == 2));
    assert!(matches!(classify_reply(&obj(vec![("event", s("STOP"))])), ReplyStep::Skip));
    match classify_reply(&obj(vec![("error", obj(vec![("desc", s("bad"))]))])) {
        ReplyStep::Failed(QmpError::CommandFailed(m)) => assert_eq!(m, "bad"),
        other => panic!("unexpected {:?}", other),
    }
    match classify_reply(&obj(vec![("error", JsonValue::Null)])) {
        ReplyStep::Failed(QmpError::CommandFailed(m)) => assert_eq!(m, "unknown error"),
        other => panic!("unexpected {:?}", other),
    }
    let status = obj(vec![("return", obj(vec![("status", s("running"))]))]);
    assert!(matches!(classify_reply(&status), ReplyStep::Done));
    assert_eq!(status_from_reply(&status), "running");
    assert_eq!(status_from_reply(&obj(vec![])), "unknown");
    let balloon = obj(vec![("return", obj(vec![("actual", JsonValue::Int(4 * 1_048_576 + 5))]))]);
    let b = balloon_from_reply(&balloon);
    assert_eq!((b.actual_mb, b.total_mb), (4, 4));
    assert_eq!(balloon_from_reply(&obj(vec![])).actual_mb, 0);
    assert_eq!(cpu_from_reply(&JsonValue::Null).usage_percent, 0);
}

#[test]
fn qmp_connect_needs_socket_file() {
    assert!(matches!(QmpClient::connect("/no/such/qmp.sock".to_string()), Err(QmpError::ConnectionFailed)));
    let c = QmpClient::connect("/".to_string()).unwrap();
    assert_eq!(c.socket_path(), "/");
}

#[test]
fn lock_submit_unlocks_or_shakes() {
    let stored = password_hash("s3cret");
    assert_eq!(submit("s3cret", Some(&stored)), SubmitOutcome::Unlock);
    assert_eq!(submit("wrong", Some(&stored)), SubmitOutcome::Shake(500));
    assert_eq!(submit("astraos", None), SubmitOutcome::Unlock);
    assert_eq!(submit("other", None), SubmitOutcome::Shake(500));
}

#[test]
fn cells_render_marks_winner_and_lock() {
    let mut s = AppState::new();
    let v = s.cell_view(0, 0);
    assert_eq!(v.label, "");
    assert!(v.css.is_none());
    assert!(v.sensitive);
    assert!(!v.winner);
    // X: (0,0) (0,1) (0,2); O: (1,0) (1,1)
    s.play(0, 0);
    s.play(1, 0);
    s.play(0, 1);
    s.play(1, 1);
    let v = s.cell_view(1, 0);
    assert_eq!(v.label, "O");
    assert_eq!(v.css, Some("o"));
    assert!(!v.sensitive);
    s.play(0, 2);
    assert!(s.cell_view(0, 2).winner);
    assert!(s.cell_view(0, 0).winner);
    assert!(!s.cell_view(1, 1).winner);
    assert!(!s.cell_view(2, 2).sensitive);
    assert_eq!(
        s.score_labels(),
        ("X: 1".to_string(), "O: 0".to_string(), "Draws: 0".to_string())
    );
}

#[test]
fn weather_url_and_labels() {
    assert_eq!(wttr_url("Paris"), "https://wttr.in/Paris?format=j1");
    let ok: Result<WeatherSnapshot, String> = Ok(WeatherSnapshot {
        city: "Oslo".to_string(),
        temp_c: -3,
        desc: "Light snow".to_string(),
        emoji: "\u{2744}\u{FE0F}",
    });
    let l = widget_labels(&ok);
    assert_eq!(l.city.as_deref(), Some("Oslo"));
    assert_eq!(l.temp, "-3\u{B0}C");
    assert_eq!(l.cond, "\u{2744}\u{FE0F} Light snow");
    let err: Result<WeatherSnapshot, String> = Err("timeout".to_string());
    let l = widget_labels(&err);
    assert!(l.city.is_none());
    assert_eq!(l.temp, "--\u{B0}");
    assert_eq!(l.cond, "offline");
}

fn command_name(m: &JsonValue) -> String {
    match m {
        JsonValue::Object(k, v) if k[0] == "execute" => match &v[0] {
            JsonValue::Str(t) => t.clone(),
            _ => String::new(),
        },
        _ => String::new(),
    }
}

#[test]
fn qmp_requests_and_answers() {
    let c = QmpClient::connect("/".to_string()).unwrap();
    let r = c.query_status();
    assert_eq!(r.query, QmpQuery::Status);
    assert_eq!(command_name(&r.message), "query-status");
    let reply = obj(vec![("return", obj(vec![("status", s("paused"))]))]);
    assert!(matches!(r.answer(Ok(reply)), Ok(QmpAnswer::Status(t)) if t == "paused"));
    assert!(matches!(r.answer(Err(QmpError::ParseError)), Err(QmpError::ParseError)));
    assert_eq!(command_name(&c.query_cpu().message), "query-cpus-fast");
    assert!(matches!(c.query_cpu().answer(Ok(JsonValue::Null)), Ok(QmpAnswer::Cpu(x)) if x.usage_percent == 0));
    let b = c.query_balloon();
    assert_eq!(command_name(&b.message), "query-balloon");
    let reply = obj(vec![("return", obj(vec![("actual", JsonValue::Int(3 * 1_048_576))]))]);
    assert!(matches!(b.answer(Ok(reply)), Ok(QmpAnswer::Balloon(x)) if x.actual_mb == 3 && x.total_mb == 3));
    assert_eq!(command_name(&c.quit().message), "quit");
    assert!(matches!(c.quit().answer(Ok(JsonValue::Null)), Ok(QmpAnswer::Done)));
}

#[test]
fn capture_requests_screendump() {
    let c = QmpClient::connect("/".to_string()).unwrap();
    let r = capture_vm_screen(&c, "/tmp/shot.ppm");
    assert_eq!(r.query, QmpQuery::Screendump);
    match &r.message {
        JsonValue::Object(k, v) => {
            assert_eq!(k, &vec!["execute".to_string(), "arguments".to_string()]);
            assert!(matches!(&v[1], JsonValue::Object(ak, av) if ak[0] == "filename" && matches!(&av[0], JsonValue::Str(f) if f == "/tmp/shot.ppm")));
        }
        _ => panic!("not an object"),
    }
    assert!(capture_result(r.answer(Ok(JsonValue::Null))).is_ok());
    assert!(matches!(
        capture_result(Err(QmpError::CommandFailed("no".to_string()))),
        Err(CaptureError::Qmp(QmpError::CommandFailed(m))) if m == "no"
    ));
}

#[test]
fn connect_if_follows_the_probe() {
    match QmpClient::connect_if("/run/vm.sock".to_string(), true) {
        Ok(c) => assert_eq!(c.socket_path(), "/run/vm.sock"),
        Err(e) => panic!("expected a client, got {:?}", e),
    }
    assert!(matches!(
        QmpClient::connect_if("/run/vm.sock".to_string(), false),
        Err(QmpError::ConnectionFailed)
    ));
}
