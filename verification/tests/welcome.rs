use astraos::welcome::{Stage, WelcomeScreen, WelcomeStep};

#[test]
fn welcome_types_title_then_subtitle() {
    let mut w = WelcomeScreen::new();
    let mut frames = Vec::new();
    loop {
        match w.step() {
            WelcomeStep::Show(f) => frames.push(f),
            WelcomeStep::Finish => break,
            WelcomeStep::Idle => panic!("idle before the hand-over"),
        }
    }
    assert_eq!(w.stage(), Stage::Done);
    assert_eq!(frames.len(), 56);
    assert_eq!(frames[0].title, "");
    assert_eq!(frames[0].delay_ms, 800);
    assert!(!frames[0].subtitle_visible);
    assert_eq!(frames[1].title, "B|");
    assert_eq!(frames[1].delay_ms, 60);
    assert_eq!(frames[21].title, "Bienvenue sur AstraOS|");
    assert_eq!(frames[22].title, "Bienvenue sur AstraOS");
    assert_eq!(frames[22].subtitle, "C|");
    assert!(frames[22].subtitle_visible);
    assert_eq!(frames[22].delay_ms, 40);
    assert_eq!(frames[54].subtitle, "Configuration de votre syst\u{E8}me...|");
    assert_eq!(frames[55].subtitle, "Configuration de votre syst\u{E8}me...");
    assert_eq!(frames[55].delay_ms, 1500);
}

#[test]
fn welcome_hands_over_once() {
    let mut w = WelcomeScreen::new();
    for _ in 0..56 {
        assert!(matches!(w.step(), WelcomeStep::Show(_)));
    }
    assert!(matches!(w.step(), WelcomeStep::Finish));
    assert!(matches!(w.step(), WelcomeStep::Idle));
    assert!(matches!(w.step(), WelcomeStep::Idle));
}
