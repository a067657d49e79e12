use godo_menu::dispatch::classify;
use godo_menu::dispatch::dispatch;
use godo_menu::dispatch::must_acknowledge;
use godo_menu::dispatch::DispatchOutcome;
use godo_menu::event::DisplayMode;
use godo_menu::event::MessageRef;
use godo_menu::event::NavigationEvent;
use godo_menu::event::RawEvent;
use godo_menu::registry::resolve_token;
use godo_menu::registry::ContentRegistry;
use godo_menu::registry::ScreenEntry;
use godo_menu::registry::ScreenId;
use godo_menu::registry::HOW_TO_CONTRIBUTE_TEXT;
use godo_menu::registry::PROJECT_BRIEF_TEXT;
use godo_menu::registry::REPOSITORY_LINK_TEXT;
use godo_menu::registry::TASK_BOARD_TEXT;
use godo_menu::render::render;
use godo_menu::render::Control;
use godo_menu::render::RenderError;

fn some_ref() -> MessageRef {
    MessageRef { chat: 77, message: 4242 }
}

fn menu_controls() -> Vec<Control> {
    vec![
        Control { label: "Как работать в github".to_string(), token: "github_info".to_string() },
        Control { label: "Репозиторий".to_string(), token: "repository".to_string() },
        Control { label: "Доска YouGile".to_string(), token: "board".to_string() },
        Control { label: "Информация о проекте".to_string(), token: "project_info".to_string() },
    ]
}

fn back_controls() -> Vec<Control> {
    vec![Control { label: "⬅️ Назад в меню".to_string(), token: "back_to_menu".to_string() }]
}

#[test]
fn rendering_returns_registry_text_unmodified() {
    let reg = ContentRegistry::standard();
    let screens = [
        (ScreenId::HowToContribute, HOW_TO_CONTRIBUTE_TEXT),
        (ScreenId::RepositoryLink, REPOSITORY_LINK_TEXT),
        (ScreenId::TaskBoard, TASK_BOARD_TEXT),
        (ScreenId::ProjectBrief, PROJECT_BRIEF_TEXT),
    ];
    for (screen, expected) in screens {
        let ins = render(&reg, screen, DisplayMode::New).unwrap();
        assert_eq!(ins.text, expected);
        assert_eq!(ins.target, screen);
    }
    let menu = render(&reg, ScreenId::Menu, DisplayMode::New).unwrap();
    assert_eq!(menu.text, "Информация о проекте");
}

#[test]
fn non_menu_screens_carry_exactly_the_back_control() {
    let reg = ContentRegistry::standard();
    for screen in [
        ScreenId::HowToContribute,
        ScreenId::RepositoryLink,
        ScreenId::TaskBoard,
        ScreenId::ProjectBrief,
    ] {
        let ins = render(&reg, screen, DisplayMode::EditInPlace(some_ref())).unwrap();
        assert_eq!(ins.controls, back_controls());
        assert_eq!(ins.controls.len(), 1);
    }
}

#[test]
fn menu_control_order_is_stable_and_matches_declared_order() {
    let reg = ContentRegistry::standard();
    let first = render(&reg, ScreenId::Menu, DisplayMode::New).unwrap();
    let second = render(&reg, ScreenId::Menu, DisplayMode::New).unwrap();
    assert_eq!(first.controls, second.controls);
    assert_eq!(first.controls, menu_controls());
    let declared: Vec<Control> = reg
        .entries
        .iter()
        .map(|e| Control { label: e.label.clone(), token: e.token.clone() })
        .collect();
    assert_eq!(first.controls, declared);
}

#[test]
fn entry_command_is_idempotent() {
    let reg = ContentRegistry::standard();
    let first = dispatch(&reg, RawEvent::Text { text: "/info".to_string() });
    let second = dispatch(&reg, RawEvent::Text { text: "/info".to_string() });
    match (first, second) {
        (
            DispatchOutcome::Show { ack: a1, instruction: i1 },
            DispatchOutcome::Show { ack: a2, instruction: i2 },
        ) => {
            assert!(!a1 && !a2);
            assert_eq!(i1.mode, DisplayMode::New);
            assert_eq!(i2.mode, DisplayMode::New);
            assert_eq!(i1.target, ScreenId::Menu);
            assert_eq!(i1.text, i2.text);
            assert_eq!(i1.controls, i2.controls);
        }
        _ => panic!("entry command must produce two menu renders"),
    }
}

#[test]
fn back_returns_to_the_exact_entry_menu_render() {
    let reg = ContentRegistry::standard();
    let r = some_ref();
    let entry = dispatch(&reg, RawEvent::Text { text: "/info".to_string() });
    let visit = dispatch(
        &reg,
        RawEvent::Activation { token: Some("repository".to_string()), origin: Some(r) },
    );
    match visit {
        DispatchOutcome::Show { ack, instruction } => {
            assert!(ack);
            assert_eq!(instruction.target, ScreenId::RepositoryLink);
        }
        _ => panic!("a valid token must open its screen"),
    }
    let back = dispatch(
        &reg,
        RawEvent::Activation { token: Some("back_to_menu".to_string()), origin: Some(r) },
    );
    match (entry, back) {
        (
            DispatchOutcome::Show { instruction: entry_ins, .. },
            DispatchOutcome::Show { ack, instruction: back_ins },
        ) => {
            assert!(ack);
            assert_eq!(back_ins.target, ScreenId::Menu);
            assert_eq!(back_ins.mode, DisplayMode::EditInPlace(r));
            assert_eq!(back_ins.text, entry_ins.text);
            assert_eq!(back_ins.controls, entry_ins.controls);
        }
        _ => panic!("back must return a menu render"),
    }
}

#[test]
fn scenario_entry_command_opens_menu() {
    let reg = ContentRegistry::standard();
    let out = dispatch(&reg, RawEvent::Text { text: "/info".to_string() });
    match out {
        DispatchOutcome::Show { ack, instruction } => {
            assert!(!ack);
            assert_eq!(instruction.target, ScreenId::Menu);
            assert_eq!(instruction.mode, DisplayMode::New);
            assert_eq!(instruction.controls, menu_controls());
        }
        _ => panic!("the entry command must open the menu"),
    }
}

#[test]
fn scenario_repository_token_opens_repository_screen() {
    let reg = ContentRegistry::standard();
    let r = some_ref();
    let out = dispatch(
        &reg,
        RawEvent::Activation { token: Some("repository".to_string()), origin: Some(r) },
    );
    match out {
        DispatchOutcome::Show { ack, instruction } => {
            assert!(ack);
            assert_eq!(instruction.target, ScreenId::RepositoryLink);
            assert_eq!(instruction.mode, DisplayMode::EditInPlace(r));
            assert_eq!(instruction.text, REPOSITORY_LINK_TEXT);
            assert_eq!(instruction.controls, back_controls());
        }
        _ => panic!("a valid token must open its screen"),
    }
}

#[test]
fn scenario_bogus_token_yields_neutral_update() {
    let reg = ContentRegistry::standard();
    let r = some_ref();
    let out = dispatch(
        &reg,
        RawEvent::Activation { token: Some("bogus".to_string()), origin: Some(r) },
    );
    assert!(must_acknowledge(&out));
    match out {
        DispatchOutcome::UnknownControl { update } => {
            assert_eq!(update.mode, DisplayMode::EditInPlace(r));
            assert_eq!(update.text, "Неизвестная команда");
            assert_eq!(update.controls, back_controls());
        }
        _ => panic!("an unknown token must yield the neutral update"),
    }
}

#[test]
fn scenario_back_token_reopens_menu_in_place() {
    let reg = ContentRegistry::standard();
    let r = some_ref();
    let out = dispatch(
        &reg,
        RawEvent::Activation { token: Some("back_to_menu".to_string()), origin: Some(r) },
    );
    match out {
        DispatchOutcome::Show { ack, instruction } => {
            assert!(ack);
            assert_eq!(instruction.target, ScreenId::Menu);
            assert_eq!(instruction.mode, DisplayMode::EditInPlace(r));
            assert_eq!(instruction.controls.len(), 4);
            assert_eq!(instruction.controls, menu_controls());
        }
        _ => panic!("the back token must reopen the menu"),
    }
}

#[test]
fn activation_without_token_is_discarded() {
    let reg = ContentRegistry::standard();
    let out = dispatch(&reg, RawEvent::Activation { token: None, origin: Some(some_ref()) });
    assert_eq!(out, DispatchOutcome::Discard);
    assert!(!must_acknowledge(&out));
}

#[test]
fn activation_without_origin_is_discarded() {
    let reg = ContentRegistry::standard();
    let out = dispatch(
        &reg,
        RawEvent::Activation { token: Some("repository".to_string()), origin: None },
    );
    assert_eq!(out, DispatchOutcome::Discard);
    assert!(!must_acknowledge(&out));
}

#[test]
fn unrecognized_text_is_discarded() {
    let reg = ContentRegistry::standard();
    let out = dispatch(&reg, RawEvent::Text { text: "/start".to_string() });
    assert_eq!(out, DispatchOutcome::Discard);
    let out = dispatch(&reg, RawEvent::Text { text: "info".to_string() });
    assert_eq!(out, DispatchOutcome::Discard);
}

#[test]
fn classify_recognizes_only_exact_entry_command() {
    let reg = ContentRegistry::standard();
    let classified = classify(&reg, RawEvent::Text { text: "/info".to_string() });
    assert_eq!(
        classified,
        Some(NavigationEvent::Command { name: "/info".to_string() })
    );
    assert_eq!(classify(&reg, RawEvent::Text { text: "/info ".to_string() }), None);
    assert_eq!(classify(&reg, RawEvent::Text { text: "".to_string() }), None);
}

#[test]
fn classify_requires_token_and_origin() {
    let reg = ContentRegistry::standard();
    let r = some_ref();
    let classified = classify(
        &reg,
        RawEvent::Activation { token: Some("board".to_string()), origin: Some(r) },
    );
    assert_eq!(
        classified,
        Some(NavigationEvent::ControlActivation { token: "board".to_string(), origin: r })
    );
    assert_eq!(classify(&reg, RawEvent::Activation { token: None, origin: None }), None);
}

#[test]
fn every_declared_token_resolves_to_its_screen() {
    let reg = ContentRegistry::standard();
    let expected = [
        ("github_info", ScreenId::HowToContribute),
        ("repository", ScreenId::RepositoryLink),
        ("board", ScreenId::TaskBoard),
        ("project_info", ScreenId::ProjectBrief),
    ];
    for (token, screen) in expected {
        assert_eq!(resolve_token(&reg, &token.to_string()), Some(screen));
    }
    assert_eq!(resolve_token(&reg, &"back_to_menu".to_string()), None);
    assert_eq!(resolve_token(&reg, &"".to_string()), None);
}

#[test]
fn rendering_an_unregistered_screen_fails() {
    let standard = ContentRegistry::standard();
    let mut entries: Vec<ScreenEntry> = Vec::new();
    for e in standard.entries.iter() {
        if e.screen != ScreenId::TaskBoard {
            entries.push(e.clone());
        }
    }
    let reg = ContentRegistry {
        menu_text: standard.menu_text.clone(),
        entries,
        back_label: standard.back_label.clone(),
        back_token: standard.back_token.clone(),
        entry_command: standard.entry_command.clone(),
        fallback_text: standard.fallback_text.clone(),
    };
    let out = render(&reg, ScreenId::TaskBoard, DisplayMode::New);
    assert_eq!(out, Err(RenderError::UnknownScreen));
    assert!(render(&reg, ScreenId::Menu, DisplayMode::New).is_ok());
}

#[test]
fn unknown_control_keeps_back_affordance() {
    let reg = ContentRegistry::standard();
    let r = some_ref();
    let out = dispatch(
        &reg,
        RawEvent::Activation { token: Some("github_inf".to_string()), origin: Some(r) },
    );
    match out {
        DispatchOutcome::UnknownControl { update } => {
            assert_eq!(update.controls.len(), 1);
            assert_eq!(update.controls[0].token, "back_to_menu");
        }
        _ => panic!("a near-miss token is still unknown"),
    }
}
