use jugar_web::demo::{Attribution, GameMode, SpeedMultiplier};

#[test]
fn test_speed_multiplier_values() {
    assert_eq!(SpeedMultiplier::Normal.value(), 1);
    assert_eq!(SpeedMultiplier::Fast5x.value(), 5);
    assert_eq!(SpeedMultiplier::Fast10x.value(), 10);
    assert_eq!(SpeedMultiplier::Fast50x.value(), 50);
    assert_eq!(SpeedMultiplier::Fast100x.value(), 100);
    assert_eq!(SpeedMultiplier::Fast1000x.value(), 1000);
}

#[test]
fn test_speed_multiplier_warning_threshold() {
    assert!(!SpeedMultiplier::Normal.requires_warning());
    assert!(!SpeedMultiplier::Fast5x.requires_warning());
    assert!(!SpeedMultiplier::Fast10x.requires_warning());

    assert!(SpeedMultiplier::Fast50x.requires_warning());
    assert!(SpeedMultiplier::Fast100x.requires_warning());
    assert!(SpeedMultiplier::Fast1000x.requires_warning());
}

#[test]
fn test_speed_multiplier_labels() {
    assert_eq!(SpeedMultiplier::Normal.label(), "1x");
    assert_eq!(SpeedMultiplier::Fast5x.label(), "5x");
    assert_eq!(SpeedMultiplier::Fast1000x.label(), "1000x");
}

#[test]
fn test_speed_multiplier_cycling() {
    let speed = SpeedMultiplier::Normal;
    assert_eq!(speed.next(), SpeedMultiplier::Fast5x);
    assert_eq!(speed.next().next(), SpeedMultiplier::Fast10x);
    assert_eq!(SpeedMultiplier::Fast1000x.next(), SpeedMultiplier::Normal);
}

#[test]
fn test_speed_multiplier_from_key() {
    assert_eq!(SpeedMultiplier::from_key(1), Some(SpeedMultiplier::Normal));
    assert_eq!(SpeedMultiplier::from_key(2), Some(SpeedMultiplier::Fast5x));
    assert_eq!(SpeedMultiplier::from_key(6), Some(SpeedMultiplier::Fast1000x));
    assert_eq!(SpeedMultiplier::from_key(0), None);
    assert_eq!(SpeedMultiplier::from_key(7), None);
}

#[test]
fn test_speed_multiplier_all() {
    let all = SpeedMultiplier::all();
    assert_eq!(all.len(), 6);
    assert_eq!(all[0], SpeedMultiplier::Normal);
    assert_eq!(all[5], SpeedMultiplier::Fast1000x);
}

#[test]
fn speed_cycle_visits_all_in_order_and_values_increase() {
    let all = SpeedMultiplier::all();
    let mut s = SpeedMultiplier::default();
    assert_eq!(s, SpeedMultiplier::Normal);
    for i in 0..6 {
        assert_eq!(s, all[i]);
        assert_eq!(SpeedMultiplier::from_key(i as u8 + 1), Some(all[i]));
        if i > 0 {
            assert!(all[i - 1].value() < all[i].value());
        }
        assert_eq!(s.requires_warning(), s.value() > 10);
        s = s.next();
    }
    assert_eq!(s, SpeedMultiplier::Normal);
}

#[test]
fn test_game_mode_default_is_single_player() {
    assert_eq!(GameMode::default(), GameMode::SinglePlayer);
}

#[test]
fn test_game_mode_labels() {
    assert_eq!(GameMode::Demo.label(), "Demo");
    assert_eq!(GameMode::SinglePlayer.label(), "1 Player");
    assert_eq!(GameMode::TwoPlayer.label(), "2 Player");
}

#[test]
fn test_game_mode_short_labels() {
    assert_eq!(GameMode::Demo.short_label(), "Demo");
    assert_eq!(GameMode::SinglePlayer.short_label(), "1P");
    assert_eq!(GameMode::TwoPlayer.short_label(), "2P");
}

#[test]
fn test_game_mode_ai_control() {
    assert!(GameMode::Demo.left_is_ai());
    assert!(GameMode::Demo.right_is_ai());

    assert!(GameMode::SinglePlayer.left_is_ai());
    assert!(!GameMode::SinglePlayer.right_is_ai());

    assert!(!GameMode::TwoPlayer.left_is_ai());
    assert!(!GameMode::TwoPlayer.right_is_ai());
}

#[test]
fn test_game_mode_cycling() {
    assert_eq!(GameMode::Demo.next(), GameMode::SinglePlayer);
    assert_eq!(GameMode::SinglePlayer.next(), GameMode::TwoPlayer);
    assert_eq!(GameMode::TwoPlayer.next(), GameMode::Demo);
}

#[test]
fn test_game_mode_paddle_labels() {
    assert_eq!(GameMode::Demo.left_paddle_label(), "AI");
    assert_eq!(GameMode::Demo.right_paddle_label(), "AI");

    assert_eq!(GameMode::SinglePlayer.left_paddle_label(), "AI");
    assert_eq!(GameMode::SinglePlayer.right_paddle_label(), "P1 [^/v]");

    assert_eq!(GameMode::TwoPlayer.left_paddle_label(), "P2 [W/S]");
    assert_eq!(GameMode::TwoPlayer.right_paddle_label(), "P1 [^/v]");
}

#[test]
fn game_mode_names_and_all() {
    assert_eq!(GameMode::Demo.name(), "Demo");
    assert_eq!(GameMode::SinglePlayer.name(), "SinglePlayer");
    assert_eq!(GameMode::TwoPlayer.name(), "TwoPlayer");
    let all = GameMode::all();
    assert_eq!(all, [GameMode::Demo, GameMode::SinglePlayer, GameMode::TwoPlayer]);
    for m in all {
        assert_eq!(m.next().next().next(), m);
        if m.right_is_ai() {
            assert!(m.left_is_ai());
        }
    }
}

#[test]
fn test_attribution_defaults() {
    let attr = Attribution::default();
    assert!(attr.engine_version.contains("Jugar"));
    assert!(attr.github_url.contains("paiml/jugar"));
    assert!(attr.org_url.contains("paiml.com"));
    assert_eq!(attr.model_filename, "pong-ai-v1.apr");
    assert_eq!(attr.model_size, 491);
}

#[test]
fn test_attribution_labels() {
    let attr = Attribution::default();
    assert!(attr.github_label().contains("github.com"));
    assert!(attr.org_label().contains("paiml.com"));
    assert!(attr.model_label().contains("491 bytes"));
}

#[test]
fn attribution_model_label_exact() {
    let attr = Attribution {
        engine_version: "x".to_string(),
        github_url: "y".to_string(),
        org_url: "z".to_string(),
        model_filename: "model.apr".to_string(),
        model_size: 0,
    };
    assert_eq!(attr.model_label(), "model.apr (0 bytes)");
    assert_eq!(Attribution::default().model_label(), "pong-ai-v1.apr (491 bytes)");
    assert_eq!(attr.github_label(), "github.com/paiml/jugar");
    assert_eq!(attr.org_label(), "paiml.com");
}
