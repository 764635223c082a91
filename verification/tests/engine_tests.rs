use kbd_overlay::capture::HotkeyTracker;
use kbd_overlay::{
    controller_step, locate, parse_hotkey, parse_hotkey_macos, parse_hotkey_windows,
    validate_config, Engine, EngineConfig, EngineError, HotkeyError, KeyName, MonitorRect,
    Opacity, OverlayEvent, OverlayState, WindowBounds,
};

fn png_bytes(width: u32, height: u32, fill: [u8; 4]) -> Vec<u8> {
    let img = image::RgbaImage::from_pixel(width, height, image::Rgba(fill));
    let mut bytes: Vec<u8> = Vec::new();
    img.write_to(
        &mut std::io::Cursor::new(&mut bytes),
        image::ImageOutputFormat::Png,
    )
    .unwrap();
    bytes
}

fn spec_config() -> EngineConfig {
    EngineConfig {
        width: 742,
        height: 235,
        opacity: Opacity::new(5033165, 16777216),
        invert: false,
        persist: false,
        hotkey: parse_hotkey(&vec![
            "ControlLeft".to_string(),
            "Alt".to_string(),
            "ShiftLeft".to_string(),
            "Slash".to_string(),
        ])
        .unwrap(),
    }
}

#[test]
fn hide_while_hidden_is_a_no_op() {
    let step = controller_step(OverlayState::Hidden, OverlayEvent::Hide, true);
    assert_eq!(step.next, OverlayState::Hidden);
    assert!(!step.repaint);
    assert!(!step.reposition);
}

#[test]
fn show_while_visible_only_repositions_and_repaints() {
    let step = controller_step(OverlayState::Visible, OverlayEvent::Show, true);
    assert_eq!(step.next, OverlayState::Visible);
    assert!(step.reposition);
    assert!(step.repaint);
    assert!(step.show_window);
}

#[test]
fn toggle_cycles_between_the_states() {
    let up = controller_step(OverlayState::Hidden, OverlayEvent::Toggle, true);
    assert_eq!(up.next, OverlayState::Visible);
    let down = controller_step(OverlayState::Visible, OverlayEvent::Toggle, true);
    assert_eq!(down.next, OverlayState::Hidden);
    assert!(!down.repaint);
}

#[test]
fn show_without_a_frame_is_inert() {
    let step = controller_step(OverlayState::Hidden, OverlayEvent::Show, false);
    assert_eq!(step.next, OverlayState::Hidden);
    assert!(!step.show_window);
    assert!(!step.repaint);
}

#[test]
fn invalid_dimensions_are_fatal_at_startup() {
    let mut cfg = spec_config();
    cfg.width = 0;
    assert_eq!(validate_config(&cfg), Err(EngineError::InvalidDimensions));
    let r = Engine::new(&cfg, &vec![]);
    assert!(matches!(r, Err(EngineError::InvalidDimensions)));
}

#[test]
fn invalid_hotkey_is_fatal_at_startup() {
    let mut cfg = spec_config();
    cfg.hotkey = vec![KeyName::ControlLeft, KeyName::ShiftLeft];
    let r = Engine::new(&cfg, &vec![]);
    assert_eq!(
        r.err().map(|e| e.message()),
        Some("hotkey must contain at least one non-modifier key".to_string())
    );
}

#[test]
fn full_scenario_momentary_overlay() {
    // configuration: 742x235, opacity three tenths, momentary mode,
    // hotkey ControlLeft+Alt+ShiftLeft+Slash
    let cfg = spec_config();
    assert_eq!(validate_config(&cfg), Ok(()));

    let source_alpha = 200u64;
    let png = png_bytes(742, 235, [10, 20, 30, source_alpha as u8]);
    let (mut engine, used) = Engine::new(&cfg, &vec![png]).unwrap();
    assert_eq!(used, Some(0));

    // every pixel's alpha is at most three tenths of the source alpha
    let pixels = engine.frame_pixels().unwrap().clone();
    assert_eq!(pixels.len(), 742 * 235);
    for px in &pixels {
        assert!(10 * (px >> 24) as u64 <= 3 * source_alpha);
    }

    // pressing all four keys emits exactly one Show
    let mut tracker = HotkeyTracker::new(cfg.hotkey.clone(), cfg.persist);
    assert_eq!(tracker.on_key_press(KeyName::ControlLeft), None);
    assert_eq!(tracker.on_key_press(KeyName::Alt), None);
    assert_eq!(tracker.on_key_press(KeyName::ShiftLeft), None);
    let shown = tracker.on_key_press(KeyName::Slash);
    assert_eq!(shown, Some(OverlayEvent::Show));

    // the show event positions the window bottom-centred on the
    // monitor containing the active window
    let monitors = vec![
        MonitorRect { x: 0, y: 0, width: 1920, height: 1080 },
        MonitorRect { x: 1920, y: 0, width: 1280, height: 1024 },
    ];
    let active = WindowBounds { x: 600, y: 300, width: 400, height: 300 };
    let anchor = locate(Some(active), None, &monitors);
    let d = engine.handle_event(shown.unwrap(), anchor);
    assert_eq!(d.position, Some((((1920 - 742) / 2) as i64, (1080 - 235) as i64)));
    assert!(d.show_window);
    assert!(d.repaint);

    // releasing Slash alone hides it
    let hidden = tracker.on_key_release(KeyName::Slash);
    assert_eq!(hidden, Some(OverlayEvent::Hide));
    let d = engine.handle_event(hidden.unwrap(), None);
    assert!(d.hide_window);
    assert!(!d.repaint);
    assert_eq!(d.position, None);
}

#[test]
fn engine_without_a_decodable_image_starts_inert() {
    let cfg = spec_config();
    let (mut engine, used) = Engine::new(&cfg, &vec![vec![9u8, 9, 9]]).unwrap();
    assert_eq!(used, None);
    assert!(engine.frame_pixels().is_none());
    let d = engine.handle_event(OverlayEvent::Show, None);
    assert!(!d.show_window);
    assert!(!d.repaint);
    assert_eq!(d.position, None);
}

#[test]
fn fallback_image_is_reported_by_index() {
    let cfg = spec_config();
    let garbage = vec![0u8; 16];
    let png = png_bytes(8, 8, [1, 2, 3, 255]);
    let (engine, used) = Engine::new(&cfg, &vec![garbage, png]).unwrap();
    assert_eq!(used, Some(1));
    assert_eq!(engine.frame_pixels().unwrap().len(), 742 * 235);
}

#[test]
fn windows_encoding_matches_the_platform_constants() {
    let keys = vec![
        "ControlLeft".to_string(),
        "Alt".to_string(),
        "ShiftLeft".to_string(),
        "Slash".to_string(),
    ];
    // MOD_CONTROL | MOD_ALT | MOD_SHIFT, VK_OEM_2
    assert_eq!(parse_hotkey_windows(&keys), (2 | 1 | 4, 191));
    let keys = vec!["cmd".to_string(), "a".to_string()];
    assert_eq!(parse_hotkey_windows(&keys), (8, 'A' as u32));
    let keys = vec!["ctrl".to_string(), "7".to_string()];
    assert_eq!(parse_hotkey_windows(&keys), (2, '7' as u32));
    // later key codes win; unrecognized names contribute nothing
    let keys = vec!["shift".to_string(), "a".to_string(), "b".to_string(), "??".to_string()];
    assert_eq!(parse_hotkey_windows(&keys), (4, 'B' as u32));
}

#[test]
fn macos_encoding_matches_the_platform_constants() {
    let keys = vec![
        "ControlLeft".to_string(),
        "Alt".to_string(),
        "ShiftLeft".to_string(),
        "Slash".to_string(),
    ];
    assert_eq!(
        parse_hotkey_macos(&keys),
        (0x0004_0000 | 0x0008_0000 | 0x0002_0000, 0x2C)
    );
    let keys = vec!["command".to_string(), "s".to_string()];
    assert_eq!(parse_hotkey_macos(&keys), (0x0010_0000, 0x01));
    let keys = vec!["option".to_string(), "0".to_string()];
    assert_eq!(parse_hotkey_macos(&keys), (0x0008_0000, 0x1D));
}
