use pz_ime_guard::status::{paint_lamp, strings, strings_for, ui_language, Status, UiLanguage};

#[test]
fn lamp_colours_follow_the_status() {
    assert_eq!(Status::Paused.rgb(), [128, 128, 128]);
    assert_eq!(Status::NoGame.rgb(), [128, 128, 128]);
    assert_eq!(Status::Background.rgb(), [128, 128, 128]);
    assert_eq!(Status::Closing.rgb(), [128, 128, 128]);
    assert_eq!(Status::NoEnglish.rgb(), [220, 50, 50]);
    assert_eq!(Status::Guarding.rgb(), [40, 180, 80]);
    assert_eq!(Status::Typing.rgb(), [240, 160, 30]);
}

#[test]
fn the_tooltip_names_the_tool_and_the_status() {
    let en = strings(UiLanguage::English);
    assert_eq!(Status::Guarding.text(&en), "pz-ime-guard: safe layout active (movement keys work)");
    assert_eq!(Status::NoGame.text(&en), "pz-ime-guard: waiting for Project Zomboid");
    let tw = strings(UiLanguage::TraditionalChinese);
    assert_eq!(Status::Paused.text(&tw), "pz-ime-guard: 已暫停");
}

#[test]
fn the_interface_language_follows_the_display_language() {
    assert_eq!(ui_language(0x0404), UiLanguage::TraditionalChinese);
    assert_eq!(ui_language(0x0C04), UiLanguage::TraditionalChinese);
    assert_eq!(ui_language(0x1404), UiLanguage::TraditionalChinese);
    assert_eq!(ui_language(0x0804), UiLanguage::SimplifiedChinese);
    assert_eq!(ui_language(0x1004), UiLanguage::SimplifiedChinese);
    assert_eq!(ui_language(0x0411), UiLanguage::Japanese);
    assert_eq!(ui_language(0x0412), UiLanguage::Korean);
    assert_eq!(ui_language(0x0409), UiLanguage::English);
    assert_eq!(ui_language(0x0407), UiLanguage::English);
    assert_eq!(strings_for(0x0411).menu_quit, "終了");
    assert_eq!(strings_for(0x0412).menu_quit, "종료");
    assert_eq!(strings_for(0x0804).menu_quit, "退出");
    assert!(strings_for(0x0409).notice.contains("\nThe lamp on the keycap icon"));
}

#[test]
fn the_lamp_is_painted_in_the_lower_right_corner() {
    let base = vec![7u8; 4096];
    let icon = paint_lamp(&base, Status::Guarding);
    assert_eq!(icon.len(), 4096);
    let px = |x: usize, y: usize| &icon[(y * 32 + x) * 4..(y * 32 + x) * 4 + 4];
    assert_eq!(px(25, 25), &[40, 180, 80, 255]);
    assert_eq!(px(24, 24), &[40, 180, 80, 255]);
    assert_eq!(px(25, 19), &[40, 180, 80, 255]); // distance 5.5
    assert_eq!(px(25, 18), &[30, 30, 30, 255]); // distance 6.5: the outline
    assert_eq!(px(25, 17), &[7, 7, 7, 7]); // distance 7.5: untouched
    assert_eq!(px(0, 0), &[7, 7, 7, 7]);
    assert_eq!(px(31, 31), &[7, 7, 7, 7]); // distance 6.5 * sqrt(2)
    assert_eq!(px(31, 25), &[30, 30, 30, 255]); // distance 6.5
}

#[test]
fn the_lamp_matches_the_floating_point_circle() {
    let base: Vec<u8> = (0..4096u32).map(|i| (i % 251) as u8).collect();
    let icon = paint_lamp(&base, Status::Typing);
    for y in 0..32u32 {
        for x in 0..32u32 {
            let d = ((x as f32 + 0.5 - 25.0).powi(2) + (y as f32 + 0.5 - 25.0).powi(2)).sqrt();
            let i = ((y * 32 + x) * 4) as usize;
            let want: [u8; 4] = if d > 7.0 {
                [base[i], base[i + 1], base[i + 2], base[i + 3]]
            } else if d <= 6.0 {
                [240, 160, 30, 255]
            } else {
                [30, 30, 30, 255]
            };
            assert_eq!(&icon[i..i + 4], &want, "({x}, {y})");
        }
    }
}
