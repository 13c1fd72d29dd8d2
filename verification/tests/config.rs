use nyra::job::hotkey::{MOD_ALT, MOD_CONTROL, MOD_SHIFT, MOD_WIN};
use nyra::job::{is_valid_tip_color, validate_config, Hotkey, JobConfig, Tip, Tips};
use nyra::settings_default_values::{default_tip_color, DEFAULT_TIP_SHOW_TIME};
use nyra::text::{display_width, truncate_tip};

fn tip(text: &str, interval: u64, show_time: Option<u64>, color: Option<&str>) -> Tip {
    Tip {
        tip: text.to_string(),
        interval,
        show_time,
        color: color.map(|c| c.to_string()),
        reaction: None,
    }
}

#[test]
fn show_time_defaults_to_five_seconds() {
    assert_eq!(tip("a", 1, None, None).show_time(), DEFAULT_TIP_SHOW_TIME);
    assert_eq!(tip("a", 1, None, None).show_time(), 5);
    assert_eq!(tip("a", 1, Some(9), None).show_time(), 9);
}

#[test]
fn accepts_hex_colors_only() {
    assert!(is_valid_tip_color("#33E078"));
    assert!(is_valid_tip_color("#abcdef"));
    assert!(!is_valid_tip_color("33E078"));
    assert!(!is_valid_tip_color("#33E07"));
    assert!(!is_valid_tip_color("#33E0789"));
    assert!(!is_valid_tip_color("#33G078"));
    assert!(!is_valid_tip_color(""));
}

#[test]
fn resolves_configured_or_palette_colors() {
    let config = JobConfig(Tips {
        tips: vec![
            tip("a", 1, None, Some("#010203")),
            tip("b", 1, None, None),
            tip("c", 1, None, None),
            tip("d", 1, None, None),
            tip("e", 1, None, None),
            tip("f", 1, None, None),
            tip("g", 1, None, None),
            tip("h", 1, None, None),
        ],
    });
    assert!(!config.is_empty());
    assert_eq!(config.resolved_color_at(0), "#010203");
    assert_eq!(config.resolved_color_at(1), "#4DA3FF");
    assert_eq!(config.resolved_color_at(5), "#37D6D0");
    assert_eq!(config.resolved_color_at(6), "#33E078");
    assert_eq!(config.resolved_color_at(7), "#4DA3FF");
    assert_eq!(default_tip_color(3), "#FFB347");
    assert!(JobConfig(Tips { tips: vec![] }).is_empty());
}

#[test]
fn validates_tips_in_order() {
    assert_eq!(
        validate_config(&Tips { tips: vec![] }),
        Err("Tips in the configuration cannot be empty".to_string())
    );
    assert_eq!(
        validate_config(&Tips { tips: vec![tip("ok", 1, None, None), tip("  ", 1, None, None)] }),
        Err("tips[1].tip cannot be empty".to_string())
    );
    assert_eq!(
        validate_config(&Tips { tips: vec![tip("x", 0, None, None)] }),
        Err("tips[0].interval must be greater than 0".to_string())
    );
    assert_eq!(
        validate_config(&Tips { tips: vec![tip("x", 2, Some(0), None)] }),
        Err("tips[0].showTime must be greater than 0".to_string())
    );
    assert_eq!(
        validate_config(&Tips { tips: vec![tip("x", 2, Some(1), Some("red"))] }),
        Err("tips[0].color must use format like #RRGGBB".to_string())
    );
    assert_eq!(
        validate_config(&Tips {
            tips: vec![tip("x", 2, Some(1), Some("#FFFFFF")), tip("y", 3, None, None)]
        }),
        Ok(())
    );
}

#[test]
fn parses_modifier_hotkeys() {
    let h = Hotkey::parse("Ctrl+Alt+R").unwrap();
    assert_eq!(h.modifiers(), MOD_CONTROL | MOD_ALT);
    assert_eq!(h.virtual_key(), 'R' as u32);
    assert_eq!(h.display_text(), "Ctrl+Alt+R");

    let h = Hotkey::parse(" win + shift + control + a ").unwrap();
    assert_eq!(h.modifiers(), MOD_CONTROL | MOD_SHIFT | MOD_WIN);
    assert_eq!(h.virtual_key(), 'A' as u32);
    assert_eq!(h.display_text(), "Ctrl+Shift+Win+A");

    let h = Hotkey::parse("Meta+esc").unwrap();
    assert_eq!(h.modifiers(), MOD_WIN);
    assert_eq!(h.virtual_key(), 0x1B);
    assert_eq!(h.display_text(), "Win+Escape");

    let h = Hotkey::parse("Alt+7").unwrap();
    assert_eq!(h.virtual_key(), '7' as u32);
    assert_eq!(h.display_text(), "Alt+7");
}

#[test]
fn parses_function_keys_without_modifiers() {
    let h = Hotkey::parse("F8").unwrap();
    assert_eq!(h.modifiers(), 0);
    assert_eq!(h.virtual_key(), 0x77);
    assert_eq!(h.display_text(), "F8");

    let h = Hotkey::parse("shift+f24").unwrap();
    assert_eq!(h.modifiers(), MOD_SHIFT);
    assert_eq!(h.virtual_key(), 0x87);
    assert_eq!(h.display_text(), "Shift+F24");

    let h = Hotkey::parse("F01").unwrap();
    assert_eq!(h.virtual_key(), 0x70);
    assert_eq!(h.display_text(), "F1");
}

#[test]
fn rejects_malformed_hotkeys() {
    assert_eq!(
        Hotkey::parse("R"),
        Err("Letters, numbers, and ordinary keys must have at least one modifier key".to_string())
    );
    assert_eq!(
        Hotkey::parse("Space"),
        Err("Letters, numbers, and ordinary keys must have at least one modifier key".to_string())
    );
    assert_eq!(
        Hotkey::parse("Ctrl+Control+R"),
        Err("Duplicate hotkey modifier: Control".to_string())
    );
    assert_eq!(
        Hotkey::parse("Hyper+R"),
        Err("Unsupported hotkey modifier: Hyper".to_string())
    );
    assert_eq!(
        Hotkey::parse("Ctrl+Home"),
        Err("Unsupported hotkey key: Home".to_string())
    );
    assert_eq!(
        Hotkey::parse("F25"),
        Err("Function keys must be in the range F1..F24: F25".to_string())
    );
    assert_eq!(
        Hotkey::parse("F0"),
        Err("Function keys must be in the range F1..F24: F0".to_string())
    );
    assert_eq!(
        Hotkey::parse("Ctrl++R"),
        Err("Hotkey format should be like Ctrl+Alt+R or F8".to_string())
    );
    assert_eq!(
        Hotkey::parse(""),
        Err("Hotkey format should be like Ctrl+Alt+R or F8".to_string())
    );
    assert_eq!(
        Hotkey::parse("Ctrl+Alt+Shift+Win+Ctrl+R"),
        Err("Hotkey format should be like Ctrl+Alt+R or F8".to_string())
    );
}

#[test]
fn copies_and_compares_hotkeys() {
    let a = Hotkey::parse("Ctrl+R").unwrap();
    let b = Hotkey::parse("control+r").unwrap();
    let c = Hotkey::parse("Alt+R").unwrap();
    assert!(a.same_as(&b));
    assert!(!a.same_as(&c));
    assert!(a.duplicate().same_as(&a));
}

#[test]
fn measures_display_width() {
    assert_eq!(display_width("abc"), 3);
    assert_eq!(display_width("你好"), 4);
    assert_eq!(display_width(""), 0);
}

#[test]
fn truncates_long_tips() {
    assert_eq!(truncate_tip("short", 10), "short");
    assert_eq!(truncate_tip("abcdefghij", 10), "abcdefghij");
    assert_eq!(truncate_tip("abcdefghijk", 10), "abcdefg...");
    assert_eq!(truncate_tip("你好世界", 7), "你好...");
    assert_eq!(truncate_tip("abcdef", 2), "...");
}

#[test]
fn display_text_reads_back_as_the_same_hotkey() {
    for text in ["ctrl+ALT+r", " meta + f12 ", "Shift+space", "alt+Esc", "F1", "control+win+9"] {
        let hotkey = Hotkey::parse(text).unwrap();
        let again = Hotkey::parse(&hotkey.display_text()).unwrap();
        assert_eq!(again, hotkey);
    }
}

#[test]
fn truncated_tips_fit_their_columns() {
    for text in ["保持侦察并注意小地图", "abcdefghijklmnopqrstuvwxyz", "a你b好c世d界e", "short"] {
        for columns in [3usize, 4, 7, 10, 16] {
            let shown = truncate_tip(text, columns);
            assert!(display_width(&shown) <= columns, "{text:?} in {columns} columns");
        }
    }
}
