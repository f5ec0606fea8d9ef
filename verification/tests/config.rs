use hyprswitch::config::{
    CloseType, ModKey, ModKeyInput, Monitors, ReverseKey, SimpleConf, SwitchType,
};
use hyprswitch::text::{eq_lower, split_str, to_lower};

#[test]
fn defaults_match_the_documented_ones() {
    assert_eq!(SwitchType::default(), SwitchType::Client);
    assert_eq!(ModKey::default(), ModKey::SuperL);
    assert_eq!(CloseType::default(), CloseType::Default);
    assert_eq!(ReverseKey::default(), ReverseKey::Mod(ModKey::ShiftL));
    let conf = SimpleConf::default();
    assert_eq!(conf.switch_type, SwitchType::Client);
    assert!(!conf.filter_same_class);
}

#[test]
fn agnostic_modifier_names_resolve_to_left_keys() {
    assert_eq!(ModKey::from(ModKeyInput::Alt), ModKey::AltL);
    assert_eq!(ModKey::from(ModKeyInput::AltR), ModKey::AltR);
    assert_eq!(ModKey::from(ModKeyInput::Ctrl), ModKey::CtrlL);
    assert_eq!(ModKey::from(ModKeyInput::Super), ModKey::SuperL);
    assert_eq!(ModKey::from(ModKeyInput::Shift), ModKey::ShiftL);
    assert_eq!(ModKey::from(ModKeyInput::ShiftR), ModKey::ShiftR);
}

#[test]
fn modifier_names_parse_without_regard_to_case() {
    assert_eq!(ModKeyInput::from_name("shift"), Some(ModKeyInput::Shift));
    assert_eq!(ModKeyInput::from_name("SHIFT"), Some(ModKeyInput::Shift));
    assert_eq!(ModKeyInput::from_name("ShIfT_l"), Some(ModKeyInput::ShiftL));
    assert_eq!(ModKeyInput::from_name("super_r"), Some(ModKeyInput::SuperR));
    assert_eq!(ModKeyInput::from_name("alt"), Some(ModKeyInput::Alt));
    assert_eq!(ModKeyInput::from_name("ctrl_l"), Some(ModKeyInput::CtrlL));
    assert_eq!(ModKeyInput::from_name("bogus"), None);
    assert_eq!(ModKeyInput::from_name(""), None);
}

#[test]
fn reverse_key_parses_modifiers() {
    assert_eq!(ReverseKey::from_str("mod=shift"), Ok(ReverseKey::Mod(ModKey::ShiftL)));
    assert_eq!(ReverseKey::from_str("mod=alt"), Ok(ReverseKey::Mod(ModKey::AltL)));
    assert_eq!(ReverseKey::from_str("mod=SUPER_R"), Ok(ReverseKey::Mod(ModKey::SuperR)));
}

#[test]
fn reverse_key_parses_plain_keys() {
    assert_eq!(ReverseKey::from_str("key=grave"), Ok(ReverseKey::Key(String::from("grave"))));
    assert_eq!(ReverseKey::from_str("key="), Ok(ReverseKey::Key(String::new())));
}

#[test]
fn reverse_key_rejects_malformed_input() {
    assert!(ReverseKey::from_str("modshift").is_err());
    assert!(ReverseKey::from_str("mod=shift=l").is_err());
    assert!(ReverseKey::from_str("mod=bogus").is_err());
    assert!(ReverseKey::from_str("lever=shift").is_err());
    assert!(ReverseKey::from_str("").is_err());
}

#[test]
fn monitors_accept_only_available_names() {
    let available = vec![String::from("HDMI-0"), String::from("DP-1")];
    assert_eq!(
        Monitors::from_str("HDMI-0", &available),
        Ok(Monitors(vec![String::from("HDMI-0")]))
    );
    assert_eq!(
        Monitors::from_str("HDMI-0,DP-1", &available),
        Ok(Monitors(vec![String::from("HDMI-0"), String::from("DP-1")]))
    );
    assert!(Monitors::from_str("eDP-1", &available).is_err());
    assert!(Monitors::from_str("HDMI-0,eDP-1", &available).is_err());
    assert!(Monitors::from_str("", &available).is_err());
}

#[test]
fn lowering_touches_only_ascii_upper_case() {
    assert_eq!(to_lower('A'), 'a');
    assert_eq!(to_lower('Z'), 'z');
    assert_eq!(to_lower('a'), 'a');
    assert_eq!(to_lower('_'), '_');
    assert_eq!(to_lower('0'), '0');
}

#[test]
fn lowered_comparison_is_one_sided() {
    assert!(eq_lower("AlT", "alt"));
    assert!(eq_lower("alt", "alt"));
    assert!(!eq_lower("alt", "ALT"));
    assert!(!eq_lower("alt", "alt_l"));
}

#[test]
fn split_keeps_empty_pieces() {
    assert_eq!(split_str("a,b", ','), vec![String::from("a"), String::from("b")]);
    assert_eq!(split_str("", ','), vec![String::new()]);
    assert_eq!(split_str("a,", ','), vec![String::from("a"), String::new()]);
    assert_eq!(split_str("no-sep", ','), vec![String::from("no-sep")]);
}
