use obsbot_cli::failure::Failure;
use obsbot_cli::options::{AntiFlicker, FramingType, MediaMode, Switch};

#[test]
fn media_mode_reads_its_names() {
    assert_eq!(MediaMode::parse("Normal"), Ok(MediaMode::Normal));
    assert_eq!(MediaMode::parse("Background"), Ok(MediaMode::Background));
    assert_eq!(MediaMode::parse("AutoFrame"), Ok(MediaMode::AutoFrame));
}

#[test]
fn media_mode_reads_its_hyphenated_form() {
    assert_eq!(MediaMode::parse("normal"), Ok(MediaMode::Normal));
    assert_eq!(MediaMode::parse("background"), Ok(MediaMode::Background));
    assert_eq!(MediaMode::parse("auto-frame"), Ok(MediaMode::AutoFrame));
}

#[test]
fn media_mode_refuses_other_text() {
    for text in ["", "NORMAL", "autoframe", "auto_frame", "Auto-Frame", "normal ", "0", "Group"] {
        assert_eq!(MediaMode::parse(text), Err(Failure::InvalidArgument), "{:?}", text);
    }
}

#[test]
fn media_mode_codes() {
    assert_eq!(MediaMode::Normal.code(), 0);
    assert_eq!(MediaMode::Background.code(), 1);
    assert_eq!(MediaMode::AutoFrame.code(), 2);
    for mode in [MediaMode::Normal, MediaMode::Background, MediaMode::AutoFrame] {
        assert_eq!(MediaMode::from_code(mode.code()), Some(mode));
        assert_eq!(MediaMode::parse(mode.name()), Ok(mode));
    }
    assert_eq!(MediaMode::from_code(3), None);
    assert_eq!(MediaMode::from_code(-1), None);
    assert_eq!(MediaMode::from_code(i32::MAX), None);
}

#[test]
fn media_mode_names() {
    assert_eq!(MediaMode::Normal.name(), "Normal");
    assert_eq!(MediaMode::Background.name(), "Background");
    assert_eq!(MediaMode::AutoFrame.name(), "AutoFrame");
}

#[test]
fn framing_reads_its_names() {
    assert_eq!(FramingType::parse("Group"), Ok(FramingType::Group));
    assert_eq!(FramingType::parse("group"), Ok(FramingType::Group));
    assert_eq!(FramingType::parse("Single"), Ok(FramingType::Single));
    assert_eq!(FramingType::parse("single"), Ok(FramingType::Single));
}

#[test]
fn framing_refuses_other_text() {
    for text in ["", "GROUP", "double", "singles", "1", "On"] {
        assert_eq!(FramingType::parse(text), Err(Failure::InvalidArgument), "{:?}", text);
    }
}

#[test]
fn framing_codes() {
    assert_eq!(FramingType::Group.code(), 0);
    assert_eq!(FramingType::Single.code(), 1);
}

#[test]
fn switch_reads_its_names() {
    assert_eq!(Switch::parse("Off"), Ok(Switch::Off));
    assert_eq!(Switch::parse("off"), Ok(Switch::Off));
    assert_eq!(Switch::parse("On"), Ok(Switch::On));
    assert_eq!(Switch::parse("on"), Ok(Switch::On));
}

#[test]
fn switch_refuses_other_text() {
    for text in ["", "ON", "OFF", "true", "false", "1", "0", "o", "onn"] {
        assert_eq!(Switch::parse(text), Err(Failure::InvalidArgument), "{:?}", text);
    }
}

#[test]
fn switch_codes() {
    assert_eq!(Switch::Off.code(), 0);
    assert_eq!(Switch::On.code(), 1);
}

#[test]
fn anti_flicker_takes_levels_up_to_three() {
    assert_eq!(AntiFlicker::from_level(0), Ok(AntiFlicker::Off));
    assert_eq!(AntiFlicker::from_level(1), Ok(AntiFlicker::Hz50));
    assert_eq!(AntiFlicker::from_level(2), Ok(AntiFlicker::Hz60));
    assert_eq!(AntiFlicker::from_level(3), Ok(AntiFlicker::Auto));
}

#[test]
fn anti_flicker_refuses_levels_above_three() {
    assert_eq!(AntiFlicker::from_level(4), Err(Failure::InvalidArgument));
    assert_eq!(AntiFlicker::from_level(50), Err(Failure::InvalidArgument));
    assert_eq!(AntiFlicker::from_level(u32::MAX), Err(Failure::InvalidArgument));
}

#[test]
fn anti_flicker_levels_and_codes() {
    for level in 0..=3u32 {
        let setting = AntiFlicker::from_level(level).unwrap();
        assert_eq!(setting.level(), level);
        assert_eq!(setting.code(), level as i32);
    }
}
