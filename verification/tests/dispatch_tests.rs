use obsbot_cli::command::{CameraParams, Command, ImageParams, Zoom};
use obsbot_cli::dispatch::{
    camera_plan, image_plan, infer, plan, ControlCall, Level, ModeSetting, Step,
};
use obsbot_cli::options::{AntiFlicker, FramingType, MediaMode, Switch};
use obsbot_cli::resolver::Lookup;

fn no_image() -> ImageParams {
    ImageParams {
        brightness: None,
        contrast: None,
        saturation: None,
        hue: None,
        sharpness: None,
        wb_auto: None,
        wb_temp: None,
        blur: None,
    }
}

fn no_camera() -> CameraParams {
    CameraParams { zoom: None, focus_auto: None, focus: None, anti_flicker: None }
}

fn step(call: ControlCall, line: &str) -> Step {
    Step { call, line: line.to_string() }
}

#[test]
fn auto_white_balance_without_temperature_sends_zero() {
    let params = ImageParams { wb_auto: Some(true), ..no_image() };
    assert_eq!(
        image_plan(&params),
        vec![step(
            ControlCall::SetWhiteBalance { auto: 1, temp: 0 },
            "Set White Balance: Auto=true, Temp=0"
        )]
    );
}

#[test]
fn auto_white_balance_with_temperature_sends_both() {
    let params = ImageParams { wb_auto: Some(true), wb_temp: Some(5600), ..no_image() };
    assert_eq!(
        image_plan(&params),
        vec![step(
            ControlCall::SetWhiteBalance { auto: 1, temp: 5600 },
            "Set White Balance: Auto=true, Temp=5600"
        )]
    );
}

#[test]
fn temperature_alone_means_manual_white_balance() {
    let params = ImageParams { wb_temp: Some(4000), ..no_image() };
    assert_eq!(
        image_plan(&params),
        vec![step(
            ControlCall::SetWhiteBalance { auto: 0, temp: 4000 },
            "Set White Balance: Manual, Temp=4000"
        )]
    );
}

#[test]
fn white_balance_flag_off_is_sent_as_given() {
    let params = ImageParams { wb_auto: Some(false), wb_temp: Some(3200), ..no_image() };
    assert_eq!(
        image_plan(&params),
        vec![step(
            ControlCall::SetWhiteBalance { auto: 0, temp: 3200 },
            "Set White Balance: Auto=false, Temp=3200"
        )]
    );
    let params = ImageParams { wb_auto: Some(false), ..no_image() };
    assert_eq!(
        image_plan(&params),
        vec![step(
            ControlCall::SetWhiteBalance { auto: 0, temp: 0 },
            "Set White Balance: Auto=false, Temp=0"
        )]
    );
}

#[test]
fn focus_alone_means_manual_focus() {
    let params = CameraParams { focus: Some(30), ..no_camera() };
    assert_eq!(
        camera_plan(&params),
        vec![step(ControlCall::SetFocus { auto: 0, value: 30 }, "Set Focus: Manual, Val=30")]
    );
}

#[test]
fn auto_focus_without_position_sends_zero() {
    let params = CameraParams { focus_auto: Some(true), ..no_camera() };
    assert_eq!(
        camera_plan(&params),
        vec![step(ControlCall::SetFocus { auto: 1, value: 0 }, "Set Focus: Auto=true, Val=0")]
    );
}

#[test]
fn focus_flag_with_position_sends_both() {
    let params = CameraParams { focus_auto: Some(false), focus: Some(55), ..no_camera() };
    assert_eq!(
        camera_plan(&params),
        vec![step(ControlCall::SetFocus { auto: 0, value: 55 }, "Set Focus: Auto=false, Val=55")]
    );
    let params = CameraParams { focus_auto: Some(true), focus: Some(55), ..no_camera() };
    assert_eq!(
        camera_plan(&params),
        vec![step(ControlCall::SetFocus { auto: 1, value: 55 }, "Set Focus: Auto=true, Val=55")]
    );
}

#[test]
fn inference_of_flag_and_value() {
    assert_eq!(infer(None, None), None);
    assert_eq!(infer(None, Some(30)), Some(ModeSetting::Manual { value: 30 }));
    assert_eq!(infer(Some(true), None), Some(ModeSetting::Flagged { auto: true, value: 0 }));
    assert_eq!(infer(Some(false), None), Some(ModeSetting::Flagged { auto: false, value: 0 }));
    assert_eq!(infer(Some(true), Some(9)), Some(ModeSetting::Flagged { auto: true, value: 9 }));
    assert_eq!(
        infer(Some(false), Some(-9)),
        Some(ModeSetting::Flagged { auto: false, value: -9 })
    );
}

#[test]
fn mode_setting_arguments() {
    assert_eq!(ModeSetting::Manual { value: 30 }.auto(), 0);
    assert_eq!(ModeSetting::Manual { value: 30 }.value(), 30);
    assert_eq!(ModeSetting::Flagged { auto: true, value: 0 }.auto(), 1);
    assert_eq!(ModeSetting::Flagged { auto: false, value: 12 }.auto(), 0);
    assert_eq!(ModeSetting::Flagged { auto: false, value: 12 }.value(), 12);
}

#[test]
fn nothing_given_sends_nothing() {
    assert_eq!(image_plan(&no_image()), vec![]);
    assert_eq!(camera_plan(&no_camera()), vec![]);
    assert_eq!(plan(&Command::SetImageParams { sn: None, params: no_image() }), vec![]);
    assert_eq!(plan(&Command::SetCameraParams { sn: None, params: no_camera() }), vec![]);
}

#[test]
fn one_image_field_sends_one_call() {
    let cases = [
        (
            ImageParams { brightness: Some(50), ..no_image() },
            step(ControlCall::SetBrightness(50), "Set Brightness: 50"),
        ),
        (
            ImageParams { contrast: Some(0), ..no_image() },
            step(ControlCall::SetContrast(0), "Set Contrast: 0"),
        ),
        (
            ImageParams { saturation: Some(100), ..no_image() },
            step(ControlCall::SetSaturation(100), "Set Saturation: 100"),
        ),
        (ImageParams { hue: Some(7), ..no_image() }, step(ControlCall::SetHue(7), "Set Hue: 7")),
        (
            ImageParams { sharpness: Some(99), ..no_image() },
            step(ControlCall::SetSharpness(99), "Set Sharpness: 99"),
        ),
        (
            ImageParams { blur: Some(25), ..no_image() },
            step(ControlCall::SetBackgroundBlur(25), "Set Background Blur: 25"),
        ),
    ];
    for (params, expected) in cases {
        assert_eq!(image_plan(&params), vec![expected]);
    }
}

#[test]
fn all_image_fields_go_out_in_order() {
    let params = ImageParams {
        brightness: Some(1),
        contrast: Some(2),
        saturation: Some(3),
        hue: Some(4),
        sharpness: Some(5),
        wb_auto: Some(false),
        wb_temp: Some(6500),
        blur: Some(6),
    };
    assert_eq!(
        image_plan(&params),
        vec![
            step(ControlCall::SetBrightness(1), "Set Brightness: 1"),
            step(ControlCall::SetContrast(2), "Set Contrast: 2"),
            step(ControlCall::SetSaturation(3), "Set Saturation: 3"),
            step(ControlCall::SetHue(4), "Set Hue: 4"),
            step(ControlCall::SetSharpness(5), "Set Sharpness: 5"),
            step(ControlCall::SetBackgroundBlur(6), "Set Background Blur: 6"),
            step(
                ControlCall::SetWhiteBalance { auto: 0, temp: 6500 },
                "Set White Balance: Auto=false, Temp=6500"
            ),
        ]
    );
}

#[test]
fn omitted_image_fields_are_skipped() {
    let params = ImageParams { contrast: Some(40), sharpness: Some(60), ..no_image() };
    let calls: Vec<ControlCall> = image_plan(&params).iter().map(|s| s.call).collect();
    assert_eq!(calls, vec![ControlCall::SetContrast(40), ControlCall::SetSharpness(60)]);
}

#[test]
fn values_are_sent_unchecked() {
    let params = ImageParams { brightness: Some(-5), hue: Some(i32::MAX), ..no_image() };
    assert_eq!(
        image_plan(&params),
        vec![
            step(ControlCall::SetBrightness(-5), "Set Brightness: -5"),
            step(ControlCall::SetHue(i32::MAX), "Set Hue: 2147483647"),
        ]
    );
    let params = ImageParams { wb_temp: Some(i32::MIN), ..no_image() };
    assert_eq!(
        image_plan(&params),
        vec![step(
            ControlCall::SetWhiteBalance { auto: 0, temp: i32::MIN },
            "Set White Balance: Manual, Temp=-2147483648"
        )]
    );
}

#[test]
fn zoom_is_sent_by_its_bits_and_shown_by_its_text() {
    let factor = 1.5f32;
    let zoom = Zoom { bits: factor.to_bits(), text: factor.to_string() };
    let params = CameraParams { zoom: Some(zoom), ..no_camera() };
    let steps = camera_plan(&params);
    assert_eq!(steps, vec![step(ControlCall::SetZoom { bits: 0x3fc0_0000 }, "Set Zoom: 1.5")]);
    match steps[0].call {
        ControlCall::SetZoom { bits } => assert_eq!(f32::from_bits(bits), 1.5),
        _ => unreachable!(),
    }
}

#[test]
fn anti_flicker_is_confirmed_by_its_level() {
    for (setting, line) in [
        (AntiFlicker::Off, "Set Anti-Flicker: 0"),
        (AntiFlicker::Hz50, "Set Anti-Flicker: 1"),
        (AntiFlicker::Hz60, "Set Anti-Flicker: 2"),
        (AntiFlicker::Auto, "Set Anti-Flicker: 3"),
    ] {
        let params = CameraParams { anti_flicker: Some(setting), ..no_camera() };
        assert_eq!(camera_plan(&params), vec![step(ControlCall::SetAntiFlicker(setting), line)]);
    }
}

#[test]
fn all_camera_fields_go_out_in_order() {
    let params = CameraParams {
        zoom: Some(Zoom { bits: 2.0f32.to_bits(), text: "2".to_string() }),
        focus_auto: None,
        focus: Some(10),
        anti_flicker: Some(AntiFlicker::Hz50),
    };
    assert_eq!(
        camera_plan(&params),
        vec![
            step(ControlCall::SetZoom { bits: 0x4000_0000 }, "Set Zoom: 2"),
            step(ControlCall::SetFocus { auto: 0, value: 10 }, "Set Focus: Manual, Val=10"),
            step(ControlCall::SetAntiFlicker(AntiFlicker::Hz50), "Set Anti-Flicker: 1"),
        ]
    );
}

#[test]
fn omitted_camera_fields_are_skipped() {
    let params = CameraParams { anti_flicker: Some(AntiFlicker::Auto), ..no_camera() };
    let calls: Vec<ControlCall> = camera_plan(&params).iter().map(|s| s.call).collect();
    assert_eq!(calls, vec![ControlCall::SetAntiFlicker(AntiFlicker::Auto)]);
}

#[test]
fn single_call_commands() {
    assert_eq!(
        plan(&Command::SetMode { sn: None, mode: MediaMode::AutoFrame }),
        vec![step(ControlCall::SetMediaMode(MediaMode::AutoFrame), "Set Media Mode.")]
    );
    assert_eq!(
        plan(&Command::SetFraming { sn: None, framing: FramingType::Single }),
        vec![step(ControlCall::SetFramingType(FramingType::Single), "Set Framing Type.")]
    );
    assert_eq!(
        plan(&Command::SetHdr { sn: Some("X1".to_string()), state: Switch::On }),
        vec![step(ControlCall::SetHdr(Switch::On), "Set HDR.")]
    );
    assert_eq!(
        plan(&Command::Reset { sn: None }),
        vec![step(ControlCall::ResetDefault, "Reset to default settings.")]
    );
}

#[test]
fn list_and_info_set_nothing() {
    assert_eq!(plan(&Command::List), vec![]);
    assert_eq!(plan(&Command::Info { sn: None }), vec![]);
    assert_eq!(plan(&Command::Info { sn: Some("X1".to_string()) }), vec![]);
}

#[test]
fn plan_of_a_tuning_command_is_the_plan_of_its_fields() {
    let image = ImageParams { hue: Some(12), wb_temp: Some(2800), ..no_image() };
    assert_eq!(plan(&Command::SetImageParams { sn: None, params: image }), image_plan(&image));
    let camera = CameraParams { focus_auto: Some(true), ..no_camera() };
    assert_eq!(
        plan(&Command::SetCameraParams { sn: None, params: camera.clone() }),
        camera_plan(&camera)
    );
}

#[test]
fn level_calls_and_labels() {
    assert_eq!(Level::Brightness.call(3), ControlCall::SetBrightness(3));
    assert_eq!(Level::Contrast.call(3), ControlCall::SetContrast(3));
    assert_eq!(Level::Saturation.call(3), ControlCall::SetSaturation(3));
    assert_eq!(Level::Hue.call(3), ControlCall::SetHue(3));
    assert_eq!(Level::Sharpness.call(3), ControlCall::SetSharpness(3));
    assert_eq!(Level::BackgroundBlur.call(3), ControlCall::SetBackgroundBlur(3));
    assert_eq!(Level::Brightness.label(), "Set Brightness: ");
    assert_eq!(Level::BackgroundBlur.label(), "Set Background Blur: ");
}

#[test]
fn commands_look_up_their_device() {
    assert_eq!(Command::List.lookup(), None);
    assert_eq!(Command::Info { sn: None }.lookup(), Some(Lookup::ByIndex(0)));
    assert_eq!(Command::Reset { sn: None }.lookup(), Some(Lookup::ByIndex(0)));
    let sn = Some("RMSEA1234".to_string());
    let by_serial = Some(Lookup::BySerial("RMSEA1234".to_string()));
    assert_eq!(Command::Info { sn: sn.clone() }.lookup(), by_serial);
    assert_eq!(Command::SetMode { sn: sn.clone(), mode: MediaMode::Normal }.lookup(), by_serial);
    assert_eq!(
        Command::SetFraming { sn: sn.clone(), framing: FramingType::Group }.lookup(),
        by_serial
    );
    assert_eq!(Command::SetHdr { sn: sn.clone(), state: Switch::Off }.lookup(), by_serial);
    assert_eq!(
        Command::SetImageParams { sn: sn.clone(), params: no_image() }.lookup(),
        by_serial
    );
    assert_eq!(
        Command::SetCameraParams { sn: sn.clone(), params: no_camera() }.lookup(),
        by_serial
    );
    assert_eq!(Command::Reset { sn }.lookup(), by_serial);
}
