//! From a command to the device-control calls it makes.
//!
//! A command becomes a plan: the calls to make, in order, each with the line
//! that confirms it. A field that was not given contributes nothing to the
//! plan. The only inference is on white balance and focus, where a value
//! given without its automatic-mode flag means manual mode.

use vstd::prelude::*;
use vstd::string::*;
use crate::command::{CameraParams, Command, ImageParams, Zoom};
use crate::options::{AntiFlicker, FramingType, MediaMode, Switch};
use crate::text::{decimal, push_decimal};

verus! {

/// One call into the device's control interface, with its arguments.
#[derive(Clone, Copy, Debug, PartialEq, Eq, Structural)]
pub enum ControlCall {
    SetMediaMode(MediaMode),
    SetFramingType(FramingType),
    SetHdr(Switch),
    SetBrightness(i32),
    SetContrast(i32),
    SetSaturation(i32),
    SetHue(i32),
    SetSharpness(i32),
    SetBackgroundBlur(i32),
    /// `auto` is 1 for automatic white balance and 0 for manual.
    SetWhiteBalance { auto: i32, temp: i32 },
    /// The zoom factor, by its single-precision bits.
    SetZoom { bits: u32 },
    /// `auto` is 1 for automatic focus and 0 for manual.
    SetFocus { auto: i32, value: i32 },
    SetAntiFlicker(AntiFlicker),
    ResetDefault,
}

/// A call together with the line printed once it has been made.
#[derive(Clone, Debug, PartialEq, Eq)]
pub struct Step {
    pub call: ControlCall,
    pub line: String,
}

/// The model of a [`Step`]: the call and the characters of its line.
pub struct StepView {
    pub call: ControlCall,
    pub line: Seq<char>,
}

impl DeepView for Step {
    type V = StepView;

    open spec fn deep_view(&self) -> StepView {
        StepView { call: self.call, line: self.line@ }
    }
}

/// How an automatic-mode flag and a manual value combine into one setting.
#[derive(Clone, Copy, Debug, PartialEq, Eq, Structural)]
pub enum ModeSetting {
    /// The flag was given; `value` is the manual value, or 0 without one.
    Flagged { auto: bool, value: i32 },
    /// Only the value was given, which means manual mode.
    Manual { value: i32 },
}

impl ModeSetting {
    /// The automatic-mode argument of the call: 1 for automatic, 0 for manual.
    pub open spec fn spec_auto(self) -> int {
        match self {
            ModeSetting::Flagged { auto, .. } => if auto {
                1
            } else {
                0
            },
            ModeSetting::Manual { .. } => 0,
        }
    }

    /// The value argument of the call.
    pub open spec fn spec_value(self) -> int {
        match self {
            ModeSetting::Flagged { value, .. } => value as int,
            ModeSetting::Manual { value } => value as int,
        }
    }

    /// The automatic-mode argument of the call: 1 for automatic, 0 for manual.
    pub fn auto(self) -> (auto: i32)
        ensures
            auto == self.spec_auto(),
    {
        match self {
            ModeSetting::Flagged { auto, .. } => if auto {
                1
            } else {
                0
            },
            ModeSetting::Manual { .. } => 0,
        }
    }

    /// The value argument of the call.
    pub fn value(self) -> (value: i32)
        ensures
            value == self.spec_value(),
    {
        match self {
            ModeSetting::Flagged { value, .. } => value,
            ModeSetting::Manual { value } => value,
        }
    }
}

/// The setting that a flag and a value stand for: with the flag, the flag and
/// the value or 0; with the value alone, manual mode at that value; with
/// neither, nothing.
pub open spec fn spec_infer(auto: Option<bool>, value: Option<i32>) -> Option<ModeSetting> {
    match auto {
        Some(a) => Some(
            ModeSetting::Flagged {
                auto: a,
                value: match value {
                    Some(v) => v,
                    None => 0,
                },
            },
        ),
        None => match value {
            Some(v) => Some(ModeSetting::Manual { value: v }),
            None => None,
        },
    }
}

/// Combines an automatic-mode flag and a manual value, either of which may be
/// missing, into the setting to send, if any.
pub fn infer(auto: Option<bool>, value: Option<i32>) -> (setting: Option<ModeSetting>)
    ensures
        setting == spec_infer(auto, value),
        setting is None <==> auto is None && value is None,
        auto == Some(true) ==> setting->0.spec_auto() == 1,
        auto is None && value is Some ==> setting->0.spec_auto() == 0,
        setting is Some ==> setting->0.spec_value() == match value {
            Some(v) => v as int,
            None => 0,
        },
{
    match auto {
        Some(a) => Some(
            ModeSetting::Flagged {
                auto: a,
                value: match value {
                    Some(v) => v,
                    None => 0,
                },
            },
        ),
        None => match value {
            Some(v) => Some(ModeSetting::Manual { value: v }),
            None => None,
        },
    }
}

/// The text of a truth value.
pub open spec fn bool_text(b: bool) -> Seq<char> {
    if b {
        "true"@
    } else {
        "false"@
    }
}

/// The image settings that are one plain number each.
#[derive(Clone, Copy, Debug, PartialEq, Eq, Structural)]
pub enum Level {
    Brightness,
    Contrast,
    Saturation,
    Hue,
    Sharpness,
    BackgroundBlur,
}

impl Level {
    /// The call that sets this level to `value`.
    pub open spec fn spec_call(self, value: i32) -> ControlCall {
        match self {
            Level::Brightness => ControlCall::SetBrightness(value),
            Level::Contrast => ControlCall::SetContrast(value),
            Level::Saturation => ControlCall::SetSaturation(value),
            Level::Hue => ControlCall::SetHue(value),
            Level::Sharpness => ControlCall::SetSharpness(value),
            Level::BackgroundBlur => ControlCall::SetBackgroundBlur(value),
        }
    }

    /// The start of the line that confirms the call.
    pub open spec fn spec_label(self) -> Seq<char> {
        match self {
            Level::Brightness => "Set Brightness: "@,
            Level::Contrast => "Set Contrast: "@,
            Level::Saturation => "Set Saturation: "@,
            Level::Hue => "Set Hue: "@,
            Level::Sharpness => "Set Sharpness: "@,
            Level::BackgroundBlur => "Set Background Blur: "@,
        }
    }

    /// The call that sets this level to `value`.
    pub fn call(self, value: i32) -> (call: ControlCall)
        ensures
            call == self.spec_call(value),
    {
        match self {
            Level::Brightness => ControlCall::SetBrightness(value),
            Level::Contrast => ControlCall::SetContrast(value),
            Level::Saturation => ControlCall::SetSaturation(value),
            Level::Hue => ControlCall::SetHue(value),
            Level::Sharpness => ControlCall::SetSharpness(value),
            Level::BackgroundBlur => ControlCall::SetBackgroundBlur(value),
        }
    }

    /// The start of the line that confirms the call.
    pub fn label(self) -> (label: &'static str)
        ensures
            label@ == self.spec_label(),
    {
        match self {
            Level::Brightness => "Set Brightness: ",
            Level::Contrast => "Set Contrast: ",
            Level::Saturation => "Set Saturation: ",
            Level::Hue => "Set Hue: ",
            Level::Sharpness => "Set Sharpness: ",
            Level::BackgroundBlur => "Set Background Blur: ",
        }
    }
}

/// Setting a level: nothing if no value was given, else the call with the
/// value, confirmed by the label and the value.
pub open spec fn level_steps(level: Level, value: Option<i32>) -> Seq<StepView> {
    match value {
        Some(v) => seq![
            StepView { call: level.spec_call(v), line: level.spec_label() + decimal(v as int) },
        ],
        None => seq![],
    }
}

/// The line that confirms an inferred setting. `label` names what is set and
/// `tag` its value: "Set Focus: Auto=true, Val=30", "Set Focus: Manual, Val=30".
pub open spec fn mode_line(label: Seq<char>, tag: Seq<char>, setting: ModeSetting) -> Seq<char> {
    match setting {
        ModeSetting::Flagged { auto, value } => label + "Auto="@ + bool_text(auto) + ", "@ + tag
            + "="@ + decimal(value as int),
        ModeSetting::Manual { value } => label + "Manual, "@ + tag + "="@ + decimal(value as int),
    }
}

/// Setting white balance from its flag and its temperature.
pub open spec fn white_balance_steps(auto: Option<bool>, temp: Option<i32>) -> Seq<StepView> {
    match spec_infer(auto, temp) {
        Some(s) => seq![
            StepView {
                call: ControlCall::SetWhiteBalance {
                    auto: s.spec_auto() as i32,
                    temp: s.spec_value() as i32,
                },
                line: mode_line("Set White Balance: "@, "Temp"@, s),
            },
        ],
        None => seq![],
    }
}

/// Setting focus from its flag and its position.
pub open spec fn focus_steps(auto: Option<bool>, value: Option<i32>) -> Seq<StepView> {
    match spec_infer(auto, value) {
        Some(s) => seq![
            StepView {
                call: ControlCall::SetFocus {
                    auto: s.spec_auto() as i32,
                    value: s.spec_value() as i32,
                },
                line: mode_line("Set Focus: "@, "Val"@, s),
            },
        ],
        None => seq![],
    }
}

/// Setting the zoom factor, confirmed with the factor's text.
pub open spec fn zoom_steps(zoom: Option<Zoom>) -> Seq<StepView> {
    match zoom {
        Some(z) => seq![
            StepView { call: ControlCall::SetZoom { bits: z.bits }, line: "Set Zoom: "@ + z.text@ },
        ],
        None => seq![],
    }
}

/// Setting anti-flicker, confirmed with its level.
pub open spec fn anti_flicker_steps(setting: Option<AntiFlicker>) -> Seq<StepView> {
    match setting {
        Some(a) => seq![
            StepView {
                call: ControlCall::SetAntiFlicker(a),
                line: "Set Anti-Flicker: "@ + decimal(a.spec_level()),
            },
        ],
        None => seq![],
    }
}

/// The steps of an image-tuning command: one per setting that was given, in
/// this order, white balance last.
pub open spec fn image_steps(p: ImageParams) -> Seq<StepView> {
    level_steps(Level::Brightness, p.brightness) + level_steps(Level::Contrast, p.contrast)
        + level_steps(Level::Saturation, p.saturation) + level_steps(Level::Hue, p.hue)
        + level_steps(Level::Sharpness, p.sharpness) + level_steps(Level::BackgroundBlur, p.blur)
        + white_balance_steps(p.wb_auto, p.wb_temp)
}

/// The steps of a camera-tuning command: zoom, focus, anti-flicker, one per
/// setting that was given.
pub open spec fn camera_steps(p: CameraParams) -> Seq<StepView> {
    zoom_steps(p.zoom) + focus_steps(p.focus_auto, p.focus) + anti_flicker_steps(p.anti_flicker)
}

/// A call that needs no further description, confirmed by a fixed line.
pub open spec fn plain_step(call: ControlCall, line: Seq<char>) -> StepView {
    StepView { call, line }
}

/// The steps of a command. Listing and showing device information set
/// nothing, so they have none.
pub open spec fn command_steps(command: Command) -> Seq<StepView> {
    match command {
        Command::List => seq![],
        Command::Info { .. } => seq![],
        Command::SetMode { mode, .. } => seq![
            plain_step(ControlCall::SetMediaMode(mode), "Set Media Mode."@),
        ],
        Command::SetFraming { framing, .. } => seq![
            plain_step(ControlCall::SetFramingType(framing), "Set Framing Type."@),
        ],
        Command::SetHdr { state, .. } => seq![plain_step(ControlCall::SetHdr(state), "Set HDR."@)],
        Command::SetImageParams { params, .. } => image_steps(params),
        Command::SetCameraParams { params, .. } => camera_steps(params),
        Command::Reset { .. } => seq![
            plain_step(ControlCall::ResetDefault, "Reset to default settings."@),
        ],
    }
}

/// The text of a truth value.
fn bool_str(b: bool) -> (t: &'static str)
    ensures
        t@ == bool_text(b),
{
    if b {
        "true"
    } else {
        "false"
    }
}

/// Appends a step to a plan.
fn push_step(plan: &mut Vec<Step>, call: ControlCall, line: String)
    ensures
        final(plan).deep_view() == old(plan).deep_view() + seq![StepView { call, line: line@ }],
{
    plan.push(Step { call, line });
    assert(final(plan).deep_view() =~= old(plan).deep_view() + seq![
        StepView { call, line: line@ },
    ]);
}

/// Appends a call with a fixed confirmation.
fn push_plain(plan: &mut Vec<Step>, call: ControlCall, line: &str)
    ensures
        final(plan).deep_view() == old(plan).deep_view() + seq![plain_step(call, line@)],
{
    push_step(plan, call, String::from_str(line));
}

/// Appends the step that sets a level, if a value was given.
fn push_level(plan: &mut Vec<Step>, level: Level, value: Option<i32>)
    ensures
        final(plan).deep_view() == old(plan).deep_view() + level_steps(level, value),
{
    if let Some(v) = value {
        let mut line = String::from_str(level.label());
        push_decimal(&mut line, v as i64);
        push_step(plan, level.call(v), line);
    } else {
        assert(old(plan).deep_view() + level_steps(level, value) =~= old(plan).deep_view());
    }
}

/// The line that confirms an inferred setting.
fn mode_text(label: &str, tag: &str, setting: ModeSetting) -> (line: String)
    ensures
        line@ == mode_line(label@, tag@, setting),
{
    let mut line = String::from_str(label);
    match setting {
        ModeSetting::Flagged { auto, value } => {
            line.append("Auto=");
            line.append(bool_str(auto));
            line.append(", ");
            line.append(tag);
            line.append("=");
            push_decimal(&mut line, value as i64);
        },
        ModeSetting::Manual { value } => {
            line.append("Manual, ");
            line.append(tag);
            line.append("=");
            push_decimal(&mut line, value as i64);
        },
    }
    line
}

/// Appends the step that sets white balance, if its flag or its temperature
/// was given.
fn push_white_balance(plan: &mut Vec<Step>, auto: Option<bool>, temp: Option<i32>)
    ensures
        final(plan).deep_view() == old(plan).deep_view() + white_balance_steps(auto, temp),
{
    if let Some(s) = infer(auto, temp) {
        let line = mode_text("Set White Balance: ", "Temp", s);
        push_step(plan, ControlCall::SetWhiteBalance { auto: s.auto(), temp: s.value() }, line);
    } else {
        assert(old(plan).deep_view() + white_balance_steps(auto, temp) =~= old(
            plan,
        ).deep_view());
    }
}

/// Appends the step that sets focus, if its flag or its position was given.
fn push_focus(plan: &mut Vec<Step>, auto: Option<bool>, value: Option<i32>)
    ensures
        final(plan).deep_view() == old(plan).deep_view() + focus_steps(auto, value),
{
    if let Some(s) = infer(auto, value) {
        let line = mode_text("Set Focus: ", "Val", s);
        push_step(plan, ControlCall::SetFocus { auto: s.auto(), value: s.value() }, line);
    } else {
        assert(old(plan).deep_view() + focus_steps(auto, value) =~= old(plan).deep_view());
    }
}

/// Appends the step that sets the zoom factor, if one was given.
fn push_zoom(plan: &mut Vec<Step>, zoom: &Option<Zoom>)
    ensures
        final(plan).deep_view() == old(plan).deep_view() + zoom_steps(*zoom),
{
    if let Some(z) = zoom {
        let mut line = String::from_str("Set Zoom: ");
        line.append(z.text.as_str());
        push_step(plan, ControlCall::SetZoom { bits: z.bits }, line);
    } else {
        assert(old(plan).deep_view() + zoom_steps(*zoom) =~= old(plan).deep_view());
    }
}

/// Appends the step that sets anti-flicker, if a setting was given.
fn push_anti_flicker(plan: &mut Vec<Step>, setting: Option<AntiFlicker>)
    ensures
        final(plan).deep_view() == old(plan).deep_view() + anti_flicker_steps(setting),
{
    if let Some(a) = setting {
        let mut line = String::from_str("Set Anti-Flicker: ");
        push_decimal(&mut line, a.level() as i64);
        push_step(plan, ControlCall::SetAntiFlicker(a), line);
    } else {
        assert(old(plan).deep_view() + anti_flicker_steps(setting) =~= old(plan).deep_view());
    }
}

/// The plan of an image-tuning command.
pub fn image_plan(params: &ImageParams) -> (plan: Vec<Step>)
    ensures
        plan.deep_view() == image_steps(*params),
{
    let mut plan: Vec<Step> = Vec::new();
    assert(plan.deep_view() =~= Seq::<StepView>::empty());
    push_level(&mut plan, Level::Brightness, params.brightness);
    push_level(&mut plan, Level::Contrast, params.contrast);
    push_level(&mut plan, Level::Saturation, params.saturation);
    push_level(&mut plan, Level::Hue, params.hue);
    push_level(&mut plan, Level::Sharpness, params.sharpness);
    push_level(&mut plan, Level::BackgroundBlur, params.blur);
    push_white_balance(&mut plan, params.wb_auto, params.wb_temp);
    assert(plan.deep_view() =~= image_steps(*params));
    plan
}

/// The plan of a camera-tuning command.
pub fn camera_plan(params: &CameraParams) -> (plan: Vec<Step>)
    ensures
        plan.deep_view() == camera_steps(*params),
{
    let mut plan: Vec<Step> = Vec::new();
    assert(plan.deep_view() =~= Seq::<StepView>::empty());
    push_zoom(&mut plan, &params.zoom);
    push_focus(&mut plan, params.focus_auto, params.focus);
    push_anti_flicker(&mut plan, params.anti_flicker);
    assert(plan.deep_view() =~= camera_steps(*params));
    plan
}

/// The plan of a command: the calls it makes on its device, in order, each
/// with its confirmation line.
pub fn plan(command: &Command) -> (plan: Vec<Step>)
    ensures
        plan.deep_view() == command_steps(*command),
{
    let mut steps: Vec<Step> = Vec::new();
    assert(steps.deep_view() =~= Seq::<StepView>::empty());
    match command {
        Command::List => {},
        Command::Info { .. } => {},
        Command::SetMode { mode, .. } => {
            push_plain(&mut steps, ControlCall::SetMediaMode(*mode), "Set Media Mode.");
        },
        Command::SetFraming { framing, .. } => {
            push_plain(&mut steps, ControlCall::SetFramingType(*framing), "Set Framing Type.");
        },
        Command::SetHdr { state, .. } => {
            push_plain(&mut steps, ControlCall::SetHdr(*state), "Set HDR.");
        },
        Command::SetImageParams { params, .. } => {
            steps = image_plan(params);
        },
        Command::SetCameraParams { params, .. } => {
            steps = camera_plan(params);
        },
        Command::Reset { .. } => {
            push_plain(&mut steps, ControlCall::ResetDefault, "Reset to default settings.");
        },
    }
    assert(steps.deep_view() =~= command_steps(*command));
    steps
}

/// The calls of a plan, without their lines.
pub open spec fn calls_of(steps: Seq<StepView>) -> Seq<ControlCall> {
    steps.map_values(|step: StepView| step.call)
}

/// Whether an image-tuning command with the fields `p` makes `call`: the
/// call sets a field that `p` gives, to the value that `p` gives.
pub open spec fn image_sends(p: ImageParams, call: ControlCall) -> bool {
    match call {
        ControlCall::SetBrightness(v) => p.brightness == Some(v),
        ControlCall::SetContrast(v) => p.contrast == Some(v),
        ControlCall::SetSaturation(v) => p.saturation == Some(v),
        ControlCall::SetHue(v) => p.hue == Some(v),
        ControlCall::SetSharpness(v) => p.sharpness == Some(v),
        ControlCall::SetBackgroundBlur(v) => p.blur == Some(v),
        ControlCall::SetWhiteBalance { auto, temp } => match spec_infer(p.wb_auto, p.wb_temp) {
            Some(s) => auto == s.spec_auto() && temp == s.spec_value(),
            None => false,
        },
        _ => false,
    }
}

/// Whether a camera-tuning command with the fields `p` makes `call`: the
/// call sets a field that `p` gives, to the value that `p` gives.
pub open spec fn camera_sends(p: CameraParams, call: ControlCall) -> bool {
    match call {
        ControlCall::SetZoom { bits } => p.zoom is Some && p.zoom->0.bits == bits,
        ControlCall::SetFocus { auto, value } => match spec_infer(p.focus_auto, p.focus) {
            Some(s) => auto == s.spec_auto() && value == s.spec_value(),
            None => false,
        },
        ControlCall::SetAntiFlicker(a) => p.anti_flicker == Some(a),
        _ => false,
    }
}

/// 1 if the value was given, else 0.
pub open spec fn given<T>(value: Option<T>) -> nat {
    if value is Some {
        1
    } else {
        0
    }
}

/// The calls of two plans in a row are the calls of the one, then of the
/// other; a call is among them when it is among either.
proof fn lemma_calls_of_both(a: Seq<StepView>, b: Seq<StepView>, call: ControlCall)
    ensures
        calls_of(a + b) == calls_of(a) + calls_of(b),
        calls_of(a + b).contains(call) <==> calls_of(a).contains(call) || calls_of(b).contains(
            call,
        ),
{
    let both = calls_of(a) + calls_of(b);
    assert(calls_of(a + b) =~= both);
    if calls_of(a).contains(call) {
        let i = choose|i: int| 0 <= i < calls_of(a).len() && calls_of(a)[i] == call;
        assert(both[i] == call);
    }
    if calls_of(b).contains(call) {
        let i = choose|i: int| 0 <= i < calls_of(b).len() && calls_of(b)[i] == call;
        assert(both[a.len() + i] == call);
    }
}

/// A plan of at most one step holds a call exactly when that step makes it.
proof fn lemma_calls_of_one(steps: Seq<StepView>, call: ControlCall)
    requires
        steps.len() <= 1,
    ensures
        calls_of(steps).contains(call) <==> steps.len() == 1 && steps[0].call == call,
{
    if steps.len() == 1 && steps[0].call == call {
        assert(calls_of(steps)[0] == call);
    }
}

/// Setting a level makes a call exactly when a value was given: the call
/// that sets the level to that value.
proof fn lemma_level_calls(level: Level, value: Option<i32>, call: ControlCall)
    ensures
        level_steps(level, value).len() == given(value),
        calls_of(level_steps(level, value)).contains(call) <==> value is Some && call
            == level.spec_call(value->0),
{
    lemma_calls_of_one(level_steps(level, value), call);
}

/// Setting white balance makes a call exactly when the flag or the
/// temperature was given: the call with the inferred arguments.
proof fn lemma_white_balance_calls(auto: Option<bool>, temp: Option<i32>, call: ControlCall)
    ensures
        white_balance_steps(auto, temp).len() == given(spec_infer(auto, temp)),
        calls_of(white_balance_steps(auto, temp)).contains(call) <==> spec_infer(auto, temp)
            is Some && call == (ControlCall::SetWhiteBalance {
            auto: spec_infer(auto, temp)->0.spec_auto() as i32,
            temp: spec_infer(auto, temp)->0.spec_value() as i32,
        }),
{
    lemma_calls_of_one(white_balance_steps(auto, temp), call);
}

/// Setting focus makes a call exactly when the flag or the position was
/// given: the call with the inferred arguments.
proof fn lemma_focus_calls(auto: Option<bool>, value: Option<i32>, call: ControlCall)
    ensures
        focus_steps(auto, value).len() == given(spec_infer(auto, value)),
        calls_of(focus_steps(auto, value)).contains(call) <==> spec_infer(auto, value) is Some
            && call == (ControlCall::SetFocus {
            auto: spec_infer(auto, value)->0.spec_auto() as i32,
            value: spec_infer(auto, value)->0.spec_value() as i32,
        }),
{
    lemma_calls_of_one(focus_steps(auto, value), call);
}

/// Setting the zoom factor makes a call exactly when a factor was given.
proof fn lemma_zoom_calls(zoom: Option<Zoom>, call: ControlCall)
    ensures
        zoom_steps(zoom).len() == given(zoom),
        calls_of(zoom_steps(zoom)).contains(call) <==> zoom is Some && call
            == (ControlCall::SetZoom { bits: zoom->0.bits }),
{
    lemma_calls_of_one(zoom_steps(zoom), call);
}

/// Setting anti-flicker makes a call exactly when a setting was given.
proof fn lemma_anti_flicker_calls(setting: Option<AntiFlicker>, call: ControlCall)
    ensures
        anti_flicker_steps(setting).len() == given(setting),
        calls_of(anti_flicker_steps(setting)).contains(call) <==> setting is Some && call
            == ControlCall::SetAntiFlicker(setting->0),
{
    lemma_calls_of_one(anti_flicker_steps(setting), call);
}

/// Whether an image-tuning command with the fields `p` makes `call`.
proof fn lemma_image_call(p: ImageParams, call: ControlCall)
    ensures
        calls_of(image_steps(p)).contains(call) <==> image_sends(p, call),
{
    let s1 = level_steps(Level::Brightness, p.brightness);
    let s2 = level_steps(Level::Contrast, p.contrast);
    let s3 = level_steps(Level::Saturation, p.saturation);
    let s4 = level_steps(Level::Hue, p.hue);
    let s5 = level_steps(Level::Sharpness, p.sharpness);
    let s6 = level_steps(Level::BackgroundBlur, p.blur);
    let s7 = white_balance_steps(p.wb_auto, p.wb_temp);
    let b1 = calls_of(s1).contains(call);
    let b2 = calls_of(s2).contains(call);
    let b3 = calls_of(s3).contains(call);
    let b4 = calls_of(s4).contains(call);
    let b5 = calls_of(s5).contains(call);
    let b6 = calls_of(s6).contains(call);
    let b7 = calls_of(s7).contains(call);
    assert(calls_of(image_steps(p)).contains(call) <==> b1 || b2 || b3 || b4 || b5 || b6 || b7)
        by {
        lemma_calls_of_both(s1, s2, call);
        lemma_calls_of_both(s1 + s2, s3, call);
        lemma_calls_of_both(s1 + s2 + s3, s4, call);
        lemma_calls_of_both(s1 + s2 + s3 + s4, s5, call);
        lemma_calls_of_both(s1 + s2 + s3 + s4 + s5, s6, call);
        lemma_calls_of_both(s1 + s2 + s3 + s4 + s5 + s6, s7, call);
    }
    lemma_level_calls(Level::Brightness, p.brightness, call);
    lemma_level_calls(Level::Contrast, p.contrast, call);
    lemma_level_calls(Level::Saturation, p.saturation, call);
    lemma_level_calls(Level::Hue, p.hue, call);
    lemma_level_calls(Level::Sharpness, p.sharpness, call);
    lemma_level_calls(Level::BackgroundBlur, p.blur, call);
    lemma_white_balance_calls(p.wb_auto, p.wb_temp, call);
}

/// Whether a camera-tuning command with the fields `p` makes `call`.
proof fn lemma_camera_call(p: CameraParams, call: ControlCall)
    ensures
        calls_of(camera_steps(p)).contains(call) <==> camera_sends(p, call),
{
    let s1 = zoom_steps(p.zoom);
    let s2 = focus_steps(p.focus_auto, p.focus);
    let s3 = anti_flicker_steps(p.anti_flicker);
    let b1 = calls_of(s1).contains(call);
    let b2 = calls_of(s2).contains(call);
    let b3 = calls_of(s3).contains(call);
    assert(calls_of(camera_steps(p)).contains(call) <==> b1 || b2 || b3) by {
        lemma_calls_of_both(s1, s2, call);
        lemma_calls_of_both(s1 + s2, s3, call);
    }
    lemma_zoom_calls(p.zoom, call);
    lemma_focus_calls(p.focus_auto, p.focus, call);
    lemma_anti_flicker_calls(p.anti_flicker, call);
}

/// An image-tuning command makes exactly the calls for the settings that were
/// given, each once and with the value given; a setting that was left out
/// causes no call. White balance counts as given when its flag or its
/// temperature is.
pub proof fn lemma_image_sends_what_is_given(p: ImageParams)
    ensures
        forall|call: ControlCall| #[trigger]
            calls_of(image_steps(p)).contains(call) <==> image_sends(p, call),
        image_steps(p).len() == given(p.brightness) + given(p.contrast) + given(p.saturation)
            + given(p.hue) + given(p.sharpness) + given(p.blur) + given(
            spec_infer(p.wb_auto, p.wb_temp),
        ),
{
    assert forall|call: ControlCall| #[trigger]
        calls_of(image_steps(p)).contains(call) <==> image_sends(p, call) by {
        lemma_image_call(p, call);
    }
}

/// A camera-tuning command makes exactly the calls for the settings that were
/// given, each once and with the value given; a setting that was left out
/// causes no call. Focus counts as given when its flag or its position is.
pub proof fn lemma_camera_sends_what_is_given(p: CameraParams)
    ensures
        forall|call: ControlCall| #[trigger]
            calls_of(camera_steps(p)).contains(call) <==> camera_sends(p, call),
        camera_steps(p).len() == given(p.zoom) + given(spec_infer(p.focus_auto, p.focus)) + given(
            p.anti_flicker,
        ),
{
    assert forall|call: ControlCall| #[trigger]
        calls_of(camera_steps(p)).contains(call) <==> camera_sends(p, call) by {
        lemma_camera_call(p, call);
    }
}

/// A command that sets no field makes no call.
pub proof fn lemma_nothing_given_sends_nothing(image: ImageParams, camera: CameraParams)
    requires
        image.brightness is None,
        image.contrast is None,
        image.saturation is None,
        image.hue is None,
        image.sharpness is None,
        image.blur is None,
        image.wb_auto is None,
        image.wb_temp is None,
        camera.zoom is None,
        camera.focus_auto is None,
        camera.focus is None,
        camera.anti_flicker is None,
    ensures
        image_steps(image) == Seq::<StepView>::empty(),
        camera_steps(camera) == Seq::<StepView>::empty(),
{
    assert(image_steps(image) =~= Seq::<StepView>::empty());
    assert(camera_steps(camera) =~= Seq::<StepView>::empty());
}

/// White balance goes out last in an image-tuning plan. With the flag given
/// it is sent as 1 for automatic or 0 for manual, together with the
/// temperature, or 0 where none was given. A temperature without the flag
/// is sent as manual, 0, with that temperature.
pub proof fn lemma_white_balance_inference(p: ImageParams)
    requires
        p.wb_auto is Some || p.wb_temp is Some,
    ensures
        image_steps(p).len() > 0,
        p.wb_auto is Some ==> image_steps(p).last().call == (ControlCall::SetWhiteBalance {
            auto: if p.wb_auto->0 {
                1
            } else {
                0
            },
            temp: match p.wb_temp {
                Some(t) => t,
                None => 0,
            },
        }),
        p.wb_auto is None ==> image_steps(p).last().call == (ControlCall::SetWhiteBalance {
            auto: 0,
            temp: p.wb_temp->0,
        }),
{
}

/// Focus in a camera-tuning plan. With the flag given it is sent as 1 for
/// automatic or 0 for manual, together with the position, or 0 where none
/// was given. A position without the flag is sent as manual, 0, with that
/// position. The call follows the zoom call, if there is one.
pub proof fn lemma_focus_inference(p: CameraParams)
    requires
        p.focus_auto is Some || p.focus is Some,
    ensures
        camera_steps(p).len() > given(p.zoom),
        p.focus_auto is Some ==> camera_steps(p)[given(p.zoom) as int].call
            == (ControlCall::SetFocus {
            auto: if p.focus_auto->0 {
                1
            } else {
                0
            },
            value: match p.focus {
                Some(v) => v,
                None => 0,
            },
        }),
        p.focus_auto is None ==> camera_steps(p)[given(p.zoom) as int].call
            == (ControlCall::SetFocus { auto: 0, value: p.focus->0 }),
{
}

} // verus!
