//! The commands of the utility and the values they carry.

use vstd::prelude::*;
use crate::options::{AntiFlicker, FramingType, MediaMode, Switch};
use crate::resolver::{spec_lookup, Lookup};

verus! {

/// Image tuning. A field that is `None` was not given and is not sent.
#[derive(Clone, Copy, Debug, PartialEq, Eq, Structural)]
pub struct ImageParams {
    pub brightness: Option<i32>,
    pub contrast: Option<i32>,
    pub saturation: Option<i32>,
    pub hue: Option<i32>,
    pub sharpness: Option<i32>,
    /// Whether white balance is automatic.
    pub wb_auto: Option<bool>,
    /// White-balance colour temperature.
    pub wb_temp: Option<i32>,
    /// Background blur level.
    pub blur: Option<i32>,
}

/// A digital zoom factor. The factor is a single-precision number; it is held
/// here by its bit pattern, next to the text that shows it.
#[derive(Clone, Debug, PartialEq, Eq)]
pub struct Zoom {
    /// The factor's IEEE 754 single-precision bits.
    pub bits: u32,
    /// The factor as it is printed.
    pub text: String,
}

/// Camera tuning. A field that is `None` was not given and is not sent.
#[derive(Clone, Debug, PartialEq, Eq)]
pub struct CameraParams {
    pub zoom: Option<Zoom>,
    /// Whether focus is automatic.
    pub focus_auto: Option<bool>,
    /// Manual focus position.
    pub focus: Option<i32>,
    pub anti_flicker: Option<AntiFlicker>,
}

/// One invocation of the utility. Every variant but `List` may name its
/// target device by serial number; without one the first device is taken.
#[allow(inconsistent_fields)]
#[derive(Clone, Debug, PartialEq, Eq)]
pub enum Command {
    List,
    Info { sn: Option<String> },
    SetMode { sn: Option<String>, mode: MediaMode },
    SetFraming { sn: Option<String>, framing: FramingType },
    SetHdr { sn: Option<String>, state: Switch },
    SetImageParams { sn: Option<String>, params: ImageParams },
    SetCameraParams { sn: Option<String>, params: CameraParams },
    Reset { sn: Option<String> },
}

impl Command {
    /// The serial number the command names, if it names one.
    pub open spec fn serial(&self) -> Option<Seq<char>> {
        match self {
            Command::List => None,
            Command::Info { sn }
            | Command::SetMode { sn, .. }
            | Command::SetFraming { sn, .. }
            | Command::SetHdr { sn, .. }
            | Command::SetImageParams { sn, .. }
            | Command::SetCameraParams { sn, .. }
            | Command::Reset { sn } => sn.deep_view(),
        }
    }

    /// How the command finds its device: by the serial number it names, else
    /// the first device. `List` addresses no single device and has no lookup.
    pub fn lookup(&self) -> (lookup: Option<Lookup>)
        ensures
            lookup is None <==> *self is List,
            lookup is Some ==> lookup->0.deep_view() == spec_lookup(self.serial()),
    {
        match self {
            Command::List => None,
            Command::Info { sn }
            | Command::SetMode { sn, .. }
            | Command::SetFraming { sn, .. }
            | Command::SetHdr { sn, .. }
            | Command::SetImageParams { sn, .. }
            | Command::SetCameraParams { sn, .. }
            | Command::Reset { sn } => Some(Lookup::for_serial(sn)),
        }
    }
}

} // verus!
