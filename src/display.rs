//! What the screen shows for each piece of state: icons, colours, and which
//! devices the table lists.

use vstd::prelude::*;
use crate::btui::BannerType;
use crate::device::{BTDevice, unnamed};
use crate::text::text_eq;

verus! {

/// The colours of the manager's palette.
#[derive(Clone, Copy, PartialEq, Eq, Structural, Debug)]
pub enum Shade {
    Blue,
    Red,
    Orange,
    Yellow,
    Green,
    Gray,
    DarkGray,
}

/// The red, green and blue components of each colour.
pub open spec fn shade_rgb(s: Shade) -> (u8, u8, u8) {
    match s {
        Shade::Blue => (0, 127, 245),
        Shade::Red => (245, 20, 30),
        Shade::Orange => (245, 145, 30),
        Shade::Yellow => (245, 245, 30),
        Shade::Green => (0, 245, 10),
        Shade::Gray => (150, 150, 150),
        Shade::DarkGray => (80, 80, 80),
    }
}

impl Shade {
    /// The colour's red, green and blue components.
    pub fn rgb(self) -> (r: (u8, u8, u8))
        ensures
            r == shade_rgb(self),
    {
        match self {
            Shade::Blue => (0, 127, 245),
            Shade::Red => (245, 20, 30),
            Shade::Orange => (245, 145, 30),
            Shade::Yellow => (245, 245, 30),
            Shade::Green => (0, 245, 10),
            Shade::Gray => (150, 150, 150),
            Shade::DarkGray => (80, 80, 80),
        }
    }
}

/// The palette by name.
pub struct BMColors;

impl BMColors {
    pub const BLUE: Shade = Shade::Blue;
    pub const RED: Shade = Shade::Red;
    pub const ORANGE: Shade = Shade::Orange;
    pub const YELLOW: Shade = Shade::Yellow;
    pub const GREEN: Shade = Shade::Green;
    pub const GRAY: Shade = Shade::Gray;
    pub const DARK_GRAY: Shade = Shade::DarkGray;
}

/// The icon for a device type, as the Bluetooth stack names types.
pub open spec fn icon_for(t: Seq<char>) -> Seq<char> {
    if t == "audio-headphones"@ || t == "headphones"@ {
        "\u{f025} "@
    } else if t == "audio-headset"@ || t == "headset"@ {
        "\u{ee59} "@
    } else if t == "speaker"@ || t == "audio-speakers"@ || t == "car-audio"@ || t == "audio"@ {
        "\u{f04c3} "@
    } else if t == "input-keyboard"@ || t == "keyboard"@ {
        "\u{f11c} "@
    } else if t == "audio-card"@ {
        "\u{f101e} "@
    } else if t == "computer"@ || t == "laptop"@ || t == "tablet"@ {
        "\u{f109} "@
    } else if t == "phone"@ {
        "\u{f10b} "@
    } else if t == "input-mouse"@ || t == "mouse"@ {
        "\u{f037d} "@
    } else if t == "input-gaming"@ || t == "gamepad"@ || t == "controller"@ {
        "\u{f0297} "@
    } else if t == "printer"@ {
        "\u{f042a} "@
    } else if t == "smart-light"@ || t == "lightbulb"@ {
        "\u{f0335} "@
    } else {
        " "@
    }
}

/// The icon for a device type; an unknown type gets a blank.
pub fn get_icon_for_bt_type(bt_type: &str) -> (r: &'static str)
    ensures
        r@ == icon_for(bt_type@),
{
    if text_eq(bt_type, "audio-headphones") || text_eq(bt_type, "headphones") {
        "\u{f025} "
    } else if text_eq(bt_type, "audio-headset") || text_eq(bt_type, "headset") {
        "\u{ee59} "
    } else if text_eq(bt_type, "speaker") || text_eq(bt_type, "audio-speakers") || text_eq(
        bt_type,
        "car-audio",
    ) || text_eq(bt_type, "audio") {
        "\u{f04c3} "
    } else if text_eq(bt_type, "input-keyboard") || text_eq(bt_type, "keyboard") {
        "\u{f11c} "
    } else if text_eq(bt_type, "audio-card") {
        "\u{f101e} "
    } else if text_eq(bt_type, "computer") || text_eq(bt_type, "laptop") || text_eq(
        bt_type,
        "tablet",
    ) {
        "\u{f109} "
    } else if text_eq(bt_type, "phone") {
        "\u{f10b} "
    } else if text_eq(bt_type, "input-mouse") || text_eq(bt_type, "mouse") {
        "\u{f037d} "
    } else if text_eq(bt_type, "input-gaming") || text_eq(bt_type, "gamepad") || text_eq(
        bt_type,
        "controller",
    ) {
        "\u{f0297} "
    } else if text_eq(bt_type, "printer") {
        "\u{f042a} "
    } else if text_eq(bt_type, "smart-light") || text_eq(bt_type, "lightbulb") {
        "\u{f0335} "
    } else {
        " "
    }
}

/// A colour that is either the terminal's white or one of the palette.
#[derive(Clone, Copy, PartialEq, Eq, Structural, Debug)]
pub enum Tint {
    White,
    Palette(Shade),
}

/// How a banner of one kind looks: its leading icon and its colours.
#[derive(Clone, Copy, Debug)]
pub struct BannerLook {
    pub icon: &'static str,
    pub fg: Tint,
    pub bg: Option<Tint>,
}

/// A success banner is green text; a failure banner is white on red; a status
/// banner is white on dark gray.
pub fn banner_look(t: BannerType) -> (r: BannerLook)
    ensures
        r.icon@ == (match t {
            BannerType::Success => " \u{f00b1} "@,
            BannerType::Failure => " \u{e654} "@,
            BannerType::Status => " \u{ea74} "@,
        }),
        r.fg == (match t {
            BannerType::Success => Tint::Palette(Shade::Green),
            _ => Tint::White,
        }),
        r.bg == (match t {
            BannerType::Success => None,
            BannerType::Failure => Some(Tint::Palette(Shade::Red)),
            BannerType::Status => Some(Tint::Palette(Shade::DarkGray)),
        }),
{
    match t {
        BannerType::Success => BannerLook {
            icon: " \u{f00b1} ",
            fg: Tint::Palette(BMColors::GREEN),
            bg: None,
        },
        BannerType::Failure => BannerLook {
            icon: " \u{e654} ",
            fg: Tint::White,
            bg: Some(Tint::Palette(BMColors::RED)),
        },
        BannerType::Status => BannerLook {
            icon: " \u{ea74} ",
            fg: Tint::White,
            bg: Some(Tint::Palette(BMColors::DARK_GRAY)),
        },
    }
}

/// A short coloured symbol.
#[derive(Clone, Copy, Debug)]
pub struct Glyph {
    pub text: &'static str,
    pub shade: Shade,
}

/// The signal strength symbol: strong from -50 up to -1 dBm, fair from -90
/// up to -52 dBm, weak otherwise; nothing when the strength is unknown.
pub fn format_signal_span(rssi: Option<i16>) -> (r: Option<Glyph>)
    ensures
        match rssi {
            None => r is None,
            Some(b) => r matches Some(g) && if -50 <= b < 0 {
                g.text@ == "\u{f08be} "@ && g.shade == Shade::Green
            } else if -90 <= b < -51 {
                g.text@ == "\u{f08bd} "@ && g.shade == Shade::Yellow
            } else {
                g.text@ == "\u{f08bc} "@ && g.shade == Shade::Red
            },
        },
{
    match rssi {
        None => None,
        Some(b) => if -50 <= b && b < 0 {
            Some(Glyph { text: "\u{f08be} ", shade: BMColors::GREEN })
        } else if -90 <= b && b < -51 {
            Some(Glyph { text: "\u{f08bd} ", shade: BMColors::YELLOW })
        } else {
            Some(Glyph { text: "\u{f08bc} ", shade: BMColors::RED })
        },
    }
}

/// The battery symbol by charge: red below 10, orange below 40, yellow below
/// 60, green from 70 (a fuller symbol from 90); nothing when unknown. Charges
/// from 60 to 69 have no symbol and are not accepted.
pub fn format_battery_span(battery: Option<u8>) -> (r: Option<Glyph>)
    requires
        battery matches Some(b) ==> !(60 <= b < 70),
    ensures
        match battery {
            None => r is None,
            Some(b) => r matches Some(g) && if b < 10 {
                g.text@ == "\u{f244} "@ && g.shade == Shade::Red
            } else if b < 40 {
                g.text@ == "\u{f243} "@ && g.shade == Shade::Orange
            } else if b < 60 {
                g.text@ == "\u{f242} "@ && g.shade == Shade::Yellow
            } else if b < 90 {
                g.text@ == "\u{f241} "@ && g.shade == Shade::Green
            } else {
                g.text@ == "\u{f240} "@ && g.shade == Shade::Green
            },
        },
{
    match battery {
        None => None,
        Some(b) => if b < 10 {
            Some(Glyph { text: "\u{f244} ", shade: BMColors::RED })
        } else if b < 40 {
            Some(Glyph { text: "\u{f243} ", shade: BMColors::ORANGE })
        } else if b < 60 {
            Some(Glyph { text: "\u{f242} ", shade: BMColors::YELLOW })
        } else if b < 90 {
            Some(Glyph { text: "\u{f241} ", shade: BMColors::GREEN })
        } else {
            Some(Glyph { text: "\u{f240} ", shade: BMColors::GREEN })
        },
    }
}

/// The mark in a device's first column: connected, paired, or blank.
pub fn row_marker(d: &BTDevice) -> (r: &'static str)
    ensures
        r@ == (if d.connected {
            "\u{f00b1}"@
        } else if d.paired {
            "\u{f00af}"@
        } else {
            " "@
        }),
{
    if d.connected {
        "\u{f00b1}"
    } else if d.paired {
        "\u{f00af}"
    } else {
        " "
    }
}

/// Whether the table lists a device: named devices always, unnamed ones only
/// when asked to.
pub open spec fn listed(d: BTDevice, show_unnamed: bool) -> bool {
    d.name@ != unnamed() || show_unnamed
}

/// The devices the table lists, in order.
pub fn listed_devices(devices: &Vec<BTDevice>, show_unnamed: bool) -> (r: Vec<BTDevice>)
    ensures
        r@ == devices@.filter(|d: BTDevice| listed(d, show_unnamed)),
{
    let mut r: Vec<BTDevice> = Vec::new();
    let mut i: usize = 0;
    while i < devices.len()
        invariant
            i <= devices@.len(),
            r@ == devices@.take(i as int).filter(|d: BTDevice| listed(d, show_unnamed)),
        decreases devices@.len() - i,
    {
        proof {
            reveal(Seq::filter);
            let t = devices@.take(i as int + 1);
            assert(t.drop_last() =~= devices@.take(i as int));
            if i == 0 {
                assert(devices@.take(0) =~= Seq::<BTDevice>::empty());
            }
        }
        if devices[i].is_named() || show_unnamed {
            r.push(devices[i].clone());
        }
        i = i + 1;
    }
    assert(devices@.take(devices@.len() as int) =~= devices@);
    r
}

} // verus!
