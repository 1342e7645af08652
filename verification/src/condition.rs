//! What a weather code is called, and which icon stands for it.

use vstd::prelude::*;

verus! {

/// The label of a weather code; `Unknown` for a code that has none.
pub open spec fn condition_text(code: int) -> Seq<char> {
    if code == 0 {
        "Clear Sky"@
    } else if code == 1 || code == 2 {
        "Mostly Clear"@
    } else if code == 3 {
        "Overcast"@
    } else if code == 45 || code == 48 {
        "Foggy"@
    } else if code == 51 || code == 53 || code == 55 {
        "Light Rain"@
    } else if code == 61 || code == 63 {
        "Moderate Rain"@
    } else if code == 65 {
        "Heavy Rain"@
    } else if code == 71 || code == 73 {
        "Light Snow"@
    } else if code == 75 {
        "Heavy Snow"@
    } else if code == 77 {
        "Snow Grains"@
    } else if code == 80 || code == 81 {
        "Rain Showers"@
    } else if code == 82 {
        "Heavy Showers"@
    } else if code == 85 || code == 86 {
        "Snow Showers"@
    } else if code == 95 || code == 96 || code == 99 {
        "Thunderstorm"@
    } else {
        "Unknown"@
    }
}

/// The label that the display shows for a weather code.
pub fn weather_code_to_condition(code: i32) -> (label: String)
    ensures
        label@ == condition_text(code as int),
{
    let label = match code {
        0 => "Clear Sky",
        1 | 2 => "Mostly Clear",
        3 => "Overcast",
        45 | 48 => "Foggy",
        51 | 53 | 55 => "Light Rain",
        61 | 63 => "Moderate Rain",
        65 => "Heavy Rain",
        71 | 73 => "Light Snow",
        75 => "Heavy Snow",
        77 => "Snow Grains",
        80 | 81 => "Rain Showers",
        82 => "Heavy Showers",
        85 | 86 => "Snow Showers",
        95 | 96 | 99 => "Thunderstorm",
        _ => "Unknown",
    };
    String::from_str(label)
}

/// The icons that the display has.
#[derive(Clone, Copy, Debug, PartialEq, Eq, Structural)]
pub enum IconKey {
    Sun,
    Rain,
    Snow,
    Thunder,
}

impl IconKey {
    /// The name of the icon's image file.
    pub open spec fn file_name_text(self) -> Seq<char> {
        match self {
            IconKey::Sun => "noun-sun-1367708.png"@,
            IconKey::Rain => "noun-rain-1367711.png"@,
            IconKey::Snow => "noun-snow-1367717.png"@,
            IconKey::Thunder => "noun-thunder-1367716.png"@,
        }
    }

    /// The name of the icon's image file.
    pub fn file_name(self) -> (name: &'static str)
        ensures
            name@ == self.file_name_text(),
    {
        match self {
            IconKey::Sun => "noun-sun-1367708.png",
            IconKey::Rain => "noun-rain-1367711.png",
            IconKey::Snow => "noun-snow-1367717.png",
            IconKey::Thunder => "noun-thunder-1367716.png",
        }
    }
}

/// The icon of a weather code: rain for drizzle, rain and rain showers,
/// snow for every kind of snow, thunder for thunderstorms, and the sun for
/// everything else, a code without a label included.
pub open spec fn icon_of(code: int) -> IconKey {
    if code == 51 || code == 53 || code == 55 || code == 61 || code == 63 || code == 65 || code
        == 80 || code == 81 || code == 82 {
        IconKey::Rain
    } else if code == 71 || code == 73 || code == 75 || code == 77 || code == 85 || code == 86 {
        IconKey::Snow
    } else if code == 95 || code == 96 || code == 99 {
        IconKey::Thunder
    } else {
        IconKey::Sun
    }
}

/// The icon that the display shows for a weather code.
pub fn icon_selector(code: i32) -> (icon: IconKey)
    ensures
        icon == icon_of(code as int),
{
    match code {
        51 | 53 | 55 | 61 | 63 | 65 | 80 | 81 | 82 => IconKey::Rain,
        71 | 73 | 75 | 77 | 85 | 86 => IconKey::Snow,
        95 | 96 | 99 => IconKey::Thunder,
        _ => IconKey::Sun,
    }
}

/// Where an icon's image lies: its file name in the directory of the icons,
/// with `/` between the two.
pub open spec fn icon_path_text(icon: IconKey) -> Seq<char> {
    "assets/icons"@ + "/"@ + icon.file_name_text()
}

/// The path of the image that the display shows for a weather code,
/// relative to the directory that the dashboard runs in.
pub fn weather_code_to_icon_path(code: i32) -> (path: String)
    ensures
        path@ == icon_path_text(icon_of(code as int)),
{
    let mut path = String::from_str("assets/icons");
    path.append("/");
    path.append(icon_selector(code).file_name());
    path
}

} // verus!
