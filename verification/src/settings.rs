//! The application settings and the configuration saved between runs.

use vstd::prelude::*;

use crate::notifications::Notifications;
use crate::traffic::MyDevice;

verus! {

/// Language of the interface.
#[derive(Clone, Copy, PartialEq, Eq, Structural, Debug, Hash)]
pub enum Language {
    EN,
    IT,
    FR,
    ES,
    PL,
    DE,
    UK,
    ZH,
    RO,
    KO,
    TR,
    RU,
    PT,
    EL,
    FA,
    SV,
    FI,
    JA,
    UZ,
}

/// Further color schemes.
///
/// A scheme read from a TOML file is `CustomToml`; its colors stay with the
/// host that read the file.
#[derive(Clone, Copy, PartialEq, Eq, Structural, Debug, Hash)]
pub enum ExtraStyles {
    DraculaDark,
    DraculaLight,
    GruvboxDark,
    GruvboxLight,
    NordDark,
    NordLight,
    SolarizedDark,
    SolarizedLight,
    CustomToml,
}

/// Color scheme of the interface.
#[derive(Clone, Copy, PartialEq, Eq, Structural, Debug, Hash)]
pub enum StyleType {
    Night,
    Day,
    DeepSea,
    MonAmour,
    Custom(ExtraStyles),
}

/// How strongly the interface shades its backgrounds.
#[derive(Clone, Copy, PartialEq, Eq, Structural, Debug, Hash)]
pub enum GradientType {
    Mild,
    Wild,
    NoGradient,
}

/// The application settings.
///
/// The scale factor of the interface is a floating-point value and is kept by
/// the host beside these settings.
pub struct ConfigSettings {
    pub color_gradient: GradientType,
    pub language: Language,
    /// Path of the country database; empty for the bundled one.
    pub mmdb_country: String,
    /// Path of the ASN database; empty for the bundled one.
    pub mmdb_asn: String,
    /// Path of the last custom style file that was chosen.
    pub style_path: String,
    pub notifications: Notifications,
    pub style: StyleType,
}

impl ConfigSettings {
    /// The default settings.
    pub open spec fn is_initial(&self) -> bool {
        &&& self.color_gradient == GradientType::Mild
        &&& self.language == Language::EN
        &&& self.mmdb_country@.len() == 0
        &&& self.mmdb_asn@.len() == 0
        &&& self.style_path@.len() == 0
        &&& self.notifications == Notifications::initial()
        &&& self.style == StyleType::Night
    }

    pub fn new() -> (r: ConfigSettings)
        ensures
            r.is_initial(),
    {
        ConfigSettings {
            color_gradient: GradientType::Mild,
            language: Language::EN,
            mmdb_country: String::new(),
            mmdb_asn: String::new(),
            style_path: String::new(),
            notifications: Notifications::default(),
            style: StyleType::Night,
        }
    }

    /// A copy of these settings.
    pub fn duplicate(&self) -> (r: ConfigSettings)
        ensures
            r == *self,
    {
        ConfigSettings {
            color_gradient: self.color_gradient,
            language: self.language,
            mmdb_country: self.mmdb_country.clone(),
            mmdb_asn: self.mmdb_asn.clone(),
            style_path: self.style_path.clone(),
            notifications: self.notifications,
            style: self.style,
        }
    }
}

/// The adapter to capture from, saved by name.
pub struct ConfigDevice {
    pub device_name: String,
}

/// Whether `i` is the first index of a device named `name`.
pub open spec fn is_first_named(devices: Seq<MyDevice>, name: Seq<char>, i: int) -> bool {
    &&& 0 <= i < devices.len()
    &&& devices[i].name@ == name
    &&& forall|j: int| 0 <= j < i ==> #[trigger] devices[j].name@ != name
}

impl ConfigDevice {
    /// The adapter this configuration names among `devices`, the adapters the
    /// system lists; `standard`, the system's default adapter, when none has
    /// that name.
    pub fn to_my_device(&self, devices: Vec<MyDevice>, standard: MyDevice) -> (r: MyDevice)
        ensures
            (exists|i: int| is_first_named(devices@, self.device_name@, i) && r == devices@[i])
                || ((forall|i: int|
                0 <= i < devices@.len() ==> #[trigger] devices@[i].name@ != self.device_name@)
                && r == standard),
    {
        let mut remaining = devices;
        let ghost listed = remaining@;
        let mut i: usize = 0;
        while i < remaining.len()
            invariant
                remaining@ == listed,
                listed == devices@,
                i <= remaining@.len(),
                forall|j: int| 0 <= j < i ==> #[trigger] remaining@[j].name@ != self.device_name@,
            decreases remaining@.len() - i,
        {
            if remaining[i].name == self.device_name {
                let found = remaining.remove(i);
                assert(is_first_named(listed, self.device_name@, i as int));
                assert(exists|k: int|
                    is_first_named(listed, self.device_name@, k) && found == listed[k]);
                return found;
            }
            i = i + 1;
        }
        standard
    }
}

/// Position and size of the window.
#[derive(Clone, Copy, PartialEq, Eq, Debug, Hash)]
pub struct ConfigWindow {
    pub position: (i32, i32),
    pub size: (u32, u32),
}

impl Default for ConfigWindow {
    fn default() -> (r: ConfigWindow)
        ensures
            r.position == (0i32, 0i32),
            r.size == (1190u32, 670u32),
    {
        ConfigWindow { position: (0, 0), size: (1190, 670) }
    }
}

/// The configuration saved between runs.
pub struct Configs {
    pub settings: ConfigSettings,
    pub device: ConfigDevice,
    pub window: ConfigWindow,
}

impl Configs {
    /// The configuration of a first run.
    pub open spec fn is_initial(&self) -> bool {
        &&& self.settings.is_initial()
        &&& self.device.device_name@.len() == 0
        &&& self.window.position == (0i32, 0i32)
        &&& self.window.size == (1190u32, 670u32)
    }

    pub fn new() -> (r: Configs)
        ensures
            r.is_initial(),
    {
        Configs {
            settings: ConfigSettings::new(),
            device: ConfigDevice { device_name: String::new() },
            window: ConfigWindow::default(),
        }
    }
}

impl Default for Configs {
    fn default() -> (r: Configs)
        ensures
            r.is_initial(),
    {
        Configs::new()
    }
}

} // verus!
