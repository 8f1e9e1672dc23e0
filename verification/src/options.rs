//! The enumerated settings: every value that configuration stores as one of
//! a fixed set of names.

use crate::text::{join3, lowercased, same, to_lowercase};
use vstd::prelude::*;

verus! {

/// The operating system the program runs on.
#[derive(Clone, Copy, Debug, PartialEq, Eq, Structural)]
pub enum OperatingSystem {
    Windows,
    MacOs,
    Linux,
    Other,
}

/// The target the program was built for. It is fixed for the lifetime of
/// the process and decides the platform-dependent defaults.
#[derive(Clone, Copy, Debug, PartialEq, Eq, Structural)]
pub struct Platform {
    pub os: OperatingSystem,
    /// Whether the processor is a 64-bit ARM one.
    pub arm64: bool,
}

impl Platform {
    /// Whether the on-device language model of Apple-silicon Macs can exist
    /// on this platform at all.
    pub open spec fn offers_apple_intelligence(self) -> bool {
        self.os == OperatingSystem::MacOs && self.arm64
    }

    /// Whether the on-device language model of Apple-silicon Macs can exist
    /// on this platform at all.
    pub fn has_apple_intelligence(&self) -> (r: bool)
        ensures
            r == self.offers_apple_intelligence(),
    {
        self.os == OperatingSystem::MacOs && self.arm64
    }
}

/// How much the log file records.
#[derive(Clone, Copy, Debug, PartialEq, Eq, Structural)]
pub enum LogLevel {
    Trace,
    Debug,
    Info,
    Warn,
    Error,
}

/// Where the recording overlay is shown.
#[derive(Clone, Copy, Debug, PartialEq, Eq, Structural)]
pub enum OverlayPosition {
    /// No overlay is shown; stored under the name `none`.
    Hidden,
    Top,
    Bottom,
}

/// How long a loaded speech model may stay idle before it is unloaded.
#[derive(Clone, Copy, Debug, PartialEq, Eq, Structural)]
pub enum ModelUnloadTimeout {
    Never,
    Immediately,
    Min2,
    Min5,
    Min10,
    Min15,
    Hour1,
    /// Five seconds; offered in debug mode only.
    Sec5,
}

/// How the final text reaches the focused application.
#[derive(Clone, Copy, Debug, PartialEq, Eq, Structural)]
pub enum PasteMethod {
    CtrlV,
    Direct,
    /// The text is left on the clipboard and nothing is typed; stored under
    /// the name `none`.
    NoPaste,
    ShiftInsert,
    CtrlShiftV,
}

/// Whether the clipboard keeps the injected text after a paste.
#[derive(Clone, Copy, Debug, PartialEq, Eq, Structural)]
pub enum ClipboardHandling {
    DontModify,
    CopyToClipboard,
}

/// How long recordings are kept.
#[derive(Clone, Copy, Debug, PartialEq, Eq, Structural)]
pub enum RecordingRetentionPeriod {
    Never,
    PreserveLimit,
    Days3,
    Weeks2,
    Months3,
}

/// Which backend listens for global shortcuts.
#[derive(Clone, Copy, Debug, PartialEq, Eq, Structural)]
pub enum KeyboardImplementation {
    Tauri,
    HandyKeys,
}

/// The set of feedback sounds.
#[derive(Clone, Copy, Debug, PartialEq, Eq, Structural)]
pub enum SoundTheme {
    Marimba,
    Pop,
    Custom,
}

impl KeyboardImplementation {
    /// The backend a platform starts with: the hotkey library on macOS,
    /// the windowing toolkit's own elsewhere.
    pub open spec fn default_on(platform: Platform) -> KeyboardImplementation {
        if platform.os == OperatingSystem::MacOs {
            KeyboardImplementation::HandyKeys
        } else {
            KeyboardImplementation::Tauri
        }
    }

    /// The backend a platform starts with.
    pub fn default_for(platform: Platform) -> (r: KeyboardImplementation)
        ensures
            r == Self::default_on(platform),
    {
        if platform.os == OperatingSystem::MacOs {
            KeyboardImplementation::HandyKeys
        } else {
            KeyboardImplementation::Tauri
        }
    }
}

impl Default for ModelUnloadTimeout {
    fn default() -> (r: Self)
        ensures
            r == ModelUnloadTimeout::Never,
    {
        ModelUnloadTimeout::Never
    }
}

impl Default for PasteMethod {
    fn default() -> (r: Self)
        ensures
            r == PasteMethod::CtrlV,
    {
        PasteMethod::CtrlV
    }
}

impl Default for ClipboardHandling {
    fn default() -> (r: Self)
        ensures
            r == ClipboardHandling::DontModify,
    {
        ClipboardHandling::DontModify
    }
}

impl ModelUnloadTimeout {
    /// The idle time in whole minutes; `None` means the model is never
    /// unloaded. The five-second value counts as zero minutes.
    pub open spec fn minutes(self) -> Option<u64> {
        match self {
            ModelUnloadTimeout::Never => None,
            ModelUnloadTimeout::Immediately => Some(0),
            ModelUnloadTimeout::Min2 => Some(2),
            ModelUnloadTimeout::Min5 => Some(5),
            ModelUnloadTimeout::Min10 => Some(10),
            ModelUnloadTimeout::Min15 => Some(15),
            ModelUnloadTimeout::Hour1 => Some(60),
            ModelUnloadTimeout::Sec5 => Some(0),
        }
    }

    /// The idle time in seconds; `None` means the model is never unloaded.
    pub open spec fn seconds(self) -> Option<u64> {
        match self {
            ModelUnloadTimeout::Never => None,
            ModelUnloadTimeout::Immediately => Some(0),
            ModelUnloadTimeout::Min2 => Some(120),
            ModelUnloadTimeout::Min5 => Some(300),
            ModelUnloadTimeout::Min10 => Some(600),
            ModelUnloadTimeout::Min15 => Some(900),
            ModelUnloadTimeout::Hour1 => Some(3600),
            ModelUnloadTimeout::Sec5 => Some(5),
        }
    }

    /// The idle time in whole minutes.
    pub fn to_minutes(self) -> (r: Option<u64>)
        ensures
            r == self.minutes(),
    {
        match self {
            ModelUnloadTimeout::Never => None,
            ModelUnloadTimeout::Immediately => Some(0),
            ModelUnloadTimeout::Min2 => Some(2),
            ModelUnloadTimeout::Min5 => Some(5),
            ModelUnloadTimeout::Min10 => Some(10),
            ModelUnloadTimeout::Min15 => Some(15),
            ModelUnloadTimeout::Hour1 => Some(60),
            ModelUnloadTimeout::Sec5 => Some(0),
        }
    }

    /// The idle time in seconds.
    pub fn to_seconds(self) -> (r: Option<u64>)
        ensures
            r == self.seconds(),
            self != ModelUnloadTimeout::Sec5 ==> r == match self.minutes() {
                Some(m) => Some((m * 60) as u64),
                None => None,
            },
    {
        match self {
            ModelUnloadTimeout::Never => None,
            ModelUnloadTimeout::Immediately => Some(0),
            ModelUnloadTimeout::Sec5 => Some(5),
            _ => match self.to_minutes() {
                Some(m) => Some(m * 60),
                None => None,
            },
        }
    }
}

impl SoundTheme {
    /// The name of the theme in file names and in stored settings.
    pub open spec fn name(self) -> Seq<char> {
        match self {
            SoundTheme::Marimba => "marimba"@,
            SoundTheme::Pop => "pop"@,
            SoundTheme::Custom => "custom"@,
        }
    }

    /// The theme that a stored name stands for; a name that is not one of
    /// the three stands for the marimba.
    pub open spec fn named(name: Seq<char>) -> SoundTheme {
        if name == "pop"@ {
            SoundTheme::Pop
        } else if name == "custom"@ {
            SoundTheme::Custom
        } else {
            SoundTheme::Marimba
        }
    }

    /// The name of the theme in file names and in stored settings.
    pub fn as_str(&self) -> (r: &'static str)
        ensures
            r@ == self.name(),
    {
        match self {
            SoundTheme::Marimba => "marimba",
            SoundTheme::Pop => "pop",
            SoundTheme::Custom => "custom",
        }
    }

    /// The theme that a stored name stands for; an unknown name falls back
    /// to the marimba.
    pub fn from_name(name: &str) -> (r: SoundTheme)
        ensures
            r == Self::named(name@),
    {
        if same(name, "pop") {
            SoundTheme::Pop
        } else if same(name, "custom") {
            SoundTheme::Custom
        } else {
            SoundTheme::Marimba
        }
    }

    /// The resource path of the sound played when recording starts.
    pub fn to_start_path(&self) -> (r: String)
        ensures
            r@ == "resources/"@ + self.name() + "_start.wav"@,
    {
        join3("resources/", self.as_str(), "_start.wav")
    }

    /// The resource path of the sound played when recording stops.
    pub fn to_stop_path(&self) -> (r: String)
        ensures
            r@ == "resources/"@ + self.name() + "_stop.wav"@,
    {
        join3("resources/", self.as_str(), "_stop.wav")
    }
}

impl OverlayPosition {
    /// The position a platform starts with: none on Linux, the bottom of
    /// the screen elsewhere.
    pub open spec fn default_on(platform: Platform) -> OverlayPosition {
        if platform.os == OperatingSystem::Linux {
            OverlayPosition::Hidden
        } else {
            OverlayPosition::Bottom
        }
    }

    /// The position that a stored name stands for; a name that is not one
    /// of the three stands for the bottom.
    pub open spec fn named(name: Seq<char>) -> OverlayPosition {
        if name == "none"@ {
            OverlayPosition::Hidden
        } else if name == "top"@ {
            OverlayPosition::Top
        } else {
            OverlayPosition::Bottom
        }
    }

    /// The position that a stored name stands for; an unknown name falls
    /// back to the bottom.
    pub fn from_name(name: &str) -> (r: OverlayPosition)
        ensures
            r == Self::named(name@),
    {
        if same(name, "none") {
            OverlayPosition::Hidden
        } else if same(name, "top") {
            OverlayPosition::Top
        } else {
            OverlayPosition::Bottom
        }
    }
}

impl PasteMethod {
    /// The method that a stored name stands for; a name that is not one of
    /// the five stands for the Ctrl+V paste.
    pub open spec fn named(name: Seq<char>) -> PasteMethod {
        if name == "direct"@ {
            PasteMethod::Direct
        } else if name == "none"@ {
            PasteMethod::NoPaste
        } else if name == "shift_insert"@ {
            PasteMethod::ShiftInsert
        } else if name == "ctrl_shift_v"@ {
            PasteMethod::CtrlShiftV
        } else {
            PasteMethod::CtrlV
        }
    }

    /// The method that a stored name stands for; an unknown name falls back
    /// to the Ctrl+V paste.
    pub fn from_name(name: &str) -> (r: PasteMethod)
        ensures
            r == Self::named(name@),
    {
        if same(name, "direct") {
            PasteMethod::Direct
        } else if same(name, "none") {
            PasteMethod::NoPaste
        } else if same(name, "shift_insert") {
            PasteMethod::ShiftInsert
        } else if same(name, "ctrl_shift_v") {
            PasteMethod::CtrlShiftV
        } else {
            PasteMethod::CtrlV
        }
    }
}

impl ClipboardHandling {
    /// The handling that a stored name stands for; a name that is not one
    /// of the two leaves the clipboard alone.
    pub open spec fn named(name: Seq<char>) -> ClipboardHandling {
        if name == "copy_to_clipboard"@ {
            ClipboardHandling::CopyToClipboard
        } else {
            ClipboardHandling::DontModify
        }
    }

    /// The handling that a stored name stands for; an unknown name leaves
    /// the clipboard alone.
    pub fn from_name(name: &str) -> (r: ClipboardHandling)
        ensures
            r == Self::named(name@),
    {
        if same(name, "copy_to_clipboard") {
            ClipboardHandling::CopyToClipboard
        } else {
            ClipboardHandling::DontModify
        }
    }
}

impl LogLevel {
    /// The level that a lower-case name stands for.
    pub open spec fn named(name: Seq<char>) -> Option<LogLevel> {
        if name == "trace"@ {
            Some(LogLevel::Trace)
        } else if name == "debug"@ {
            Some(LogLevel::Debug)
        } else if name == "info"@ {
            Some(LogLevel::Info)
        } else if name == "warn"@ {
            Some(LogLevel::Warn)
        } else if name == "error"@ {
            Some(LogLevel::Error)
        } else {
            None
        }
    }

    /// The level that a number of the older settings format stands for:
    /// one for the most talkative level, five for the most silent.
    pub open spec fn numbered(number: u64) -> Option<LogLevel> {
        if number == 1 {
            Some(LogLevel::Trace)
        } else if number == 2 {
            Some(LogLevel::Debug)
        } else if number == 3 {
            Some(LogLevel::Info)
        } else if number == 4 {
            Some(LogLevel::Warn)
        } else if number == 5 {
            Some(LogLevel::Error)
        } else {
            None
        }
    }

    /// The number under which the log filter knows a level: one for
    /// errors only, five for everything.
    pub open spec fn filter_number(self) -> u8 {
        match self {
            LogLevel::Error => 1,
            LogLevel::Warn => 2,
            LogLevel::Info => 3,
            LogLevel::Debug => 4,
            LogLevel::Trace => 5,
        }
    }

    /// The level that a lower-case name stands for, if it is the name of
    /// one.
    pub fn from_lowercase_name(name: &str) -> (r: Option<LogLevel>)
        ensures
            r == Self::named(name@),
    {
        if same(name, "trace") {
            Some(LogLevel::Trace)
        } else if same(name, "debug") {
            Some(LogLevel::Debug)
        } else if same(name, "info") {
            Some(LogLevel::Info)
        } else if same(name, "warn") {
            Some(LogLevel::Warn)
        } else if same(name, "error") {
            Some(LogLevel::Error)
        } else {
            None
        }
    }

    /// The level that a name stands for, in whatever case it is written.
    pub fn from_name(name: &str) -> (r: Option<LogLevel>)
        ensures
            r == Self::named(lowercased(name@)),
    {
        let lower = to_lowercase(name);
        Self::from_lowercase_name(lower.as_str())
    }

    /// The level that a number of the older settings format stands for, if
    /// it is one of the five.
    pub fn from_number(number: u64) -> (r: Option<LogLevel>)
        ensures
            r == Self::numbered(number),
    {
        match number {
            1 => Some(LogLevel::Trace),
            2 => Some(LogLevel::Debug),
            3 => Some(LogLevel::Info),
            4 => Some(LogLevel::Warn),
            5 => Some(LogLevel::Error),
            _ => None,
        }
    }

    /// The number under which the log filter knows this level.
    pub fn to_filter_number(self) -> (r: u8)
        ensures
            r == self.filter_number(),
    {
        level_filter_number(self)
    }
}

/// `log::Level::to_level_filter`, read as a number: the filter of a level
/// has the number of the level, from one for `Error` to five for `Trace`.
#[verifier::external_body]
fn level_filter_number(level: LogLevel) -> (r: u8)
    ensures
        r == level.filter_number(),
{
    let level = match level {
        LogLevel::Trace => log::Level::Trace,
        LogLevel::Debug => log::Level::Debug,
        LogLevel::Info => log::Level::Info,
        LogLevel::Warn => log::Level::Warn,
        LogLevel::Error => log::Level::Error,
    };
    level.to_level_filter() as u8
}

} // verus!
