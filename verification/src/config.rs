//! The configuration.

use crate::path::UnixPath;
use crate::time::{Period, NANOS_PER_SEC};
use crate::timer::TimerMode;
use vstd::prelude::*;

verus! {

/// The whole configuration.
#[derive(Debug, PartialEq, Eq)]
pub struct Config {
    pub timer: TimerConfig,
    pub waybar: WaybarConfig,
    pub notification: NotificationConfig,
    pub sound: SoundConfig,
}

/// The lengths of the periods.
#[derive(Clone, Copy, Debug, PartialEq, Eq)]
pub struct TimerConfig {
    /// How long each short break lasts.
    pub short_break_duration: Period,
    /// How long each long break lasts.
    pub long_break_duration: Period,
    /// How long the focus period lasts.
    pub focus_duration: Period,
    /// The number of short breaks to take before a long break.
    pub short_breaks: u8,
}

/// The sound that announces a new mode.
#[derive(Debug, PartialEq, Eq)]
pub struct SoundConfig {
    /// The file that is played, if any.
    pub sound: Option<UnixPath>,
    /// The name of the output device that plays it.
    pub device: Option<String>,
}

/// The status bar.
#[derive(Debug, PartialEq, Eq)]
pub struct WaybarConfig {}

/// The notification that announces a new mode: what it says in each mode, if anything.
#[derive(Debug, PartialEq, Eq)]
pub struct NotificationConfig {
    /// How long it is shown.
    pub timeout: Option<Period>,
    pub pestering: Option<String>,
    pub snoozing: Option<String>,
    pub short_break: Option<String>,
    pub long_break: Option<String>,
    pub focus: Option<String>,
}

/// The text in an optional string.
pub open spec fn text_of(s: Option<String>) -> Option<Seq<char>> {
    match s {
        Some(s) => Some(s@),
        None => None,
    }
}

/// The lowest 32 bits of a number, as a signed number in two's complement.
pub open spec fn signed_low_bits(n: nat) -> int {
    let low = n % 0x1_0000_0000;
    if low < 0x8000_0000 {
        low as int
    } else {
        low - 0x1_0000_0000
    }
}

impl TimerConfig {
    /// Five minutes of short break, thirty of long break, twenty-five of focus, and three short
    /// breaks before a long one.
    pub open spec fn is_default(self) -> bool {
        &&& self.short_break_duration@ == 5 * 60 * NANOS_PER_SEC
        &&& self.long_break_duration@ == 30 * 60 * NANOS_PER_SEC
        &&& self.focus_duration@ == 25 * 60 * NANOS_PER_SEC
        &&& self.short_breaks == 3
    }
}

impl Default for TimerConfig {
    fn default() -> (config: Self)
        ensures
            config.is_default(),
    {
        TimerConfig {
            short_break_duration: Period::from_secs(5 * 60),
            long_break_duration: Period::from_secs(30 * 60),
            focus_duration: Period::from_secs(25 * 60),
            short_breaks: 3,
        }
    }
}

impl NotificationConfig {
    /// Breaks and focus are announced, pestering and snoozing are not, and the desktop decides
    /// how long.
    pub open spec fn is_default(self) -> bool {
        &&& self.timeout is None
        &&& self.pestering is None
        &&& self.snoozing is None
        &&& text_of(self.short_break) == Some(
            "Take a short break! Drink water, take notes, move around."@,
        )
        &&& text_of(self.long_break) == Some(
            "Take a long break! Grab a snack, take notes, move around."@,
        )
        &&& text_of(self.focus) == Some("Time to focus! No distractions."@)
    }

    /// What is said in a mode.
    pub open spec fn message(self, mode: TimerMode) -> Option<String> {
        match mode {
            TimerMode::Pestering => self.pestering,
            TimerMode::Snoozing => self.snoozing,
            TimerMode::ShortBreak => self.short_break,
            TimerMode::LongBreak => self.long_break,
            TimerMode::Focus => self.focus,
        }
    }

    /// How long the notification is shown, in milliseconds: the lowest 32 bits of the configured
    /// number as a signed number, or -1 if that is left to the desktop.
    pub open spec fn timeout_millis(self) -> int {
        match self.timeout {
            Some(timeout) => signed_low_bits(timeout@ / 1_000_000),
            None => -1,
        }
    }

    /// How long the notification is shown, in milliseconds, or -1 if that is left to the desktop.
    pub fn expire_timeout(&self) -> (millis: i32)
        ensures
            millis == self.timeout_millis(),
    {
        match &self.timeout {
            Some(timeout) => {
                let low: i64 = (timeout.as_millis() % 0x1_0000_0000) as i64;
                if low < 0x8000_0000 {
                    low as i32
                } else {
                    (low - 0x1_0000_0000) as i32
                }
            },
            None => -1,
        }
    }

    /// What is said in a mode.
    pub fn for_mode(&self, mode: TimerMode) -> (message: Option<&String>)
        ensures
            message is Some <==> self.message(mode) is Some,
            message matches Some(text) ==> Some(*text) == self.message(mode),
    {
        match mode {
            TimerMode::Pestering => self.pestering.as_ref(),
            TimerMode::Snoozing => self.snoozing.as_ref(),
            TimerMode::ShortBreak => self.short_break.as_ref(),
            TimerMode::LongBreak => self.long_break.as_ref(),
            TimerMode::Focus => self.focus.as_ref(),
        }
    }
}

impl Default for NotificationConfig {
    fn default() -> (config: Self)
        ensures
            config.is_default(),
    {
        NotificationConfig {
            timeout: None,
            pestering: None,
            snoozing: None,
            short_break: Some(
                "Take a short break! Drink water, take notes, move around.".to_string(),
            ),
            long_break: Some(
                "Take a long break! Grab a snack, take notes, move around.".to_string(),
            ),
            focus: Some("Time to focus! No distractions.".to_string()),
        }
    }
}

impl Default for SoundConfig {
    fn default() -> (config: Self)
        ensures
            config.sound is None,
            config.device is None,
    {
        SoundConfig { sound: None, device: None }
    }
}

impl Default for WaybarConfig {
    fn default() -> (config: Self)
        ensures
            config == (WaybarConfig {  }),
    {
        WaybarConfig {  }
    }
}

impl Default for Config {
    fn default() -> (config: Self)
        ensures
            config.timer.is_default(),
            config.notification.is_default(),
            config.sound.sound is None,
            config.sound.device is None,
    {
        Config {
            timer: TimerConfig::default(),
            waybar: WaybarConfig::default(),
            notification: NotificationConfig::default(),
            sound: SoundConfig::default(),
        }
    }
}

/// The output device that sound goes to.
#[derive(Debug, PartialEq, Eq)]
pub enum DeviceChoice {
    /// The system's default device.
    SystemDefault,
    /// The device at this place in the list.
    Listed(usize),
    /// The device at this place in the list would have to tell its name, but does not.
    Unnamed(usize),
}

impl SoundConfig {
    /// The search for the configured device ends here: the device does not tell its name, or has
    /// the configured one.
    pub open spec fn search_ends_at(self, device: Option<String>) -> bool {
        device is None || text_of(device) == text_of(self.device)
    }

    /// The device to play on, given the names of the devices in the order in which the system
    /// lists them (none for a device that does not tell its name): the first one with the
    /// configured name, or the default device where none is configured or none has that name.
    pub fn choose_device(&self, devices: &Vec<Option<String>>) -> (choice: DeviceChoice)
        ensures
            match choice {
                DeviceChoice::SystemDefault => self.device is None || forall|i: int|
                    0 <= i < devices.len() ==> !self.search_ends_at(#[trigger] devices[i]),
                DeviceChoice::Listed(n) => {
                    &&& self.device is Some
                    &&& n < devices.len()
                    &&& devices[n as int] is Some
                    &&& self.search_ends_at(devices[n as int])
                    &&& forall|i: int|
                        0 <= i < n ==> !self.search_ends_at(#[trigger] devices[i])
                },
                DeviceChoice::Unnamed(n) => {
                    &&& self.device is Some
                    &&& n < devices.len()
                    &&& devices[n as int] is None
                    &&& forall|i: int|
                        0 <= i < n ==> !self.search_ends_at(#[trigger] devices[i])
                },
            },
    {
        match &self.device {
            None => DeviceChoice::SystemDefault,
            Some(wanted) => {
                let mut n: usize = 0;
                while n < devices.len()
                    invariant
                        n <= devices.len(),
                        self.device == Some(*wanted),
                        forall|i: int|
                            0 <= i < n ==> !self.search_ends_at(#[trigger] devices[i]),
                    decreases devices.len() - n,
                {
                    match &devices[n] {
                        None => {
                            return DeviceChoice::Unnamed(n);
                        },
                        Some(name) => {
                            if *name == *wanted {
                                return DeviceChoice::Listed(n);
                            }
                        },
                    }
                    n = n + 1;
                }
                DeviceChoice::SystemDefault
            },
        }
    }
}

/// The built-in configuration, in plain values.
pub proof fn law_builtin_configuration(config: Config)
    requires
        config.timer.is_default(),
        config.notification.is_default(),
    ensures
        config.timer.short_break_duration@ == 300_000_000_000,
        config.timer.long_break_duration@ == 1_800_000_000_000,
        config.timer.focus_duration@ == 1_500_000_000_000,
        config.timer.short_breaks == 3,
        config.notification.timeout is None,
        config.notification.pestering is None,
        config.notification.snoozing is None,
        config.notification.short_break matches Some(text) && text@
            == "Take a short break! Drink water, take notes, move around."@,
        config.notification.long_break matches Some(text) && text@
            == "Take a long break! Grab a snack, take notes, move around."@,
        config.notification.focus matches Some(text) && text@
            == "Time to focus! No distractions."@,
{
}

/// Each mode has the message that is configured for it.
pub proof fn law_each_mode_has_its_own_message(config: NotificationConfig)
    ensures
        config.message(TimerMode::Pestering) == config.pestering,
        config.message(TimerMode::Snoozing) == config.snoozing,
        config.message(TimerMode::ShortBreak) == config.short_break,
        config.message(TimerMode::LongBreak) == config.long_break,
        config.message(TimerMode::Focus) == config.focus,
{
}

/// A configured timeout comes out as a signed number of 32 bits that differs from the whole
/// milliseconds by a multiple of 2^32; so it is the number itself where that is small enough.
/// Without one it is -1.
pub proof fn law_timeout_is_in_milliseconds(config: NotificationConfig)
    ensures
        -2_147_483_648 <= config.timeout_millis() <= 2_147_483_647,
        match config.timeout {
            None => config.timeout_millis() == -1,
            Some(timeout) => {
                let millis = timeout@ as int / 1_000_000;
                &&& (millis - config.timeout_millis()) % 4_294_967_296 == 0
                &&& millis <= 2_147_483_647 ==> config.timeout_millis() == millis
            },
        },
{
}

/// The search for a configured device ends at a device without a name, and at one of the
/// configured name, but at no other.
pub proof fn law_device_search_goes_by_name(config: SoundConfig, wanted: String, name: String)
    requires
        config.device == Some(wanted),
    ensures
        config.search_ends_at(None),
        config.search_ends_at(Some(name)) <==> name@ == wanted@,
{
}

} // verus!
