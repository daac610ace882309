//! The durable configuration: its model, the flat record stored on disk,
//! and the fall-back to defaults when a stored record cannot be used.
use crate::scheduler::Scheduler;
use crate::target::{AppearanceState, ThemeTarget};
use crate::time::{TimeOfDay, TimeWindow};
use vstd::prelude::*;

verus! {

/// Everything that is kept across restarts.
#[derive(Clone, Copy, Debug, PartialEq, Eq, Structural)]
pub struct Config {
    pub scheduler: Scheduler,
    pub is_autostart: bool,
}

/// The stored record, field for field. The `_hh` / `_mm` fields mirror the
/// hour and minute of the time beside them; they are written on save and
/// not read back.
#[derive(Clone, Debug, PartialEq, Eq)]
pub struct ConfigRecord {
    pub is_dark_mode: bool,
    pub is_system_dark_mode: bool,
    pub is_system_both_dark_mode: bool,
    pub auto_mode_change: bool,
    pub auto_system_mode_change: bool,
    pub custom_night_start: String,
    pub custom_night_end: String,
    pub custom_night_start_hh: u32,
    pub custom_night_start_mm: u32,
    pub custom_night_end_hh: u32,
    pub custom_night_end_mm: u32,
    pub custom_system_night_start: String,
    pub custom_system_night_end: String,
    pub custom_system_night_start_hh: u32,
    pub custom_system_night_start_mm: u32,
    pub custom_system_night_end_hh: u32,
    pub custom_system_night_end_mm: u32,
    pub is_autostart: bool,
}

/// Which of the record's four times could not be read.
#[derive(Clone, Copy, Debug, PartialEq, Eq, Structural)]
pub enum TimeField {
    AppStart,
    AppEnd,
    SystemStart,
    SystemEnd,
}

/// Why a stored record was not accepted.
#[derive(Clone, Copy, Debug, PartialEq, Eq, Structural)]
pub enum ConfigError {
    /// The named time is not `HH:MM:SS` with whole minutes.
    BadTime(TimeField),
}

/// What to do with the startup registration when the autostart setting is
/// looked at again.
#[derive(Clone, Copy, Debug, PartialEq, Eq, Structural)]
pub enum AutostartAction {
    /// The setting did not change.
    Keep,
    /// The setting was turned on: add the startup entry.
    Register,
    /// The setting was turned off: remove the startup entry.
    Unregister,
}

/// The startup registration change owed when the autostart setting goes
/// from `previous` to `requested`.
pub fn autostart_action(previous: bool, requested: bool) -> (r: AutostartAction)
    ensures
        previous == requested ==> r == AutostartAction::Keep,
        !previous && requested ==> r == AutostartAction::Register,
        previous && !requested ==> r == AutostartAction::Unregister,
{
    if previous == requested {
        AutostartAction::Keep
    } else if requested {
        AutostartAction::Register
    } else {
        AutostartAction::Unregister
    }
}

/// The window that a fresh configuration starts with: 18:00 to 06:00.
pub open spec fn default_window() -> TimeWindow {
    TimeWindow { start: TimeOfDay { hour: 18, minute: 0 }, end: TimeOfDay { hour: 6, minute: 0 } }
}

/// A surface with automatic switching off, light, on the default window.
pub open spec fn default_target() -> ThemeTarget {
    ThemeTarget {
        current: AppearanceState { is_dark: false },
        window: default_window(),
        auto_enabled: false,
    }
}

/// All switching off, no link, no autostart, default windows.
pub open spec fn default_config() -> Config {
    Config {
        scheduler: Scheduler {
            app_target: default_target(),
            system_target: default_target(),
            link_system_to_app: false,
        },
        is_autostart: false,
    }
}

/// Whether `rec` is the record that stores `c`.
pub open spec fn record_of(rec: ConfigRecord, c: Config) -> bool {
    let app = c.scheduler.app_target;
    let sys = c.scheduler.system_target;
    &&& rec.is_dark_mode == app.current.is_dark
    &&& rec.is_system_dark_mode == sys.current.is_dark
    &&& rec.is_system_both_dark_mode == c.scheduler.link_system_to_app
    &&& rec.auto_mode_change == app.auto_enabled
    &&& rec.auto_system_mode_change == sys.auto_enabled
    &&& rec.custom_night_start@ == app.window.start.text()
    &&& rec.custom_night_end@ == app.window.end.text()
    &&& rec.custom_night_start_hh == app.window.start.hour
    &&& rec.custom_night_start_mm == app.window.start.minute
    &&& rec.custom_night_end_hh == app.window.end.hour
    &&& rec.custom_night_end_mm == app.window.end.minute
    &&& rec.custom_system_night_start@ == sys.window.start.text()
    &&& rec.custom_system_night_end@ == sys.window.end.text()
    &&& rec.custom_system_night_start_hh == sys.window.start.hour
    &&& rec.custom_system_night_start_mm == sys.window.start.minute
    &&& rec.custom_system_night_end_hh == sys.window.end.hour
    &&& rec.custom_system_night_end_mm == sys.window.end.minute
    &&& rec.is_autostart == c.is_autostart
}

/// The configuration that `rec` stores, or the first of its times (in the
/// order application start, application end, system start, system end)
/// that cannot be read.
pub open spec fn config_of(rec: ConfigRecord) -> Result<Config, ConfigError> {
    let app_start = TimeOfDay::from_text(rec.custom_night_start@);
    let app_end = TimeOfDay::from_text(rec.custom_night_end@);
    let sys_start = TimeOfDay::from_text(rec.custom_system_night_start@);
    let sys_end = TimeOfDay::from_text(rec.custom_system_night_end@);
    if app_start is None {
        Err(ConfigError::BadTime(TimeField::AppStart))
    } else if app_end is None {
        Err(ConfigError::BadTime(TimeField::AppEnd))
    } else if sys_start is None {
        Err(ConfigError::BadTime(TimeField::SystemStart))
    } else if sys_end is None {
        Err(ConfigError::BadTime(TimeField::SystemEnd))
    } else {
        Ok(
            Config {
                scheduler: Scheduler {
                    app_target: ThemeTarget {
                        current: AppearanceState { is_dark: rec.is_dark_mode },
                        window: TimeWindow { start: app_start->Some_0, end: app_end->Some_0 },
                        auto_enabled: rec.auto_mode_change,
                    },
                    system_target: ThemeTarget {
                        current: AppearanceState { is_dark: rec.is_system_dark_mode },
                        window: TimeWindow { start: sys_start->Some_0, end: sys_end->Some_0 },
                        auto_enabled: rec.auto_system_mode_change,
                    },
                    link_system_to_app: rec.is_system_both_dark_mode,
                },
                is_autostart: rec.is_autostart,
            },
        )
    }
}

/// What a load yields: the stored configuration where the record is there
/// and readable, and the defaults otherwise.
pub open spec fn loaded_config(record: Option<ConfigRecord>) -> Config {
    match record {
        Some(rec) => match config_of(rec) {
            Ok(c) => c,
            Err(_) => default_config(),
        },
        None => default_config(),
    }
}

impl Config {
    pub open spec fn wf(self) -> bool {
        self.scheduler.wf()
    }

    /// Whether every time of the configuration is in range.
    pub fn is_wf(&self) -> (r: bool)
        ensures
            r == self.wf(),
    {
        let app = &self.scheduler.app_target.window;
        let sys = &self.scheduler.system_target.window;
        app.start.is_valid() && app.end.is_valid() && sys.start.is_valid() && sys.end.is_valid()
    }

    /// The record that stores this configuration, the mirror fields derived
    /// from the times.
    pub fn to_record(&self) -> (r: ConfigRecord)
        requires
            self.wf(),
        ensures
            record_of(r, *self),
    {
        let app = &self.scheduler.app_target;
        let sys = &self.scheduler.system_target;
        ConfigRecord {
            is_dark_mode: app.current.is_dark,
            is_system_dark_mode: sys.current.is_dark,
            is_system_both_dark_mode: self.scheduler.link_system_to_app,
            auto_mode_change: app.auto_enabled,
            auto_system_mode_change: sys.auto_enabled,
            custom_night_start: app.window.start.to_hms_string(),
            custom_night_end: app.window.end.to_hms_string(),
            custom_night_start_hh: app.window.start.hour,
            custom_night_start_mm: app.window.start.minute,
            custom_night_end_hh: app.window.end.hour,
            custom_night_end_mm: app.window.end.minute,
            custom_system_night_start: sys.window.start.to_hms_string(),
            custom_system_night_end: sys.window.end.to_hms_string(),
            custom_system_night_start_hh: sys.window.start.hour,
            custom_system_night_start_mm: sys.window.start.minute,
            custom_system_night_end_hh: sys.window.end.hour,
            custom_system_night_end_mm: sys.window.end.minute,
            is_autostart: self.is_autostart,
        }
    }

    /// The configuration a record stores. A configuration saved with
    /// `to_record` reads back unchanged.
    pub fn from_record(rec: &ConfigRecord) -> (r: Result<Config, ConfigError>)
        ensures
            r == config_of(*rec),
            r matches Ok(c) ==> c.wf(),
            forall|c: Config| c.wf() && record_of(*rec, c) ==> r == Ok::<Config, ConfigError>(c),
    {
        let app_start = match TimeOfDay::parse(rec.custom_night_start.as_str()) {
            Ok(t) => t,
            Err(_) => { return Err(ConfigError::BadTime(TimeField::AppStart)); },
        };
        let app_end = match TimeOfDay::parse(rec.custom_night_end.as_str()) {
            Ok(t) => t,
            Err(_) => { return Err(ConfigError::BadTime(TimeField::AppEnd)); },
        };
        let sys_start = match TimeOfDay::parse(rec.custom_system_night_start.as_str()) {
            Ok(t) => t,
            Err(_) => { return Err(ConfigError::BadTime(TimeField::SystemStart)); },
        };
        let sys_end = match TimeOfDay::parse(rec.custom_system_night_end.as_str()) {
            Ok(t) => t,
            Err(_) => { return Err(ConfigError::BadTime(TimeField::SystemEnd)); },
        };
        Ok(
            Config {
                scheduler: Scheduler {
                    app_target: ThemeTarget {
                        current: AppearanceState { is_dark: rec.is_dark_mode },
                        window: TimeWindow { start: app_start, end: app_end },
                        auto_enabled: rec.auto_mode_change,
                    },
                    system_target: ThemeTarget {
                        current: AppearanceState { is_dark: rec.is_system_dark_mode },
                        window: TimeWindow { start: sys_start, end: sys_end },
                        auto_enabled: rec.auto_system_mode_change,
                    },
                    link_system_to_app: rec.is_system_both_dark_mode,
                },
                is_autostart: rec.is_autostart,
            },
        )
    }

    /// The configuration to start from: the stored one where a record was
    /// read and is readable, the defaults where it is missing or corrupt.
    pub fn from_loaded(record: Option<ConfigRecord>) -> (r: Config)
        ensures
            r == loaded_config(record),
            r.wf(),
    {
        match record {
            Some(rec) => match Config::from_record(&rec) {
                Ok(c) => c,
                Err(_) => Config::default(),
            },
            None => Config::default(),
        }
    }
}

impl Default for Config {
    fn default() -> (r: Config)
        ensures
            r == default_config(),
            r.wf(),
    {
        let window = TimeWindow {
            start: TimeOfDay { hour: 18, minute: 0 },
            end: TimeOfDay { hour: 6, minute: 0 },
        };
        let target = ThemeTarget {
            current: AppearanceState { is_dark: false },
            window,
            auto_enabled: false,
        };
        Config {
            scheduler: Scheduler { app_target: target, system_target: target, link_system_to_app: false },
            is_autostart: false,
        }
    }
}

} // verus!
