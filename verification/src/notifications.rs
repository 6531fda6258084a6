//! Notification settings and the notifications that were logged.

use vstd::prelude::*;

use crate::traffic::{DataInfoHost, Host};

verus! {

/// A sound the interface can play.
#[derive(Clone, Copy, PartialEq, Eq, Structural, Debug, Hash)]
pub enum Sound {
    Gulp,
    Pop,
    Swhoosh,
    NoSound,
}

/// The unit in which a bytes threshold is expressed.
#[derive(Clone, Copy, PartialEq, Eq, Structural, Debug, Hash)]
pub enum ByteMultiple {
    B,
    KB,
    MB,
    GB,
    TB,
    PB,
}

/// Notify when the packets of an interval exceed a threshold.
#[derive(Clone, Copy, PartialEq, Eq, Structural, Debug, Hash)]
pub struct PacketsNotification {
    /// The threshold; `None` when this notification is off.
    pub threshold: Option<u32>,
    pub sound: Sound,
    /// The last threshold that was set, shown again when the notification is turned on.
    pub previous_threshold: u32,
}

/// Notify when the bytes of an interval exceed a threshold.
#[derive(Clone, Copy, PartialEq, Eq, Structural, Debug, Hash)]
pub struct BytesNotification {
    /// The threshold; `None` when this notification is off.
    pub threshold: Option<u64>,
    pub byte_multiple: ByteMultiple,
    pub sound: Sound,
    /// The last threshold that was set, shown again when the notification is turned on.
    pub previous_threshold: u64,
}

/// Notify when a favorite host exchanges data.
#[derive(Clone, Copy, PartialEq, Eq, Structural, Debug, Hash)]
pub struct FavoriteNotification {
    pub notify_on_favorite: bool,
    pub sound: Sound,
}

/// A change of one of the notification settings.
#[derive(Clone, Copy, PartialEq, Eq, Structural, Debug, Hash)]
pub enum Notification {
    Packets(PacketsNotification),
    Bytes(BytesNotification),
    Favorite(FavoriteNotification),
}

impl Notification {
    /// The sound of the changed setting.
    pub open spec fn sound_of(self) -> Sound {
        match self {
            Notification::Packets(n) => n.sound,
            Notification::Bytes(n) => n.sound,
            Notification::Favorite(n) => n.sound,
        }
    }
}

/// All the notification settings.
#[derive(Clone, Copy, PartialEq, Eq, Structural, Debug, Hash)]
pub struct Notifications {
    /// Volume of the sounds, in percent.
    pub volume: u8,
    pub packets_notification: PacketsNotification,
    pub bytes_notification: BytesNotification,
    pub favorite_notification: FavoriteNotification,
}

impl Notifications {
    /// These settings with one of them replaced by `value`.
    pub open spec fn with(self, value: Notification) -> Notifications {
        match value {
            Notification::Packets(n) => Notifications { packets_notification: n, ..self },
            Notification::Bytes(n) => Notifications { bytes_notification: n, ..self },
            Notification::Favorite(n) => Notifications { favorite_notification: n, ..self },
        }
    }

    /// The default settings: volume at 60%, every notification off.
    pub open spec fn initial() -> Notifications {
        Notifications {
            volume: 60,
            packets_notification: PacketsNotification {
                threshold: None,
                sound: Sound::Gulp,
                previous_threshold: 750,
            },
            bytes_notification: BytesNotification {
                threshold: None,
                byte_multiple: ByteMultiple::KB,
                sound: Sound::Pop,
                previous_threshold: 800000,
            },
            favorite_notification: FavoriteNotification {
                notify_on_favorite: false,
                sound: Sound::Swhoosh,
            },
        }
    }
}

impl Default for Notifications {
    fn default() -> (r: Notifications)
        ensures
            r == Notifications::initial(),
    {
        Notifications {
            volume: 60,
            packets_notification: PacketsNotification {
                threshold: None,
                sound: Sound::Gulp,
                previous_threshold: 750,
            },
            bytes_notification: BytesNotification {
                threshold: None,
                byte_multiple: ByteMultiple::KB,
                sound: Sound::Pop,
                previous_threshold: 800000,
            },
            favorite_notification: FavoriteNotification {
                notify_on_favorite: false,
                sound: Sound::Swhoosh,
            },
        }
    }
}

/// The packets of an interval exceeded the threshold.
#[derive(Clone, Debug, PartialEq, Eq, Hash)]
pub struct PacketsThresholdExceeded {
    pub threshold: u32,
    pub incoming: u32,
    pub outgoing: u32,
    pub timestamp: String,
}

/// The bytes of an interval exceeded the threshold.
#[derive(Clone, Debug, PartialEq, Eq, Hash)]
pub struct BytesThresholdExceeded {
    pub threshold: u64,
    pub incoming: u64,
    pub outgoing: u64,
    pub timestamp: String,
}

/// A favorite host exchanged data.
#[derive(Clone, Debug, PartialEq, Eq, Hash)]
pub struct FavoriteTransmitted {
    pub host: Host,
    pub data_info_host: DataInfoHost,
    pub timestamp: String,
}

/// A notification that was emitted and logged.
#[derive(Clone, Debug, PartialEq, Eq, Hash)]
pub enum LoggedNotification {
    PacketsThresholdExceeded(PacketsThresholdExceeded),
    BytesThresholdExceeded(BytesThresholdExceeded),
    FavoriteTransmitted(FavoriteTransmitted),
}

} // verus!
