//! Preset messages for common game events.

use vstd::prelude::*;
use crate::ui::notifications::{DisplayTime, Notification, NotificationPriority, NotificationType};

verus! {

/// A warning that the vehicle is stuck, titled "Stuck", of normal priority.
pub fn vehicle_stuck<T: DisplayTime>() -> (n: Notification<T>)
    ensures
        n.message@ == "Vehicle is stuck! Try using the winch or differential lock."@,
        n.title matches Some(t) && t@ == "Stuck"@,
        n.notification_type == NotificationType::Warning,
        n.priority == NotificationPriority::Normal,
        n.timing == T::of_seconds(crate::ui::notifications::display_seconds(NotificationPriority::Normal)),
        n.dismissible,
{
    Notification::new(String::from_str("Vehicle is stuck! Try using the winch or differential lock."))
        .with_type(NotificationType::Warning)
        .with_title(String::from_str("Stuck"))
}

/// A high-priority warning that fuel is low, titled "Low Fuel".
pub fn low_fuel<T: DisplayTime>() -> (n: Notification<T>)
    ensures
        n.message@ == "Fuel level is critically low!"@,
        n.title matches Some(t) && t@ == "Low Fuel"@,
        n.notification_type == NotificationType::Warning,
        n.priority == NotificationPriority::High,
        n.timing == T::of_seconds(crate::ui::notifications::display_seconds(NotificationPriority::High)),
        n.dismissible,
{
    Notification::new(String::from_str("Fuel level is critically low!"))
        .with_type(NotificationType::Warning)
        .with_title(String::from_str("Low Fuel"))
        .with_priority(NotificationPriority::High)
}

/// A success message naming the checkpoint reached, titled "Checkpoint".
pub fn checkpoint_reached<T: DisplayTime>(checkpoint_name: &str) -> (n: Notification<T>)
    ensures
        n.message@ == "Checkpoint reached: "@ + checkpoint_name@,
        n.title matches Some(t) && t@ == "Checkpoint"@,
        n.notification_type == NotificationType::Success,
        n.priority == NotificationPriority::Normal,
        n.timing == T::of_seconds(crate::ui::notifications::display_seconds(NotificationPriority::Normal)),
        n.dismissible,
{
    let mut message = String::from_str("Checkpoint reached: ");
    message.append(checkpoint_name);
    Notification::new(message)
        .with_type(NotificationType::Success)
        .with_title(String::from_str("Checkpoint"))
}

/// A high-priority success message naming the mission completed, titled
/// "Mission Complete", shown for ten seconds.
pub fn mission_complete<T: DisplayTime>(mission_name: &str) -> (n: Notification<T>)
    ensures
        n.message@ == "Mission completed: "@ + mission_name@,
        n.title matches Some(t) && t@ == "Mission Complete"@,
        n.notification_type == NotificationType::Success,
        n.priority == NotificationPriority::High,
        n.timing == T::of_seconds(10),
        n.dismissible,
{
    let mut message = String::from_str("Mission completed: ");
    message.append(mission_name);
    Notification::new(message)
        .with_type(NotificationType::Success)
        .with_title(String::from_str("Mission Complete"))
        .with_priority(NotificationPriority::High)
        .with_duration(10)
}

/// An untitled info message of normal priority shown for two seconds.
fn short_info<T: DisplayTime>(message: &str) -> (n: Notification<T>)
    ensures
        n.message@ == message@,
        n.title is None,
        n.notification_type == NotificationType::Info,
        n.priority == NotificationPriority::Normal,
        n.timing == T::of_seconds(2),
        n.dismissible,
{
    Notification::new(String::from_str(message)).with_type(NotificationType::Info).with_duration(2)
}

/// "Winch attached", a two-second info message.
pub fn winch_attached<T: DisplayTime>() -> (n: Notification<T>)
    ensures
        n.message@ == "Winch attached"@,
        n.title is None,
        n.notification_type == NotificationType::Info,
        n.priority == NotificationPriority::Normal,
        n.timing == T::of_seconds(2),
        n.dismissible,
{
    short_info("Winch attached")
}

/// "Winch detached", a two-second info message.
pub fn winch_detached<T: DisplayTime>() -> (n: Notification<T>)
    ensures
        n.message@ == "Winch detached"@,
        n.title is None,
        n.notification_type == NotificationType::Info,
        n.priority == NotificationPriority::Normal,
        n.timing == T::of_seconds(2),
        n.dismissible,
{
    short_info("Winch detached")
}

/// "Differential lock engaged", a two-second info message.
pub fn diff_lock_enabled<T: DisplayTime>() -> (n: Notification<T>)
    ensures
        n.message@ == "Differential lock engaged"@,
        n.title is None,
        n.notification_type == NotificationType::Info,
        n.priority == NotificationPriority::Normal,
        n.timing == T::of_seconds(2),
        n.dismissible,
{
    short_info("Differential lock engaged")
}

/// "Differential lock disengaged", a two-second info message.
pub fn diff_lock_disabled<T: DisplayTime>() -> (n: Notification<T>)
    ensures
        n.message@ == "Differential lock disengaged"@,
        n.title is None,
        n.notification_type == NotificationType::Info,
        n.priority == NotificationPriority::Normal,
        n.timing == T::of_seconds(2),
        n.dismissible,
{
    short_info("Differential lock disengaged")
}

/// "4WD engaged", a two-second info message.
pub fn four_wd_enabled<T: DisplayTime>() -> (n: Notification<T>)
    ensures
        n.message@ == "4WD engaged"@,
        n.title is None,
        n.notification_type == NotificationType::Info,
        n.priority == NotificationPriority::Normal,
        n.timing == T::of_seconds(2),
        n.dismissible,
{
    short_info("4WD engaged")
}

/// "4WD disengaged", a two-second info message.
pub fn four_wd_disabled<T: DisplayTime>() -> (n: Notification<T>)
    ensures
        n.message@ == "4WD disengaged"@,
        n.title is None,
        n.notification_type == NotificationType::Info,
        n.priority == NotificationPriority::Normal,
        n.timing == T::of_seconds(2),
        n.dismissible,
{
    short_info("4WD disengaged")
}

} // verus!
