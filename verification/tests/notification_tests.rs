use offroad_frontier::ui::notifications::priority_seconds;
use offroad_frontier::ui::notifications::presets::{
    checkpoint_reached, diff_lock_disabled, diff_lock_enabled, four_wd_disabled, four_wd_enabled,
    low_fuel, mission_complete, vehicle_stuck, winch_attached, winch_detached,
};
use offroad_frontier::ui::notifications::{
    DisplayTime, Notification, NotificationPriority, NotificationSystem, NotificationType,
};

#[derive(Debug, Clone, Copy, PartialEq)]
struct Secs(f32);

impl DisplayTime for Secs {
    fn of_seconds(seconds: u32) -> Self {
        Self::for_seconds(seconds)
    }

    fn for_seconds(seconds: u32) -> Self {
        Secs(seconds as f32)
    }
}

fn note(message: &str, priority: NotificationPriority) -> Notification<Secs> {
    Notification::new(message.to_string()).with_priority(priority)
}

fn queue_messages(system: &NotificationSystem<Secs>) -> Vec<String> {
    system.queue.iter().map(|n| n.message.clone()).collect()
}

fn active_messages(system: &NotificationSystem<Secs>) -> Vec<String> {
    system.get_active().iter().map(|n| n.message.clone()).collect()
}

#[test]
fn notification_new_defaults() {
    let n: Notification<Secs> = Notification::new("hello".to_string());
    assert_eq!(n.message, "hello");
    assert_eq!(n.title, None);
    assert_eq!(n.notification_type, NotificationType::Info);
    assert_eq!(n.priority, NotificationPriority::Normal);
    assert_eq!(n.timing, Secs(5.0));
    assert!(n.dismissible);
}

#[test]
fn notification_builders() {
    let n: Notification<Secs> = Notification::new("m".to_string())
        .with_title("T".to_string())
        .with_type(NotificationType::Achievement)
        .with_priority(NotificationPriority::Critical)
        .non_dismissible();
    assert_eq!(n.title, Some("T".to_string()));
    assert_eq!(n.notification_type, NotificationType::Achievement);
    assert_eq!(n.priority, NotificationPriority::Critical);
    assert_eq!(n.timing, Secs(15.0));
    assert!(!n.dismissible);
}

#[test]
fn notification_system_new() {
    let system: NotificationSystem<Secs> = NotificationSystem::new();
    assert!(system.active.is_empty());
    assert!(system.queue.is_empty());
    assert_eq!(system.max_visible, 3);
    assert_eq!(system.next_id, 0);
}

#[test]
fn add_assigns_consecutive_ids() {
    let mut system = NotificationSystem::new();
    system.add(note("a", NotificationPriority::Normal));
    system.add(note("b", NotificationPriority::Normal));
    system.add(note("c", NotificationPriority::Normal));
    let ids: Vec<u64> = system.queue.iter().map(|n| n.id).collect();
    assert_eq!(ids, vec![0, 1, 2]);
    assert_eq!(system.next_id, 3);
}

#[test]
fn queue_sorted_by_priority_and_stable() {
    let mut system = NotificationSystem::new();
    system.add(note("low-1", NotificationPriority::Low));
    system.add(note("normal-1", NotificationPriority::Normal));
    system.add(note("critical-1", NotificationPriority::Critical));
    system.add(note("normal-2", NotificationPriority::Normal));
    system.add(note("high-1", NotificationPriority::High));
    system.add(note("critical-2", NotificationPriority::Critical));
    system.add(note("low-2", NotificationPriority::Low));
    assert_eq!(
        queue_messages(&system),
        vec!["critical-1", "critical-2", "high-1", "normal-1", "normal-2", "low-1", "low-2"]
    );
}

#[test]
fn activate_queued_fills_up_to_max_visible() {
    let mut system = NotificationSystem::new();
    for (m, p) in [
        ("a", NotificationPriority::Normal),
        ("b", NotificationPriority::High),
        ("c", NotificationPriority::Normal),
        ("d", NotificationPriority::Low),
        ("e", NotificationPriority::Critical),
    ] {
        system.add(note(m, p));
    }
    system.activate_queued();
    assert_eq!(active_messages(&system), vec!["e", "b", "a"]);
    assert_eq!(queue_messages(&system), vec!["c", "d"]);
    system.activate_queued();
    assert_eq!(active_messages(&system).len(), 3);
    system.dismiss(4); // "e" got id 4
    assert_eq!(active_messages(&system), vec!["b", "a"]);
    system.activate_queued();
    assert_eq!(active_messages(&system), vec!["b", "a", "c"]);
    assert_eq!(queue_messages(&system), vec!["d"]);
}

#[test]
fn activate_queued_with_short_queue() {
    let mut system = NotificationSystem::new();
    system.max_visible = 10;
    system.add(note("x", NotificationPriority::Normal));
    system.activate_queued();
    assert_eq!(active_messages(&system), vec!["x"]);
    assert!(system.queue.is_empty());
}

#[test]
fn dismiss_unknown_id_changes_nothing() {
    let mut system = NotificationSystem::new();
    system.add(note("x", NotificationPriority::Normal));
    system.activate_queued();
    system.dismiss(99);
    assert_eq!(active_messages(&system), vec!["x"]);
}

#[test]
fn dismiss_all_dismissible_keeps_the_others() {
    let mut system = NotificationSystem::new();
    system.add(note("keep", NotificationPriority::High).non_dismissible());
    system.add(note("drop", NotificationPriority::Normal));
    system.add(note("drop-too", NotificationPriority::Low));
    system.activate_queued();
    system.dismiss_all_dismissible();
    assert_eq!(active_messages(&system), vec!["keep"]);
}

#[test]
fn clear_empties_everything() {
    let mut system = NotificationSystem::new();
    system.max_visible = 1;
    system.add(note("a", NotificationPriority::Normal));
    system.add(note("b", NotificationPriority::Normal));
    system.activate_queued();
    system.clear();
    assert!(system.active.is_empty());
    assert!(system.queue.is_empty());
    assert_eq!(system.next_id, 2);
}

#[test]
fn convenience_messages() {
    let mut system: NotificationSystem<Secs> = NotificationSystem::new();
    system.info("i".to_string());
    system.warning("w".to_string());
    system.error("e".to_string());
    system.success("s".to_string());
    let kinds: Vec<(String, NotificationType, NotificationPriority, Secs)> = system
        .queue
        .iter()
        .map(|n| (n.message.clone(), n.notification_type, n.priority, n.timing))
        .collect();
    assert_eq!(
        kinds,
        vec![
            ("e".to_string(), NotificationType::Error, NotificationPriority::Critical, Secs(15.0)),
            ("w".to_string(), NotificationType::Warning, NotificationPriority::High, Secs(8.0)),
            ("i".to_string(), NotificationType::Info, NotificationPriority::Normal, Secs(5.0)),
            ("s".to_string(), NotificationType::Success, NotificationPriority::Normal, Secs(5.0)),
        ]
    );
}

#[test]
fn preset_notifications() {
    let stuck: Notification<Secs> = vehicle_stuck();
    assert_eq!(stuck.message, "Vehicle is stuck! Try using the winch or differential lock.");
    assert_eq!(stuck.title, Some("Stuck".to_string()));
    assert_eq!(stuck.notification_type, NotificationType::Warning);
    assert_eq!(stuck.priority, NotificationPriority::Normal);

    let fuel: Notification<Secs> = low_fuel();
    assert_eq!(fuel.message, "Fuel level is critically low!");
    assert_eq!(fuel.title, Some("Low Fuel".to_string()));
    assert_eq!(fuel.priority, NotificationPriority::High);
    assert_eq!(fuel.timing, Secs(8.0));

    let cp: Notification<Secs> = checkpoint_reached("Ridge");
    assert_eq!(cp.message, "Checkpoint reached: Ridge");
    assert_eq!(cp.title, Some("Checkpoint".to_string()));
    assert_eq!(cp.notification_type, NotificationType::Success);
}

#[test]
fn tutorial_and_achievement_display_times() {
    let mut system: NotificationSystem<Secs> = NotificationSystem::new();
    system.tutorial("Use WASD to drive".to_string());
    system.achievement("First Steps".to_string(), "Drove a truck".to_string());
    let queued: Vec<_> = system
        .queue
        .iter()
        .map(|n| (n.message.clone(), n.title.clone(), n.notification_type, n.priority, n.timing, n.id))
        .collect();
    assert_eq!(
        queued,
        vec![
            (
                "Drove a truck".to_string(),
                Some("First Steps".to_string()),
                NotificationType::Achievement,
                NotificationPriority::High,
                Secs(10.0),
                1
            ),
            ("Use WASD to drive".to_string(), None, NotificationType::Tutorial, NotificationPriority::Normal, Secs(8.0), 0),
        ]
    );
    assert_eq!(system.next_id, 2);
}

#[test]
fn with_duration_sets_display_time_only() {
    let n: Notification<Secs> = Notification::new("x".to_string())
        .with_priority(NotificationPriority::Critical)
        .with_duration(4);
    assert_eq!(n.timing, Secs(4.0));
    assert_eq!(n.priority, NotificationPriority::Critical);
    let m: Notification<Secs> = Notification::new("y".to_string()).with_priority(NotificationPriority::Low);
    assert_eq!(m.timing, Secs(3.0));
}

#[test]
fn timed_presets() {
    let done: Notification<Secs> = mission_complete("Valley Sprint");
    assert_eq!(done.message, "Mission completed: Valley Sprint");
    assert_eq!(done.title, Some("Mission Complete".to_string()));
    assert_eq!(done.notification_type, NotificationType::Success);
    assert_eq!(done.priority, NotificationPriority::High);
    assert_eq!(done.timing, Secs(10.0));
    let shorts: Vec<Notification<Secs>> = vec![
        winch_attached(),
        winch_detached(),
        diff_lock_enabled(),
        diff_lock_disabled(),
        four_wd_enabled(),
        four_wd_disabled(),
    ];
    let texts: Vec<String> = shorts.iter().map(|n| n.message.clone()).collect();
    assert_eq!(
        texts,
        vec![
            "Winch attached",
            "Winch detached",
            "Differential lock engaged",
            "Differential lock disengaged",
            "4WD engaged",
            "4WD disengaged"
        ]
    );
    for n in &shorts {
        assert_eq!(n.timing, Secs(2.0));
        assert_eq!(n.notification_type, NotificationType::Info);
        assert_eq!(n.priority, NotificationPriority::Normal);
        assert_eq!(n.title, None);
    }
}

#[test]
fn add_to_sorted_queue_goes_after_equal_priorities() {
    let mut system: NotificationSystem<Secs> = NotificationSystem::new();
    system.add(note("c", NotificationPriority::Critical));
    system.add(note("h1", NotificationPriority::High));
    system.add(note("l", NotificationPriority::Low));
    system.add(note("h2", NotificationPriority::High));
    system.add(note("n", NotificationPriority::Normal));
    assert_eq!(queue_messages(&system), vec!["c", "h1", "h2", "n", "l"]);
    let ids: Vec<u64> = system.queue.iter().map(|n| n.id).collect();
    assert_eq!(ids, vec![0, 1, 3, 4, 2]);
}

#[test]
fn priority_display_seconds_table() {
    assert_eq!(priority_seconds(NotificationPriority::Low), 3);
    assert_eq!(priority_seconds(NotificationPriority::Normal), 5);
    assert_eq!(priority_seconds(NotificationPriority::High), 8);
    assert_eq!(priority_seconds(NotificationPriority::Critical), 15);
    let times: Vec<Secs> = [
        NotificationPriority::Low,
        NotificationPriority::Normal,
        NotificationPriority::High,
        NotificationPriority::Critical,
    ]
    .iter()
    .map(|p| Notification::<Secs>::new("t".to_string()).with_priority(*p).timing)
    .collect();
    assert_eq!(times, vec![Secs(3.0), Secs(5.0), Secs(8.0), Secs(15.0)]);
}
