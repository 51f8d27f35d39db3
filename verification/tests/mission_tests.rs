use offroad_frontier::systems::mission::{
    Mission, MissionCourse, MissionDifficulty, MissionManager, MissionReward, MissionType,
};

#[derive(Debug, Clone, PartialEq)]
struct Course {
    elapsed: u32,
    resets: u32,
}

impl MissionCourse for Course {
    fn at_start(&self) -> bool {
        self.elapsed == 0
    }

    fn reset(&mut self) {
        self.elapsed = 0;
        self.resets += 1;
    }
}

fn mission(id: usize, money: u32, experience: u32, reputation: i32) -> Mission<Course> {
    Mission {
        id,
        name: format!("m{}", id),
        description: String::new(),
        mission_type: MissionType::Delivery,
        difficulty: MissionDifficulty::Easy,
        start_service_point: None,
        end_service_point: None,
        course: Course { elapsed: 7, resets: 0 },
        is_active: false,
        is_completed: false,
        is_failed: false,
        failure_reason: None,
        reward: MissionReward {
            money,
            experience,
            unlock_region: None,
            unlock_vehicle: None,
            reputation,
        },
    }
}

fn manager() -> MissionManager<Course> {
    MissionManager::new(vec![mission(0, 500, 100, 10), mission(1, 800, 200, 20)])
}

#[test]
fn new_manager_has_nothing_earned() {
    let m = manager();
    assert_eq!(m.missions.len(), 2);
    assert_eq!(m.active_mission_index, None);
    assert!(m.completed_missions.is_empty());
    assert_eq!((m.total_money, m.total_experience, m.reputation), (0, 0, 0));
    assert!(m.get_active_mission().is_none());
    assert_eq!(m.get_available_missions().len(), 2);
}

#[test]
fn start_mission_activates_and_resets() {
    let mut m = manager();
    m.missions[0].is_failed = true;
    m.missions[0].failure_reason = Some("old".to_string());
    assert!(m.start_mission(0));
    assert_eq!(m.active_mission_index, Some(0));
    let active = m.get_active_mission().unwrap();
    assert!(active.is_active && !active.is_completed && !active.is_failed);
    assert_eq!(active.failure_reason, None);
    assert_eq!(active.course, Course { elapsed: 0, resets: 1 });
    // starting it again is refused
    assert!(!m.start_mission(0));
    // unknown missions are refused
    assert!(!m.start_mission(5));
    assert_eq!(m.active_mission_index, Some(0));
}

#[test]
fn completed_mission_pays_once() {
    let mut m = manager();
    assert!(m.start_mission(1));
    m.settle_active_mission();
    assert_eq!(m.total_money, 0);
    m.missions[1].complete();
    assert!(!m.missions[1].is_active);
    m.settle_active_mission();
    assert_eq!((m.total_money, m.total_experience, m.reputation), (800, 200, 20));
    assert_eq!(m.completed_missions, vec![1]);
    assert_eq!(m.active_mission_index, None);
    m.settle_active_mission();
    assert_eq!(m.total_money, 800);
    assert!(!m.start_mission(1));
}

#[test]
fn negative_reputation_reward() {
    let mut m = MissionManager::new(vec![mission(3, 1, 2, -5)]);
    assert!(m.start_mission(0));
    m.missions[0].complete();
    m.settle_active_mission();
    assert_eq!(m.reputation, -5);
    assert_eq!(m.completed_missions, vec![3]);
}

#[test]
fn fail_and_cancel() {
    let mut m = manager();
    assert!(m.start_mission(0));
    m.missions[0].fail("Cargo destroyed".to_string());
    assert!(m.missions[0].is_failed);
    assert!(!m.missions[0].is_active);
    assert_eq!(m.missions[0].failure_reason, Some("Cargo destroyed".to_string()));
    m.settle_active_mission();
    assert_eq!(m.total_money, 0);
    assert_eq!(m.active_mission_index, Some(0));
    m.cancel_mission();
    assert_eq!(m.active_mission_index, None);
    let names: Vec<String> = m.get_available_missions().iter().map(|x| x.name.clone()).collect();
    assert_eq!(names, vec!["m1"]);
    // a failed mission can be started again
    assert!(m.start_mission(0));
    assert!(!m.missions[0].is_failed);
}

#[test]
fn cancel_deactivates_active_mission() {
    let mut m = manager();
    assert!(m.start_mission(1));
    m.cancel_mission();
    assert!(!m.missions[1].is_active);
    assert_eq!(m.active_mission_index, None);
    m.cancel_mission();
    assert_eq!(m.active_mission_index, None);
    assert_eq!(m.get_available_missions().len(), 2);
}

fn running(mission_type: MissionType) -> Mission<Course> {
    let mut m = mission(9, 10, 20, 1);
    m.mission_type = mission_type;
    m.is_active = true;
    m
}

#[test]
fn advance_fails_on_time_limit_first() {
    let mut m = running(MissionType::Delivery);
    m.advance(true, true, &[true, true], &[]);
    assert!(m.is_failed && !m.is_active && !m.is_completed);
    assert_eq!(m.failure_reason, Some("Time limit exceeded".to_string()));
}

#[test]
fn advance_fails_on_destroyed_cargo() {
    let mut m = running(MissionType::Delivery);
    m.advance(false, true, &[true, true], &[]);
    assert!(m.is_failed && !m.is_active);
    assert_eq!(m.failure_reason, Some("Cargo destroyed".to_string()));
}

#[test]
fn advance_completes_when_objectives_done() {
    let mut m = running(MissionType::Delivery);
    m.advance(false, false, &[true, false], &[]);
    assert!(m.is_active && !m.is_completed);
    m.advance(false, false, &[true, true], &[false]);
    assert!(m.is_completed && !m.is_active && !m.is_failed);
    assert_eq!(m.failure_reason, None);
}

#[test]
fn advance_checkpoint_run_needs_every_checkpoint() {
    let mut m = running(MissionType::CheckpointRun);
    m.advance(false, false, &[], &[true, true, false]);
    assert!(m.is_active && !m.is_completed);
    m.advance(false, false, &[false], &[true, true, true]);
    assert!(m.is_completed && !m.is_active);
}

#[test]
fn advance_leaves_idle_missions_alone() {
    let mut m = mission(4, 1, 1, 1);
    m.advance(true, true, &[true], &[true]);
    assert!(!m.is_active && !m.is_failed && !m.is_completed);
    assert_eq!(m.failure_reason, None);
    let mut done = running(MissionType::Exploration);
    done.complete();
    done.advance(true, false, &[], &[]);
    assert!(done.is_completed && !done.is_failed);
}

#[test]
fn check_completion_with_no_objectives() {
    let mut m = running(MissionType::Survival);
    m.check_completion(&[], &[false]);
    assert!(m.is_completed);
}
