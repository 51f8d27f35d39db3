//! Mission system: mission kinds and rewards, mission life cycle (start,
//! cancel, complete, fail) and reward accounting.
//!
//! A mission's course (positions, checkpoints, objectives, cargo, time limit
//! and elapsed time) is kept by the application in the mission's `course`
//! field; the library keeps the mission's status and the player's totals.

use vstd::prelude::*;

verus! {

/// Mission type enumeration
#[derive(Debug, Clone, Copy, PartialEq, Eq, Structural)]
pub enum MissionType {
    /// Deliver cargo from A to B
    Delivery,
    /// Recover a broken vehicle
    Recovery,
    /// Reach all checkpoints in order
    CheckpointRun,
    /// Explore and find collectibles
    Exploration,
    /// Complete course within time limit
    TimeTrial,
    /// Survive in harsh conditions
    Survival,
}

/// Mission difficulty
#[derive(Debug, Clone, Copy, PartialEq, Eq, Structural)]
pub enum MissionDifficulty {
    Easy,
    Normal,
    Hard,
    Extreme,
}

/// Cargo type for delivery missions
#[derive(Debug, Clone, Copy, PartialEq, Eq, Structural)]
pub enum CargoType {
    Supplies,
    Fuel,
    Equipment,
    Logs,
    ConstructionMaterials,
    EmergencyAid,
}

/// Mission reward
#[derive(Debug, Clone, Default)]
pub struct MissionReward {
    /// Money reward
    pub money: u32,
    /// Experience points
    pub experience: u32,
    /// Unlock new region (region ID)
    pub unlock_region: Option<u32>,
    /// Unlock new vehicle
    pub unlock_vehicle: Option<String>,
    /// Reputation gain
    pub reputation: i32,
}

/// The course of a mission, kept by the application.
pub trait MissionCourse {
    /// Whether the course stands at its start: no time elapsed, no objective
    /// completed or in progress, and no checkpoint activated.
    spec fn at_start(&self) -> bool;

    /// Puts the course back to its start.
    fn reset(&mut self)
        ensures
            final(self).at_start(),
    ;
}

/// Complete mission data
#[derive(Debug, Clone)]
pub struct Mission<C> {
    /// Unique mission ID
    pub id: usize,
    /// Mission name
    pub name: String,
    /// Mission description
    pub description: String,
    /// Type of mission
    pub mission_type: MissionType,
    /// Difficulty level
    pub difficulty: MissionDifficulty,
    /// Start service point (if any)
    pub start_service_point: Option<u32>,
    /// End service point (if any)
    pub end_service_point: Option<u32>,
    /// Positions, checkpoints, objectives, cargo, time limit and elapsed time
    pub course: C,
    /// Is mission active
    pub is_active: bool,
    /// Is mission completed
    pub is_completed: bool,
    /// Is mission failed
    pub is_failed: bool,
    /// Failure reason
    pub failure_reason: Option<String>,
    /// Reward for completion
    pub reward: MissionReward,
}

/// Whether every flag of `s` is set (true of no flags at all).
pub open spec fn all_done(s: Seq<bool>) -> bool {
    forall|i: int| 0 <= i < s.len() ==> s[i]
}

/// Whether a mission of type `t` has reached its goal, given which of its
/// objectives are completed and which of its checkpoints are activated: a
/// checkpoint run needs every checkpoint, every other mission every
/// objective.
pub open spec fn course_finished(t: MissionType, objectives: Seq<bool>, checkpoints: Seq<bool>) -> bool {
    if t == MissionType::CheckpointRun {
        all_done(checkpoints)
    } else {
        all_done(objectives)
    }
}

/// A mission that is under way: active, neither completed nor failed.
pub open spec fn is_running<C>(m: Mission<C>) -> bool {
    m.is_active && !m.is_completed && !m.is_failed
}

/// Whether every flag in `flags` is set.
fn all_set(flags: &[bool]) -> (r: bool)
    ensures
        r == all_done(flags@),
{
    let mut k: usize = 0;
    while k < flags.len()
        invariant
            k <= flags@.len(),
            forall|i: int| 0 <= i < k ==> flags@[i],
        decreases flags@.len() - k,
    {
        if !flags[k] {
            return false;
        }
        k = k + 1;
    }
    true
}

impl<C> Mission<C> {
    /// Completes the mission when its course is finished: a checkpoint run
    /// once every checkpoint is activated, every other mission once every
    /// objective is completed. Otherwise nothing changes.
    pub fn check_completion(&mut self, objectives_done: &[bool], checkpoints_done: &[bool])
        ensures
            *final(self) == if course_finished(
                old(self).mission_type,
                objectives_done@,
                checkpoints_done@,
            ) {
                Mission { is_completed: true, is_active: false, ..*old(self) }
            } else {
                *old(self)
            },
    {
        let finished = match self.mission_type {
            MissionType::CheckpointRun => all_set(checkpoints_done),
            _ => all_set(objectives_done),
        };
        if finished {
            self.complete();
        }
    }

    /// The decisions of a frame update, taken after the application has
    /// advanced the course (elapsed time, objective progress, checkpoints).
    /// A mission that is not under way is left alone. Otherwise it fails
    /// with "Time limit exceeded" when its time limit was passed, else with
    /// "Cargo destroyed" when its cargo took its maximum damage, else it
    /// completes when its course is finished.
    pub fn advance(
        &mut self,
        time_exceeded: bool,
        cargo_destroyed: bool,
        objectives_done: &[bool],
        checkpoints_done: &[bool],
    )
        ensures
            !is_running(*old(self)) ==> *final(self) == *old(self),
            is_running(*old(self)) && (time_exceeded || cargo_destroyed) ==> {
                &&& *final(self) == (Mission {
                    is_failed: true,
                    is_active: false,
                    failure_reason: final(self).failure_reason,
                    ..*old(self)
                })
                &&& final(self).failure_reason matches Some(r) && r@ == if time_exceeded {
                    "Time limit exceeded"@
                } else {
                    "Cargo destroyed"@
                }
            },
            is_running(*old(self)) && !time_exceeded && !cargo_destroyed ==> *final(self) == if course_finished(
                old(self).mission_type,
                objectives_done@,
                checkpoints_done@,
            ) {
                Mission { is_completed: true, is_active: false, ..*old(self) }
            } else {
                *old(self)
            },
    {
        if !self.is_active || self.is_completed || self.is_failed {
            return;
        }
        if time_exceeded {
            self.fail(String::from_str("Time limit exceeded"));
            return;
        }
        if cargo_destroyed {
            self.fail(String::from_str("Cargo destroyed"));
            return;
        }
        self.check_completion(objectives_done, checkpoints_done);
    }

    /// Complete the mission
    pub fn complete(&mut self)
        ensures
            *final(self) == (Mission { is_completed: true, is_active: false, ..*old(self) }),
    {
        self.is_completed = true;
        self.is_active = false;
    }

    /// Fail the mission
    pub fn fail(&mut self, reason: String)
        ensures
            *final(self) == (Mission {
                is_failed: true,
                is_active: false,
                failure_reason: Some(reason),
                ..*old(self)
            }),
    {
        self.is_failed = true;
        self.is_active = false;
        self.failure_reason = Some(reason);
    }
}

/// A mission that has not been started, completed or failed.
pub open spec fn is_available<C>(m: Mission<C>) -> bool {
    !m.is_active && !m.is_completed && !m.is_failed
}

/// The available missions of `ms`, in their order.
pub open spec fn available<C>(ms: Seq<Mission<C>>) -> Seq<Mission<C>>
    decreases ms.len(),
{
    if ms.len() == 0 {
        Seq::empty()
    } else {
        let rest = available(ms.drop_last());
        if is_available(ms.last()) {
            rest.push(ms.last())
        } else {
            rest
        }
    }
}

/// Whether `start_mission(id)` starts the mission: it exists and is
/// neither active nor completed.
pub open spec fn can_start<C>(ms: Seq<Mission<C>>, id: usize) -> bool {
    id < ms.len() && !ms[id as int].is_active && !ms[id as int].is_completed
}

/// Mission `m` as `start_mission` leaves it, apart from its course: active,
/// neither completed nor failed, without a failure reason.
pub open spec fn started<C>(m: Mission<C>, course: C) -> Mission<C> {
    Mission {
        is_active: true,
        is_completed: false,
        is_failed: false,
        failure_reason: None,
        course,
        ..m
    }
}

/// Whether settling pays out: there is an active mission index naming an
/// existing mission, and that mission is completed.
pub open spec fn pays_out<C>(ms: Seq<Mission<C>>, active: Option<usize>) -> bool {
    match active {
        Some(i) => i < ms.len() && ms[i as int].is_completed,
        None => false,
    }
}

/// Mission manager
pub struct MissionManager<C> {
    /// All available missions
    pub missions: Vec<Mission<C>>,
    /// Currently active mission index
    pub active_mission_index: Option<usize>,
    /// Completed mission IDs
    pub completed_missions: Vec<usize>,
    /// Total money earned
    pub total_money: u32,
    /// Total experience earned
    pub total_experience: u32,
    /// Player reputation
    pub reputation: i32,
}

impl<C> MissionManager<C> {
    /// A mission manager offering `missions`, none active, nothing earned.
    pub fn new(missions: Vec<Mission<C>>) -> (manager: Self)
        ensures
            manager.missions@ == missions@,
            manager.active_mission_index is None,
            manager.completed_missions@ == Seq::<usize>::empty(),
            manager.total_money == 0,
            manager.total_experience == 0,
            manager.reputation == 0,
    {
        MissionManager {
            missions,
            active_mission_index: None,
            completed_missions: Vec::new(),
            total_money: 0,
            total_experience: 0,
            reputation: 0,
        }
    }

    /// Cancel active mission: it stops being active and no mission is active.
    pub fn cancel_mission(&mut self)
        ensures
            final(self).active_mission_index is None,
            final(self).missions@ == match old(self).active_mission_index {
                Some(i) => if i < old(self).missions@.len() {
                    old(self).missions@.update(
                        i as int,
                        Mission { is_active: false, ..old(self).missions@[i as int] },
                    )
                } else {
                    old(self).missions@
                },
                None => old(self).missions@,
            },
            final(self).completed_missions@ == old(self).completed_missions@,
            final(self).total_money == old(self).total_money,
            final(self).total_experience == old(self).total_experience,
            final(self).reputation == old(self).reputation,
    {
        if let Some(index) = self.active_mission_index {
            if index < self.missions.len() {
                let mut mission = self.missions.remove(index);
                mission.is_active = false;
                self.missions.insert(index, mission);
                assert(self.missions@ =~= old(self).missions@.update(
                    index as int,
                    Mission { is_active: false, ..old(self).missions@[index as int] },
                ));
            }
            self.active_mission_index = None;
        }
    }

    /// The last step of a frame update, after the active mission's course
    /// was advanced: when the active mission is completed, its reward is
    /// added to the totals, its id joins the completed missions and no
    /// mission is active any more. Otherwise nothing changes. Adding to the
    /// totals panics in std on overflow, which the precondition rules out.
    pub fn settle_active_mission(&mut self)
        requires
            pays_out(old(self).missions@, old(self).active_mission_index) ==> {
                let m = old(self).missions@[old(self).active_mission_index->0 as int];
                &&& old(self).total_money + m.reward.money <= u32::MAX
                &&& old(self).total_experience + m.reward.experience <= u32::MAX
                &&& i32::MIN <= old(self).reputation + m.reward.reputation <= i32::MAX
            },
        ensures
            final(self).missions@ == old(self).missions@,
            pays_out(old(self).missions@, old(self).active_mission_index) ==> {
                let m = old(self).missions@[old(self).active_mission_index->0 as int];
                &&& final(self).total_money == old(self).total_money + m.reward.money
                &&& final(self).total_experience == old(self).total_experience
                    + m.reward.experience
                &&& final(self).reputation == old(self).reputation + m.reward.reputation
                &&& final(self).completed_missions@ == old(self).completed_missions@.push(m.id)
                &&& final(self).active_mission_index is None
            },
            !pays_out(old(self).missions@, old(self).active_mission_index) ==> {
                &&& final(self).total_money == old(self).total_money
                &&& final(self).total_experience == old(self).total_experience
                &&& final(self).reputation == old(self).reputation
                &&& final(self).completed_missions@ == old(self).completed_missions@
                &&& final(self).active_mission_index == old(self).active_mission_index
            },
    {
        if let Some(index) = self.active_mission_index {
            if index < self.missions.len() {
                if self.missions[index].is_completed {
                    self.total_money += self.missions[index].reward.money;
                    self.total_experience += self.missions[index].reward.experience;
                    self.reputation += self.missions[index].reward.reputation;
                    self.completed_missions.push(self.missions[index].id);
                    self.active_mission_index = None;
                }
            }
        }
    }

    /// Get active mission
    pub fn get_active_mission(&self) -> (mission: Option<&Mission<C>>)
        ensures
            match self.active_mission_index {
                Some(i) => if i < self.missions@.len() {
                    mission matches Some(m) && *m == self.missions@[i as int]
                } else {
                    mission is None
                },
                None => mission is None,
            },
    {
        match self.active_mission_index {
            Some(i) => {
                if i < self.missions.len() {
                    Some(&self.missions[i])
                } else {
                    None
                }
            },
            None => None,
        }
    }

    /// Get mutable active mission: the active mission, if the active index
    /// names an existing one; changes made through it land in that mission
    /// and nowhere else.
    pub fn get_active_mission_mut(&mut self) -> (mission: Option<&mut Mission<C>>)
        ensures
            final(self).active_mission_index == old(self).active_mission_index,
            final(self).completed_missions@ == old(self).completed_missions@,
            final(self).total_money == old(self).total_money,
            final(self).total_experience == old(self).total_experience,
            final(self).reputation == old(self).reputation,
            match old(self).active_mission_index {
                Some(i) => if i < old(self).missions@.len() {
                    &&& mission matches Some(m)
                    &&& *mission->0 == old(self).missions@[i as int]
                    &&& final(self).missions@ == old(self).missions@.update(i as int, *final(mission->0))
                } else {
                    mission is None && final(self).missions@ == old(self).missions@
                },
                None => mission is None && final(self).missions@ == old(self).missions@,
            },
    {
        match self.active_mission_index {
            Some(i) => {
                if i < self.missions.len() {
                    Some(&mut self.missions[i])
                } else {
                    None
                }
            },
            None => None,
        }
    }

    /// Get available (not started) missions: those neither active, completed
    /// nor failed, in order.
    pub fn get_available_missions(&self) -> (result: Vec<&Mission<C>>)
        ensures
            result@.len() == available(self.missions@).len(),
            forall|i: int|
                0 <= i < result@.len() ==> *#[trigger] result@[i] == available(
                    self.missions@,
                )[i],
    {
        let mut result: Vec<&Mission<C>> = Vec::new();
        let n = self.missions.len();
        let mut k: usize = 0;
        while k < n
            invariant
                n == self.missions@.len(),
                k <= n,
                result@.len() == available(self.missions@.take(k as int)).len(),
                forall|i: int|
                    0 <= i < result@.len() ==> *#[trigger] result@[i] == available(
                        self.missions@.take(k as int),
                    )[i],
            decreases n - k,
        {
            assert(self.missions@.take((k + 1) as int).drop_last() == self.missions@.take(
                k as int,
            ));
            let m = &self.missions[k];
            if !m.is_active && !m.is_completed && !m.is_failed {
                result.push(m);
            }
            k = k + 1;
        }
        assert(self.missions@.take(n as int) == self.missions@);
        result
    }
}

impl<C: MissionCourse> MissionManager<C> {
    /// Start a mission: a mission that exists and is neither active nor
    /// completed becomes active (failure cleared, course reset) and the
    /// active one; the result says whether that happened. Otherwise nothing
    /// changes.
    pub fn start_mission(&mut self, mission_id: usize) -> (started_ok: bool)
        ensures
            started_ok == can_start(old(self).missions@, mission_id),
            !started_ok ==> final(self).missions@ == old(self).missions@
                && final(self).active_mission_index == old(self).active_mission_index,
            started_ok ==> {
                &&& final(self).missions@.len() == old(self).missions@.len()
                &&& forall|j: int|
                    0 <= j < old(self).missions@.len() && j != mission_id ==> final(self).missions@[j]
                        == old(self).missions@[j]
                &&& final(self).missions@[mission_id as int] == started(
                    old(self).missions@[mission_id as int],
                    final(self).missions@[mission_id as int].course,
                )
                &&& final(self).missions@[mission_id as int].course.at_start()
                &&& final(self).active_mission_index == Some(mission_id)
            },
            final(self).completed_missions@ == old(self).completed_missions@,
            final(self).total_money == old(self).total_money,
            final(self).total_experience == old(self).total_experience,
            final(self).reputation == old(self).reputation,
    {
        if mission_id < self.missions.len() {
            if self.missions[mission_id].is_active || self.missions[mission_id].is_completed {
                return false;
            }
            let mut mission = self.missions.remove(mission_id);
            mission.is_active = true;
            mission.is_completed = false;
            mission.is_failed = false;
            mission.failure_reason = None;
            mission.course.reset();
            self.missions.insert(mission_id, mission);
            self.active_mission_index = Some(mission_id);
            true
        } else {
            false
        }
    }
}

/// A mission's course is finished exactly when every one of its goals is
/// reached: every checkpoint for a checkpoint run, every objective for every
/// other kind of mission. A single goal not reached keeps it unfinished.
pub proof fn lemma_course_finished_needs_every_goal(
    t: MissionType,
    objectives: Seq<bool>,
    checkpoints: Seq<bool>,
    k: int,
)
    ensures
        t != MissionType::CheckpointRun ==> (course_finished(t, objectives, checkpoints) <==> (
        forall|i: int| 0 <= i < objectives.len() ==> objectives[i])),
        t == MissionType::CheckpointRun ==> (course_finished(t, objectives, checkpoints) <==> (
        forall|i: int| 0 <= i < checkpoints.len() ==> checkpoints[i])),
        t != MissionType::CheckpointRun && 0 <= k < objectives.len() && !objectives[k]
            ==> !course_finished(t, objectives, checkpoints),
        t == MissionType::CheckpointRun && 0 <= k < checkpoints.len() && !checkpoints[k]
            ==> !course_finished(t, objectives, checkpoints),
{
}

/// The available missions are the missions, in their order, that are not
/// active, not completed and not failed: none listed is under way, finished
/// or failed, every such mission is listed, and adding a mission at the end
/// lists it last exactly when it is such a mission.
pub proof fn lemma_available_missions<C>(ms: Seq<Mission<C>>, m: Mission<C>)
    ensures
        available(Seq::<Mission<C>>::empty()) == Seq::<Mission<C>>::empty(),
        available(ms.push(m)) == if !m.is_active && !m.is_completed && !m.is_failed {
            available(ms).push(m)
        } else {
            available(ms)
        },
        available(ms).len() <= ms.len(),
        forall|i: int|
            0 <= i < available(ms).len() ==> {
                let a = #[trigger] available(ms)[i];
                &&& !a.is_active
                &&& !a.is_completed
                &&& !a.is_failed
                &&& ms.contains(a)
            },
        forall|j: int|
            0 <= j < ms.len() && !ms[j].is_active && !ms[j].is_completed && !ms[j].is_failed
                ==> available(ms).contains(#[trigger] ms[j]),
    decreases ms.len(),
{
    assert(ms.push(m).drop_last() == ms);
    if ms.len() > 0 {
        let t = ms.drop_last();
        lemma_available_missions(t, ms.last());
        assert(t.push(ms.last()) == ms);
        assert forall|i: int| 0 <= i < available(ms).len() implies {
            let a = #[trigger] available(ms)[i];
            &&& !a.is_active
            &&& !a.is_completed
            &&& !a.is_failed
            &&& ms.contains(a)
        } by {
            let a = available(ms)[i];
            if i < available(t).len() {
                assert(a == available(t)[i]);
                let w = choose|w: int| 0 <= w < t.len() && t[w] == a;
                assert(ms[w] == a);
            } else {
                assert(a == ms[ms.len() - 1]);
            }
        }
        assert forall|j: int|
            0 <= j < ms.len() && !ms[j].is_active && !ms[j].is_completed && !ms[j].is_failed
                implies available(ms).contains(#[trigger] ms[j]) by {
            if j < t.len() {
                assert(ms[j] == t[j]);
                let w = choose|w: int| 0 <= w < available(t).len() && available(t)[w] == t[j];
                assert(available(ms)[w] == available(t)[w]);
            } else {
                assert(available(ms)[available(ms).len() - 1] == ms[j]);
            }
        }
    }
}

/// A completed mission can never be started again, and starting a mission
/// makes it the active one, not completed; so settling pays for a mission
/// only once it has been completed after being started. A payout leaves no
/// active mission, and with no active mission settling pays nothing.
pub proof fn lemma_completed_missions_do_not_restart<C>(ms: Seq<Mission<C>>, id: usize, course: C)
    ensures
        id < ms.len() && ms[id as int].is_completed ==> !can_start(ms, id),
        id < ms.len() && ms[id as int].is_active ==> !can_start(ms, id),
        can_start(ms, id) ==> !pays_out(ms.update(id as int, started(ms[id as int], course)), Some(id)),
        !pays_out(ms, None),
{
}

/// A mission can be started exactly when it exists and is neither under
/// way nor completed, so a failed mission can be tried again; a started
/// mission is running; and settling pays out only for an existing
/// completed mission named by the active index.
pub proof fn lemma_start_and_payout_rules<C>(ms: Seq<Mission<C>>, id: usize, course: C)
    ensures
        can_start(ms, id) <==> (id < ms.len() && !ms[id as int].is_active
            && !ms[id as int].is_completed),
        id < ms.len() && ms[id as int].is_failed && !ms[id as int].is_active
            && !ms[id as int].is_completed ==> can_start(ms, id),
        id < ms.len() ==> is_running(started(ms[id as int], course)),
        id < ms.len() ==> started(ms[id as int], course).failure_reason is None
            && started(ms[id as int], course).id == ms[id as int].id
            && started(ms[id as int], course).reward == ms[id as int].reward,
        pays_out(ms, Some(id)) <==> (id < ms.len() && ms[id as int].is_completed),
        is_running(ms[id as int]) <==> (ms[id as int].is_active && !ms[id as int].is_completed
            && !ms[id as int].is_failed),
{
}

} // verus!
