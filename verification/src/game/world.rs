//! World objects: their kinds, checkpoints and collectibles.
//!
//! Where an object lies in the world (positions and radii) is kept by the
//! application in the object's generic place field.

use vstd::prelude::*;

verus! {

/// Kind of a winch anchor placed in the world
#[derive(Debug, Clone, Copy, PartialEq, Eq, Structural)]
pub enum AnchorType {
    Tree,
    Rock,
    Building,
    Tower,
    Vehicle,
    Custom,
}

/// Kind of a collectible item
#[derive(Debug, Clone, Copy, PartialEq, Eq, Structural)]
pub enum CollectibleType {
    Scrap,
    Parts,
    FuelCanister,
    Document,
    Photo,
    Secret,
}

/// Kind of a hazard zone
#[derive(Debug, Clone, Copy, PartialEq, Eq, Structural)]
pub enum HazardType {
    DeepWater,
    SteepCliff,
    MudPit,
    IcePatch,
    RockField,
    FallenTree,
    BrokenBridge,
}

/// Checkpoint for missions
#[derive(Debug, Clone)]
pub struct Checkpoint<A> {
    /// Checkpoint ID
    pub id: usize,
    /// Where it lies: position in world space and the radius that triggers it
    pub area: A,
    /// Is checkpoint activated
    pub is_activated: bool,
    /// Next checkpoint ID (if any)
    pub next_checkpoint: Option<usize>,
}

/// Collectible item in the world
#[derive(Debug, Clone)]
pub struct Collectible<P> {
    /// Collectible ID
    pub id: u32,
    /// Position in world space
    pub spot: P,
    /// Type of collectible
    pub collectible_type: CollectibleType,
    /// Is collectible already collected
    pub is_collected: bool,
    /// Value/score when collected
    pub value: u32,
}

/// Activate checkpoint: the checkpoint at index `checkpoint_id` becomes
/// activated if it exists and was not activated yet, and the result says
/// whether that happened. Otherwise nothing changes.
pub fn activate_checkpoint<A>(checkpoints: &mut Vec<Checkpoint<A>>, checkpoint_id: usize) -> (activated: bool)
    ensures
        activated == (checkpoint_id < old(checkpoints)@.len()
            && !old(checkpoints)@[checkpoint_id as int].is_activated),
        activated ==> final(checkpoints)@ == old(checkpoints)@.update(
            checkpoint_id as int,
            Checkpoint { is_activated: true, ..old(checkpoints)@[checkpoint_id as int] },
        ),
        !activated ==> final(checkpoints)@ == old(checkpoints)@,
{
    if checkpoint_id < checkpoints.len() && !checkpoints[checkpoint_id].is_activated {
        let mut checkpoint = checkpoints.remove(checkpoint_id);
        checkpoint.is_activated = true;
        checkpoints.insert(checkpoint_id, checkpoint);
        assert(checkpoints@ =~= old(checkpoints)@.update(
            checkpoint_id as int,
            Checkpoint { is_activated: true, ..old(checkpoints)@[checkpoint_id as int] },
        ));
        true
    } else {
        false
    }
}

/// The index of the first checkpoint of `cs`, from `from` on, that is not
/// activated (`cs.len()` when there is none).
pub open spec fn first_inactive<A>(cs: Seq<Checkpoint<A>>, from: int) -> int
    decreases cs.len() - from,
{
    if from >= cs.len() {
        cs.len() as int
    } else if !cs[from].is_activated {
        from
    } else {
        first_inactive(cs, from + 1)
    }
}

/// The index of the first flag of `flags`, from `from` on, that is not set
/// (`flags.len()` when there is none).
pub open spec fn first_unset(flags: Seq<bool>, from: int) -> int
    decreases flags.len() - from,
{
    if from >= flags.len() {
        flags.len() as int
    } else if !flags[from] {
        from
    } else {
        first_unset(flags, from + 1)
    }
}

/// The first inactive checkpoint from `from` on: every checkpoint before it
/// is activated, and it is not.
pub proof fn lemma_first_inactive_bounds<A>(cs: Seq<Checkpoint<A>>, from: int)
    requires
        0 <= from <= cs.len(),
    ensures
        from <= first_inactive(cs, from) <= cs.len(),
        forall|i: int| from <= i < first_inactive(cs, from) ==> #[trigger] cs[i].is_activated,
        first_inactive(cs, from) < cs.len() ==> !cs[first_inactive(cs, from)].is_activated,
    decreases cs.len() - from,
{
    if from < cs.len() && cs[from].is_activated {
        lemma_first_inactive_bounds(cs, from + 1);
    }
}

/// The first unset flag from `from` on: every flag before it is set, and
/// it is not.
pub proof fn lemma_first_unset_bounds(flags: Seq<bool>, from: int)
    requires
        0 <= from <= flags.len(),
    ensures
        from <= first_unset(flags, from) <= flags.len(),
        forall|i: int| from <= i < first_unset(flags, from) ==> #[trigger] flags[i],
        first_unset(flags, from) < flags.len() ==> !flags[first_unset(flags, from)],
    decreases flags.len() - from,
{
    if from < flags.len() && flags[from] {
        lemma_first_unset_bounds(flags, from + 1);
    }
}

/// Whether the activated checkpoints of `cs` are the first ones: no
/// checkpoint is activated after one that is not.
pub open spec fn activated_in_order<A>(cs: Seq<Checkpoint<A>>) -> bool {
    forall|i: int, j: int|
        0 <= i < j < cs.len() && (#[trigger] cs[j]).is_activated ==> (#[trigger] cs[i]).is_activated
}

/// Reach checkpoints in order: starting at the first checkpoint not yet
/// activated, each checkpoint that `in_reach` marks is activated, up to the
/// first one out of reach; the checkpoints before and after stay as they
/// were. The result is how many were activated.
pub fn reach_checkpoints_in_order<A>(checkpoints: &mut Vec<Checkpoint<A>>, in_reach: &[bool]) -> (reached: usize)
    requires
        in_reach@.len() == old(checkpoints)@.len(),
    ensures
        ({
            let p = first_inactive(old(checkpoints)@, 0);
            let q = first_unset(in_reach@, p);
            &&& reached == q - p
            &&& final(checkpoints)@.len() == old(checkpoints)@.len()
            &&& forall|i: int|
                0 <= i < old(checkpoints)@.len() ==> #[trigger] final(checkpoints)@[i] == if p <= i < q {
                    Checkpoint { is_activated: true, ..old(checkpoints)@[i] }
                } else {
                    old(checkpoints)@[i]
                }
        }),
{
    let ghost c0 = checkpoints@;
    let n = checkpoints.len();
    let mut k: usize = 0;
    while k < n && checkpoints[k].is_activated
        invariant
            n == checkpoints@.len(),
            checkpoints@ == c0,
            k <= n,
            first_inactive(c0, k as int) == first_inactive(c0, 0),
        decreases n - k,
    {
        k = k + 1;
    }
    let p = k;
    proof {
        lemma_first_unset_bounds(in_reach@, p as int);
    }
    while k < n && in_reach[k]
        invariant
            n == checkpoints@.len(),
            n == c0.len(),
            in_reach@.len() == n,
            p <= k <= n,
            p == first_inactive(c0, 0),
            first_unset(in_reach@, k as int) == first_unset(in_reach@, p as int),
            forall|i: int|
                0 <= i < n ==> #[trigger] checkpoints@[i] == if p <= i < k {
                    Checkpoint { is_activated: true, ..c0[i] }
                } else {
                    c0[i]
                },
        decreases n - k,
    {
        let mut checkpoint = checkpoints.remove(k);
        checkpoint.is_activated = true;
        checkpoints.insert(k, checkpoint);
        k = k + 1;
    }
    k - p
}

/// Reaching checkpoints in order keeps them in order: when the activated
/// checkpoints were the first ones, they still are afterwards.
pub proof fn lemma_in_order_stays_in_order<A>(old: Seq<Checkpoint<A>>, new: Seq<Checkpoint<A>>, in_reach: Seq<bool>)
    requires
        activated_in_order(old),
        in_reach.len() == old.len(),
        new.len() == old.len(),
        forall|i: int|
            0 <= i < old.len() ==> #[trigger] new[i] == if first_inactive(old, 0) <= i < first_unset(
                in_reach,
                first_inactive(old, 0),
            ) {
                Checkpoint { is_activated: true, ..old[i] }
            } else {
                old[i]
            },
    ensures
        activated_in_order(new),
{
    let p = first_inactive(old, 0);
    lemma_first_inactive_bounds(old, 0);
    let q = first_unset(in_reach, p);
    lemma_first_unset_bounds(in_reach, p);
    assert forall|i: int, j: int|
        0 <= i < j < new.len() && (#[trigger] new[j]).is_activated implies (#[trigger] new[i]).is_activated by {
        assert(new[i] == if p <= i < q {
            Checkpoint { is_activated: true, ..old[i] }
        } else {
            old[i]
        });
        assert(new[j] == if p <= j < q {
            Checkpoint { is_activated: true, ..old[j] }
        } else {
            old[j]
        });
        if i >= p && j >= q && p < old.len() {
            assert(!old[p].is_activated);
        }
    }
}

/// Collect an item: the first collectible not collected yet among those that
/// `in_reach` marks becomes collected, and its index is the result; when
/// there is none, nothing changes.
pub fn collect_first_in_reach<P>(collectibles: &mut Vec<Collectible<P>>, in_reach: &[bool]) -> (collected: Option<usize>)
    requires
        in_reach@.len() == old(collectibles)@.len(),
    ensures
        match collected {
            Some(i) => {
                &&& i < old(collectibles)@.len()
                &&& !old(collectibles)@[i as int].is_collected
                &&& in_reach@[i as int]
                &&& forall|j: int|
                    0 <= j < i ==> old(collectibles)@[j].is_collected || !in_reach@[j]
                &&& final(collectibles)@ == old(collectibles)@.update(
                    i as int,
                    Collectible { is_collected: true, ..old(collectibles)@[i as int] },
                )
            },
            None => {
                &&& forall|j: int|
                    0 <= j < old(collectibles)@.len() ==> old(collectibles)@[j].is_collected
                        || !in_reach@[j]
                &&& final(collectibles)@ == old(collectibles)@
            },
        },
{
    let mut k: usize = 0;
    while k < collectibles.len()
        invariant
            k <= collectibles@.len(),
            collectibles@ == old(collectibles)@,
            in_reach@.len() == collectibles@.len(),
            forall|j: int| 0 <= j < k ==> collectibles@[j].is_collected || !in_reach@[j],
        decreases collectibles@.len() - k,
    {
        if !collectibles[k].is_collected && in_reach[k] {
            let mut item = collectibles.remove(k);
            item.is_collected = true;
            collectibles.insert(k, item);
            assert(collectibles@ =~= old(collectibles)@.update(
                k as int,
                Collectible { is_collected: true, ..old(collectibles)@[k as int] },
            ));
            return Some(k);
        }
        k = k + 1;
    }
    None
}

/// The summed value of the collected items of `cs`.
pub open spec fn collected_value<P>(cs: Seq<Collectible<P>>) -> nat
    decreases cs.len(),
{
    if cs.len() == 0 {
        0
    } else {
        collected_value(cs.drop_last()) + if cs.last().is_collected {
            cs.last().value as nat
        } else {
            0
        }
    }
}

/// The summed value of every prefix is at most that of the whole.
proof fn lemma_collected_value_prefix<P>(cs: Seq<Collectible<P>>, k: int)
    requires
        0 <= k <= cs.len(),
    ensures
        collected_value(cs.take(k)) <= collected_value(cs),
    decreases cs.len() - k,
{
    if k < cs.len() {
        lemma_collected_value_prefix(cs, k + 1);
        assert(cs.take(k + 1).drop_last() == cs.take(k));
    } else {
        assert(cs.take(k) == cs);
    }
}

/// The collected value is the sum of the values of the collected items,
/// whatever their kind: nothing for no items, and each item adds its value
/// exactly when it is collected; the value of two lists together is the
/// sum of their values.
pub proof fn lemma_collected_value_sums<P>(cs: Seq<Collectible<P>>, c: Collectible<P>, more: Seq<Collectible<P>>)
    ensures
        collected_value(Seq::<Collectible<P>>::empty()) == 0,
        collected_value(cs.push(c)) == collected_value(cs) + if c.is_collected {
            c.value as nat
        } else {
            0
        },
        collected_value(cs + more) == collected_value(cs) + collected_value(more),
    decreases more.len(),
{
    assert(cs.push(c).drop_last() == cs);
    if more.len() == 0 {
        assert(cs + more == cs);
    } else {
        lemma_collected_value_sums(cs, c, more.drop_last());
        assert((cs + more).drop_last() == cs + more.drop_last());
        assert((cs + more).last() == more.last());
    }
}

/// Get total collectibles value: the summed value of the collected items.
/// The sum panics in std when it passes `u32::MAX`, which the precondition
/// rules out.
pub fn get_total_collectibles_value<P>(collectibles: &[Collectible<P>]) -> (total: u32)
    requires
        collected_value(collectibles@) <= u32::MAX,
    ensures
        total == collected_value(collectibles@),
{
    let mut total: u32 = 0;
    let mut k: usize = 0;
    while k < collectibles.len()
        invariant
            k <= collectibles@.len(),
            total == collected_value(collectibles@.take(k as int)),
            collected_value(collectibles@) <= u32::MAX,
        decreases collectibles@.len() - k,
    {
        proof {
            assert(collectibles@.take(k as int + 1).drop_last() == collectibles@.take(k as int));
            lemma_collected_value_prefix(collectibles@, k as int + 1);
        }
        if collectibles[k].is_collected {
            total = total + collectibles[k].value;
        }
        k = k + 1;
    }
    assert(collectibles@.take(k as int) == collectibles@);
    total
}

/// The summed value of the collected items, or `None` when it passes
/// `u32::MAX`.
pub fn checked_total_collectibles_value<P>(collectibles: &[Collectible<P>]) -> (total: Option<u32>)
    ensures
        match total {
            Some(t) => t == collected_value(collectibles@),
            None => collected_value(collectibles@) > u32::MAX,
        },
{
    let mut total: u32 = 0;
    let mut k: usize = 0;
    while k < collectibles.len()
        invariant
            k <= collectibles@.len(),
            total == collected_value(collectibles@.take(k as int)),
        decreases collectibles@.len() - k,
    {
        proof {
            assert(collectibles@.take(k as int + 1).drop_last() == collectibles@.take(k as int));
            lemma_collected_value_prefix(collectibles@, k as int + 1);
        }
        if collectibles[k].is_collected {
            match total.checked_add(collectibles[k].value) {
                Some(t) => {
                    total = t;
                },
                None => {
                    return None;
                },
            }
        }
        k = k + 1;
    }
    assert(collectibles@.take(k as int) == collectibles@);
    Some(total)
}

/// Activating a checkpoint succeeds at most once: right after it succeeded,
/// activating the same checkpoint again is refused.
pub proof fn lemma_activate_once<A>(cs: Seq<Checkpoint<A>>, id: usize)
    requires
        id < cs.len(),
        !cs[id as int].is_activated,
    ensures
        cs.update(id as int, Checkpoint { is_activated: true, ..cs[id as int] })[id as int].is_activated,
{
}

} // verus!
