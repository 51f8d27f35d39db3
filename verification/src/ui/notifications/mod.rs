//! Notification system: messages, warnings and tutorials shown to the player.
//!
//! Notifications wait in a queue ordered by priority (highest first; equal
//! priorities keep the order in which they were added) and move to the
//! active list while it has room. Each notification carries a display time
//! of type `T`: the application keeps the clock that counts it down and
//! removes notifications whose time has run out.

use vstd::prelude::*;
use std::collections::VecDeque;

pub mod presets;

verus! {

/// Notification priority, lowest first
#[derive(Debug, Clone, Copy, PartialEq, Eq, PartialOrd, Ord, Structural)]
pub enum NotificationPriority {
    Low,
    Normal,
    High,
    Critical,
}

/// Notification type
#[derive(Debug, Clone, Copy, PartialEq, Eq, Structural)]
pub enum NotificationType {
    Info,
    Warning,
    Error,
    Success,
    Tutorial,
    Achievement,
}

/// How many seconds a notification of priority `p` is shown: 3 for low, 5
/// for normal, 8 for high and 15 for critical priority.
pub open spec fn display_seconds(p: NotificationPriority) -> u32 {
    match p {
        NotificationPriority::Low => 3,
        NotificationPriority::Normal => 5,
        NotificationPriority::High => 8,
        NotificationPriority::Critical => 15,
    }
}

/// How many seconds a notification of priority `p` is shown.
pub fn priority_seconds(p: NotificationPriority) -> (s: u32)
    ensures
        s == display_seconds(p),
{
    match p {
        NotificationPriority::Low => 3,
        NotificationPriority::Normal => 5,
        NotificationPriority::High => 8,
        NotificationPriority::Critical => 15,
    }
}

/// The display time of a notification, as the clock that the application
/// counts down.
pub trait DisplayTime: Sized {
    /// A display time of `seconds` seconds.
    spec fn of_seconds(seconds: u32) -> Self;

    /// A display time of `seconds` seconds.
    fn for_seconds(seconds: u32) -> (t: Self)
        ensures
            t == Self::of_seconds(seconds),
    ;
}

/// `rand::random::<u64>()`: a random identifier. Nothing is promised of its
/// value; `NotificationSystem::add` replaces it by a fresh one.
#[verifier::external_body]
fn random_id() -> u64 {
    rand::random::<u64>()
}

/// A single notification
#[derive(Debug, Clone)]
pub struct Notification<T> {
    /// Message text
    pub message: String,
    /// Optional title
    pub title: Option<String>,
    /// Notification type (affects icon/color)
    pub notification_type: NotificationType,
    /// Priority (affects order and display duration)
    pub priority: NotificationPriority,
    /// Display duration and the time remaining until dismissal
    pub timing: T,
    /// Can player dismiss this manually?
    pub dismissible: bool,
    /// Unique ID for tracking
    pub id: u64,
}

impl<T: DisplayTime> Notification<T> {
    /// An info notification of normal priority with no title, dismissible,
    /// with the display time of normal priority and a random id.
    pub fn new(message: String) -> (n: Self)
        ensures
            n == (Notification {
                message,
                title: None,
                notification_type: NotificationType::Info,
                priority: NotificationPriority::Normal,
                timing: T::of_seconds(display_seconds(NotificationPriority::Normal)),
                dismissible: true,
                id: n.id,
            }),
    {
        Notification {
            message,
            title: None,
            notification_type: NotificationType::Info,
            priority: NotificationPriority::Normal,
            timing: T::for_seconds(priority_seconds(NotificationPriority::Normal)),
            dismissible: true,
            id: random_id(),
        }
    }

    /// The notification with priority `priority` and the display time of
    /// that priority (see `display_seconds`).
    pub fn with_priority(self, priority: NotificationPriority) -> (n: Self)
        ensures
            n == (Notification { priority, timing: T::of_seconds(display_seconds(priority)), ..self }),
    {
        Notification { priority, timing: T::for_seconds(priority_seconds(priority)), ..self }
    }

    /// The notification with a display time of `seconds` seconds.
    pub fn with_duration(self, seconds: u32) -> (n: Self)
        ensures
            n == (Notification { timing: T::of_seconds(seconds), ..self }),
    {
        Notification { timing: T::for_seconds(seconds), ..self }
    }
}

impl<T> Notification<T> {
    pub fn with_title(self, title: String) -> (n: Self)
        ensures
            n == (Notification { title: Some(title), ..self }),
    {
        Notification { title: Some(title), ..self }
    }

    pub fn with_type(self, notification_type: NotificationType) -> (n: Self)
        ensures
            n == (Notification { notification_type, ..self }),
    {
        Notification { notification_type, ..self }
    }

    pub fn non_dismissible(self) -> (n: Self)
        ensures
            n == (Notification { dismissible: false, ..self }),
    {
        Notification { dismissible: false, ..self }
    }
}

/// The notifications of `s` that have priority `p`, in their order in `s`.
pub open spec fn at_level<T>(s: Seq<Notification<T>>, p: NotificationPriority) -> Seq<
    Notification<T>,
>
    decreases s.len(),
{
    if s.len() == 0 {
        Seq::empty()
    } else {
        let rest = at_level(s.drop_last(), p);
        if s.last().priority == p {
            rest.push(s.last())
        } else {
            rest
        }
    }
}

/// `s` sorted by priority, highest first, notifications of equal priority
/// keeping their order in `s` (a stable sort).
pub open spec fn by_priority<T>(s: Seq<Notification<T>>) -> Seq<Notification<T>> {
    at_level(s, NotificationPriority::Critical) + at_level(s, NotificationPriority::High)
        + at_level(s, NotificationPriority::Normal) + at_level(s, NotificationPriority::Low)
}

/// The notifications of `s` whose id is not `id`, in their order in `s`.
pub open spec fn without_id<T>(s: Seq<Notification<T>>, id: u64) -> Seq<Notification<T>>
    decreases s.len(),
{
    if s.len() == 0 {
        Seq::empty()
    } else {
        let rest = without_id(s.drop_last(), id);
        if s.last().id != id {
            rest.push(s.last())
        } else {
            rest
        }
    }
}

/// The notifications of `s` that the player cannot dismiss, in their order.
pub open spec fn undismissible<T>(s: Seq<Notification<T>>) -> Seq<Notification<T>>
    decreases s.len(),
{
    if s.len() == 0 {
        Seq::empty()
    } else {
        let rest = undismissible(s.drop_last());
        if !s.last().dismissible {
            rest.push(s.last())
        } else {
            rest
        }
    }
}

/// How many queued notifications become active when the active list holds
/// `active` of at most `max_visible` and `queued` wait: as many as fit.
pub open spec fn activation_count(active: nat, max_visible: nat, queued: nat) -> nat {
    if active >= max_visible {
        0
    } else if (max_visible - active) as nat <= queued {
        (max_visible - active) as nat
    } else {
        queued
    }
}

proof fn lemma_at_level_push<T>(s: Seq<Notification<T>>, n: Notification<T>, p: NotificationPriority)
    ensures
        at_level(s.push(n), p) == if n.priority == p {
            at_level(s, p).push(n)
        } else {
            at_level(s, p)
        },
{
    assert(s.push(n).drop_last() == s);
}

proof fn lemma_without_id_push<T>(s: Seq<Notification<T>>, n: Notification<T>, id: u64)
    ensures
        without_id(s.push(n), id) == if n.id != id {
            without_id(s, id).push(n)
        } else {
            without_id(s, id)
        },
{
    assert(s.push(n).drop_last() == s);
}

proof fn lemma_undismissible_push<T>(s: Seq<Notification<T>>, n: Notification<T>)
    ensures
        undismissible(s.push(n)) == if !n.dismissible {
            undismissible(s).push(n)
        } else {
            undismissible(s)
        },
{
    assert(s.push(n).drop_last() == s);
}

/// Moves every element of `src` to the back of `dst`, in order.
fn append_all<T>(dst: &mut VecDeque<Notification<T>>, src: Vec<Notification<T>>)
    ensures
        final(dst)@ == old(dst)@ + src@,
{
    let mut src = src;
    let ghost d0 = dst@;
    let ghost s0 = src@;
    while src.len() > 0
        invariant
            dst@ + src@ == d0 + s0,
        decreases src.len(),
    {
        let ghost before = src@;
        let n = src.remove(0);
        dst.push_back(n);
        assert(dst@ + src@ == d0 + s0) by {
            assert(before == seq![n] + src@);
            assert(dst@ + src@ =~= (dst@.drop_last() + before));
        }
    }
    assert(src@ =~= Seq::<Notification<T>>::empty());
    assert(dst@ =~= d0 + s0);
}

/// Sorts `queue` by priority, highest first, keeping equal priorities in order.
fn sort_by_priority<T>(queue: &mut VecDeque<Notification<T>>)
    ensures
        final(queue)@ == by_priority(old(queue)@),
{
    let ghost q0 = queue@;
    let mut critical: Vec<Notification<T>> = Vec::new();
    let mut high: Vec<Notification<T>> = Vec::new();
    let mut normal: Vec<Notification<T>> = Vec::new();
    let mut low: Vec<Notification<T>> = Vec::new();
    let ghost mut taken: int = 0;
    while queue.len() > 0
        invariant
            0 <= taken <= q0.len(),
            queue@ == q0.subrange(taken, q0.len() as int),
            critical@ == at_level(q0.take(taken), NotificationPriority::Critical),
            high@ == at_level(q0.take(taken), NotificationPriority::High),
            normal@ == at_level(q0.take(taken), NotificationPriority::Normal),
            low@ == at_level(q0.take(taken), NotificationPriority::Low),
        decreases queue@.len(),
    {
        match queue.pop_front() {
            Some(n) => {
                proof {
                    assert(q0.take(taken + 1) == q0.take(taken).push(n));
                    lemma_at_level_push(q0.take(taken), n, NotificationPriority::Critical);
                    lemma_at_level_push(q0.take(taken), n, NotificationPriority::High);
                    lemma_at_level_push(q0.take(taken), n, NotificationPriority::Normal);
                    lemma_at_level_push(q0.take(taken), n, NotificationPriority::Low);
                    taken = taken + 1;
                }
                match n.priority {
                    NotificationPriority::Critical => critical.push(n),
                    NotificationPriority::High => high.push(n),
                    NotificationPriority::Normal => normal.push(n),
                    NotificationPriority::Low => low.push(n),
                }
            },
            None => {},
        }
    }
    assert(q0.take(taken) == q0);
    append_all(queue, critical);
    append_all(queue, high);
    append_all(queue, normal);
    append_all(queue, low);
    assert(queue@ =~= by_priority(q0));
}

/// The rank of a priority: 0 for low up to 3 for critical.
pub open spec fn rank(p: NotificationPriority) -> int {
    match p {
        NotificationPriority::Low => 0,
        NotificationPriority::Normal => 1,
        NotificationPriority::High => 2,
        NotificationPriority::Critical => 3,
    }
}

/// Every notification picked out at level `p` has priority `p`, and there
/// are no more of them than notifications in `s`.
pub proof fn lemma_at_level_members<T>(s: Seq<Notification<T>>, p: NotificationPriority)
    ensures
        at_level(s, p).len() <= s.len(),
        forall|i: int| 0 <= i < at_level(s, p).len() ==> (#[trigger] at_level(s, p)[i]).priority == p,
    decreases s.len(),
{
    if s.len() > 0 {
        lemma_at_level_members(s.drop_last(), p);
    }
}

/// Picking out a level distributes over concatenation.
pub proof fn lemma_at_level_concat<T>(a: Seq<Notification<T>>, b: Seq<Notification<T>>, p: NotificationPriority)
    ensures
        at_level(a + b, p) == at_level(a, p) + at_level(b, p),
    decreases b.len(),
{
    if b.len() == 0 {
        assert(a + b == a);
        assert(at_level(b, p) == Seq::<Notification<T>>::empty());
        assert(at_level(a, p) + at_level(b, p) == at_level(a, p));
    } else {
        lemma_at_level_concat(a, b.drop_last(), p);
        assert((a + b).drop_last() == a + b.drop_last());
        assert((a + b).last() == b.last());
    }
}

/// Picking out level `p` from notifications that all have level `q` keeps
/// them all when `p == q` and none otherwise.
pub proof fn lemma_at_level_of_level<T>(s: Seq<Notification<T>>, p: NotificationPriority, q: NotificationPriority)
    ensures
        at_level(at_level(s, q), p) == if p == q {
            at_level(s, q)
        } else {
            Seq::<Notification<T>>::empty()
        },
    decreases s.len(),
{
    if s.len() > 0 {
        lemma_at_level_of_level(s.drop_last(), p, q);
        let rest = at_level(s.drop_last(), q);
        if s.last().priority == q {
            lemma_at_level_push(rest, s.last(), p);
        }
    }
}

/// The four levels together hold exactly as many notifications as `s`.
pub proof fn lemma_levels_partition<T>(s: Seq<Notification<T>>)
    ensures
        at_level(s, NotificationPriority::Critical).len() + at_level(s, NotificationPriority::High).len()
            + at_level(s, NotificationPriority::Normal).len() + at_level(
            s,
            NotificationPriority::Low,
        ).len() == s.len(),
    decreases s.len(),
{
    if s.len() > 0 {
        lemma_levels_partition(s.drop_last());
    }
}

/// Sorting by priority keeps every notification: each priority level holds
/// the same notifications in the same order as before, and the length is
/// unchanged; and the result is ordered by priority, highest first.
pub proof fn lemma_by_priority_sorted_and_stable<T>(s: Seq<Notification<T>>)
    ensures
        by_priority(s).len() == s.len(),
        forall|p: NotificationPriority| #[trigger] at_level(by_priority(s), p) == at_level(s, p),
        forall|i: int, j: int|
            0 <= i < j < by_priority(s).len() ==> rank(#[trigger] by_priority(s)[i].priority) >= rank(
                #[trigger] by_priority(s)[j].priority,
            ),
{
    let c = at_level(s, NotificationPriority::Critical);
    let h = at_level(s, NotificationPriority::High);
    let n = at_level(s, NotificationPriority::Normal);
    let l = at_level(s, NotificationPriority::Low);
    lemma_levels_partition(s);
    assert forall|p: NotificationPriority| #[trigger] at_level(by_priority(s), p) == at_level(s, p) by {
        lemma_at_level_concat(c + h + n, l, p);
        lemma_at_level_concat(c + h, n, p);
        lemma_at_level_concat(c, h, p);
        lemma_at_level_of_level(s, p, NotificationPriority::Critical);
        lemma_at_level_of_level(s, p, NotificationPriority::High);
        lemma_at_level_of_level(s, p, NotificationPriority::Normal);
        lemma_at_level_of_level(s, p, NotificationPriority::Low);
        assert(at_level(by_priority(s), p) =~= at_level(s, p));
    }
    lemma_at_level_members(s, NotificationPriority::Critical);
    lemma_at_level_members(s, NotificationPriority::High);
    lemma_at_level_members(s, NotificationPriority::Normal);
    lemma_at_level_members(s, NotificationPriority::Low);
    let r = by_priority(s);
    assert forall|i: int| 0 <= i < r.len() implies rank(#[trigger] r[i].priority) == if i < c.len() {
        3int
    } else if i < c.len() + h.len() {
        2int
    } else if i < c.len() + h.len() + n.len() {
        1int
    } else {
        0int
    } by {
        if i < c.len() {
            assert(r[i] == c[i]);
        } else if i < c.len() + h.len() {
            assert(r[i] == h[i - c.len()]);
        } else if i < c.len() + h.len() + n.len() {
            assert(r[i] == n[i - c.len() - h.len()]);
        } else {
            assert(r[i] == l[i - c.len() - h.len() - n.len()]);
        }
    }
}

/// Adding a notification to a queue keeps every queued notification and
/// adds the new one last among those of its priority; the queue comes out
/// ordered by priority, highest first.
pub proof fn lemma_add_places_by_priority<T>(queue: Seq<Notification<T>>, n: Notification<T>)
    ensures
        by_priority(queue.push(n)).len() == queue.len() + 1,
        forall|p: NotificationPriority|
            #[trigger] at_level(by_priority(queue.push(n)), p) == if n.priority == p {
                at_level(queue, p).push(n)
            } else {
                at_level(queue, p)
            },
        forall|i: int, j: int|
            0 <= i < j < by_priority(queue.push(n)).len() ==> rank(
                #[trigger] by_priority(queue.push(n))[i].priority,
            ) >= rank(#[trigger] by_priority(queue.push(n))[j].priority),
{
    lemma_by_priority_sorted_and_stable(queue.push(n));
    assert forall|p: NotificationPriority|
        #[trigger] at_level(by_priority(queue.push(n)), p) == if n.priority == p {
            at_level(queue, p).push(n)
        } else {
            at_level(queue, p)
        } by {
        lemma_at_level_push(queue, n, p);
    }
}

/// A queue ordered by priority, highest first.
pub open spec fn sorted_by_priority<T>(s: Seq<Notification<T>>) -> bool {
    forall|i: int, j: int|
        0 <= i < j < s.len() ==> rank(#[trigger] s[i].priority) >= rank(#[trigger] s[j].priority)
}

/// Picking out level `p` of notifications none of which has priority `p`
/// gives nothing.
proof fn lemma_at_level_absent<T>(s: Seq<Notification<T>>, p: NotificationPriority)
    requires
        forall|i: int| 0 <= i < s.len() ==> (#[trigger] s[i]).priority != p,
    ensures
        at_level(s, p) == Seq::<Notification<T>>::empty(),
    decreases s.len(),
{
    if s.len() > 0 {
        lemma_at_level_absent(s.drop_last(), p);
    }
}

/// Sorting a queue that is already ordered by priority leaves it as it is.
proof fn lemma_by_priority_of_sorted<T>(s: Seq<Notification<T>>)
    requires
        sorted_by_priority(s),
    ensures
        by_priority(s) == s,
    decreases s.len(),
{
    if s.len() == 0 {
        assert(by_priority(s) =~= s);
    } else {
        let t = s.drop_last();
        let l = s.last();
        assert(sorted_by_priority(t));
        lemma_by_priority_of_sorted(t);
        assert(t.push(l) == s);
        assert forall|p: NotificationPriority| rank(p) < rank(l.priority) implies #[trigger] at_level(
            t,
            p,
        ) == Seq::<Notification<T>>::empty() by {
            assert forall|i: int| 0 <= i < t.len() implies (#[trigger] t[i]).priority != p by {
                assert(s[i] == t[i]);
                assert(rank(s[i].priority) >= rank(s[s.len() - 1].priority));
            }
            lemma_at_level_absent(t, p);
        }
        lemma_at_level_push(t, l, NotificationPriority::Critical);
        lemma_at_level_push(t, l, NotificationPriority::High);
        lemma_at_level_push(t, l, NotificationPriority::Normal);
        lemma_at_level_push(t, l, NotificationPriority::Low);
        assert(by_priority(s) =~= by_priority(t).push(l));
    }
}

/// Notifications with the same members at every priority level sort to
/// the same queue.
proof fn lemma_by_priority_by_levels<T>(a: Seq<Notification<T>>, b: Seq<Notification<T>>)
    requires
        forall|p: NotificationPriority| #[trigger] at_level(a, p) == at_level(b, p),
    ensures
        by_priority(a) == by_priority(b),
{
    assert(at_level(a, NotificationPriority::Critical) == at_level(b, NotificationPriority::Critical));
    assert(at_level(a, NotificationPriority::High) == at_level(b, NotificationPriority::High));
    assert(at_level(a, NotificationPriority::Normal) == at_level(b, NotificationPriority::Normal));
    assert(at_level(a, NotificationPriority::Low) == at_level(b, NotificationPriority::Low));
}

/// In a queue ordered by priority, the notifications of priority at least
/// `r` come first: there is an index before which every rank is at least
/// `r` and from which every rank is below it.
proof fn lemma_split_by_rank<T>(s: Seq<Notification<T>>, r: int) -> (k: int)
    requires
        sorted_by_priority(s),
    ensures
        0 <= k <= s.len(),
        forall|i: int| 0 <= i < k ==> rank(#[trigger] s[i].priority) >= r,
        forall|i: int| k <= i < s.len() ==> rank(#[trigger] s[i].priority) < r,
    decreases s.len(),
{
    if s.len() == 0 {
        0
    } else {
        let t = s.drop_last();
        assert(sorted_by_priority(t));
        let k0 = lemma_split_by_rank(t, r);
        if rank(s.last().priority) >= r {
            if k0 < t.len() {
                assert(rank(s[k0].priority) >= rank(s[s.len() - 1].priority));
                assert(s[k0] == t[k0]);
            }
            assert forall|i: int| 0 <= i < s.len() implies rank(#[trigger] s[i].priority) >= r by {
                if i < t.len() {
                    assert(s[i] == t[i]);
                }
            }
            s.len() as int
        } else {
            assert forall|i: int| k0 <= i < s.len() implies rank(#[trigger] s[i].priority) < r by {
                if i < t.len() {
                    assert(s[i] == t[i]);
                }
            }
            assert forall|i: int| 0 <= i < k0 implies rank(#[trigger] s[i].priority) >= r by {
                assert(s[i] == t[i]);
            }
            k0
        }
    }
}

/// Adding a notification to a queue that is ordered by priority puts it
/// right after every queued notification of priority at least its own and
/// before the first of lower priority; the rest of the queue keeps its
/// order. The result is the position `k` it takes.
pub proof fn lemma_add_to_sorted_queue<T>(queue: Seq<Notification<T>>, n: Notification<T>) -> (k: int)
    requires
        sorted_by_priority(queue),
    ensures
        0 <= k <= queue.len(),
        forall|i: int| 0 <= i < k ==> rank(#[trigger] queue[i].priority) >= rank(n.priority),
        forall|i: int| k <= i < queue.len() ==> rank(#[trigger] queue[i].priority) < rank(n.priority),
        by_priority(queue.push(n)) == queue.take(k).push(n) + queue.skip(k),
{
    let k = lemma_split_by_rank(queue, rank(n.priority));
    let front = queue.take(k);
    let back = queue.skip(k);
    let t = front.push(n) + back;
    assert(queue == front + back);
    assert(sorted_by_priority(t)) by {
        assert forall|i: int, j: int| 0 <= i < j < t.len() implies rank(#[trigger] t[i].priority) >= rank(
            #[trigger] t[j].priority,
        ) by {
            if i < k {
                assert(t[i] == queue[i]);
            } else if i == k {
                assert(t[i] == n);
            } else {
                assert(t[i] == queue[i - 1]);
            }
            if j < k {
                assert(t[j] == queue[j]);
            } else if j == k {
                assert(t[j] == n);
            } else {
                assert(t[j] == queue[j - 1]);
            }
        }
    }
    assert forall|p: NotificationPriority| #[trigger] at_level(t, p) == at_level(queue.push(n), p) by {
        lemma_at_level_concat(front.push(n), back, p);
        lemma_at_level_concat(front, back, p);
        lemma_at_level_push(front, n, p);
        lemma_at_level_push(queue, n, p);
        if n.priority == p {
            assert forall|i: int| 0 <= i < back.len() implies (#[trigger] back[i]).priority != p by {
                assert(back[i] == queue[k + i]);
            }
            lemma_at_level_absent(back, p);
            assert(at_level(front, p).push(n) + at_level(back, p) =~= (at_level(front, p)
                + at_level(back, p)).push(n));
        }
    }
    lemma_by_priority_by_levels(t, queue.push(n));
    lemma_by_priority_of_sorted(t);
    k
}

/// The notifications `ns` numbered in the order given: the i-th has id i.
pub open spec fn numbered<T>(ns: Seq<Notification<T>>) -> Seq<Notification<T>> {
    Seq::new(ns.len(), |i: int| Notification { id: i as u64, ..ns[i] })
}

/// The queue of a new notification system after `ns` were added in order,
/// with nothing activated in between: each `add` numbers the notification
/// by the count of earlier adds and sorts the queue.
pub open spec fn queue_after_adds<T>(ns: Seq<Notification<T>>) -> Seq<Notification<T>>
    decreases ns.len(),
{
    if ns.len() == 0 {
        Seq::empty()
    } else {
        by_priority(
            queue_after_adds(ns.drop_last()).push(
                Notification { id: (ns.len() - 1) as u64, ..ns.last() },
            ),
        )
    }
}

/// Sorting again after adding to a sorted queue is sorting everything once.
proof fn lemma_by_priority_push_resort<T>(s: Seq<Notification<T>>, n: Notification<T>)
    ensures
        by_priority(by_priority(s).push(n)) == by_priority(s.push(n)),
{
    lemma_by_priority_sorted_and_stable(s);
    assert forall|p: NotificationPriority| #[trigger] at_level(by_priority(s).push(n), p) == at_level(
        s.push(n),
        p,
    ) by {
        lemma_at_level_push(by_priority(s), n, p);
        lemma_at_level_push(s, n, p);
    }
    lemma_by_priority_by_levels(by_priority(s).push(n), s.push(n));
}

/// Whatever notifications are added, in whatever order, the queue of a new
/// system is the stable priority sort of all of them, each numbered by the
/// count of adds before it: ids follow the order of adding, and equal
/// priorities keep that order.
pub proof fn lemma_queue_is_sorted_adds<T>(ns: Seq<Notification<T>>)
    requires
        ns.len() <= u64::MAX,
    ensures
        queue_after_adds(ns) == by_priority(numbered(ns)),
    decreases ns.len(),
{
    if ns.len() > 0 {
        let t = ns.drop_last();
        lemma_queue_is_sorted_adds(t);
        assert(numbered(ns) =~= numbered(t).push(
            Notification { id: (ns.len() - 1) as u64, ..ns.last() },
        ));
        lemma_by_priority_push_resort(
            numbered(t),
            Notification { id: (ns.len() - 1) as u64, ..ns.last() },
        );
    } else {
        assert(by_priority(numbered(ns)) =~= Seq::<Notification<T>>::empty());
    }
}

/// Activating queued notifications never fills the active list beyond
/// `max_visible` (unless it already held more), fills it up to
/// `max_visible` when enough wait, and otherwise empties the queue.
pub proof fn lemma_activation_fills_to_limit(active: nat, max_visible: nat, queued: nat)
    ensures
        activation_count(active, max_visible, queued) <= queued,
        active <= max_visible ==> active + activation_count(active, max_visible, queued)
            <= max_visible,
        active <= max_visible && active + queued >= max_visible ==> active + activation_count(
            active,
            max_visible,
            queued,
        ) == max_visible,
        active + queued < max_visible ==> activation_count(active, max_visible, queued) == queued,
        active >= max_visible ==> activation_count(active, max_visible, queued) == 0,
{
}

/// Dismissing by id keeps exactly the notifications with another id, in
/// their order: none kept has that id, every one with another id is kept,
/// and adding one at the end keeps it exactly when its id differs.
pub proof fn lemma_without_id_keeps_others<T>(s: Seq<Notification<T>>, n: Notification<T>, id: u64)
    ensures
        without_id(Seq::<Notification<T>>::empty(), id) == Seq::<Notification<T>>::empty(),
        without_id(s.push(n), id) == if n.id != id {
            without_id(s, id).push(n)
        } else {
            without_id(s, id)
        },
        without_id(s, id).len() <= s.len(),
        forall|i: int|
            0 <= i < without_id(s, id).len() ==> (#[trigger] without_id(s, id)[i]).id != id && s.contains(
                without_id(s, id)[i],
            ),
        forall|j: int| 0 <= j < s.len() && (#[trigger] s[j]).id != id ==> without_id(s, id).contains(s[j]),
    decreases s.len(),
{
    lemma_without_id_push(s, n, id);
    if s.len() > 0 {
        let t = s.drop_last();
        lemma_without_id_keeps_others(t, s.last(), id);
        assert(t.push(s.last()) == s);
        let r = without_id(s, id);
        let rt = without_id(t, id);
        assert forall|i: int| 0 <= i < r.len() implies (#[trigger] r[i]).id != id && s.contains(r[i]) by {
            if i < rt.len() {
                assert(r[i] == rt[i]);
                let w = choose|w: int| 0 <= w < t.len() && t[w] == rt[i];
                assert(s[w] == t[w]);
            } else {
                assert(r[i] == s[s.len() - 1]);
            }
        }
        assert forall|j: int| 0 <= j < s.len() && (#[trigger] s[j]).id != id implies r.contains(s[j]) by {
            if j < t.len() {
                assert(s[j] == t[j]);
                let w = choose|w: int| 0 <= w < rt.len() && rt[w] == t[j];
                assert(r[w] == rt[w]);
            } else {
                assert(r[r.len() - 1] == s[j]);
            }
        }
    }
}

/// Dismissing all dismissible notifications keeps exactly those the player
/// cannot dismiss, in their order.
pub proof fn lemma_undismissible_keeps_fixed<T>(s: Seq<Notification<T>>, n: Notification<T>)
    ensures
        undismissible(Seq::<Notification<T>>::empty()) == Seq::<Notification<T>>::empty(),
        undismissible(s.push(n)) == if !n.dismissible {
            undismissible(s).push(n)
        } else {
            undismissible(s)
        },
        undismissible(s).len() <= s.len(),
        forall|i: int|
            0 <= i < undismissible(s).len() ==> !(#[trigger] undismissible(s)[i]).dismissible && s.contains(
                undismissible(s)[i],
            ),
        forall|j: int| 0 <= j < s.len() && !(#[trigger] s[j]).dismissible ==> undismissible(s).contains(s[j]),
    decreases s.len(),
{
    lemma_undismissible_push(s, n);
    if s.len() > 0 {
        let t = s.drop_last();
        lemma_undismissible_keeps_fixed(t, s.last());
        assert(t.push(s.last()) == s);
        let r = undismissible(s);
        let rt = undismissible(t);
        assert forall|i: int| 0 <= i < r.len() implies !(#[trigger] r[i]).dismissible && s.contains(r[i]) by {
            if i < rt.len() {
                assert(r[i] == rt[i]);
                let w = choose|w: int| 0 <= w < t.len() && t[w] == rt[i];
                assert(s[w] == t[w]);
            } else {
                assert(r[i] == s[s.len() - 1]);
            }
        }
        assert forall|j: int| 0 <= j < s.len() && !(#[trigger] s[j]).dismissible implies r.contains(s[j]) by {
            if j < t.len() {
                assert(s[j] == t[j]);
                let w = choose|w: int| 0 <= w < rt.len() && rt[w] == t[j];
                assert(r[w] == rt[w]);
            } else {
                assert(r[r.len() - 1] == s[j]);
            }
        }
    }
}

/// Display times follow priority: a low-priority notification is shown for
/// 3 seconds, normal 5, high 8 and critical 15, so a higher priority is
/// always shown longer.
pub proof fn lemma_display_time_grows_with_priority(p: NotificationPriority, q: NotificationPriority)
    ensures
        display_seconds(NotificationPriority::Low) == 3,
        display_seconds(NotificationPriority::Normal) == 5,
        display_seconds(NotificationPriority::High) == 8,
        display_seconds(NotificationPriority::Critical) == 15,
        rank(p) < rank(q) ==> display_seconds(p) < display_seconds(q),
{
}

/// Notification system manager
pub struct NotificationSystem<T> {
    /// Active notifications (displayed on screen)
    pub active: Vec<Notification<T>>,
    /// Queued notifications (waiting to be displayed)
    pub queue: VecDeque<Notification<T>>,
    /// Maximum simultaneous notifications
    pub max_visible: usize,
    /// Notification counter for IDs: the id the next added notification receives
    pub next_id: u64,
}

impl<T> Default for NotificationSystem<T> {
    fn default() -> (system: Self)
        ensures
            system.active@ == Seq::<Notification<T>>::empty(),
            system.queue@ == Seq::<Notification<T>>::empty(),
            system.max_visible == 3,
            system.next_id == 0,
    {
        NotificationSystem {
            active: Vec::new(),
            queue: VecDeque::new(),
            max_visible: 3,
            next_id: 0,
        }
    }
}

impl<T> NotificationSystem<T> {
    /// Create new notification system: nothing active or queued, at most
    /// three notifications visible, ids counted from zero.
    pub fn new() -> (system: Self)
        ensures
            system.active@ == Seq::<Notification<T>>::empty(),
            system.queue@ == Seq::<Notification<T>>::empty(),
            system.max_visible == 3,
            system.next_id == 0,
    {
        Self::default()
    }

    /// Add a notification to be displayed: it receives the next id and joins
    /// the queue, which is then sorted by priority (highest first, equal
    /// priorities in the order they were added).
    pub fn add(&mut self, notification: Notification<T>)
        requires
            old(self).next_id < u64::MAX,
        ensures
            final(self).queue@ == by_priority(
                old(self).queue@.push(Notification { id: old(self).next_id, ..notification }),
            ),
            final(self).next_id == old(self).next_id + 1,
            final(self).active@ == old(self).active@,
            final(self).max_visible == old(self).max_visible,
    {
        let mut notification = notification;
        notification.id = self.next_id;
        self.next_id += 1;
        self.queue.push_back(notification);
        self.sort_queue();
    }

    /// Sort queue by priority (highest first)
    fn sort_queue(&mut self)
        ensures
            final(self).queue@ == by_priority(old(self).queue@),
            final(self).active@ == old(self).active@,
            final(self).max_visible == old(self).max_visible,
            final(self).next_id == old(self).next_id,
    {
        sort_by_priority(&mut self.queue);
    }

    /// The first step of a frame update: queued notifications move, front
    /// first, to the end of the active list while it holds fewer than
    /// `max_visible`. (The application then counts down the display times
    /// and drops the notifications whose time has run out.)
    pub fn activate_queued(&mut self)
        ensures
            ({
                let k = activation_count(
                    old(self).active@.len(),
                    old(self).max_visible as nat,
                    old(self).queue@.len(),
                ) as int;
                &&& final(self).active@ == old(self).active@ + old(self).queue@.take(k)
                &&& final(self).queue@ == old(self).queue@.skip(k)
            }),
            final(self).max_visible == old(self).max_visible,
            final(self).next_id == old(self).next_id,
    {
        let ghost a0 = self.active@;
        let ghost q0 = self.queue@;
        let ghost k = activation_count(a0.len(), self.max_visible as nat, q0.len()) as int;
        let ghost mut moved: int = 0;
        while self.active.len() < self.max_visible && self.queue.len() > 0
            invariant
                0 <= moved <= k,
                k == activation_count(a0.len(), self.max_visible as nat, q0.len()),
                self.active@ == a0 + q0.take(moved),
                self.queue@ == q0.skip(moved),
                self.max_visible == old(self).max_visible,
                self.next_id == old(self).next_id,
                a0 == old(self).active@,
                q0 == old(self).queue@,
            decreases self.queue@.len(),
        {
            if let Some(n) = self.queue.pop_front() {
                proof {
                    assert(q0.take(moved + 1) == q0.take(moved).push(n));
                    moved = moved + 1;
                }
                self.active.push(n);
                assert(self.active@ =~= a0 + q0.take(moved));
                assert(self.queue@ =~= q0.skip(moved));
            }
        }
    }

    /// Dismiss a specific notification: every active notification with that
    /// id leaves the active list.
    pub fn dismiss(&mut self, id: u64)
        ensures
            final(self).active@ == without_id(old(self).active@, id),
            final(self).queue@ == old(self).queue@,
            final(self).max_visible == old(self).max_visible,
            final(self).next_id == old(self).next_id,
    {
        let mut rest: Vec<Notification<T>> = Vec::new();
        std::mem::swap(&mut rest, &mut self.active);
        let ghost a0 = rest@;
        let ghost mut seen: int = 0;
        while rest.len() > 0
            invariant
                0 <= seen <= a0.len(),
                rest@ == a0.skip(seen),
                self.active@ == without_id(a0.take(seen), id),
                self.queue@ == old(self).queue@,
                self.max_visible == old(self).max_visible,
                self.next_id == old(self).next_id,
                a0 == old(self).active@,
            decreases rest@.len(),
        {
            let n = rest.remove(0);
            proof {
                assert(a0.take(seen + 1) == a0.take(seen).push(n));
                lemma_without_id_push(a0.take(seen), n, id);
                seen = seen + 1;
                assert(rest@ =~= a0.skip(seen));
            }
            if n.id != id {
                self.active.push(n);
            }
        }
        assert(a0.take(seen) == a0);
    }

    /// Dismiss all dismissible notifications: only the active notifications
    /// that the player cannot dismiss stay.
    pub fn dismiss_all_dismissible(&mut self)
        ensures
            final(self).active@ == undismissible(old(self).active@),
            final(self).queue@ == old(self).queue@,
            final(self).max_visible == old(self).max_visible,
            final(self).next_id == old(self).next_id,
    {
        let mut rest: Vec<Notification<T>> = Vec::new();
        std::mem::swap(&mut rest, &mut self.active);
        let ghost a0 = rest@;
        let ghost mut seen: int = 0;
        while rest.len() > 0
            invariant
                0 <= seen <= a0.len(),
                rest@ == a0.skip(seen),
                self.active@ == undismissible(a0.take(seen)),
                self.queue@ == old(self).queue@,
                self.max_visible == old(self).max_visible,
                self.next_id == old(self).next_id,
                a0 == old(self).active@,
            decreases rest@.len(),
        {
            let n = rest.remove(0);
            proof {
                assert(a0.take(seen + 1) == a0.take(seen).push(n));
                lemma_undismissible_push(a0.take(seen), n);
                seen = seen + 1;
                assert(rest@ =~= a0.skip(seen));
            }
            if !n.dismissible {
                self.active.push(n);
            }
        }
        assert(a0.take(seen) == a0);
    }

    /// Clear all notifications, active and queued
    pub fn clear(&mut self)
        ensures
            final(self).active@ == Seq::<Notification<T>>::empty(),
            final(self).queue@ == Seq::<Notification<T>>::empty(),
            final(self).max_visible == old(self).max_visible,
            final(self).next_id == old(self).next_id,
    {
        self.active.clear();
        self.queue.clear();
    }

    /// Get active notifications for rendering
    pub fn get_active(&self) -> (active: &[Notification<T>])
        ensures
            active@ == self.active@,
    {
        self.active.as_slice()
    }
}

impl<T: DisplayTime> NotificationSystem<T> {
    /// Show an info message
    pub fn info(&mut self, message: String)
        requires
            old(self).next_id < u64::MAX,
        ensures
            final(self).next_id == old(self).next_id + 1,
            final(self).active@ == old(self).active@,
            final(self).max_visible == old(self).max_visible,
            final(self).queue@ == by_priority(
                old(self).queue@.push(
                    Notification {
                        message,
                        title: None,
                        notification_type: NotificationType::Info,
                        priority: NotificationPriority::Normal,
                        timing: T::of_seconds(display_seconds(NotificationPriority::Normal)),
                        dismissible: true,
                        id: old(self).next_id,
                    },
                ),
            ),
    {
        let n = Notification::new(message).with_type(NotificationType::Info);
        self.add(n);
    }

    /// Show a warning message: high priority
    pub fn warning(&mut self, message: String)
        requires
            old(self).next_id < u64::MAX,
        ensures
            final(self).next_id == old(self).next_id + 1,
            final(self).active@ == old(self).active@,
            final(self).max_visible == old(self).max_visible,
            final(self).queue@ == by_priority(
                old(self).queue@.push(
                    Notification {
                        message,
                        title: None,
                        notification_type: NotificationType::Warning,
                        priority: NotificationPriority::High,
                        timing: T::of_seconds(display_seconds(NotificationPriority::High)),
                        dismissible: true,
                        id: old(self).next_id,
                    },
                ),
            ),
    {
        let n = Notification::new(message).with_type(NotificationType::Warning).with_priority(
            NotificationPriority::High,
        );
        self.add(n);
    }

    /// Show an error message: critical priority
    pub fn error(&mut self, message: String)
        requires
            old(self).next_id < u64::MAX,
        ensures
            final(self).next_id == old(self).next_id + 1,
            final(self).active@ == old(self).active@,
            final(self).max_visible == old(self).max_visible,
            final(self).queue@ == by_priority(
                old(self).queue@.push(
                    Notification {
                        message,
                        title: None,
                        notification_type: NotificationType::Error,
                        priority: NotificationPriority::Critical,
                        timing: T::of_seconds(display_seconds(NotificationPriority::Critical)),
                        dismissible: true,
                        id: old(self).next_id,
                    },
                ),
            ),
    {
        let n = Notification::new(message).with_type(NotificationType::Error).with_priority(
            NotificationPriority::Critical,
        );
        self.add(n);
    }

    /// Show a success message
    pub fn success(&mut self, message: String)
        requires
            old(self).next_id < u64::MAX,
        ensures
            final(self).next_id == old(self).next_id + 1,
            final(self).active@ == old(self).active@,
            final(self).max_visible == old(self).max_visible,
            final(self).queue@ == by_priority(
                old(self).queue@.push(
                    Notification {
                        message,
                        title: None,
                        notification_type: NotificationType::Success,
                        priority: NotificationPriority::Normal,
                        timing: T::of_seconds(display_seconds(NotificationPriority::Normal)),
                        dismissible: true,
                        id: old(self).next_id,
                    },
                ),
            ),
    {
        let n = Notification::new(message).with_type(NotificationType::Success);
        self.add(n);
    }

    /// Show a tutorial tip: shown for eight seconds
    pub fn tutorial(&mut self, message: String)
        requires
            old(self).next_id < u64::MAX,
        ensures
            final(self).next_id == old(self).next_id + 1,
            final(self).active@ == old(self).active@,
            final(self).max_visible == old(self).max_visible,
            final(self).queue@ == by_priority(
                old(self).queue@.push(
                    Notification {
                        message,
                        title: None,
                        notification_type: NotificationType::Tutorial,
                        priority: NotificationPriority::Normal,
                        timing: T::of_seconds(8),
                        dismissible: true,
                        id: old(self).next_id,
                    },
                ),
            ),
    {
        let n = Notification::new(message).with_type(NotificationType::Tutorial).with_duration(8);
        self.add(n);
    }

    /// Show an achievement unlocked: high priority, shown for ten seconds
    pub fn achievement(&mut self, title: String, message: String)
        requires
            old(self).next_id < u64::MAX,
        ensures
            final(self).next_id == old(self).next_id + 1,
            final(self).active@ == old(self).active@,
            final(self).max_visible == old(self).max_visible,
            final(self).queue@ == by_priority(
                old(self).queue@.push(
                    Notification {
                        message,
                        title: Some(title),
                        notification_type: NotificationType::Achievement,
                        priority: NotificationPriority::High,
                        timing: T::of_seconds(10),
                        dismissible: true,
                        id: old(self).next_id,
                    },
                ),
            ),
    {
        let n = Notification::new(message).with_title(title).with_type(
            NotificationType::Achievement,
        ).with_priority(NotificationPriority::High).with_duration(10);
        self.add(n);
    }
}

} // verus!
