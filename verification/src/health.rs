//! How long ago each device was heard of, and what state its last update left it in.

use vstd::prelude::*;

use crate::text::str_eq;
use crate::types::MgmtTarget;

verus! {

/// The number of seconds in a day.
pub const SECONDS_PER_DAY: i64 = 86_400;

/// How long ago a device last contacted the server.
#[derive(Debug, Clone, Copy, PartialEq, Eq, Structural)]
pub enum LastSeenBucket {
    /// Within the last day.
    Today,
    /// Within the last 3 days.
    Last3Days,
    /// Within the last 7 days.
    LastWeek,
    /// Within the last 14 days.
    Last2Weeks,
    /// Within the last 30 days.
    LastMonth,
    /// Within the last 90 days.
    Last3Months,
    /// Within the last 180 days.
    Last6Months,
    /// Earlier than that.
    Longer,
}

/// Milliseconds as whole seconds, rounded towards zero.
pub open spec fn whole_seconds(millis: int) -> int {
    if millis >= 0 {
        millis / 1000
    } else {
        -((-millis) / 1000)
    }
}

/// The bucket for a device that was last heard of `elapsed` seconds ago. Each
/// bound belongs to the nearer bucket; a contact in the future counts as today.
pub open spec fn bucket_of(elapsed: int) -> LastSeenBucket {
    if elapsed <= 86_400 {
        LastSeenBucket::Today
    } else if elapsed <= 3 * 86_400 {
        LastSeenBucket::Last3Days
    } else if elapsed <= 7 * 86_400 {
        LastSeenBucket::LastWeek
    } else if elapsed <= 14 * 86_400 {
        LastSeenBucket::Last2Weeks
    } else if elapsed <= 30 * 86_400 {
        LastSeenBucket::LastMonth
    } else if elapsed <= 90 * 86_400 {
        LastSeenBucket::Last3Months
    } else if elapsed <= 180 * 86_400 {
        LastSeenBucket::Last6Months
    } else {
        LastSeenBucket::Longer
    }
}

/// The bucket of a device whose last contact was at `last` (milliseconds since
/// the epoch), seen from `now` (seconds since the epoch). A device that never
/// made contact has no bucket.
pub open spec fn last_seen_bucket(last: Option<i64>, now: i64) -> Option<LastSeenBucket> {
    match last {
        Some(millis) => Some(bucket_of(now - whole_seconds(millis as int))),
        None => None,
    }
}

impl LastSeenBucket {
    /// The name of the bucket in reports.
    pub open spec fn label_text(self) -> Seq<char> {
        match self {
            LastSeenBucket::Today => "today"@,
            LastSeenBucket::Last3Days => "last_3_days"@,
            LastSeenBucket::LastWeek => "last_week"@,
            LastSeenBucket::Last2Weeks => "last_2_weeks"@,
            LastSeenBucket::LastMonth => "last_month"@,
            LastSeenBucket::Last3Months => "last_3_months"@,
            LastSeenBucket::Last6Months => "last_6_months"@,
            LastSeenBucket::Longer => "longer"@,
        }
    }

    /// The place of the bucket when buckets are ordered from recent to long ago.
    pub open spec fn rank(self) -> int {
        match self {
            LastSeenBucket::Today => 0,
            LastSeenBucket::Last3Days => 1,
            LastSeenBucket::LastWeek => 2,
            LastSeenBucket::Last2Weeks => 3,
            LastSeenBucket::LastMonth => 4,
            LastSeenBucket::Last3Months => 5,
            LastSeenBucket::Last6Months => 6,
            LastSeenBucket::Longer => 7,
        }
    }

    /// The name of the bucket in reports.
    pub fn label(&self) -> (name: &'static str)
        ensures
            name@ == self.label_text(),
    {
        match self {
            LastSeenBucket::Today => "today",
            LastSeenBucket::Last3Days => "last_3_days",
            LastSeenBucket::LastWeek => "last_week",
            LastSeenBucket::Last2Weeks => "last_2_weeks",
            LastSeenBucket::LastMonth => "last_month",
            LastSeenBucket::Last3Months => "last_3_months",
            LastSeenBucket::Last6Months => "last_6_months",
            LastSeenBucket::Longer => "longer",
        }
    }
}

/// Sorts a device into a bucket by the time since its last contact.
///
/// `last` is the time of the last contact in milliseconds since the epoch,
/// `now` the present time in seconds since the epoch.
pub fn classify_last_seen(last: Option<i64>, now: i64) -> (bucket: Option<LastSeenBucket>)
    ensures
        bucket == last_seen_bucket(last, now),
{
    match last {
        None => None,
        Some(millis) => {
            let seen: i64 = millis / 1000;
            let elapsed: i128 = now as i128 - seen as i128;
            let day: i128 = SECONDS_PER_DAY as i128;
            let bucket = if elapsed <= day {
                LastSeenBucket::Today
            } else if elapsed <= 3 * day {
                LastSeenBucket::Last3Days
            } else if elapsed <= 7 * day {
                LastSeenBucket::LastWeek
            } else if elapsed <= 14 * day {
                LastSeenBucket::Last2Weeks
            } else if elapsed <= 30 * day {
                LastSeenBucket::LastMonth
            } else if elapsed <= 90 * day {
                LastSeenBucket::Last3Months
            } else if elapsed <= 180 * day {
                LastSeenBucket::Last6Months
            } else {
                LastSeenBucket::Longer
            };
            Some(bucket)
        },
    }
}

/// Sorts a device into a bucket by the time since its last contact, seen from
/// the present time by the clock of the machine.
pub fn classify_last_seen_now(last: Option<i64>) -> (bucket: Option<LastSeenBucket>)
    ensures
        exists|now: i64| now >= 0 && bucket == last_seen_bucket(last, now),
{
    let now = crate::clock::unix_now();
    classify_last_seen(last, now)
}

/// The update status that the server reports for a device, if it reports one.
pub fn classify_status(device: &MgmtTarget) -> (status: Option<&str>)
    ensures
        match status {
            Some(label) => device.update_status matches Some(held) && held@ == label@,
            None => device.update_status is None,
        },
{
    match &device.update_status {
        Some(held) => Some(held.as_str()),
        None => None,
    }
}

/// The longer ago the last contact, the later the bucket.
pub proof fn lemma_buckets_follow_time(earlier: int, later: int)
    requires
        earlier <= later,
    ensures
        bucket_of(earlier).rank() <= bucket_of(later).rank(),
{
}

/// A device is in the bucket `today` exactly up to one day after its last contact.
pub proof fn lemma_today_lasts_one_day(elapsed: int)
    ensures
        bucket_of(elapsed) == LastSeenBucket::Today <==> elapsed <= 86_400,
        bucket_of(elapsed) == LastSeenBucket::Last3Days <==> 86_400 < elapsed <= 259_200,
{
}

/// The devices that were counted under one label.
#[derive(Debug)]
pub struct Group {
    pub label: String,
    pub devices: Vec<String>,
}

/// What a [`Group`] holds.
pub struct GroupView {
    pub label: Seq<char>,
    pub devices: Seq<Seq<char>>,
}

/// The characters of each string of a sequence.
pub open spec fn texts(strings: Seq<String>) -> Seq<Seq<char>> {
    Seq::new(strings.len(), |i: int| strings[i]@)
}

impl View for Group {
    type V = GroupView;

    open spec fn view(&self) -> GroupView {
        GroupView { label: self.label@, devices: texts(self.devices@) }
    }
}

/// The position of the group of `label` among the first `n` groups.
pub open spec fn position_upto(groups: Seq<GroupView>, label: Seq<char>, n: int) -> Option<int>
    decreases n,
{
    if n <= 0 {
        None
    } else {
        match position_upto(groups, label, n - 1) {
            Some(k) => Some(k),
            None => if groups[n - 1].label == label {
                Some(n - 1)
            } else {
                None
            },
        }
    }
}

/// The position of the group of `label`.
pub open spec fn position_of(groups: Seq<GroupView>, label: Seq<char>) -> Option<int> {
    position_upto(groups, label, groups.len() as int)
}

/// The devices counted under `label`, in the order in which they were counted.
pub open spec fn devices_under(groups: Seq<GroupView>, label: Seq<char>) -> Seq<Seq<char>> {
    match position_of(groups, label) {
        Some(k) => groups[k].devices,
        None => Seq::empty(),
    }
}

/// The groups after one more device was counted under `label`: the device
/// joins the group of that label, or starts it behind the others.
pub open spec fn recorded(groups: Seq<GroupView>, label: Seq<char>, device: Seq<char>) -> Seq<GroupView> {
    match position_of(groups, label) {
        Some(k) => groups.update(
            k,
            GroupView { label: groups[k].label, devices: groups[k].devices.push(device) },
        ),
        None => groups.push(GroupView { label: label, devices: seq![device] }),
    }
}

/// No two groups have the same label.
pub open spec fn labels_distinct(groups: Seq<GroupView>) -> bool {
    forall|i: int, j: int|
        0 <= i < j < groups.len() ==> (#[trigger] groups[i]).label != (#[trigger] groups[j]).label
}

/// The number of devices in all groups together.
pub open spec fn total_devices(groups: Seq<GroupView>) -> nat
    decreases groups.len(),
{
    if groups.len() == 0 {
        0
    } else {
        total_devices(groups.drop_last()) + groups.last().devices.len()
    }
}

/// Devices counted by label: for each label the devices that carry it, labels
/// in the order in which they first came up.
#[derive(Debug)]
pub struct Tally {
    groups: Vec<Group>,
}

impl View for Tally {
    type V = Seq<GroupView>;

    closed spec fn view(&self) -> Seq<GroupView> {
        Seq::new(self.groups@.len(), |i: int| self.groups@[i]@)
    }
}

impl Tally {
    /// A tally in which nothing has been counted.
    pub fn new() -> (tally: Self)
        ensures
            tally@ == Seq::<GroupView>::empty(),
    {
        let tally = Tally { groups: Vec::new() };
        assert(tally@ =~= Seq::<GroupView>::empty());
        tally
    }

    fn find(&self, label: &str) -> (found: Option<usize>)
        ensures
            match found {
                Some(k) => position_of(self@, label@) == Some(k as int) && k < self.groups@.len(),
                None => position_of(self@, label@) is None,
            },
    {
        let n = self.groups.len();
        let mut i: usize = 0;
        while i < n
            invariant
                i <= n,
                n == self.groups@.len(),
                n == self@.len(),
                position_upto(self@, label@, i as int) is None,
            decreases n - i,
        {
            if str_eq(self.groups[i].label.as_str(), label) {
                proof {
                    lemma_position_is_stable(self@, label@, i as int + 1, n as int);
                }
                return Some(i);
            }
            i = i + 1;
        }
        None
    }

    /// Counts `device` under `label`.
    pub fn record(&mut self, label: &str, device: &str)
        ensures
            final(self)@ == recorded(old(self)@, label@, device@),
    {
        let owned = device.to_owned();
        match self.find(label) {
            Some(k) => {
                self.groups[k].devices.push(owned);
                assert(texts(self.groups@[k as int].devices@) =~= texts(
                    old(self).groups@[k as int].devices@,
                ).push(device@));
                assert(self@ =~= recorded(old(self)@, label@, device@));
            },
            None => {
                let mut devices: Vec<String> = Vec::new();
                devices.push(owned);
                assert(texts(devices@) =~= seq![device@]);
                self.groups.push(Group { label: label.to_owned(), devices });
                assert(self@ =~= recorded(old(self)@, label@, device@));
            },
        }
    }

    /// The number of devices counted under `label`.
    pub fn count(&self, label: &str) -> (n: usize)
        ensures
            n == devices_under(self@, label@).len(),
    {
        match self.find(label) {
            Some(k) => self.groups[k].devices.len(),
            None => 0,
        }
    }

    /// The devices counted under `label`, if any were.
    pub fn devices(&self, label: &str) -> (found: Option<&Vec<String>>)
        ensures
            match found {
                Some(devices) => position_of(self@, label@) is Some && texts(devices@)
                    == devices_under(self@, label@),
                None => position_of(self@, label@) is None,
            },
    {
        match self.find(label) {
            Some(k) => Some(&self.groups[k].devices),
            None => None,
        }
    }

    /// The number of labels.
    pub fn len(&self) -> (n: usize)
        ensures
            n == self@.len(),
    {
        self.groups.len()
    }

    /// The group at position `i`, counting labels in the order in which they
    /// first came up.
    pub fn group(&self, i: usize) -> (group: &Group)
        requires
            i < self@.len(),
        ensures
            group@ == self@[i as int],
    {
        &self.groups[i]
    }
}

/// Once a label has a position, later groups do not change it.
pub proof fn lemma_position_is_stable(groups: Seq<GroupView>, label: Seq<char>, m: int, n: int)
    requires
        0 <= m <= n,
        position_upto(groups, label, m) is Some,
    ensures
        position_upto(groups, label, n) == position_upto(groups, label, m),
    decreases n - m,
{
    if m < n {
        lemma_position_is_stable(groups, label, m, n - 1);
    }
}

/// The position of a label is that of the first group that carries it.
pub proof fn lemma_position_is_first(groups: Seq<GroupView>, label: Seq<char>, n: int)
    requires
        0 <= n <= groups.len(),
    ensures
        match position_upto(groups, label, n) {
            Some(k) => 0 <= k < n && groups[k].label == label && forall|j: int|
                0 <= j < k ==> (#[trigger] groups[j]).label != label,
            None => forall|j: int| 0 <= j < n ==> (#[trigger] groups[j]).label != label,
        },
    decreases n,
{
    if n > 0 {
        lemma_position_is_first(groups, label, n - 1);
    }
}

proof fn lemma_position_ignores_devices(
    before: Seq<GroupView>,
    after: Seq<GroupView>,
    label: Seq<char>,
    n: int,
)
    requires
        0 <= n <= before.len(),
        n <= after.len(),
        forall|i: int| 0 <= i < n ==> (#[trigger] before[i]).label == (#[trigger] after[i]).label,
    ensures
        position_upto(before, label, n) == position_upto(after, label, n),
    decreases n,
{
    if n > 0 {
        lemma_position_ignores_devices(before, after, label, n - 1);
    }
}

/// Counting a device under a label adds it behind the devices of that label
/// and leaves every other label as it was.
pub proof fn lemma_recorded_adds_one(
    groups: Seq<GroupView>,
    label: Seq<char>,
    device: Seq<char>,
    other: Seq<char>,
)
    ensures
        devices_under(recorded(groups, label, device), label) == devices_under(groups, label).push(
            device,
        ),
        other != label ==> devices_under(recorded(groups, label, device), other) == devices_under(
            groups,
            other,
        ),
{
    let after = recorded(groups, label, device);
    let n = groups.len() as int;
    lemma_position_is_first(groups, label, n);
    lemma_position_is_first(groups, other, n);
    match position_of(groups, label) {
        Some(k) => {
            lemma_position_ignores_devices(groups, after, label, n);
            lemma_position_ignores_devices(groups, after, other, n);
        },
        None => {
            lemma_position_ignores_devices(groups, after, label, n);
            lemma_position_ignores_devices(groups, after, other, n);
            if position_upto(after, other, n) is Some {
                lemma_position_is_stable(after, other, n, n + 1);
            }
        },
    }
}

/// Counting keeps the labels distinct.
pub proof fn lemma_recorded_keeps_labels_distinct(
    groups: Seq<GroupView>,
    label: Seq<char>,
    device: Seq<char>,
)
    requires
        labels_distinct(groups),
    ensures
        labels_distinct(recorded(groups, label, device)),
{
    lemma_position_is_first(groups, label, groups.len() as int);
}

/// Counting a device makes the tally one device larger.
pub proof fn lemma_recorded_counts_one(groups: Seq<GroupView>, label: Seq<char>, device: Seq<char>)
    ensures
        total_devices(recorded(groups, label, device)) == total_devices(groups) + 1,
{
    lemma_position_is_first(groups, label, groups.len() as int);
    match position_of(groups, label) {
        Some(k) => {
            let grown = GroupView { label: groups[k].label, devices: groups[k].devices.push(device) };
            lemma_total_after_update(groups, k, grown);
        },
        None => {
            let after = recorded(groups, label, device);
            assert(after.drop_last() =~= groups);
        },
    }
}

proof fn lemma_total_after_update(groups: Seq<GroupView>, k: int, grown: GroupView)
    requires
        0 <= k < groups.len(),
    ensures
        total_devices(groups.update(k, grown)) == total_devices(groups) - groups[k].devices.len()
            + grown.devices.len(),
    decreases groups.len(),
{
    let after = groups.update(k, grown);
    if k == groups.len() - 1 {
        assert(after.drop_last() =~= groups.drop_last());
    } else {
        lemma_total_after_update(groups.drop_last(), k, grown);
        assert(after.drop_last() =~= groups.drop_last().update(k, grown));
    }
}

} // verus!
