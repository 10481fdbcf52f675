use vstd::prelude::*;

use crate::alert::{label_value, labels_view, Alert};
use crate::ids::{AlertId, GroupId};
use crate::text::str_eq;

verus! {

/// `"<source>:<service>"` when the labels hold a `service` label, else `"<source>"`.
pub open spec fn grouping_key_of(source: Seq<char>, labels: Map<Seq<char>, Seq<char>>) -> Seq<
    char,
> {
    if labels.contains_key("service"@) {
        source + ":"@ + labels["service"@]
    } else {
        source
    }
}

/// The key under which temporally close alerts of one source and service are clustered.
pub fn compute_grouping_key(alert: &Alert) -> (r: String)
    ensures
        r@ == grouping_key_of(alert@.source, alert@.labels),
{
    let source = alert.source().as_str();
    match label_value(alert.labels(), "service") {
        Some(service) => String::from_str(source).concat(":").concat(service.as_str()),
        None => String::from_str(source),
    }
}

/// Whether an alert created at `new_alert_created_at` still falls in the group's window:
/// strictly before `last_added_at + window`.
pub fn should_group(existing_group: &AlertGroup, new_alert_created_at: i64, window: i64) -> (r:
    bool)
    ensures
        r == (new_alert_created_at < existing_group@.last_added_at + window),
{
    (new_alert_created_at as i128) < (existing_group.last_added_at as i128) + (window as i128)
}

/// The state of an alert group. Times are seconds since the Unix epoch, UTC.
pub struct AlertGroupView {
    pub id: GroupId,
    pub root_alert_id: AlertId,
    pub members: Seq<AlertId>,
    pub grouping_key: Seq<char>,
    pub window_secs: i64,
    pub created_at: i64,
    pub last_added_at: i64,
}

/// A root alert and the alerts clustered with it while its window stays open.
#[derive(Debug)]
pub struct AlertGroup {
    id: GroupId,
    root_alert_id: AlertId,
    member_alert_ids: Vec<AlertId>,
    grouping_key: String,
    window_secs: i64,
    created_at: i64,
    last_added_at: i64,
}

impl View for AlertGroup {
    type V = AlertGroupView;

    closed spec fn view(&self) -> AlertGroupView {
        AlertGroupView {
            id: self.id,
            root_alert_id: self.root_alert_id,
            members: self.member_alert_ids@,
            grouping_key: self.grouping_key@,
            window_secs: self.window_secs,
            created_at: self.created_at,
            last_added_at: self.last_added_at,
        }
    }
}

impl AlertGroup {
    /// A group whose sole member is its root, opened at `now`.
    pub fn new(root_alert_id: AlertId, grouping_key: String, window_secs: i64, now: i64) -> (r:
        AlertGroup)
        ensures
            r@.root_alert_id == root_alert_id,
            r@.members == seq![root_alert_id],
            r@.grouping_key == grouping_key@,
            r@.window_secs == window_secs,
            r@.created_at == now,
            r@.last_added_at == now,
    {
        AlertGroup {
            id: GroupId::new(),
            root_alert_id,
            member_alert_ids: vec![root_alert_id],
            grouping_key,
            window_secs,
            created_at: now,
            last_added_at: now,
        }
    }

    /// Rebuilds a stored group; `None` unless the root is the first member and
    /// `last_added_at >= created_at`.
    pub fn restore(
        id: GroupId,
        member_alert_ids: Vec<AlertId>,
        grouping_key: String,
        window_secs: i64,
        created_at: i64,
        last_added_at: i64,
    ) -> (r: Option<AlertGroup>)
        ensures
            member_alert_ids@.len() > 0 && last_added_at >= created_at ==> (r matches Some(g)
                && g@ == (AlertGroupView {
                id,
                root_alert_id: member_alert_ids@[0],
                members: member_alert_ids@,
                grouping_key: grouping_key@,
                window_secs,
                created_at,
                last_added_at,
            })),
            !(member_alert_ids@.len() > 0 && last_added_at >= created_at) ==> r is None,
    {
        if member_alert_ids.len() == 0 || last_added_at < created_at {
            return None;
        }
        let root_alert_id = member_alert_ids[0];
        Some(
            AlertGroup {
                id,
                root_alert_id,
                member_alert_ids,
                grouping_key,
                window_secs,
                created_at,
                last_added_at,
            },
        )
    }

    /// Appends a member and moves `last_added_at` to `now`.
    pub fn add_member(&mut self, alert_id: AlertId, now: i64)
        requires
            now >= old(self)@.created_at,
        ensures
            final(self)@ == (AlertGroupView {
                members: old(self)@.members.push(alert_id),
                last_added_at: now,
                ..old(self)@
            }),
    {
        self.member_alert_ids.push(alert_id);
        self.last_added_at = now;
    }

    pub fn member_count(&self) -> (r: usize)
        ensures
            r == self@.members.len(),
    {
        self.member_alert_ids.len()
    }

    pub fn members(&self) -> (r: &[AlertId])
        ensures
            r@ == self@.members,
    {
        self.member_alert_ids.as_slice()
    }

    pub fn id(&self) -> (r: &GroupId)
        ensures
            *r == self@.id,
    {
        &self.id
    }

    pub fn root_alert_id(&self) -> (r: &AlertId)
        ensures
            *r == self@.root_alert_id,
    {
        &self.root_alert_id
    }

    pub fn grouping_key(&self) -> (r: &str)
        ensures
            r@ == self@.grouping_key,
    {
        self.grouping_key.as_str()
    }

    /// The grouping window, in seconds.
    pub fn window(&self) -> (r: i64)
        ensures
            r == self@.window_secs,
    {
        self.window_secs
    }

    pub fn created_at(&self) -> (r: i64)
        ensures
            r == self@.created_at,
    {
        self.created_at
    }

    pub fn last_added_at(&self) -> (r: i64)
        ensures
            r == self@.last_added_at,
    {
        self.last_added_at
    }
}

/// How an alert was placed: into the group that was still open, or as root of a new one.
#[derive(Debug, Clone, Copy, PartialEq, Eq, Structural)]
pub enum GroupingResult {
    Grouped(GroupId),
    NewGroup(GroupId),
}

/// Places an alert given the group found under its key, if any: the alert joins that group
/// when it falls in the window (and not before the group opened), else it opens a new group as
/// root. Returns the group to store, the outcome, and the group that was found when it was not
/// joined (handed back unchanged).
pub fn place_in_group(existing: Option<AlertGroup>, alert: &Alert, window_secs: i64) -> (r: (
    AlertGroup,
    GroupingResult,
    Option<AlertGroup>,
))
    ensures
        match existing {
            Some(g) if g@.grouping_key == grouping_key_of(alert@.source, alert@.labels)
                && alert@.created_at < g@.last_added_at + window_secs && alert@.created_at
                >= g@.created_at => r.1 == GroupingResult::Grouped(g@.id) && r.0@ == (
            AlertGroupView {
                members: g@.members.push(alert@.id),
                last_added_at: alert@.created_at,
                ..g@
            }) && r.2 is None,
            _ => r.1 == GroupingResult::NewGroup(r.0@.id) && r.0@.root_alert_id == alert@.id
                && r.0@.members == seq![alert@.id] && r.0@.grouping_key == grouping_key_of(
                alert@.source,
                alert@.labels,
            ) && r.0@.window_secs == window_secs && r.0@.created_at == alert@.created_at
                && r.0@.last_added_at == alert@.created_at && match existing {
                Some(g) => r.2 matches Some(p) && p@ == g@,
                None => r.2 is None,
            },
        },
{
    let key = compute_grouping_key(alert);
    let previous = match existing {
        Some(mut group) => {
            if str_eq(group.grouping_key(), key.as_str()) && should_group(
                &group,
                alert.created_at(),
                window_secs,
            ) && alert.created_at() >= group.created_at() {
                group.add_member(*alert.id(), alert.created_at());
                let id = *group.id();
                return (group, GroupingResult::Grouped(id), None);
            }
            Some(group)
        },
        None => None,
    };
    let group = AlertGroup::new(*alert.id(), key, window_secs, alert.created_at());
    let id = *group.id();
    (group, GroupingResult::NewGroup(id), previous)
}

} // verus!
