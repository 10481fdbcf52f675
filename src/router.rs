use vstd::prelude::*;

use std::collections::BTreeMap;

use crate::alert::{label_entries, label_value, labels_view};
use crate::text::str_eq;
use crate::ids::PolicyId;

verus! {

/// Every required `key = value` of `matchers` is present in `labels`.
pub open spec fn labels_satisfy(
    matchers: Map<Seq<char>, Seq<char>>,
    labels: Map<Seq<char>, Seq<char>>,
) -> bool {
    forall|k: Seq<char>| #[trigger]
        matchers.contains_key(k) ==> labels.contains_key(k) && labels[k] == matchers[k]
}

/// Alerts whose labels satisfy `matchers` go to the escalation policy `policy_id`.
#[derive(Debug, Clone)]
pub struct Route {
    pub matchers: BTreeMap<String, String>,
    pub policy_id: PolicyId,
}

/// Whether route `r` takes an alert with these labels.
pub open spec fn route_matches(r: Route, labels: Map<Seq<char>, Seq<char>>) -> bool {
    labels_satisfy(labels_view(&r.matchers), labels)
}

/// `result` is the policy of the first route that matches the labels, or `None` when no route
/// matches.
pub open spec fn routes_to(
    routes: Seq<Route>,
    labels: Map<Seq<char>, Seq<char>>,
    result: Option<PolicyId>,
) -> bool {
    match result {
        Some(p) => exists|i: int|
            0 <= i < routes.len() && route_matches(#[trigger] routes[i], labels) && p
                == routes[i].policy_id && forall|j: int|
                0 <= j < i ==> !route_matches(#[trigger] routes[j], labels),
        None => forall|i: int| 0 <= i < routes.len() ==> !route_matches(#[trigger] routes[i], labels),
    }
}

/// An ordered list of routes; the first one that matches decides.
#[derive(Debug, Clone)]
pub struct AlertRouter {
    routes: Vec<Route>,
}

impl View for AlertRouter {
    type V = Seq<Route>;

    closed spec fn view(&self) -> Seq<Route> {
        self.routes@
    }
}

fn route_matches_labels(route: &Route, labels: &BTreeMap<String, String>) -> (r: bool)
    ensures
        r == route_matches(*route, labels_view(labels)),
{
    let entries = label_entries(&route.matchers);
    let mut i: usize = 0;
    while i < entries.len()
        invariant
            0 <= i <= entries@.len(),
            forall|j: int|
                0 <= j < entries@.len() ==> labels_view(&route.matchers).contains_key(
                    (#[trigger] entries@[j]).0@,
                ) && labels_view(&route.matchers)[entries@[j].0@] == entries@[j].1@,
            forall|j: int|
                0 <= j < i ==> labels_view(labels).contains_key((#[trigger] entries@[j]).0@)
                    && labels_view(labels)[entries@[j].0@] == entries@[j].1@,
        decreases entries@.len() - i,
    {
        let (key, value) = &entries[i];
        match label_value(labels, key.as_str()) {
            Some(found) => {
                if !str_eq(found.as_str(), value.as_str()) {
                    return false;
                }
            },
            None => {
                return false;
            },
        }
        i = i + 1;
    }
    assert forall|k: Seq<char>| #[trigger]
        labels_view(&route.matchers).contains_key(k) implies labels_view(labels).contains_key(k)
        && labels_view(labels)[k] == labels_view(&route.matchers)[k] by {
        let j = choose|j: int| 0 <= j < entries@.len() && (#[trigger] entries@[j]).0@ == k;
    }
    true
}

impl AlertRouter {
    pub fn new(routes: Vec<Route>) -> (r: AlertRouter)
        ensures
            r@ == routes@,
    {
        AlertRouter { routes }
    }

    /// The policy of the first route whose matchers the labels satisfy; `None` when no route
    /// matches. A route with no matchers matches everything.
    pub fn match_alert(&self, labels: &BTreeMap<String, String>) -> (r: Option<&PolicyId>)
        ensures
            routes_to(
                self@,
                labels_view(labels),
                match r {
                    Some(p) => Some(*p),
                    None => None,
                },
            ),
    {
        let mut i: usize = 0;
        while i < self.routes.len()
            invariant
                0 <= i <= self@.len(),
                forall|j: int|
                    0 <= j < i ==> !route_matches(#[trigger] self@[j], labels_view(labels)),
            decreases self@.len() - i,
        {
            if route_matches_labels(&self.routes[i], labels) {
                return Some(&self.routes[i].policy_id);
            }
            i = i + 1;
        }
        None
    }
}

} // verus!
