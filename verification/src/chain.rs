//! Reading an agent's chain activity: the latest action of an entry type,
//! the `ChangeRule` create, the current `ChangeRule` and the `KeysetRoot`.
//! The activity list is the host's answer for the chain below a given
//! action, newest first.
use vstd::prelude::*;
use crate::outcome::{Fetched, HostError, Reason};
use crate::types::{Activity, ActionType, ChangeRule, EntryTypes, EntryTypesUnit, KeysetRoot};

verus! {

/// Whether an activity is an action on an entry of the given type.
pub open spec fn of_type(a: Activity, unit: EntryTypesUnit) -> bool {
    a.entry_type == Some(unit)
}

/// The activities on entries of the given type, in the host's order.
pub open spec fn activities_of_type(s: Seq<Activity>, unit: EntryTypesUnit) -> Seq<Activity>
    decreases s.len(),
{
    if s.len() == 0 {
        Seq::empty()
    } else if of_type(s.last(), unit) {
        activities_of_type(s.drop_last(), unit).push(s.last())
    } else {
        activities_of_type(s.drop_last(), unit)
    }
}

/// Keeps the activities on entries of the given type.
pub fn get_activities_for_entry_type(activities: Vec<Activity>, unit: EntryTypesUnit) -> (r: Vec<Activity>)
    ensures
        r@ == activities_of_type(activities@, unit),
{
    let ghost items = activities@;
    let n = activities.len();
    let mut rest = activities;
    let mut out: Vec<Activity> = Vec::new();
    let mut i: usize = 0;
    while rest.len() > 0
        invariant
            items.len() == n,
            i + rest@.len() == n,
            rest@ == items.subrange(i as int, n as int),
            out@ == activities_of_type(items.subrange(0, i as int), unit),
        decreases rest@.len(),
    {
        assert(items.subrange(0, i as int + 1).drop_last() =~= items.subrange(0, i as int));
        let a = rest.remove(0);
        if a.entry_type == Some(unit) {
            out.push(a);
        }
        i = i + 1;
        assert(rest@ =~= items.subrange(i as int, n as int));
    }
    assert(items.subrange(0, n as int) =~= items);
    out
}

/// Whether `i` is the first (latest) position of the list with an action on
/// an entry of the given type.
pub open spec fn is_latest_of_type(s: Seq<Activity>, unit: EntryTypesUnit, i: int) -> bool {
    &&& 0 <= i < s.len()
    &&& of_type(s[i], unit)
    &&& forall|j: int| 0 <= j < i ==> !of_type(#[trigger] s[j], unit)
}

/// The position of the first (latest) activity of an entry type, if any.
fn latest_activity_for_entry_type(activities: &Vec<Activity>, unit: EntryTypesUnit) -> (r: Option<usize>)
    ensures
        r matches Some(i) ==> is_latest_of_type(activities@, unit, i as int),
        r is None ==> forall|j: int| 0 <= j < activities@.len() ==> !of_type(#[trigger] activities@[j], unit),
{
    let mut i: usize = 0;
    while i < activities.len()
        invariant
            i <= activities@.len(),
            forall|j: int| 0 <= j < i ==> !of_type(#[trigger] activities@[j], unit),
        decreases activities@.len() - i,
    {
        if activities[i].entry_type == Some(unit) {
            return Some(i);
        }
        i = i + 1;
    }
    None
}

/// Whether an activity is the create of a `ChangeRule`.
pub open spec fn is_change_rule_create(a: Activity) -> bool {
    a.entry_type == Some(EntryTypesUnit::ChangeRule) && a.action_type == ActionType::Create
}

/// The address of the first `ChangeRule` create action of the list, or
/// `MissingChangeRuleCreate`.
pub fn base_change_rule(activities: &Vec<Activity>) -> (r: Fetched<usize>)
    ensures
        r matches Ok(i) ==> {
            &&& i < activities@.len()
            &&& is_change_rule_create(activities@[i as int])
            &&& forall|j: int| 0 <= j < i ==> !is_change_rule_create(#[trigger] activities@[j])
        },
        r is Err ==> (r matches Err(HostError::Guest(Reason::MissingChangeRuleCreate)))
            && forall|j: int| 0 <= j < activities@.len() ==> !is_change_rule_create(#[trigger] activities@[j]),
{
    let mut i: usize = 0;
    while i < activities.len()
        invariant
            i <= activities@.len(),
            forall|j: int| 0 <= j < i ==> !is_change_rule_create(#[trigger] activities@[j]),
        decreases activities@.len() - i,
    {
        if activities[i].entry_type == Some(EntryTypesUnit::ChangeRule) && activities[i].action_type == ActionType::Create {
            return Ok(i);
        }
        i = i + 1;
    }
    Err(HostError::Guest(Reason::MissingChangeRuleCreate))
}

/// Two latest positions of one entry type are the same position.
proof fn lemma_latest_unique(s: Seq<Activity>, unit: EntryTypesUnit, i: int, k: int)
    requires
        is_latest_of_type(s, unit, i),
        is_latest_of_type(s, unit, k),
    ensures
        i == k,
{
    if k < i {
        assert(!of_type(s[k], unit));
    } else if i < k {
        assert(!of_type(s[i], unit));
    }
}

/// The latest (first) activity of the list on an entry of the given type.
pub open spec fn latest_activity_spec(s: Seq<Activity>, unit: EntryTypesUnit) -> Option<Activity> {
    if exists|i: int| is_latest_of_type(s, unit, i) {
        Some(s[choose|i: int| is_latest_of_type(s, unit, i)])
    } else {
        None
    }
}

/// The latest (first) activity on an entry of the given type, if any.
pub fn get_latest_activity_for_entry_type(activities: Vec<Activity>, unit: EntryTypesUnit) -> (r: Option<Activity>)
    ensures
        r == latest_activity_spec(activities@, unit),
{
    let ghost s = activities@;
    let mut activities = activities;
    match latest_activity_for_entry_type(&activities, unit) {
        None => {
            assert(!exists|i: int| is_latest_of_type(s, unit, i));
            None
        },
        Some(i) => {
            proof {
                let k = choose|k: int| is_latest_of_type(s, unit, k);
                lemma_latest_unique(s, unit, i as int, k);
            }
            Some(activities.remove(i))
        },
    }
}

/// What the latest `ChangeRule` of a list is: none when the list holds no
/// `ChangeRule` action; otherwise the entry of the first such activity, a
/// failure to obtain it, or `WrongEntryType` when it is not a `ChangeRule`.
pub open spec fn prev_change_rule_spec(s: Seq<Activity>) -> Fetched<Option<ChangeRule>> {
    match latest_activity_spec(s, EntryTypesUnit::ChangeRule) {
        None => Ok(None),
        Some(a) => match a.entry {
            Ok(EntryTypes::ChangeRule(rule)) => Ok(Some(rule)),
            Ok(_) => Err(HostError::Guest(Reason::WrongEntryType)),
            Err(e) => Err(e),
        },
    }
}

/// The latest `ChangeRule` before the top of the list: the entry of the
/// first `ChangeRule` activity of the list (newest first), none when the
/// list holds no `ChangeRule` action.
pub fn prev_change_rule(activities: Vec<Activity>) -> (r: Fetched<Option<ChangeRule>>)
    ensures
        r == prev_change_rule_spec(activities@),
        r matches Ok(Some(rule)) ==> exists|i: int| {
            &&& 0 <= i < activities@.len()
            &&& #[trigger] of_type(activities@[i], EntryTypesUnit::ChangeRule)
            &&& activities@[i].entry == Ok::<EntryTypes, HostError>(EntryTypes::ChangeRule(rule))
            &&& forall|j: int| 0 <= j < i ==> !of_type(#[trigger] activities@[j], EntryTypesUnit::ChangeRule)
        },
        (r == Ok::<Option<ChangeRule>, HostError>(None))
            <==> (forall|j: int| 0 <= j < activities@.len() ==> !of_type(#[trigger] activities@[j], EntryTypesUnit::ChangeRule)),
{
    let ghost s = activities@;
    let r = match get_latest_activity_for_entry_type(activities, EntryTypesUnit::ChangeRule) {
        None => Ok(None),
        Some(activity) => match activity.entry {
            Ok(EntryTypes::ChangeRule(rule)) => Ok(Some(rule)),
            Ok(_) => Err(HostError::Guest(Reason::WrongEntryType)),
            Err(e) => Err(e),
        },
    };
    proof {
        crate::key_laws::previous_change_rule_is_the_newest(s);
    }
    r
}

/// What the keyset root of a chain is: the address and entry of the latest
/// `KeysetRoot` action, or why it cannot be had.
pub open spec fn keyset_root_spec(s: Seq<Activity>) -> Fetched<(Seq<u8>, KeysetRoot)> {
    match latest_activity_spec(s, EntryTypesUnit::KeysetRoot) {
        None => Err(HostError::Guest(Reason::MissingKeysetRoot)),
        Some(a) => if !a.has_entry_hash {
            Err(HostError::Guest(Reason::MissingEntryHash))
        } else {
            match a.entry {
                Ok(EntryTypes::KeysetRoot(ksr)) => Ok((a.action_address@, ksr)),
                Ok(_) => Err(HostError::Guest(Reason::WrongEntryType)),
                Err(e) => Err(e),
            }
        },
    }
}

/// The keyset root of the chain: the address of the latest `KeysetRoot`
/// action and its entry.
pub fn get_keyset_root(activities: Vec<Activity>) -> (r: Fetched<(Vec<u8>, KeysetRoot)>)
    ensures
        match (r, keyset_root_spec(activities@)) {
            (Ok((addr, ksr)), Ok((spec_addr, spec_ksr))) => addr@ == spec_addr && ksr == spec_ksr,
            (Err(e), Err(spec_e)) => e == spec_e,
            _ => false,
        },
{
    match get_latest_activity_for_entry_type(activities, EntryTypesUnit::KeysetRoot) {
        None => Err(HostError::Guest(Reason::MissingKeysetRoot)),
        Some(activity) => {
            if !activity.has_entry_hash {
                return Err(HostError::Guest(Reason::MissingEntryHash));
            }
            match activity.entry {
                Ok(EntryTypes::KeysetRoot(ksr)) => Ok((activity.action_address, ksr)),
                Ok(_) => Err(HostError::Guest(Reason::WrongEntryType)),
                Err(e) => Err(e),
            }
        },
    }
}

/// Whether `i` is the first position of the list with a `ChangeRule` create.
pub open spec fn is_first_change_rule_create(s: Seq<Activity>, i: int) -> bool {
    &&& 0 <= i < s.len()
    &&& is_change_rule_create(s[i])
    &&& forall|j: int| 0 <= j < i ==> !is_change_rule_create(#[trigger] s[j])
}

/// The address of the first `ChangeRule` create action of the list.
pub open spec fn base_change_rule_spec(s: Seq<Activity>) -> Fetched<Seq<u8>> {
    if exists|i: int| is_first_change_rule_create(s, i) {
        let i = choose|i: int| is_first_change_rule_create(s, i);
        Ok(s[i].action_address@)
    } else {
        Err(HostError::Guest(Reason::MissingChangeRuleCreate))
    }
}

/// The address of the first `ChangeRule` create action of the list.
pub fn base_change_rule_addr(activities: &Vec<Activity>) -> (r: Fetched<Vec<u8>>)
    ensures
        match (r, base_change_rule_spec(activities@)) {
            (Ok(addr), Ok(spec_addr)) => addr@ == spec_addr,
            (Err(e), Err(spec_e)) => e == spec_e,
            _ => false,
        },
{
    let ghost s = activities@;
    match base_change_rule(activities) {
        Ok(i) => {
            proof {
                assert(is_first_change_rule_create(s, i as int));
                let k = choose|k: int| is_first_change_rule_create(s, k);
                if k < i {
                    assert(!is_change_rule_create(s[k]));
                } else if k > i {
                    assert(!is_change_rule_create(s[i as int]));
                }
                assert(k == i);
            }
            Ok(crate::bytes::clone_bytes(&activities[i].action_address))
        },
        Err(e) => {
            assert(!exists|i: int| is_first_change_rule_create(s, i));
            Err(e)
        },
    }
}

} // verus!
