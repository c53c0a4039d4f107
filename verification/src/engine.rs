//! The reconciliation engine: decides, for each watch event, which add /
//! delete / persist operations to issue against the external rewrite service
//! and the resource's annotations. The engine only plans; carrying the
//! operations out is the caller's part.

use vstd::prelude::*;
use crate::adguard::listed_answer;
use crate::filter::{pattern_matches, DomainFilter};
use crate::ingress::{
    extract_error, extract_needed_info, extracted_units, ExtractError, IngressSnapshot,
    IngressSnapshotModel,
};
use crate::record::{record_of, IngressRecord, IngressRecordModel, Record, RecordModel,
    ReconciliationUnit, ReconciliationUnitModel};

verus! {

/// One operation the engine asks its caller to perform, in order.
pub enum Action {
    /// Create this rewrite record on the external service.
    Add(Record),
    /// Remove the rewrite record keyed by this record's domain.
    Delete(Record),
    /// Write this pair into the resource's annotations as the new baseline.
    Persist(IngressRecord),
}

/// Mathematical image of an [`Action`].
pub enum ActionModel {
    Add(RecordModel),
    Delete(RecordModel),
    Persist(IngressRecordModel),
}

impl View for Action {
    type V = ActionModel;

    open spec fn view(&self) -> ActionModel {
        match self {
            Action::Add(r) => ActionModel::Add(r@),
            Action::Delete(r) => ActionModel::Delete(r@),
            Action::Persist(p) => ActionModel::Persist(p@),
        }
    }
}

/// The views of a planned action sequence.
pub open spec fn actions_view(actions: Seq<Action>) -> Seq<ActionModel> {
    actions.map_values(|a: Action| a@)
}

/// The plan for one unit of an applied (created-or-updated) event: nothing
/// for a filtered-out host; a first-time add; delete-before-add on any
/// change of host or address; and in every unfiltered case a persist of the
/// current pair as the next event's baseline.
pub open spec fn applied_unit_plan(pattern: Seq<char>, u: ReconciliationUnitModel) -> Seq<
    ActionModel,
> {
    if !pattern_matches(pattern, u.current.host) {
        Seq::empty()
    } else {
        match u.previous {
            None => seq![
                ActionModel::Add(record_of(u.current)),
                ActionModel::Persist(u.current),
            ],
            Some(prev) => if prev == u.current {
                seq![ActionModel::Persist(u.current)]
            } else {
                seq![
                    ActionModel::Delete(record_of(prev)),
                    ActionModel::Add(record_of(u.current)),
                    ActionModel::Persist(u.current),
                ]
            },
        }
    }
}

/// The plan for one unit of a deleted event: remove the record unless the
/// host is filtered out; never a persist, the resource being gone.
pub open spec fn deleted_unit_plan(pattern: Seq<char>, u: ReconciliationUnitModel) -> Seq<
    ActionModel,
> {
    if !pattern_matches(pattern, u.current.host) {
        Seq::empty()
    } else {
        seq![ActionModel::Delete(record_of(u.current))]
    }
}

/// The plan for one unit of a restart resync, against the record set the
/// service listed: add what is missing; re-assert (delete then add) a
/// record whose listed answer already equals the desired address; leave a
/// listed record with a differing answer untouched, and never persist.
pub open spec fn restarted_unit_plan(
    pattern: Seq<char>,
    listed: Seq<RecordModel>,
    u: ReconciliationUnitModel,
) -> Seq<ActionModel> {
    if !pattern_matches(pattern, u.current.host) {
        Seq::empty()
    } else {
        match listed_answer(listed, u.current.host) {
            None => seq![ActionModel::Add(record_of(u.current))],
            Some(answer) => if answer == u.current.ip {
                seq![
                    ActionModel::Delete(record_of(u.current)),
                    ActionModel::Add(record_of(u.current)),
                ]
            } else {
                Seq::empty()
            },
        }
    }
}

/// The applied-event plans of a unit sequence, concatenated in order.
pub open spec fn applied_units_plan(pattern: Seq<char>, units: Seq<ReconciliationUnitModel>) -> Seq<
    ActionModel,
>
    decreases units.len(),
{
    if units.len() == 0 {
        Seq::empty()
    } else {
        applied_unit_plan(pattern, units[0]) + applied_units_plan(pattern, units.drop_first())
    }
}

/// The deleted-event plans of a unit sequence, concatenated in order.
pub open spec fn deleted_units_plan(pattern: Seq<char>, units: Seq<ReconciliationUnitModel>) -> Seq<
    ActionModel,
>
    decreases units.len(),
{
    if units.len() == 0 {
        Seq::empty()
    } else {
        deleted_unit_plan(pattern, units[0]) + deleted_units_plan(pattern, units.drop_first())
    }
}

/// The restart plans of a unit sequence, concatenated in order.
pub open spec fn restarted_units_plan(
    pattern: Seq<char>,
    listed: Seq<RecordModel>,
    units: Seq<ReconciliationUnitModel>,
) -> Seq<ActionModel>
    decreases units.len(),
{
    if units.len() == 0 {
        Seq::empty()
    } else {
        restarted_unit_plan(pattern, listed, units[0]) + restarted_units_plan(
            pattern,
            listed,
            units.drop_first(),
        )
    }
}

/// The whole plan of an applied event for one snapshot.
pub open spec fn applied_snapshot_plan(pattern: Seq<char>, s: IngressSnapshotModel) -> Seq<
    ActionModel,
> {
    applied_units_plan(pattern, extracted_units(s))
}

/// The whole plan of a deleted event for one snapshot.
pub open spec fn deleted_snapshot_plan(pattern: Seq<char>, s: IngressSnapshotModel) -> Seq<
    ActionModel,
> {
    deleted_units_plan(pattern, extracted_units(s))
}

/// The restart plan for one snapshot.
pub open spec fn restarted_snapshot_plan(
    pattern: Seq<char>,
    listed: Seq<RecordModel>,
    s: IngressSnapshotModel,
) -> Seq<ActionModel> {
    restarted_units_plan(pattern, listed, extracted_units(s))
}

/// The restart plan for a full batch of snapshots, concatenated in order.
pub open spec fn restarted_batch_plan(
    pattern: Seq<char>,
    listed: Seq<RecordModel>,
    snapshots: Seq<IngressSnapshotModel>,
) -> Seq<ActionModel>
    decreases snapshots.len(),
{
    if snapshots.len() == 0 {
        Seq::empty()
    } else {
        restarted_snapshot_plan(pattern, listed, snapshots[0]) + restarted_batch_plan(
            pattern,
            listed,
            snapshots.drop_first(),
        )
    }
}

/// The first invariant violation a batch of snapshots carries, if any.
pub open spec fn batch_error(snapshots: Seq<IngressSnapshotModel>) -> Option<ExtractError>
    decreases snapshots.len(),
{
    if snapshots.len() == 0 {
        None
    } else if extract_error(snapshots[0]) is Some {
        extract_error(snapshots[0])
    } else {
        batch_error(snapshots.drop_first())
    }
}

/// Plans one unit of an applied event.
pub fn plan_applied_unit(u: &ReconciliationUnit, filter: &DomainFilter) -> (r: Vec<Action>)
    ensures
        actions_view(r@) == applied_unit_plan(filter.pattern(), u@),
{
    let mut actions: Vec<Action> = Vec::new();
    if !filter.is_match(u.current.host.as_str()) {
        proof {
            assert(actions_view(actions@) =~= applied_unit_plan(filter.pattern(), u@));
        }
        return actions;
    }
    match &u.previous {
        None => {
            actions.push(Action::Add(u.current.to_record()));
            actions.push(Action::Persist(u.current.clone()));
        },
        Some(prev) => {
            if !prev.same_as(&u.current) {
                actions.push(Action::Delete(prev.to_record()));
                actions.push(Action::Add(u.current.to_record()));
            }
            actions.push(Action::Persist(u.current.clone()));
        },
    }
    proof {
        assert(actions_view(actions@) =~= applied_unit_plan(filter.pattern(), u@));
    }
    actions
}

/// Plans one unit of a deleted event.
pub fn plan_deleted_unit(u: &ReconciliationUnit, filter: &DomainFilter) -> (r: Vec<Action>)
    ensures
        actions_view(r@) == deleted_unit_plan(filter.pattern(), u@),
{
    let mut actions: Vec<Action> = Vec::new();
    if filter.is_match(u.current.host.as_str()) {
        actions.push(Action::Delete(u.current.to_record()));
    }
    proof {
        assert(actions_view(actions@) =~= deleted_unit_plan(filter.pattern(), u@));
    }
    actions
}

/// Plans one unit of a restart resync against the listed record set.
pub fn plan_restarted_unit(u: &ReconciliationUnit, listed: &Vec<Record>, filter: &DomainFilter) -> (r:
    Vec<Action>)
    ensures
        actions_view(r@) == restarted_unit_plan(
            filter.pattern(),
            listed@.map_values(|rec: Record| rec@),
            u@,
        ),
{
    let mut actions: Vec<Action> = Vec::new();
    if filter.is_match(u.current.host.as_str()) {
        match crate::adguard::lookup_answer(listed, &u.current.host) {
            None => {
                actions.push(Action::Add(u.current.to_record()));
            },
            Some(answer) => {
                if answer == u.current.ip {
                    actions.push(Action::Delete(u.current.to_record()));
                    actions.push(Action::Add(u.current.to_record()));
                }
            },
        }
    }
    proof {
        assert(actions_view(actions@) =~= restarted_unit_plan(
            filter.pattern(),
            listed@.map_values(|rec: Record| rec@),
            u@,
        ));
    }
    actions
}

/// Plans an applied (created-or-updated) event for one resource snapshot,
/// or rejects the snapshot as an invariant violation, in which case nothing
/// is planned.
pub fn plan_applied(s: &IngressSnapshot, filter: &DomainFilter) -> (r: Result<
    Vec<Action>,
    ExtractError,
>)
    ensures
        match r {
            Ok(actions) => extract_error(s@) is None && actions_view(actions@)
                == applied_snapshot_plan(filter.pattern(), s@),
            Err(e) => extract_error(s@) == Some(e),
        },
{
    let units = match extract_needed_info(s) {
        Ok(units) => units,
        Err(e) => {
            return Err(e);
        },
    };
    let ghost uview = units@.map_values(|u: ReconciliationUnit| u@);
    let mut actions: Vec<Action> = Vec::new();
    let mut i: usize = 0;
    proof {
        assert(uview.skip(0) =~= uview);
    }
    while i < units.len()
        invariant
            i <= units.len(),
            uview == units@.map_values(|u: ReconciliationUnit| u@),
            actions_view(actions@) + applied_units_plan(filter.pattern(), uview.skip(i as int))
                == applied_units_plan(filter.pattern(), uview),
        decreases units.len() - i,
    {
        let mut unit_actions = plan_applied_unit(&units[i], filter);
        proof {
            let rest = uview.skip(i as int);
            assert(rest[0] == uview[i as int]);
            assert(rest.drop_first() =~= uview.skip(i as int + 1));
            assert(actions_view(actions@ + unit_actions@) =~= actions_view(actions@)
                + actions_view(unit_actions@));
            assert((actions_view(actions@) + applied_unit_plan(filter.pattern(), uview[i as int]))
                + applied_units_plan(filter.pattern(), uview.skip(i as int + 1))
                =~= actions_view(actions@) + applied_units_plan(filter.pattern(), rest));
        }
        actions.append(&mut unit_actions);
        i += 1;
    }
    proof {
        assert(uview.skip(units@.len() as int) =~= Seq::<ReconciliationUnitModel>::empty());
        assert(actions_view(actions@) + Seq::<ActionModel>::empty() =~= actions_view(actions@));
    }
    Ok(actions)
}

/// Plans a deleted event for one resource snapshot, or rejects the snapshot
/// as an invariant violation, in which case nothing is planned.
pub fn plan_deleted(s: &IngressSnapshot, filter: &DomainFilter) -> (r: Result<
    Vec<Action>,
    ExtractError,
>)
    ensures
        match r {
            Ok(actions) => extract_error(s@) is None && actions_view(actions@)
                == deleted_snapshot_plan(filter.pattern(), s@),
            Err(e) => extract_error(s@) == Some(e),
        },
{
    let units = match extract_needed_info(s) {
        Ok(units) => units,
        Err(e) => {
            return Err(e);
        },
    };
    let ghost uview = units@.map_values(|u: ReconciliationUnit| u@);
    let mut actions: Vec<Action> = Vec::new();
    let mut i: usize = 0;
    proof {
        assert(uview.skip(0) =~= uview);
    }
    while i < units.len()
        invariant
            i <= units.len(),
            uview == units@.map_values(|u: ReconciliationUnit| u@),
            actions_view(actions@) + deleted_units_plan(filter.pattern(), uview.skip(i as int))
                == deleted_units_plan(filter.pattern(), uview),
        decreases units.len() - i,
    {
        let mut unit_actions = plan_deleted_unit(&units[i], filter);
        proof {
            let rest = uview.skip(i as int);
            assert(rest[0] == uview[i as int]);
            assert(rest.drop_first() =~= uview.skip(i as int + 1));
            assert(actions_view(actions@ + unit_actions@) =~= actions_view(actions@)
                + actions_view(unit_actions@));
            assert((actions_view(actions@) + deleted_unit_plan(filter.pattern(), uview[i as int]))
                + deleted_units_plan(filter.pattern(), uview.skip(i as int + 1))
                =~= actions_view(actions@) + deleted_units_plan(filter.pattern(), rest));
        }
        actions.append(&mut unit_actions);
        i += 1;
    }
    proof {
        assert(uview.skip(units@.len() as int) =~= Seq::<ReconciliationUnitModel>::empty());
        assert(actions_view(actions@) + Seq::<ActionModel>::empty() =~= actions_view(actions@));
    }
    Ok(actions)
}

/// Plans a restart resync for one snapshot of the full batch.
fn plan_restarted_snapshot(s: &IngressSnapshot, listed: &Vec<Record>, filter: &DomainFilter) -> (r:
    Result<Vec<Action>, ExtractError>)
    ensures
        match r {
            Ok(actions) => extract_error(s@) is None && actions_view(actions@)
                == restarted_snapshot_plan(
                filter.pattern(),
                listed@.map_values(|rec: Record| rec@),
                s@,
            ),
            Err(e) => extract_error(s@) == Some(e),
        },
{
    let ghost lview = listed@.map_values(|rec: Record| rec@);
    let units = match extract_needed_info(s) {
        Ok(units) => units,
        Err(e) => {
            return Err(e);
        },
    };
    let ghost uview = units@.map_values(|u: ReconciliationUnit| u@);
    let mut actions: Vec<Action> = Vec::new();
    let mut i: usize = 0;
    proof {
        assert(uview.skip(0) =~= uview);
    }
    while i < units.len()
        invariant
            i <= units.len(),
            uview == units@.map_values(|u: ReconciliationUnit| u@),
            lview == listed@.map_values(|rec: Record| rec@),
            actions_view(actions@) + restarted_units_plan(
                filter.pattern(),
                lview,
                uview.skip(i as int),
            ) == restarted_units_plan(filter.pattern(), lview, uview),
        decreases units.len() - i,
    {
        let mut unit_actions = plan_restarted_unit(&units[i], listed, filter);
        proof {
            let rest = uview.skip(i as int);
            assert(rest[0] == uview[i as int]);
            assert(rest.drop_first() =~= uview.skip(i as int + 1));
            assert(actions_view(actions@ + unit_actions@) =~= actions_view(actions@)
                + actions_view(unit_actions@));
            assert((actions_view(actions@) + restarted_unit_plan(
                filter.pattern(),
                lview,
                uview[i as int],
            )) + restarted_units_plan(filter.pattern(), lview, uview.skip(i as int + 1))
                =~= actions_view(actions@) + restarted_units_plan(filter.pattern(), lview, rest));
        }
        actions.append(&mut unit_actions);
        i += 1;
    }
    proof {
        assert(uview.skip(units@.len() as int) =~= Seq::<ReconciliationUnitModel>::empty());
        assert(actions_view(actions@) + Seq::<ActionModel>::empty() =~= actions_view(actions@));
    }
    Ok(actions)
}

/// Plans a restart resync: every snapshot of the full batch is reconciled
/// against the record set the service listed. The first snapshot that
/// violates the data model rejects the whole batch, and nothing is planned.
pub fn plan_restarted(
    snapshots: &Vec<IngressSnapshot>,
    listed: &Vec<Record>,
    filter: &DomainFilter,
) -> (r: Result<Vec<Action>, ExtractError>)
    ensures
        match r {
            Ok(actions) => batch_error(snapshots@.map_values(|s: IngressSnapshot| s@)) is None
                && actions_view(actions@) == restarted_batch_plan(
                filter.pattern(),
                listed@.map_values(|rec: Record| rec@),
                snapshots@.map_values(|s: IngressSnapshot| s@),
            ),
            Err(e) => batch_error(snapshots@.map_values(|s: IngressSnapshot| s@)) == Some(e),
        },
{
    let ghost lview = listed@.map_values(|rec: Record| rec@);
    let ghost sview = snapshots@.map_values(|s: IngressSnapshot| s@);
    let mut actions: Vec<Action> = Vec::new();
    let mut i: usize = 0;
    proof {
        assert(sview.skip(0) =~= sview);
    }
    while i < snapshots.len()
        invariant
            i <= snapshots.len(),
            sview == snapshots@.map_values(|s: IngressSnapshot| s@),
            lview == listed@.map_values(|rec: Record| rec@),
            batch_error(sview) == batch_error(sview.skip(i as int)),
            actions_view(actions@) + restarted_batch_plan(
                filter.pattern(),
                lview,
                sview.skip(i as int),
            ) == restarted_batch_plan(filter.pattern(), lview, sview),
        decreases snapshots.len() - i,
    {
        proof {
            let rest = sview.skip(i as int);
            assert(rest[0] == sview[i as int]);
            assert(rest.drop_first() =~= sview.skip(i as int + 1));
        }
        let mut snapshot_actions = match plan_restarted_snapshot(&snapshots[i], listed, filter) {
            Ok(snapshot_actions) => snapshot_actions,
            Err(e) => {
                return Err(e);
            },
        };
        proof {
            let rest = sview.skip(i as int);
            assert(actions_view(actions@ + snapshot_actions@) =~= actions_view(actions@)
                + actions_view(snapshot_actions@));
            assert((actions_view(actions@) + restarted_snapshot_plan(
                filter.pattern(),
                lview,
                sview[i as int],
            )) + restarted_batch_plan(filter.pattern(), lview, sview.skip(i as int + 1))
                =~= actions_view(actions@) + restarted_batch_plan(filter.pattern(), lview, rest));
        }
        actions.append(&mut snapshot_actions);
        i += 1;
    }
    proof {
        assert(sview.skip(snapshots@.len() as int) =~= Seq::<IngressSnapshotModel>::empty());
        assert(actions_view(actions@) + Seq::<ActionModel>::empty() =~= actions_view(actions@));
    }
    Ok(actions)
}

} // verus!
