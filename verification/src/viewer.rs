//! The state behind the notification screen: the merged collection, the
//! selection in it, and what each message of the screen does to both.
//!
//! Drawing is the caller's part. [`NotifyViewer::view`] hands out what is to be
//! drawn as a plain value, and [`NotifyViewer::update`] answers every message
//! with the outside work that it calls for.

use crate::notify::{DeleteError, FetchError, Notify};
use crate::worker::{Target, WorkerAction};
use std::collections::HashMap;
use vstd::prelude::*;

verus! {

/// The state of the notification screen.
#[derive(Clone, Debug, PartialEq, Eq)]
pub struct NotifyViewer {
    /// The merged collection, once a fetch has succeeded.
    pub notify: Option<HashMap<u64, Notify>>,
    /// The pause between two deletion calls, in seconds, as the user typed it.
    pub sleep_seconds: String,
    /// Whether a deletion run is under way.
    pub is_deleting: bool,
    /// Whether a fetch is under way.
    pub is_fetching: bool,
    /// Whether the screen offers "select all" (else "deselect all").
    pub select_state: bool,
    /// Why the latest fetch failed, if it did.
    pub error: Option<FetchError>,
}

/// The model of a [`NotifyViewer`].
pub struct ViewerModel {
    pub notify: Option<Map<u64, Notify>>,
    pub sleep_seconds: Seq<char>,
    pub is_deleting: bool,
    pub is_fetching: bool,
    pub select_state: bool,
    pub error: Option<FetchError>,
}

impl NotifyViewer {
    /// The model of the state. (`view` is taken: it says what to draw.)
    pub open spec fn model(&self) -> ViewerModel {
        ViewerModel {
            notify: match self.notify {
                Some(records) => Some(records@),
                None => None,
            },
            sleep_seconds: self.sleep_seconds@,
            is_deleting: self.is_deleting,
            is_fetching: self.is_fetching,
            select_state: self.select_state,
            error: self.error,
        }
    }
}

/// A message to the notification screen.
#[derive(Debug, PartialEq, Eq)]
pub enum NvMsg {
    /// The user edited the pause.
    SecondsInputChanged(String),
    /// The user ticked or unticked the record of this id.
    ChangeNotifyRemoveState(u64, bool),
    /// The user asked to select every record.
    NotifysSelectAll,
    /// The user asked to deselect every record.
    NotifysDeselectAll,
    /// The user asked to delete the selected records.
    DeleteNotify,
    /// The user asked to stop the deletion run.
    StopDeleteNotify,
    /// The record of this id was deleted on the service.
    NotifyDeleted { id: u64 },
    /// The deletion run is over.
    AllNotifyDeleted,
    /// A fetch is over.
    NotifysFetched(Result<HashMap<u64, Notify>, FetchError>),
    /// The user asked to fetch again.
    RetryFetchNotify,
}

/// The outside work that a message calls for.
#[derive(Clone, Debug, PartialEq, Eq)]
pub enum ViewerAction {
    /// Nothing.
    Nothing,
    /// Draw the screen again.
    RefreshUI,
    /// Start a deletion run over these records, with the pause as typed.
    DeleteNotify { targets: Vec<Target>, sleep_seconds: String },
    /// Signal cancellation to the deletion run.
    StopDelete,
    /// Start a fetch.
    RetryFetchNotify,
}

/// What is to be drawn.
#[derive(Clone, Debug, PartialEq, Eq)]
pub enum Screen {
    /// The collection: one row for each record, the counts of the headline,
    /// and the state of the controls.
    Listing {
        rows: Vec<Target>,
        selected: usize,
        total: usize,
        select_state: bool,
        is_deleting: bool,
        sleep_seconds: String,
    },
    /// No collection yet: whether a fetch is under way, and the failure of the
    /// latest one, which comes with the offer to fetch again.
    Placeholder { is_fetching: bool, error: Option<FetchError> },
}

/// The record with its selection flag set to `flag`.
pub open spec fn flagged(record: Notify, flag: bool) -> Notify {
    Notify { is_selected: flag, ..record }
}

/// The collection with the selection flag of every record set to `flag`.
pub open spec fn all_flagged(records: Map<u64, Notify>, flag: bool) -> Map<u64, Notify> {
    Map::new(|id: u64| records.contains_key(id), |id: u64| flagged(records[id], flag))
}

/// Whether `rows` lists the records of a collection: each row is a record of
/// it under its id, no id comes twice, and no record is left out.
pub open spec fn is_listing(rows: Seq<Target>, records: Map<u64, Notify>) -> bool {
    &&& rows.len() == records.len()
    &&& forall|i: int|
        0 <= i < rows.len() ==> records.contains_key(#[trigger] rows[i].id) && records[rows[i].id]
            == rows[i].record
    &&& forall|i: int, j: int| 0 <= i < j < rows.len() ==> #[trigger] rows[i].id != #[trigger] rows[j].id
    &&& forall|id: u64|
        records.contains_key(id) ==> exists|i: int| 0 <= i < rows.len() && #[trigger] rows[i].id == id
}

/// Whether `targets` lists the selected records of a collection: each target
/// is a selected record of it under its id, no id comes twice, and no selected
/// record is left out.
pub open spec fn is_selection(targets: Seq<Target>, records: Map<u64, Notify>) -> bool {
    &&& forall|i: int|
        0 <= i < targets.len() ==> {
            &&& records.contains_key(#[trigger] targets[i].id)
            &&& records[targets[i].id] == targets[i].record
            &&& targets[i].record.is_selected
        }
    &&& forall|i: int, j: int|
        0 <= i < j < targets.len() ==> #[trigger] targets[i].id != #[trigger] targets[j].id
    &&& forall|id: u64|
        records.contains_key(id) && records[id].is_selected ==> exists|i: int|
            0 <= i < targets.len() && #[trigger] targets[i].id == id
}

/// How many of the rows are selected.
pub open spec fn count_selected(rows: Seq<Target>) -> nat
    decreases rows.len(),
{
    if rows.len() == 0 {
        0
    } else {
        count_selected(rows.drop_last()) + if rows.last().record.is_selected {
            1nat
        } else {
            0nat
        }
    }
}

/// The state of the screen after a message.
///
/// The messages that work on the collection (ticking a record, selecting or
/// deselecting all, starting a deletion run, the news that a record was
/// deleted) change nothing while there is no collection.
pub open spec fn updated(viewer: ViewerModel, msg: NvMsg) -> ViewerModel {
    match msg {
        NvMsg::SecondsInputChanged(typed) => ViewerModel { sleep_seconds: typed@, ..viewer },
        NvMsg::ChangeNotifyRemoveState(id, flag) => match viewer.notify {
            Some(records) => if records.contains_key(id) {
                ViewerModel {
                    notify: Some(records.insert(id, flagged(records[id], flag))),
                    ..viewer
                }
            } else {
                viewer
            },
            None => viewer,
        },
        NvMsg::NotifysSelectAll => match viewer.notify {
            Some(records) => ViewerModel {
                notify: Some(all_flagged(records, true)),
                select_state: false,
                ..viewer
            },
            None => viewer,
        },
        NvMsg::NotifysDeselectAll => match viewer.notify {
            Some(records) => ViewerModel {
                notify: Some(all_flagged(records, false)),
                select_state: true,
                ..viewer
            },
            None => viewer,
        },
        NvMsg::DeleteNotify => match viewer.notify {
            Some(_) => ViewerModel { is_deleting: true, ..viewer },
            None => viewer,
        },
        NvMsg::StopDeleteNotify => viewer,
        NvMsg::NotifyDeleted { id } => match viewer.notify {
            Some(records) => ViewerModel { notify: Some(records.remove(id)), ..viewer },
            None => viewer,
        },
        NvMsg::AllNotifyDeleted => ViewerModel { is_deleting: false, ..viewer },
        NvMsg::NotifysFetched(Ok(records)) => ViewerModel {
            is_fetching: false,
            notify: Some(records@),
            ..viewer
        },
        NvMsg::NotifysFetched(Err(failure)) => ViewerModel {
            is_fetching: false,
            error: Some(failure),
            ..viewer
        },
        NvMsg::RetryFetchNotify => ViewerModel { error: None, is_fetching: true, ..viewer },
    }
}

/// Whether `action` is the outside work that a message calls for in a state.
///
/// A change of the collection asks for the screen to be drawn again. A request
/// to delete hands out the selected records, in no particular order, and the
/// pause as typed. A request to stop or to fetch again is passed on.
pub open spec fn is_action_for(action: ViewerAction, viewer: ViewerModel, msg: NvMsg) -> bool {
    match msg {
        NvMsg::ChangeNotifyRemoveState(_, _)
        | NvMsg::NotifysSelectAll
        | NvMsg::NotifysDeselectAll
        | NvMsg::NotifyDeleted { .. } => if viewer.notify is Some {
            action is RefreshUI
        } else {
            action is Nothing
        },
        NvMsg::DeleteNotify => match viewer.notify {
            Some(records) => action matches ViewerAction::DeleteNotify { targets, sleep_seconds }
                && is_selection(targets@, records) && sleep_seconds@ == viewer.sleep_seconds,
            None => action is Nothing,
        },
        NvMsg::StopDeleteNotify => action is StopDelete,
        NvMsg::RetryFetchNotify => action is RetryFetchNotify,
        NvMsg::SecondsInputChanged(_) | NvMsg::AllNotifyDeleted | NvMsg::NotifysFetched(_) => action
            is Nothing,
    }
}

/// The collection with every selection flag set to `flag`.
pub fn flag_all(records: &HashMap<u64, Notify>, flag: bool) -> (r: HashMap<u64, Notify>)
    ensures
        r@ == all_flagged(records@, flag),
{
    broadcast use vstd::std_specs::hash::group_hash_axioms;

    let mut out: HashMap<u64, Notify> = HashMap::new();
    for pair in it: records.iter()
        invariant
            forall|id: u64| #[trigger]
                out@.contains_key(id) <==> exists|j: int|
                    0 <= j < it.index() && *it.seq()[j].0 == id,
            forall|id: u64| #[trigger]
                out@.contains_key(id) ==> records@.contains_key(id) && out@[id] == flagged(
                    records@[id],
                    flag,
                ),
    {
        let (id, record) = pair;
        out.insert(*id, Notify { tp: record.tp, is_selected: flag, protocol: record.protocol });
    }
    assert(out@ =~= all_flagged(records@, flag));
    out
}

/// The records of the collection, one row each, in no particular order.
pub fn listing(records: &HashMap<u64, Notify>) -> (r: Vec<Target>)
    ensures
        is_listing(r@, records@),
{
    broadcast use vstd::std_specs::hash::group_hash_axioms;

    let mut rows: Vec<Target> = Vec::new();
    for pair in it: records.iter()
        invariant
            rows@.len() == it.index(),
            forall|i: int|
                0 <= i < rows@.len() ==> (#[trigger] rows@[i]).id == *it.seq()[i].0 && rows@[i].record
                    == *it.seq()[i].1,
    {
        let (id, record) = pair;
        rows.push(Target { id: *id, record: *record });
    }
    assert forall|i: int, j: int| 0 <= i < j < rows@.len() implies #[trigger] rows@[i].id
        != #[trigger] rows@[j].id by {
        if rows@[i].id == rows@[j].id {
            assert(records@[rows@[i].id] == rows@[i].record);
            assert(records@[rows@[j].id] == rows@[j].record);
        }
    }
    proof {
        lemma_rows_cover(rows@, records@);
    }
    rows
}

/// A run of rows that are records of the collection, without a repeated id
/// and as many as the collection holds, leaves no record out.
proof fn lemma_rows_cover(rows: Seq<Target>, records: Map<u64, Notify>)
    requires
        records.dom().finite(),
        rows.len() == records.len(),
        forall|i: int|
            0 <= i < rows.len() ==> records.contains_key(#[trigger] rows[i].id) && records[rows[i].id]
                == rows[i].record,
        forall|i: int, j: int| 0 <= i < j < rows.len() ==> #[trigger] rows[i].id != #[trigger] rows[j].id,
    ensures
        is_listing(rows, records),
    decreases rows.len(),
{
    if rows.len() == 0 {
        vstd::set_lib::lemma_set_empty_equivalency_len(records.dom());
    } else {
        let last = rows.last();
        let rest = rows.drop_last();
        let fewer = records.remove(last.id);
        assert forall|i: int| 0 <= i < rest.len() implies fewer.contains_key(#[trigger] rest[i].id)
            && fewer[rest[i].id] == rest[i].record by {
            assert(rest[i] == rows[i]);
            assert(rows[i].id != rows[rows.len() - 1].id);
        }
        assert forall|i: int, j: int| 0 <= i < j < rest.len() implies #[trigger] rest[i].id
            != #[trigger] rest[j].id by {
            assert(rest[i] == rows[i]);
            assert(rest[j] == rows[j]);
        }
        lemma_rows_cover(rest, fewer);
        assert forall|id: u64| records.contains_key(id) implies exists|i: int|
            0 <= i < rows.len() && #[trigger] rows[i].id == id by {
            if id == last.id {
                assert(rows[rows.len() - 1].id == id);
            } else {
                assert(fewer.contains_key(id));
                let i = choose|i: int| 0 <= i < rest.len() && #[trigger] rest[i].id == id;
                assert(rows[i].id == id);
            }
        }
    }
}

/// The selected rows among `rows`, in their order.
pub open spec fn chosen(rows: Seq<Target>) -> Seq<Target>
    decreases rows.len(),
{
    if rows.len() == 0 {
        Seq::empty()
    } else if rows.last().record.is_selected {
        chosen(rows.drop_last()).push(rows.last())
    } else {
        chosen(rows.drop_last())
    }
}

/// Whether no id comes twice.
pub open spec fn distinct_ids(rows: Seq<Target>) -> bool {
    forall|i: int, j: int| 0 <= i < j < rows.len() ==> #[trigger] rows[i].id != #[trigger] rows[j].id
}

/// The chosen rows are the selected ones among the rows, and no id comes twice
/// among them where none does among the rows.
proof fn lemma_chosen(rows: Seq<Target>)
    ensures
        forall|x: Target| #[trigger]
            chosen(rows).contains(x) <==> rows.contains(x) && x.record.is_selected,
        distinct_ids(rows) ==> distinct_ids(chosen(rows)),
    decreases rows.len(),
{
    if rows.len() > 0 {
        let rest = rows.drop_last();
        let last = rows.last();
        lemma_chosen(rest);
        assert forall|x: Target| #[trigger]
            chosen(rows).contains(x) <==> rows.contains(x) && x.record.is_selected by {
            if chosen(rows).contains(x) {
                let t = choose|t: int| 0 <= t < chosen(rows).len() && chosen(rows)[t] == x;
                if last.record.is_selected && t == chosen(rows).len() - 1 {
                    assert(rows[rows.len() - 1] == x);
                } else {
                    assert(chosen(rest)[t] == x);
                    assert(chosen(rest).contains(x));
                    let j = choose|j: int| 0 <= j < rest.len() && rest[j] == x;
                    assert(rows[j] == x);
                }
            }
            if rows.contains(x) && x.record.is_selected {
                let j = choose|j: int| 0 <= j < rows.len() && rows[j] == x;
                if j == rows.len() - 1 {
                    assert(chosen(rows)[chosen(rows).len() - 1] == x);
                } else {
                    assert(rest[j] == x);
                    assert(rest.contains(x));
                    assert(chosen(rest).contains(x));
                    let t = choose|t: int| 0 <= t < chosen(rest).len() && chosen(rest)[t] == x;
                    assert(chosen(rows)[t] == x);
                }
            }
        }
        if distinct_ids(rows) {
            assert(distinct_ids(rest)) by {
                assert forall|i: int, j: int| 0 <= i < j < rest.len() implies #[trigger] rest[i].id
                    != #[trigger] rest[j].id by {
                    assert(rest[i] == rows[i]);
                    assert(rest[j] == rows[j]);
                }
            }
            assert forall|s: int, t: int| 0 <= s < t < chosen(rows).len() implies #[trigger] chosen(
                rows,
            )[s].id != #[trigger] chosen(rows)[t].id by {
                if last.record.is_selected && t == chosen(rows).len() - 1 {
                    let x = chosen(rest)[s];
                    assert(chosen(rest).contains(x));
                    let j = choose|j: int| 0 <= j < rest.len() && rest[j] == x;
                    assert(rows[j] == x);
                    assert(rows[j].id != rows[rows.len() - 1].id);
                } else {
                    assert(chosen(rest)[s].id != chosen(rest)[t].id);
                }
            }
        }
    }
}

/// The chosen rows of a listing are a selection of the collection.
proof fn lemma_chosen_is_selection(rows: Seq<Target>, records: Map<u64, Notify>)
    requires
        is_listing(rows, records),
    ensures
        is_selection(chosen(rows), records),
{
    lemma_chosen(rows);
    let targets = chosen(rows);
    assert(distinct_ids(rows));
    assert forall|t: int| 0 <= t < targets.len() implies {
        &&& records.contains_key(#[trigger] targets[t].id)
        &&& records[targets[t].id] == targets[t].record
        &&& targets[t].record.is_selected
    } by {
        let x = targets[t];
        assert(targets.contains(x));
        let j = choose|j: int| 0 <= j < rows.len() && rows[j] == x;
        assert(records.contains_key(rows[j].id));
    }
    assert forall|id: u64| records.contains_key(id) && records[id].is_selected implies exists|
        t: int,
    | 0 <= t < targets.len() && #[trigger] targets[t].id == id by {
        let j = choose|j: int| 0 <= j < rows.len() && #[trigger] rows[j].id == id;
        let x = rows[j];
        assert(records[x.id] == x.record);
        assert(rows.contains(x));
        assert(targets.contains(x));
        let t = choose|t: int| 0 <= t < targets.len() && targets[t] == x;
        assert(targets[t].id == id);
    }
}

/// The selected records of the collection, in no particular order.
pub fn selection(records: &HashMap<u64, Notify>) -> (r: Vec<Target>)
    ensures
        is_selection(r@, records@),
{
    let rows = listing(records);
    let mut targets: Vec<Target> = Vec::new();
    let mut i: usize = 0;
    while i < rows.len()
        invariant
            i <= rows.len(),
            targets@ == chosen(rows@.take(i as int)),
        decreases rows.len() - i,
    {
        proof {
            assert(rows@.take(i + 1).drop_last() =~= rows@.take(i as int));
        }
        let row = rows[i];
        if row.record.is_selected {
            targets.push(row);
        }
        i += 1;
    }
    proof {
        assert(rows@.take(i as int) =~= rows@);
        lemma_chosen_is_selection(rows@, records@);
    }
    targets
}

/// The message that tells the screen of the outcome of one deletion call: the
/// news that the record is gone where the call succeeded, none where it failed.
pub fn outcome_message(outcome: &Result<u64, DeleteError>) -> (r: Option<NvMsg>)
    ensures
        r == match *outcome {
            Ok(id) => Some(NvMsg::NotifyDeleted { id }),
            Err(_) => None,
        },
{
    match outcome {
        Ok(id) => Some(NvMsg::NotifyDeleted { id: *id }),
        Err(_) => None,
    }
}

/// The message that tells the screen of the end of a deletion run: one for
/// each of the two final moves of the worker, none for the others.
pub fn end_message(action: WorkerAction) -> (r: Option<NvMsg>)
    ensures
        r == if action is AllDone || action is Stopped {
            Some(NvMsg::AllNotifyDeleted)
        } else {
            None
        },
{
    match action {
        WorkerAction::AllDone | WorkerAction::Stopped => Some(NvMsg::AllNotifyDeleted),
        _ => None,
    }
}

impl NotifyViewer {
    /// The screen as it starts: a fetch under way, no collection, a pause of
    /// three seconds typed in.
    pub fn new() -> (r: NotifyViewer)
        ensures
            r.model() == (ViewerModel {
                notify: None,
                sleep_seconds: "3"@,
                is_deleting: false,
                is_fetching: true,
                select_state: false,
                error: None,
            }),
    {
        NotifyViewer {
            notify: None,
            sleep_seconds: "3".to_owned(),
            is_deleting: false,
            is_fetching: true,
            select_state: false,
            error: None,
        }
    }

    /// Takes in a message and says what outside work it calls for.
    pub fn update(&mut self, msg: NvMsg) -> (r: ViewerAction)
        ensures
            final(self).model() == updated(old(self).model(), msg),
            is_action_for(r, old(self).model(), msg),
    {
        broadcast use vstd::std_specs::hash::group_hash_axioms;

        match msg {
            NvMsg::SecondsInputChanged(typed) => {
                self.sleep_seconds = typed;
                ViewerAction::Nothing
            },
            NvMsg::ChangeNotifyRemoveState(id, flag) => {
                match self.notify.take() {
                    Some(mut records) => {
                        let found = match records.get(&id) {
                            Some(record) => Some(*record),
                            None => None,
                        };
                        if let Some(record) = found {
                            records.insert(
                                id,
                                Notify { tp: record.tp, is_selected: flag, protocol: record.protocol },
                            );
                        }
                        self.notify = Some(records);
                        ViewerAction::RefreshUI
                    },
                    None => ViewerAction::Nothing,
                }
            },
            NvMsg::NotifysSelectAll => {
                match self.notify.take() {
                    Some(records) => {
                        self.notify = Some(flag_all(&records, true));
                        self.select_state = false;
                        ViewerAction::RefreshUI
                    },
                    None => ViewerAction::Nothing,
                }
            },
            NvMsg::NotifysDeselectAll => {
                match self.notify.take() {
                    Some(records) => {
                        self.notify = Some(flag_all(&records, false));
                        self.select_state = true;
                        ViewerAction::RefreshUI
                    },
                    None => ViewerAction::Nothing,
                }
            },
            NvMsg::DeleteNotify => {
                match &self.notify {
                    Some(records) => {
                        let targets = selection(records);
                        self.is_deleting = true;
                        ViewerAction::DeleteNotify {
                            targets,
                            sleep_seconds: self.sleep_seconds.clone(),
                        }
                    },
                    None => ViewerAction::Nothing,
                }
            },
            NvMsg::StopDeleteNotify => ViewerAction::StopDelete,
            NvMsg::NotifyDeleted { id } => {
                match self.notify.take() {
                    Some(mut records) => {
                        records.remove(&id);
                        self.notify = Some(records);
                        ViewerAction::RefreshUI
                    },
                    None => ViewerAction::Nothing,
                }
            },
            NvMsg::AllNotifyDeleted => {
                self.is_deleting = false;
                ViewerAction::Nothing
            },
            NvMsg::NotifysFetched(Ok(records)) => {
                self.is_fetching = false;
                self.notify = Some(records);
                ViewerAction::Nothing
            },
            NvMsg::NotifysFetched(Err(failure)) => {
                self.is_fetching = false;
                self.error = Some(failure);
                ViewerAction::Nothing
            },
            NvMsg::RetryFetchNotify => {
                self.error = None;
                self.is_fetching = true;
                ViewerAction::RetryFetchNotify
            },
        }
    }

    /// What is to be drawn: the rows of the collection, in no particular
    /// order, with the number of selected records and the number of all, or
    /// the placeholder while there is no collection.
    pub fn view(&self) -> (r: Screen)
        ensures
            match self.model().notify {
                Some(records) => r matches Screen::Listing {
                    rows,
                    selected,
                    total,
                    select_state,
                    is_deleting,
                    sleep_seconds,
                } && {
                    &&& is_listing(rows@, records)
                    &&& total == records.len()
                    &&& selected == count_selected(rows@)
                    &&& select_state == self.select_state
                    &&& is_deleting == self.is_deleting
                    &&& sleep_seconds@ == self.sleep_seconds@
                },
                None => r == (Screen::Placeholder {
                    is_fetching: self.is_fetching,
                    error: self.error,
                }),
            },
    {
        match &self.notify {
            Some(records) => {
                let rows = listing(records);
                let mut selected: usize = 0;
                let mut i: usize = 0;
                while i < rows.len()
                    invariant
                        i <= rows.len(),
                        selected <= i,
                        selected == count_selected(rows@.take(i as int)),
                    decreases rows.len() - i,
                {
                    proof {
                        assert(rows@.take(i + 1).drop_last() =~= rows@.take(i as int));
                    }
                    if rows[i].record.is_selected {
                        selected += 1;
                    }
                    i += 1;
                }
                assert(rows@.take(i as int) =~= rows@);
                let total = rows.len();
                Screen::Listing {
                    rows,
                    selected,
                    total,
                    select_state: self.select_state,
                    is_deleting: self.is_deleting,
                    sleep_seconds: self.sleep_seconds.clone(),
                }
            },
            None => Screen::Placeholder { is_fetching: self.is_fetching, error: self.error },
        }
    }
}

} // verus!
