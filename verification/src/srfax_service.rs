//! The per-account worker, written as a step-driven state machine.
//!
//! One run of the machine processes one account for one cycle: connectivity
//! probe, inbox listing, then per-item download and optional delete.  The
//! machine owns every decision; each network or filesystem effect is handed
//! out as an [`Action`] and its outcome handed back as an [`Event`].  An
//! item's failure never aborts its siblings: the machine records one alert
//! for the item and moves on to the next.

use vstd::prelude::*;
use vstd::string::StringExecFns;
use crate::config::Srfax;
use crate::response::DeleteFaxResponse;
use crate::response::Direction;
use crate::response::Inbox;
use crate::response::InboxItem;
use crate::response::ResultStatus;
use crate::response::RetrieveFaxResponse;
use crate::srfax::SrfaxError;
use crate::srfax::b64_decode_of;
use crate::srfax::decode_retrieve;
use crate::srfax::delete_request_params;
use crate::srfax::dest_path;
use crate::srfax::dest_path_spec;
use crate::srfax::has_bar;
use crate::srfax::inbox_request_params;
use crate::srfax::is_delete_params;
use crate::srfax::is_inbox_params;
use crate::srfax::is_retrieve_params;
use crate::srfax::payload_bytes;
use crate::srfax::resolve_fax_filename;
use crate::srfax::retrieve_request_params;
use crate::srfax::safe_filename;
use crate::srfax::split_name;
use crate::srfax::strip_nl;

verus! {

/// Account-level failure of one worker run.
#[derive(Debug)]
pub enum Error {
    /// A pipeline error ended the run (for instance a transport failure
    /// while listing the inbox).
    Srfax(SrfaxError),
    /// The list envelope's status was not `Success`.
    InboxFetchFailed,
    /// The connectivity probe failed.
    NoConnection,
}

/// A fire-and-forget operator alert.
#[derive(Debug)]
pub struct Alert {
    pub subject: String,
    pub body: String,
}

/// Where the worker stands between two events.
#[derive(Debug)]
pub enum Phase {
    /// The connectivity probe is out.
    Probing,
    /// The inbox listing is out.
    Listing,
    /// The existence check for the current item's destination is out.
    AwaitExists { items: Vec<InboxItem>, idx: usize, dest: String },
    /// The retrieve call for the current item is out.
    AwaitRetrieve { items: Vec<InboxItem>, idx: usize, dest: String },
    /// The file write for the current item is out.
    AwaitWrite { items: Vec<InboxItem>, idx: usize },
    /// The delete call for the current item is out.
    AwaitDelete { items: Vec<InboxItem>, idx: usize },
    /// The run is over; no further event is accepted.
    Done,
}

/// The one outside effect the shell must perform next.
#[derive(Debug)]
pub enum Action {
    /// GET the provider root and report the HTTP status.
    Probe,
    /// POST the form and decode an `Inbox` envelope.
    FetchInbox { params: Vec<(String, String)> },
    /// Create `dir` if absent and report whether `path` exists.
    CheckExists { dir: String, path: String },
    /// POST the form and decode a `RetrieveFaxResponse` envelope.
    Retrieve { params: Vec<(String, String)> },
    /// Create `path` as a new file holding `data`.
    Write { path: String, data: Vec<u8> },
    /// POST the form and decode a `DeleteFaxResponse` envelope.
    Delete { params: Vec<(String, String)> },
    /// The run is over with this outcome.
    Finish { result: Result<(), Error> },
}

/// Outcome of a performed action, handed back to the machine.  The `Err`
/// side of each result carries the transport or filesystem error text.
#[derive(Debug)]
#[allow(inconsistent_fields)]
pub enum Event {
    /// HTTP status of the probe, or `None` on a transport failure.
    Probed { status: Option<u16> },
    InboxFetched { result: Result<Inbox, String> },
    Existence { result: Result<bool, String> },
    Retrieved { result: Result<RetrieveFaxResponse, String> },
    Written { result: Result<(), String> },
    Deleted { result: Result<DeleteFaxResponse, String> },
}

/// The worker: the account it serves, its phase, and the alerts recorded so
/// far.  Alerts are append-only; the shell sends each new one as it
/// appears.
#[derive(Debug)]
pub struct Worker {
    pub account: Srfax,
    pub phase: Phase,
    pub alerts: Vec<Alert>,
}

/// An item can be processed: its identifier splits and the name is safe.
pub open spec fn item_resolves(item: InboxItem) -> bool {
    has_bar(item.FileName@) && safe_filename(split_name(item.FileName@))
}

/// Index of the first processable item at or after `idx`, or `items.len()`
/// if none is left.
pub open spec fn first_ok(items: Seq<InboxItem>, idx: int) -> int
    decreases items.len() - idx when 0 <= idx <= items.len()
{
    if idx >= items.len() {
        items.len() as int
    } else if item_resolves(items[idx]) {
        idx
    } else {
        first_ok(items, idx + 1)
    }
}

/// `first_ok` always lands between `idx` and the end of the list.
pub proof fn lemma_first_ok_bounds(items: Seq<InboxItem>, idx: int)
    requires
        0 <= idx <= items.len(),
    ensures
        idx <= first_ok(items, idx) <= items.len(),
    decreases items.len() - idx,
{
    if idx < items.len() && !item_resolves(items[idx]) {
        lemma_first_ok_bounds(items, idx + 1);
    }
}

/// `first_ok` stays put while the skipped range only grows over
/// unprocessable items.
pub proof fn lemma_first_ok_step(items: Seq<InboxItem>, idx: int, i: int)
    requires
        0 <= idx <= i <= items.len(),
        forall|j: int| idx <= j < i ==> !item_resolves(items[j]),
    ensures
        first_ok(items, idx) == first_ok(items, i),
    decreases i - idx,
{
    if idx < i {
        lemma_first_ok_step(items, idx + 1, i);
    }
}

/// Why the current item could not be resolved, as alert text.
pub open spec fn resolve_failure_text(item: InboxItem) -> Seq<char> {
    if !has_bar(item.FileName@) {
        "malformed identifier: "@ + item.FileName@
    } else {
        "unsafe path: "@ + split_name(item.FileName@)
    }
}

/// An alert that names the account, the item and the failure.
pub open spec fn is_failure_alert(
    a: Alert,
    subject: Seq<char>,
    acct: Srfax,
    item: InboxItem,
    text: Seq<char>,
) -> bool {
    &&& a.subject@ == subject
    &&& a.body@ == subject + "! account="@ + acct.name@ + " item="@ + item.FileName@ + " error="@
        + text
}

/// An item-level failure alert (resolution, download or write).
pub open spec fn is_item_alert(a: Alert, acct: Srfax, item: InboxItem, text: Seq<char>) -> bool {
    is_failure_alert(a, "error retrieving fax"@, acct, item, text)
}

/// A delete-failure alert; delete failures never fail the run.
pub open spec fn is_delete_alert(a: Alert, acct: Srfax, item: InboxItem, text: Seq<char>) -> bool {
    is_failure_alert(a, "error deleting fax"@, acct, item, text)
}

/// The worker moved on to the first processable item at or after `idx`
/// (with alerts already recorded up to `pre`): every item skipped on the
/// way failed to resolve and got exactly one alert; past the end of the
/// list the run finished successfully.
pub open spec fn advanced(
    acct: Srfax,
    items: Seq<InboxItem>,
    idx: int,
    pre: Seq<Alert>,
    w: Worker,
    a: Action,
) -> bool {
    let f = first_ok(items, idx);
    &&& w.account == acct
    &&& w.alerts@.len() == pre.len() + (f - idx)
    &&& (forall|k: int| 0 <= k < pre.len() ==> w.alerts@[k] == pre[k])
    &&& (forall|k: int|
        pre.len() <= k < w.alerts@.len() ==> is_item_alert(
            w.alerts@[k],
            acct,
            items[idx + (k - pre.len())],
            resolve_failure_text(items[idx + (k - pre.len())]),
        ))
    &&& if f < items.len() {
        ({
            &&& w.phase matches Phase::AwaitExists { items: wi, idx: wx, dest } && wi@ == items
                && wx == f && dest@ == dest_path_spec(
                acct.file_dir@,
                split_name(items[f].FileName@),
                acct.download_fmt,
            )
            &&& a matches Action::CheckExists { dir, path } && dir@ == acct.file_dir@ && path@
                == dest_path_spec(acct.file_dir@, split_name(items[f].FileName@), acct.download_fmt)
        })
    } else {
        ({
            &&& w.phase is Done
            &&& a matches Action::Finish { result } && result is Ok
        })
    }
}

/// The current item failed with the given alert text: one item alert was
/// recorded for it and the worker moved on past it.
pub open spec fn item_failed_advanced(
    acct: Srfax,
    items: Seq<InboxItem>,
    idx: int,
    pre: Seq<Alert>,
    text: Seq<char>,
    w: Worker,
    a: Action,
) -> bool {
    &&& w.alerts@.len() > pre.len()
    &&& is_item_alert(w.alerts@[pre.len() as int], acct, items[idx], text)
    &&& advanced(acct, items, idx + 1, pre.push(w.alerts@[pre.len() as int]), w, a)
}

/// The current item's delete failed with the given alert text: one delete
/// alert was recorded and the worker moved on; the item still counts as
/// succeeded.
pub open spec fn delete_failed_advanced(
    acct: Srfax,
    items: Seq<InboxItem>,
    idx: int,
    pre: Seq<Alert>,
    text: Seq<char>,
    w: Worker,
    a: Action,
) -> bool {
    &&& w.alerts@.len() > pre.len()
    &&& is_delete_alert(w.alerts@[pre.len() as int], acct, items[idx], text)
    &&& advanced(acct, items, idx + 1, pre.push(w.alerts@[pre.len() as int]), w, a)
}

/// The current item succeeded: when the account asks for it the remote copy
/// is deleted next, otherwise the worker moves on; either way no alert was
/// recorded for this item.
pub open spec fn item_done_advanced(
    acct: Srfax,
    items: Seq<InboxItem>,
    idx: int,
    pre: Seq<Alert>,
    w: Worker,
    a: Action,
) -> bool {
    if acct.delete_after {
        ({
            &&& w.account == acct
            &&& w.alerts@ == pre
            &&& w.phase matches Phase::AwaitDelete { items: wi, idx: wx } && wi@ == items && wx
                == idx
            &&& a matches Action::Delete { params } && is_delete_params(
                params@,
                acct,
                items[idx],
                Direction::IN,
            )
        })
    } else {
        advanced(acct, items, idx + 1, pre, w, a)
    }
}

/// The probe succeeded: some HTTP status came back and it was a success
/// status.
pub open spec fn probe_ok(status: Option<u16>) -> bool {
    status matches Some(c) && 200 <= c < 300
}

impl Worker {
    /// Internal consistency of a phase: the current index points at a
    /// processable item and the stored destination is the one computed for
    /// it.
    pub open spec fn wf(self) -> bool {
        match self.phase {
            Phase::AwaitExists { items, idx, dest } => idx < items@.len() && item_resolves(
                items@[idx as int],
            ) && dest@ == dest_path_spec(
                self.account.file_dir@,
                split_name(items@[idx as int].FileName@),
                self.account.download_fmt,
            ),
            Phase::AwaitRetrieve { items, idx, dest } => idx < items@.len() && item_resolves(
                items@[idx as int],
            ) && dest@ == dest_path_spec(
                self.account.file_dir@,
                split_name(items@[idx as int].FileName@),
                self.account.download_fmt,
            ),
            Phase::AwaitWrite { items, idx } => idx < items@.len() && item_resolves(
                items@[idx as int],
            ),
            Phase::AwaitDelete { items, idx } => idx < items@.len() && item_resolves(
                items@[idx as int],
            ),
            _ => true,
        }
    }

    /// Which events a phase accepts: exactly the outcome of the action the
    /// machine last handed out.
    pub open spec fn accepts(self, event: Event) -> bool {
        match (self.phase, event) {
            (Phase::Probing, Event::Probed { .. }) => true,
            (Phase::Listing, Event::InboxFetched { .. }) => true,
            (Phase::AwaitExists { .. }, Event::Existence { .. }) => true,
            (Phase::AwaitRetrieve { .. }, Event::Retrieved { .. }) => true,
            (Phase::AwaitWrite { .. }, Event::Written { .. }) => true,
            (Phase::AwaitDelete { .. }, Event::Deleted { .. }) => true,
            _ => false,
        }
    }

    /// Begin a run for one account: the first action is the connectivity
    /// probe.
    pub fn start(account: Srfax) -> (r: (Worker, Action))
        ensures
            r.0.account == account,
            r.0.phase is Probing,
            r.0.alerts@.len() == 0,
            r.1 is Probe,
            r.0.wf(),
    {
        (Worker { account, phase: Phase::Probing, alerts: Vec::new() }, Action::Probe)
    }
}

/// The full transition relation of the worker: given the machine before an
/// event and the event itself, what the machine and the action after it
/// must be.
pub open spec fn step_spec(pre: Worker, event: Event, w: Worker, a: Action) -> bool {
    match event {
        Event::Probed { status } => ({
            &&& w.account == pre.account
            &&& if probe_ok(status) {
                ({
                    &&& w.phase is Listing
                    &&& w.alerts@ == pre.alerts@
                    &&& a matches Action::FetchInbox { params } && is_inbox_params(
                        params@,
                        pre.account,
                    )
                })
            } else {
                ({
                    &&& w.phase is Done
                    &&& w.alerts@ == pre.alerts@
                    &&& a matches Action::Finish { result } && (result matches Err(e) && e
                        is NoConnection)
                })
            }
        }),
        Event::InboxFetched { result } => ({
            &&& w.account == pre.account
            &&& match result {
                Err(m) => ({
                    &&& w.phase is Done
                    &&& w.alerts@ == pre.alerts@
                    &&& a matches Action::Finish { result: fr } && (fr matches Err(e) && (
                    e matches Error::Srfax(se) && (se matches SrfaxError::Transport(t) && t@
                        == m@)))
                }),
                Ok(inbox) => ({
                    &&& inbox.Status is Failed ==> ({
                        &&& w.phase is Done
                        &&& w.alerts@ == pre.alerts@
                        &&& a matches Action::Finish { result: fr } && (fr matches Err(e) && e
                            is InboxFetchFailed)
                    })
                    &&& (inbox.Status is Success && inbox.Result is None) ==> ({
                        &&& w.phase is Done
                        &&& w.alerts@ == pre.alerts@
                        &&& a matches Action::Finish { result: fr } && fr is Ok
                    })
                    &&& inbox.Result matches Some(items) ==> (inbox.Status is Success
                        ==> advanced(pre.account, items@, 0, pre.alerts@, w, a))
                }),
            }
        }),
        Event::Existence { result } => (pre.phase matches Phase::AwaitExists { items, idx, dest }
            ==> match result {
            Err(m) => item_failed_advanced(
                pre.account,
                items@,
                idx as int,
                pre.alerts@,
                "io error: "@ + m@,
                w,
                a,
            ),
            Ok(exists) => if exists {
                item_done_advanced(pre.account, items@, idx as int, pre.alerts@, w, a)
            } else {
                ({
                    &&& w.account == pre.account
                    &&& w.alerts@ == pre.alerts@
                    &&& w.phase matches Phase::AwaitRetrieve { items: wi, idx: wx, dest: wd } && (
                    wi@ == items@ && wx == idx && wd@ == dest@)
                    &&& a matches Action::Retrieve { params } && is_retrieve_params(
                        params@,
                        pre.account,
                        items@[idx as int],
                        Direction::IN,
                    )
                })
            },
        }),
        Event::Retrieved { result } => (pre.phase matches Phase::AwaitRetrieve { items, idx, dest }
            ==> match result {
            Err(m) => item_failed_advanced(
                pre.account,
                items@,
                idx as int,
                pre.alerts@,
                "transport error: "@ + m@,
                w,
                a,
            ),
            Ok(resp) => ({
                &&& (resp.Status is Failed || resp.Result is None) ==> item_failed_advanced(
                    pre.account,
                    items@,
                    idx as int,
                    pre.alerts@,
                    "failed to download"@,
                    w,
                    a,
                )
                &&& resp.Result matches Some(p) ==> (resp.Status is Success ==> ({
                    let decoded = b64_decode_of(strip_nl(payload_bytes(p@)));
                    &&& decoded matches Some(bytes) ==> ({
                        &&& w.account == pre.account
                        &&& w.alerts@ == pre.alerts@
                        &&& w.phase matches Phase::AwaitWrite { items: wi, idx: wx } && (wi@
                            == items@ && wx == idx)
                        &&& a matches Action::Write { path, data } && (path@ == dest@ && data@
                            == bytes)
                    })
                    &&& decoded is None ==> item_failed_advanced(
                        pre.account,
                        items@,
                        idx as int,
                        pre.alerts@,
                        "invalid base64 document"@,
                        w,
                        a,
                    )
                }))
            }),
        }),
        Event::Written { result } => (pre.phase matches Phase::AwaitWrite { items, idx }
            ==> match result {
            Err(m) => item_failed_advanced(
                pre.account,
                items@,
                idx as int,
                pre.alerts@,
                "io error: "@ + m@,
                w,
                a,
            ),
            Ok(_) => item_done_advanced(pre.account, items@, idx as int, pre.alerts@, w, a),
        }),
        Event::Deleted { result } => (pre.phase matches Phase::AwaitDelete { items, idx }
            ==> match result {
            Err(m) => delete_failed_advanced(
                pre.account,
                items@,
                idx as int,
                pre.alerts@,
                "transport error: "@ + m@,
                w,
                a,
            ),
            Ok(resp) => ({
                &&& resp.Status is Failed ==> delete_failed_advanced(
                    pre.account,
                    items@,
                    idx as int,
                    pre.alerts@,
                    resp.Result@,
                    w,
                    a,
                )
                &&& resp.Status is Success ==> advanced(
                    pre.account,
                    items@,
                    idx + 1,
                    pre.alerts@,
                    w,
                    a,
                )
            }),
        }),
    }
}

impl Worker {
    /// Feed the outcome of the last action back into the machine and get
    /// the next action.  The transition taken is pinned by [`step_spec`].
    pub fn step(self, event: Event) -> (r: (Worker, Action))
        requires
            self.wf(),
            self.accepts(event),
        ensures
            r.0.wf(),
            step_spec(self, event, r.0, r.1),
    {
        let Worker { account, phase, alerts } = self;
        match (phase, event) {
            (Phase::Probing, Event::Probed { status }) => {
                let ok = match status {
                    Some(c) => 200 <= c && c < 300,
                    None => false,
                };
                if ok {
                    let params = inbox_request_params(&account);
                    (
                        Worker { account, phase: Phase::Listing, alerts },
                        Action::FetchInbox { params },
                    )
                } else {
                    (
                        Worker { account, phase: Phase::Done, alerts },
                        Action::Finish { result: Err(Error::NoConnection) },
                    )
                }
            },
            (Phase::Listing, Event::InboxFetched { result }) => match result {
                Err(m) => (
                    Worker { account, phase: Phase::Done, alerts },
                    Action::Finish { result: Err(Error::Srfax(SrfaxError::Transport(m))) },
                ),
                Ok(inbox) => {
                    if !(inbox.Status == ResultStatus::Success) {
                        (
                            Worker { account, phase: Phase::Done, alerts },
                            Action::Finish { result: Err(Error::InboxFetchFailed) },
                        )
                    } else {
                        match inbox.Result {
                            None => (
                                Worker { account, phase: Phase::Done, alerts },
                                Action::Finish { result: Ok(()) },
                            ),
                            Some(items) => advance(account, items, 0, alerts),
                        }
                    }
                },
            },
            (Phase::AwaitExists { items, idx, dest }, Event::Existence { result }) => match result {
                Err(m) => {
                    let text = SrfaxError::Io(m).describe();
                    fail_item(account, items, idx, alerts, text.as_str())
                },
                Ok(exists) => {
                    if exists {
                        after_item_success(account, items, idx, alerts)
                    } else {
                        let params = retrieve_request_params(&account, &items[idx], Direction::IN);
                        (
                            Worker {
                                account,
                                phase: Phase::AwaitRetrieve { items, idx, dest },
                                alerts,
                            },
                            Action::Retrieve { params },
                        )
                    }
                },
            },
            (Phase::AwaitRetrieve { items, idx, dest }, Event::Retrieved { result }) => match result {
                Err(m) => {
                    let text = SrfaxError::Transport(m).describe();
                    fail_item(account, items, idx, alerts, text.as_str())
                },
                Ok(resp) => match decode_retrieve(&resp) {
                    Ok(data) => (
                        Worker { account, phase: Phase::AwaitWrite { items, idx }, alerts },
                        Action::Write { path: dest, data },
                    ),
                    Err(e) => {
                        let text = e.describe();
                        fail_item(account, items, idx, alerts, text.as_str())
                    },
                },
            },
            (Phase::AwaitWrite { items, idx }, Event::Written { result }) => match result {
                Err(m) => {
                    let text = SrfaxError::Io(m).describe();
                    fail_item(account, items, idx, alerts, text.as_str())
                },
                Ok(_) => after_item_success(account, items, idx, alerts),
            },
            (Phase::AwaitDelete { items, idx }, Event::Deleted { result }) => match result {
                Err(m) => {
                    let text = SrfaxError::Transport(m).describe();
                    fail_delete(account, items, idx, alerts, text.as_str())
                },
                Ok(resp) => {
                    if !(resp.Status == ResultStatus::Success) {
                        fail_delete(account, items, idx, alerts, resp.Result.as_str())
                    } else {
                        let n = items.len();
                        advance(account, items, idx + 1, alerts)
                    }
                },
            },
            _ => unreached(),
        }
    }
}

/// Build a failure alert naming the account, the item and the error.
fn failure_alert(subject: &str, acct: &Srfax, item: &InboxItem, text: &str) -> (a: Alert)
    ensures
        is_failure_alert(a, subject@, *acct, *item, text@),
{
    let mut body = subject.to_owned();
    body.append("! account=");
    body.append(acct.name.as_str());
    body.append(" item=");
    body.append(item.FileName.as_str());
    body.append(" error=");
    body.append(text);
    proof {
        assert(body@ =~= subject@ + "! account="@ + acct.name@ + " item="@ + item.FileName@
            + " error="@ + text@);
    }
    Alert { subject: subject.to_owned(), body }
}

/// Skip past unprocessable items, one alert each, and stop at the first
/// that resolves (asking the shell for its existence check) or finish the
/// run when none is left.
fn advance(account: Srfax, items: Vec<InboxItem>, idx: usize, alerts: Vec<Alert>) -> (r: (
    Worker,
    Action,
))
    requires
        idx <= items@.len(),
    ensures
        advanced(account, items@, idx as int, alerts@, r.0, r.1),
        r.0.wf(),
{
    let ghost pre = alerts@;
    let mut alerts = alerts;
    let mut i: usize = idx;
    let n = items.len();
    #[verifier::loop_isolation(false)]
    while i < n
        invariant
            n == items@.len(),
            idx <= i <= n,
            forall|j: int| idx <= j < i ==> !item_resolves(items@[j]),
            alerts@.len() == pre.len() + (i - idx),
            forall|k: int| 0 <= k < pre.len() ==> alerts@[k] == pre[k],
            forall|k: int|
                pre.len() <= k < alerts@.len() ==> is_item_alert(
                    alerts@[k],
                    account,
                    items@[idx + (k - pre.len())],
                    resolve_failure_text(items@[idx + (k - pre.len())]),
                ),
        decreases n - i,
    {
        let item = &items[i];
        match resolve_fax_filename(item.FileName.as_str()) {
            Ok((name, _id)) => {
                proof {
                    lemma_first_ok_step(items@, idx as int, i as int);
                    assert(first_ok(items@, i as int) == i);
                }
                let dest = dest_path(
                    account.file_dir.as_str(),
                    name.as_str(),
                    account.download_fmt,
                );
                let dir = account.file_dir.clone();
                let path = dest.clone();
                return (
                    Worker { account, phase: Phase::AwaitExists { items, idx: i, dest }, alerts },
                    Action::CheckExists { dir, path },
                );
            },
            Err(e) => {
                let text = e.describe();
                proof {
                    assert(text@ == resolve_failure_text(items@[i as int]));
                }
                let a = failure_alert("error retrieving fax", &account, &items[i], text.as_str());
                alerts.push(a);
                i = i + 1;
            },
        }
    }
    proof {
        lemma_first_ok_step(items@, idx as int, i as int);
        assert(first_ok(items@, i as int) == items@.len());
    }
    (Worker { account, phase: Phase::Done, alerts }, Action::Finish { result: Ok(()) })
}

/// The current item failed: record its alert and move on.
fn fail_item(
    account: Srfax,
    items: Vec<InboxItem>,
    idx: usize,
    alerts: Vec<Alert>,
    text: &str,
) -> (r: (Worker, Action))
    requires
        idx < items@.len(),
    ensures
        item_failed_advanced(account, items@, idx as int, alerts@, text@, r.0, r.1),
        r.0.wf(),
{
    let ghost pre = alerts@;
    let n = items.len();
    let mut alerts = alerts;
    let a = failure_alert("error retrieving fax", &account, &items[idx], text);
    let ghost a0 = a;
    alerts.push(a);
    let ghost pushed = alerts@;
    let r = advance(account, items, idx + 1, alerts);
    proof {
        lemma_first_ok_bounds(items@, idx + 1);
        assert(pushed == pre.push(a0));
        assert(r.0.alerts@[pre.len() as int] == pushed[pre.len() as int]);
        assert(pre.push(r.0.alerts@[pre.len() as int]) == pushed);
    }
    r
}

/// The current item's delete failed: record the delete alert and move on.
fn fail_delete(
    account: Srfax,
    items: Vec<InboxItem>,
    idx: usize,
    alerts: Vec<Alert>,
    text: &str,
) -> (r: (Worker, Action))
    requires
        idx < items@.len(),
    ensures
        delete_failed_advanced(account, items@, idx as int, alerts@, text@, r.0, r.1),
        r.0.wf(),
{
    let ghost pre = alerts@;
    let n = items.len();
    let mut alerts = alerts;
    let a = failure_alert("error deleting fax", &account, &items[idx], text);
    let ghost a0 = a;
    alerts.push(a);
    let ghost pushed = alerts@;
    let r = advance(account, items, idx + 1, alerts);
    proof {
        lemma_first_ok_bounds(items@, idx + 1);
        assert(pushed == pre.push(a0));
        assert(r.0.alerts@[pre.len() as int] == pushed[pre.len() as int]);
        assert(pre.push(r.0.alerts@[pre.len() as int]) == pushed);
    }
    r
}

/// The current item succeeded: delete the remote copy when configured,
/// else move on.
fn after_item_success(account: Srfax, items: Vec<InboxItem>, idx: usize, alerts: Vec<Alert>) -> (r:
    (Worker, Action))
    requires
        idx < items@.len(),
        item_resolves(items@[idx as int]),
    ensures
        item_done_advanced(account, items@, idx as int, alerts@, r.0, r.1),
        r.0.wf(),
{
    if account.delete_after {
        let params = delete_request_params(&account, &items[idx], Direction::IN);
        (
            Worker { account, phase: Phase::AwaitDelete { items, idx }, alerts },
            Action::Delete { params },
        )
    } else {
        let n = items.len();
        advance(account, items, idx + 1, alerts)
    }
}

} // verus!
