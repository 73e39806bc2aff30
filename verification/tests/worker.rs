use srfax_sync::config::Srfax;
use srfax_sync::response::DeleteFaxResponse;
use srfax_sync::response::Direction;
use srfax_sync::response::DownloadFormat;
use srfax_sync::response::Inbox;
use srfax_sync::response::InboxItem;
use srfax_sync::response::ResultStatus;
use srfax_sync::response::RetrieveFaxResponse;
use srfax_sync::srfax::inbox_request_params;
use srfax_sync::srfax::retrieve_request_params;
use srfax_sync::srfax::delete_request_params;
use srfax_sync::srfax_service::Action;
use srfax_sync::srfax_service::Error;
use srfax_sync::srfax_service::Event;
use srfax_sync::srfax_service::Worker;

fn account(name: &str, delete_after: bool) -> Srfax {
    Srfax {
        name: name.to_string(),
        access_id: "id1".to_string(),
        access_pwd: "pw1".to_string(),
        file_dir: name.to_string(),
        download_fmt: DownloadFormat::PDF,
        delete_after,
    }
}

fn item(file_name: &str) -> InboxItem {
    InboxItem {
        FileName: file_name.to_string(),
        ReceiveStatus: "Ok".to_string(),
        Date: "Jan 01/24 00:00".to_string(),
        CallerID: "5551234567".to_string(),
        RemoteID: "remote".to_string(),
        Pages: "1".to_string(),
        Size: "5".to_string(),
    }
}

fn success_inbox(items: Vec<InboxItem>) -> Inbox {
    Inbox { Status: ResultStatus::Success, Result: Some(items) }
}

#[test]
fn inbox_params_carry_action_and_credentials() {
    let acct = account("A", false);
    let ps = inbox_request_params(&acct);
    assert_eq!(
        ps,
        vec![
            ("sPeriod".to_string(), "ALL".to_string()),
            ("action".to_string(), "Get_Fax_Inbox".to_string()),
            ("access_id".to_string(), "id1".to_string()),
            ("access_pwd".to_string(), "pw1".to_string()),
        ]
    );
}

#[test]
fn retrieve_params_carry_item_and_format() {
    let acct = account("A", false);
    let it = item("report.pdf|42");
    let ps = retrieve_request_params(&acct, &it, Direction::IN);
    assert_eq!(
        ps,
        vec![
            ("sFaxFileName".to_string(), "report.pdf|42".to_string()),
            ("sDirection".to_string(), "IN".to_string()),
            ("sFaxFormat".to_string(), "PDF".to_string()),
            ("action".to_string(), "Retrieve_Fax".to_string()),
            ("access_id".to_string(), "id1".to_string()),
            ("access_pwd".to_string(), "pw1".to_string()),
        ]
    );
}

#[test]
fn delete_params_carry_split_details_id() {
    let acct = account("A", true);
    let it = item("report.pdf|42");
    let ps = delete_request_params(&acct, &it, Direction::IN);
    assert_eq!(
        ps,
        vec![
            ("sDirection".to_string(), "IN".to_string()),
            ("sFaxFilename_x".to_string(), "report.pdf|42".to_string()),
            ("sFaxDetailsID_x".to_string(), "42".to_string()),
            ("action".to_string(), "Delete_Fax".to_string()),
            ("access_id".to_string(), "id1".to_string()),
            ("access_pwd".to_string(), "pw1".to_string()),
        ]
    );
}

#[test]
fn probe_failure_fails_run_with_no_connection() {
    // an HTTP 500 on the probe ends the run at once: no list, retrieve or
    // delete call is ever issued
    let (w, a) = Worker::start(account("A", false));
    assert!(matches!(a, Action::Probe));

    let (w, a) = w.step(Event::Probed { status: Some(500) });
    assert!(matches!(a, Action::Finish { result: Err(Error::NoConnection) }));
    assert!(w.alerts.is_empty());
}

#[test]
fn probe_transport_failure_fails_run() {
    let (w, _) = Worker::start(account("A", false));
    let (w, a) = w.step(Event::Probed { status: None });
    assert!(matches!(a, Action::Finish { result: Err(Error::NoConnection) }));
    assert!(w.alerts.is_empty());
}

#[test]
fn failed_listing_fails_run_with_inbox_fetch_failed() {
    // a Failed list envelope ends the run before any item is processed
    let (w, _) = Worker::start(account("A", false));
    let (w, a) = w.step(Event::Probed { status: Some(200) });
    assert!(matches!(a, Action::FetchInbox { .. }));

    let inbox = Inbox { Status: ResultStatus::Failed, Result: None };
    let (w, a) = w.step(Event::InboxFetched { result: Ok(inbox) });
    assert!(matches!(a, Action::Finish { result: Err(Error::InboxFetchFailed) }));
    assert!(w.alerts.is_empty());
}

#[test]
fn empty_inbox_succeeds_trivially() {
    let (w, _) = Worker::start(account("A", false));
    let (w, _) = w.step(Event::Probed { status: Some(200) });
    let inbox = Inbox { Status: ResultStatus::Success, Result: None };
    let (w, a) = w.step(Event::InboxFetched { result: Ok(inbox) });
    assert!(matches!(a, Action::Finish { result: Ok(()) }));
    assert!(w.alerts.is_empty());
}

#[test]
fn existing_file_skips_network_entirely() {
    // idempotence: when the destination already exists the item succeeds
    // with no retrieve call
    let (w, _) = Worker::start(account("A", false));
    let (w, _) = w.step(Event::Probed { status: Some(200) });
    let (w, a) = w.step(Event::InboxFetched {
        result: Ok(success_inbox(vec![item("report.pdf|42")])),
    });
    match &a {
        Action::CheckExists { dir, path } => {
            assert_eq!(dir, "A");
            assert_eq!(path, "A/report.PDF");
        },
        other => panic!("expected existence check, got {:?}", other),
    }

    let (w, a) = w.step(Event::Existence { result: Ok(true) });
    assert!(matches!(a, Action::Finish { result: Ok(()) }));
    assert!(w.alerts.is_empty());
}

#[test]
fn full_download_and_delete_cycle() {
    // one item, delete-after configured: probe, list, existence check,
    // retrieve, write, delete, done — the file carries the decoded bytes
    // and the delete call carries the split details id
    let (w, a) = Worker::start(account("A", true));
    assert!(matches!(a, Action::Probe));

    let (w, a) = w.step(Event::Probed { status: Some(200) });
    assert!(matches!(a, Action::FetchInbox { .. }));

    let (w, a) = w.step(Event::InboxFetched {
        result: Ok(success_inbox(vec![item("report.pdf|42")])),
    });
    match &a {
        Action::CheckExists { dir, path } => {
            assert_eq!(dir, "A");
            assert_eq!(path, "A/report.PDF");
        },
        other => panic!("expected existence check, got {:?}", other),
    }

    let (w, a) = w.step(Event::Existence { result: Ok(false) });
    match &a {
        Action::Retrieve { params } => {
            assert!(params.contains(&("sFaxFileName".to_string(), "report.pdf|42".to_string())));
        },
        other => panic!("expected retrieve, got {:?}", other),
    }

    let resp = RetrieveFaxResponse {
        Status: ResultStatus::Success,
        Result: Some(base64::encode(b"hello")),
    };
    let (w, a) = w.step(Event::Retrieved { result: Ok(resp) });
    match &a {
        Action::Write { path, data } => {
            assert_eq!(path, "A/report.PDF");
            assert_eq!(data, b"hello");
        },
        other => panic!("expected write, got {:?}", other),
    }

    let (w, a) = w.step(Event::Written { result: Ok(()) });
    match &a {
        Action::Delete { params } => {
            assert!(params.contains(&("sFaxDetailsID_x".to_string(), "42".to_string())));
        },
        other => panic!("expected delete, got {:?}", other),
    }

    let del = DeleteFaxResponse { Status: ResultStatus::Success, Result: "deleted".to_string() };
    let (w, a) = w.step(Event::Deleted { result: Ok(del) });
    assert!(matches!(a, Action::Finish { result: Ok(()) }));
    assert!(w.alerts.is_empty());
}

#[test]
fn one_failing_item_never_aborts_its_siblings() {
    // three items; the second one's retrieve reports Failed: items one and
    // three are still written, and exactly one alert is recorded
    let (w, _) = Worker::start(account("A", false));
    let (w, _) = w.step(Event::Probed { status: Some(200) });
    let items = vec![item("one.pdf|1"), item("two.pdf|2"), item("three.pdf|3")];
    let (w, a) = w.step(Event::InboxFetched { result: Ok(success_inbox(items)) });
    assert!(matches!(&a, Action::CheckExists { path, .. } if path == "A/one.PDF"));

    // item one downloads cleanly
    let (w, a) = w.step(Event::Existence { result: Ok(false) });
    assert!(matches!(a, Action::Retrieve { .. }));
    let resp = RetrieveFaxResponse {
        Status: ResultStatus::Success,
        Result: Some(base64::encode(b"first")),
    };
    let (w, a) = w.step(Event::Retrieved { result: Ok(resp) });
    assert!(matches!(&a, Action::Write { data, .. } if data == b"first"));
    let (w, a) = w.step(Event::Written { result: Ok(()) });
    assert!(matches!(&a, Action::CheckExists { path, .. } if path == "A/two.PDF"));

    // item two's retrieve reports Failed: one alert, then on to item three
    let (w, a) = w.step(Event::Existence { result: Ok(false) });
    assert!(matches!(a, Action::Retrieve { .. }));
    let failed = RetrieveFaxResponse { Status: ResultStatus::Failed, Result: None };
    let (w, a) = w.step(Event::Retrieved { result: Ok(failed) });
    assert!(matches!(&a, Action::CheckExists { path, .. } if path == "A/three.PDF"));
    assert_eq!(w.alerts.len(), 1);
    assert_eq!(w.alerts[0].subject, "error retrieving fax");
    assert!(w.alerts[0].body.contains("two.pdf|2"));
    assert!(w.alerts[0].body.contains("account=A"));

    // item three downloads cleanly
    let (w, a) = w.step(Event::Existence { result: Ok(false) });
    assert!(matches!(a, Action::Retrieve { .. }));
    let resp = RetrieveFaxResponse {
        Status: ResultStatus::Success,
        Result: Some(base64::encode(b"third")),
    };
    let (w, a) = w.step(Event::Retrieved { result: Ok(resp) });
    assert!(matches!(&a, Action::Write { data, path } if data == b"third" && path == "A/three.PDF"));
    let (w, a) = w.step(Event::Written { result: Ok(()) });
    assert!(matches!(a, Action::Finish { result: Ok(()) }));
    assert_eq!(w.alerts.len(), 1);
}

#[test]
fn malformed_identifier_is_skipped_with_alert() {
    let (w, _) = Worker::start(account("A", false));
    let (w, _) = w.step(Event::Probed { status: Some(200) });
    let items = vec![item("no-delimiter"), item("good.pdf|5")];
    let (w, a) = w.step(Event::InboxFetched { result: Ok(success_inbox(items)) });
    // the malformed first item was skipped with one alert; processing
    // starts at the second
    assert!(matches!(&a, Action::CheckExists { path, .. } if path == "A/good.PDF"));
    assert_eq!(w.alerts.len(), 1);
    assert!(w.alerts[0].body.contains("malformed identifier"));
}

#[test]
fn traversal_identifier_is_skipped_with_alert() {
    let (w, _) = Worker::start(account("A", false));
    let (w, _) = w.step(Event::Probed { status: Some(200) });
    let items = vec![item("../evil|9")];
    let (w, a) = w.step(Event::InboxFetched { result: Ok(success_inbox(items)) });
    assert!(matches!(a, Action::Finish { result: Ok(()) }));
    assert_eq!(w.alerts.len(), 1);
    assert!(w.alerts[0].body.contains("unsafe path"));
}

#[test]
fn delete_failure_alerts_but_does_not_fail_run() {
    let (w, _) = Worker::start(account("A", true));
    let (w, _) = w.step(Event::Probed { status: Some(200) });
    let (w, _) = w.step(Event::InboxFetched {
        result: Ok(success_inbox(vec![item("doc.pdf|7")])),
    });
    let (w, a) = w.step(Event::Existence { result: Ok(true) });
    assert!(matches!(a, Action::Delete { .. }));

    let del = DeleteFaxResponse {
        Status: ResultStatus::Failed,
        Result: "cannot delete".to_string(),
    };
    let (w, a) = w.step(Event::Deleted { result: Ok(del) });
    assert!(matches!(a, Action::Finish { result: Ok(()) }));
    assert_eq!(w.alerts.len(), 1);
    assert_eq!(w.alerts[0].subject, "error deleting fax");
    assert!(w.alerts[0].body.contains("cannot delete"));
}

#[test]
fn transport_failure_during_listing_fails_run() {
    let (w, _) = Worker::start(account("A", false));
    let (w, _) = w.step(Event::Probed { status: Some(200) });
    let (w, a) = w.step(Event::InboxFetched { result: Err("connection reset".to_string()) });
    match a {
        Action::Finish { result: Err(Error::Srfax(e)) } => {
            assert_eq!(e.describe(), "transport error: connection reset");
        },
        other => panic!("expected transport failure, got {:?}", other),
    }
    assert!(w.alerts.is_empty());
}

#[test]
fn write_failure_alerts_and_moves_on() {
    let (w, _) = Worker::start(account("A", false));
    let (w, _) = w.step(Event::Probed { status: Some(200) });
    let (w, _) = w.step(Event::InboxFetched {
        result: Ok(success_inbox(vec![item("doc.pdf|7")])),
    });
    let (w, _) = w.step(Event::Existence { result: Ok(false) });
    let resp = RetrieveFaxResponse {
        Status: ResultStatus::Success,
        Result: Some(base64::encode(b"data")),
    };
    let (w, _) = w.step(Event::Retrieved { result: Ok(resp) });
    let (w, a) = w.step(Event::Written { result: Err("disk full".to_string()) });
    assert!(matches!(a, Action::Finish { result: Ok(()) }));
    assert_eq!(w.alerts.len(), 1);
    assert!(w.alerts[0].body.contains("io error: disk full"));
}
