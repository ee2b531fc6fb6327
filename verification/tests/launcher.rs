//! What the launcher's worker tracks of projects and other instances.

use media::launcher::known_projects::{notice_for, KnownProjects, ProjectNotice};
use std::collections::VecDeque;

use media::launcher::{receive_failed, requires_rescan, OIMsg, OIMsgRelay, ProjectKnownState, StopWorkReason};

#[test]
fn other_instance_messages_and_rescans() {
    assert!(!requires_rescan(&OIMsg::Focus));
    assert!(!requires_rescan(&OIMsg::Close));
    assert!(requires_rescan(&OIMsg::ProjectUpdated));
    assert!(requires_rescan(&OIMsg::ProjectOpenFailed));
    assert_eq!(
        receive_failed(),
        StopWorkReason::FatalError("Failed to receive message from other instance.".to_string())
    );
}

/// A receiver of messages from other instances that hands out prepared
/// answers.
struct FakeOIMsgReceiver {
    responses: VecDeque<Result<Option<OIMsg>, ()>>,
}

impl FakeOIMsgReceiver {
    fn receive(&mut self) -> Result<Option<OIMsg>, ()> {
        self.responses.pop_front().expect("No more fake responses configured")
    }
}

struct TestWorkerData {
    oi_msg_receiver: FakeOIMsgReceiver,
    sent_messages: Vec<OIMsg>,
    send_should_fail: bool,
}

impl TestWorkerData {
    fn new(responses: Vec<Result<Option<OIMsg>, ()>>) -> Self {
        Self {
            oi_msg_receiver: FakeOIMsgReceiver { responses: responses.into() },
            sent_messages: Vec::new(),
            send_should_fail: false,
        }
    }

    fn with_send_failure(mut self) -> Self {
        self.send_should_fail = true;
        self
    }

    fn send_outbox_msg(&mut self, msg: OIMsg) -> Result<(), StopWorkReason> {
        if self.send_should_fail {
            return Err(StopWorkReason::ConnectionDropped);
        }
        self.sent_messages.push(msg);
        Ok(())
    }
}

/// Receives until no message is left, relaying each as the library decides.
fn handle_oi_msgs_test(test_data: &mut TestWorkerData) -> Result<bool, StopWorkReason> {
    let mut relay = OIMsgRelay::new();
    while let Some(msg) = test_data.oi_msg_receiver.receive().map_err(|_| receive_failed())? {
        if relay.on_message(msg) {
            test_data.send_outbox_msg(msg)?;
        }
    }
    Ok(relay.rescan_required())
}

#[test]
fn test_receive_none() {
    let mut test_data = TestWorkerData::new(vec![Ok(None)]);
    let result = handle_oi_msgs_test(&mut test_data);
    assert_eq!(result.unwrap(), false);
}

#[test]
fn test_send_outbox_error() {
    let mut test_data =
        TestWorkerData::new(vec![Ok(Some(OIMsg::Focus)), Ok(None)]).with_send_failure();
    let result = handle_oi_msgs_test(&mut test_data);
    assert!(matches!(result, Err(StopWorkReason::ConnectionDropped)));
}

#[test]
fn test_successful_message_flow() {
    let mut test_data = TestWorkerData::new(vec![Ok(Some(OIMsg::Focus)), Ok(None)]);
    let result = handle_oi_msgs_test(&mut test_data);
    assert!(result.is_ok());
    assert_eq!(result.unwrap(), false);
    assert_eq!(test_data.sent_messages.len(), 1);
}

#[test]
fn test_project_updated_requires_rescan() {
    let mut test_data = TestWorkerData::new(vec![Ok(Some(OIMsg::ProjectUpdated)), Ok(None)]);
    let result = handle_oi_msgs_test(&mut test_data);
    assert!(result.is_ok());
    assert_eq!(result.unwrap(), true);
    assert_eq!(test_data.sent_messages.len(), 0);
}

#[test]
fn test_multiple_messages() {
    let mut test_data = TestWorkerData::new(vec![
        Ok(Some(OIMsg::Focus)),
        Ok(Some(OIMsg::ProjectUpdated)),
        Ok(Some(OIMsg::Close)),
        Ok(None),
    ]);
    let result = handle_oi_msgs_test(&mut test_data);
    assert!(result.is_ok());
    assert_eq!(result.unwrap(), true);
    assert_eq!(test_data.sent_messages.len(), 2);
}

#[test]
fn test_multiple_updates_require_rescan() {
    let mut test_data = TestWorkerData::new(vec![
        Ok(Some(OIMsg::ProjectOpenFailed)),
        Ok(Some(OIMsg::ProjectUpdated)),
        Ok(None),
    ]);
    let result = handle_oi_msgs_test(&mut test_data);
    assert!(result.is_ok());
    assert_eq!(result.unwrap(), true);
    assert_eq!(test_data.sent_messages.len(), 1);
}

#[test]
fn test_try_into_fails_no_message_sent_but_rescan_checked() {
    let mut test_data = TestWorkerData::new(vec![
        Ok(Some(OIMsg::Focus)),
        Ok(Some(OIMsg::ProjectUpdated)),
        Ok(None),
    ]);
    let result = handle_oi_msgs_test(&mut test_data);
    assert!(result.is_ok());
    assert_eq!(result.unwrap(), true);
    assert_eq!(test_data.sent_messages.len(), 1);
    assert!(matches!(test_data.sent_messages[0], OIMsg::Focus));
}

#[test]
fn relay_remembers_any_rescan() {
    let mut relay = OIMsgRelay::new();
    assert!(!relay.rescan_required());
    assert!(relay.on_message(OIMsg::Focus));
    assert!(!relay.rescan_required());
    assert!(!relay.on_message(OIMsg::ProjectUpdated));
    assert!(relay.rescan_required());
    assert!(relay.on_message(OIMsg::Close));
    assert!(relay.rescan_required());
}

#[test]
fn notices_for_refreshed_projects() {
    assert_eq!(notice_for(ProjectKnownState::NotNew, false), None);
    assert_eq!(notice_for(ProjectKnownState::NotNew, true), Some(ProjectNotice::Changed));
    assert_eq!(notice_for(ProjectKnownState::New, false), Some(ProjectNotice::Appeared));
    assert_eq!(notice_for(ProjectKnownState::Missing, true), Some(ProjectNotice::Disappeared));
}

fn sorted(mut v: Vec<(Vec<u8>, ProjectKnownState)>) -> Vec<(Vec<u8>, ProjectKnownState)> {
    v.sort();
    v
}

#[test]
fn projects_found_lost_and_forgotten() {
    let mut known = KnownProjects::new();
    // First scan: two projects on disk, neither known yet.
    assert!(!known.mark_found(b"/p/a"));
    known.insert(b"/p/a".to_vec(), ProjectKnownState::New);
    assert!(!known.mark_found(b"/p/b"));
    known.insert(b"/p/b".to_vec(), ProjectKnownState::New);
    assert_eq!(
        sorted(known.refresh()),
        vec![
            (b"/p/a".to_vec(), ProjectKnownState::New),
            (b"/p/b".to_vec(), ProjectKnownState::New)
        ]
    );
    assert_eq!(known.get(b"/p/a"), Some(ProjectKnownState::Missing));
    // Second scan: only `a` is still there.
    assert!(known.mark_found(b"/p/a"));
    assert_eq!(known.get(b"/p/a"), Some(ProjectKnownState::NotNew));
    assert_eq!(
        sorted(known.refresh()),
        vec![
            (b"/p/a".to_vec(), ProjectKnownState::NotNew),
            (b"/p/b".to_vec(), ProjectKnownState::Missing)
        ]
    );
    // `b` was reported missing once and is now forgotten.
    assert_eq!(known.get(b"/p/b"), None);
    assert_eq!(known.get(b"/p/a"), Some(ProjectKnownState::Missing));
}

#[test]
fn projects_created_and_deleted() {
    let mut known = KnownProjects::new();
    known.insert(b"/p/new".to_vec(), ProjectKnownState::Missing);
    assert_eq!(known.get(b"/p/new"), Some(ProjectKnownState::Missing));
    known.insert(b"/p/new".to_vec(), ProjectKnownState::New);
    assert_eq!(known.get(b"/p/new"), Some(ProjectKnownState::New));
    known.remove(b"/p/new");
    assert_eq!(known.get(b"/p/new"), None);
    known.remove(b"/p/none");
    assert!(known.refresh().is_empty());
}
