use headers_relay::clients::{submitted_ids, SourceRequest, SubmittedIds, TargetRequest};
use headers_relay::failure::{process_failure, process_future_result, Failure};
use headers_relay::number::BlockNumber;
use headers_relay::progress::{make_progress, PROGRESS_HEADERS};
use headers_relay::selection::{
    choose_source_request, choose_target_request, SourceAnswers, SourceChoice, TargetAnswers,
};
use headers_relay::stall::Stall;
use headers_relay::timing::{
    elapsed, BACKUP_STALL_SYNC_TIMEOUT, CONNECTION_ERROR_DELAY, PROGRESS_DELAY, STALL_SYNC_TIMEOUT,
};
use headers_relay::types::{HeaderId, HeadersSyncPipeline, MaybeConnectionError, QueuedHeader};

#[derive(Debug, PartialEq)]
struct Pipeline;

impl HeadersSyncPipeline for Pipeline {
    const SOURCE_NAME: &'static str = "Source";
    const TARGET_NAME: &'static str = "Target";

    type Hash = u8;
    type Number = u64;
    type Header = &'static str;
    type Extra = u16;
    type Completion = u32;
}

#[derive(Debug, PartialEq)]
struct NodeError(bool);

impl MaybeConnectionError for NodeError {
    fn is_connection_error(&self) -> bool {
        self.0
    }
}

fn queued(number: u64) -> QueuedHeader<Pipeline> {
    QueuedHeader {
        id: HeaderId(number, number as u8),
        parent_id: HeaderId(number - 1, (number - 1) as u8),
        header: "header",
        extra: None,
    }
}

fn target_answers() -> TargetAnswers<Pipeline> {
    TargetAnswers { to_complete: None, maybe_extra: None, maybe_orphan: None, to_submit: None }
}

fn all_target_answers() -> TargetAnswers<Pipeline> {
    TargetAnswers {
        to_complete: Some((HeaderId(1, 1), 100)),
        maybe_extra: Some(queued(2)),
        maybe_orphan: Some(queued(3)),
        to_submit: Some(vec![queued(4), queued(5)]),
    }
}

fn source_answers() -> SourceAnswers<Pipeline> {
    SourceAnswers { incomplete: None, extra: None, orphan: None, new_header: None }
}

#[test]
fn delays_are_those_of_the_relay() {
    assert_eq!(STALL_SYNC_TIMEOUT, 300_000_000_000);
    assert_eq!(BACKUP_STALL_SYNC_TIMEOUT, 600_000_000_000);
    assert_eq!(CONNECTION_ERROR_DELAY, 10_000_000_000);
    assert_eq!(PROGRESS_DELAY, 10_000_000_000);
    assert_eq!(PROGRESS_HEADERS, 10);
}

#[test]
fn elapsed_time_is_never_negative() {
    assert_eq!(elapsed(3, 10), 7);
    assert_eq!(elapsed(10, 10), 0);
    assert_eq!(elapsed(11, 10), 0);
    assert_eq!(elapsed(0, u128::MAX), u128::MAX);
}

#[test]
fn block_numbers_are_naturals() {
    assert!(BlockNumber::is_zero(&0u32));
    assert!(!BlockNumber::is_zero(&1u32));
    assert!(BlockNumber::is_zero(&0u64));
    assert!(!BlockNumber::is_zero(&u64::MAX));

    assert_eq!(BlockNumber::saturating_sub(12u32, 5u32), 7);
    assert_eq!(BlockNumber::saturating_sub(5u32, 12u32), 0);
    assert_eq!(BlockNumber::saturating_sub(u64::MAX, 1u64), u64::MAX - 1);
    assert_eq!(BlockNumber::saturating_sub(1u64, u64::MAX), 0);

    assert!(BlockNumber::exceeds(&11u32, 10));
    assert!(!BlockNumber::exceeds(&10u32, 10));
    assert!(BlockNumber::exceeds(&(u64::from(u32::MAX) + 1), u32::MAX));
    assert!(!BlockNumber::exceeds(&9u64, 10));
}

#[test]
fn client_with_answer_is_available() {
    let mut maybe_client = None;
    let outcome = process_future_result(&mut maybe_client, 7u8, Ok::<u16, NodeError>(42));
    assert!(matches!(outcome, Ok(42)));
    assert_eq!(maybe_client, Some(7));
}

#[test]
fn client_with_plain_error_is_available() {
    let mut maybe_client = None;
    let outcome = process_future_result(&mut maybe_client, 7u8, Err::<u16, _>(NodeError(false)));
    assert!(matches!(outcome, Err(Failure::Failed(NodeError(false)))));
    assert_eq!(maybe_client, Some(7));
}

#[test]
fn client_without_connection_rests() {
    let mut maybe_client: Option<u8> = None;
    let outcome = process_future_result(&mut maybe_client, 7u8, Err::<u16, _>(NodeError(true)));
    assert!(matches!(
        outcome,
        Err(Failure::GoOffline { client: 7, delay: 10_000_000_000, error: NodeError(true) })
    ));
    assert_eq!(maybe_client, None);
}

#[test]
fn failure_depends_on_the_connection_alone() {
    let mut maybe_client: Option<u8> = None;
    assert!(matches!(
        process_failure(&mut maybe_client, 3, "gone", true),
        Failure::GoOffline { client: 3, delay: CONNECTION_ERROR_DELAY, error: "gone" }
    ));
    assert_eq!(maybe_client, None);
    assert!(matches!(process_failure(&mut maybe_client, 3, "odd", false), Failure::Failed("odd")));
    assert_eq!(maybe_client, Some(3));
}

#[test]
fn countdown_starts_over_while_headers_are_on_their_way() {
    let mut stall = Stall { countdown: Some(1), last_update_time: 2 };
    stall.head_updated(50, Some(51));
    assert_eq!(stall, Stall { countdown: Some(51), last_update_time: 50 });
}

#[test]
fn countdown_stops_when_no_header_is_on_its_way() {
    let mut stall = Stall { countdown: Some(1), last_update_time: 2 };
    stall.head_updated(50, None);
    assert_eq!(stall, Stall { countdown: None, last_update_time: 50 });
}

#[test]
fn restart_comes_with_the_timeout_and_not_before() {
    let mut stall = Stall { countdown: Some(1_000), last_update_time: 2 };
    assert!(!stall.head_unchanged(1_000 + STALL_SYNC_TIMEOUT - 1));
    assert_eq!(stall, Stall { countdown: Some(1_000), last_update_time: 2 });
    assert!(stall.head_unchanged(1_000 + STALL_SYNC_TIMEOUT));
    assert_eq!(stall, Stall { countdown: None, last_update_time: 2 });
}

#[test]
fn no_restart_without_countdown() {
    let mut stall = Stall::new(0);
    assert!(!stall.head_unchanged(u128::MAX));
    assert_eq!(stall, Stall { countdown: None, last_update_time: 0 });
}

#[test]
fn submission_starts_the_countdown_once() {
    let mut stall = Stall::new(5);
    stall.headers_submitted(10);
    assert_eq!(stall, Stall { countdown: Some(10), last_update_time: 5 });
    stall.headers_submitted(20);
    assert_eq!(stall, Stall { countdown: Some(10), last_update_time: 5 });
}

#[test]
fn backup_steps_in_after_its_timeout() {
    let stall = Stall::new(100);
    assert!(!stall.is_backup_due(100 + BACKUP_STALL_SYNC_TIMEOUT));
    assert!(stall.is_backup_due(101 + BACKUP_STALL_SYNC_TIMEOUT));
}

#[test]
fn progress_message_is_due_after_the_delay() {
    let context = (0, Some(5), Some(9));
    let status = (Some(HeaderId(6, 0)), Some(10));

    let (same, message) = make_progress::<Pipeline>(context, status, PROGRESS_DELAY);
    assert_eq!(same, context);
    assert!(message.is_none());

    let (moved, message) = make_progress::<Pipeline>(context, status, PROGRESS_DELAY + 1);
    assert_eq!(moved, (PROGRESS_DELAY + 1, Some(6), Some(10)));
    assert!(matches!(message, Some(m) if m.synced == Some(6) && m.total == Some(10)));
}

#[test]
fn progress_message_is_due_after_many_headers() {
    let context = (0, Some(5), None);
    let (same, message) = make_progress::<Pipeline>(context, (Some(HeaderId(15, 0)), None), 1);
    assert_eq!(same, context);
    assert!(message.is_none());

    let (moved, message) = make_progress::<Pipeline>(context, (Some(HeaderId(16, 0)), None), 1);
    assert_eq!(moved, (1, Some(16), None));
    assert!(message.is_some());

    // a target that has fallen back is no progress
    let (same, message) =
        make_progress::<Pipeline>((0, Some(50), None), (Some(HeaderId(1, 0)), None), 1);
    assert_eq!(same, (0, Some(50), None));
    assert!(message.is_none());

    // neither is a best header that was not known before
    let (same, message) =
        make_progress::<Pipeline>((0, None, None), (Some(HeaderId(100, 0)), Some(100)), 1);
    assert_eq!(same, (0, None, None));
    assert!(message.is_none());
}

#[test]
fn second_message_waits_for_its_own_delay() {
    let status = (Some(HeaderId(6, 0)), Some(10));
    let (context, first) = make_progress::<Pipeline>((0, None, None), status, 20_000_000_000);
    assert!(first.is_some());
    let (context, second) = make_progress::<Pipeline>(context, status, 30_000_000_000);
    assert!(second.is_none());
    let (_, third) = make_progress::<Pipeline>(context, status, 30_000_000_001);
    assert!(third.is_some());
}

#[test]
fn target_requests_follow_their_priority() {
    let request = choose_target_request(true, true, all_target_answers());
    assert!(matches!(request, Some(TargetRequest::BestBlock)));

    let request = choose_target_request(false, true, all_target_answers());
    assert!(matches!(request, Some(TargetRequest::IncompleteHeaders)));

    let request = choose_target_request(false, false, all_target_answers());
    assert!(matches!(request, Some(TargetRequest::CompleteHeader(HeaderId(1, 1), 100))));

    let answers = TargetAnswers { to_complete: None, ..all_target_answers() };
    let request = choose_target_request(false, false, answers);
    assert!(matches!(request, Some(TargetRequest::ExtraCheck(h)) if h.id == HeaderId(2, 2)));

    let answers = TargetAnswers { maybe_orphan: Some(queued(3)), ..target_answers() };
    let request = choose_target_request(false, false, answers);
    assert!(matches!(request, Some(TargetRequest::ExistenceStatus(HeaderId(2, 2)))));

    let answers = TargetAnswers { to_submit: Some(vec![queued(4), queued(5)]), ..target_answers() };
    let request = choose_target_request(false, false, answers);
    assert!(matches!(request, Some(TargetRequest::SubmitHeaders(hs)) if hs.len() == 2));

    assert!(choose_target_request(false, false, target_answers()).is_none());
}

#[test]
fn source_requests_follow_their_priority() {
    let all = || SourceAnswers::<Pipeline> {
        incomplete: Some(HeaderId(1, 1)),
        extra: Some(queued(2)),
        orphan: Some(queued(3)),
        new_header: Some(4),
    };

    let choice = choose_source_request(true, all());
    assert!(matches!(choice, SourceChoice::Request(SourceRequest::BestBlockNumber)));

    let choice = choose_source_request(false, all());
    assert!(matches!(
        choice,
        SourceChoice::Request(SourceRequest::Completion(HeaderId(1, 1)))
    ));

    let choice = choose_source_request(false, SourceAnswers { incomplete: None, ..all() });
    assert!(matches!(
        choice,
        SourceChoice::Request(SourceRequest::Extra(HeaderId(2, 2), h)) if h.id == HeaderId(2, 2)
    ));

    let answers = SourceAnswers { orphan: Some(queued(3)), new_header: Some(4), ..source_answers() };
    let choice = choose_source_request(false, answers);
    assert!(matches!(
        choice,
        SourceChoice::Request(SourceRequest::OrphanHeader(HeaderId(2, 2)))
    ));

    let answers = SourceAnswers { new_header: Some(4), ..source_answers() };
    let choice = choose_source_request(false, answers);
    assert!(matches!(choice, SourceChoice::Request(SourceRequest::NewHeader(4))));

    assert!(matches!(choose_source_request(false, source_answers()), SourceChoice::Nothing));
}

#[test]
fn orphan_of_genesis_is_a_misconfiguration() {
    let answers = SourceAnswers { orphan: Some(queued(1)), ..source_answers() };
    assert!(matches!(choose_source_request(false, answers), SourceChoice::Misconfigured));

    // it is found only when its turn comes
    let answers =
        SourceAnswers { incomplete: Some(HeaderId(9, 9)), orphan: Some(queued(1)), ..source_answers() };
    assert!(matches!(
        choose_source_request(false, answers),
        SourceChoice::Request(SourceRequest::Completion(HeaderId(9, 9)))
    ));
}

#[test]
fn submission_is_named_by_its_ends() {
    assert_eq!(submitted_ids::<Pipeline>(&vec![queued(1)]), SubmittedIds::One(HeaderId(1, 1)));
    assert_eq!(
        submitted_ids::<Pipeline>(&vec![queued(1), queued(2)]),
        SubmittedIds::Two(HeaderId(1, 1), HeaderId(2, 2))
    );
    assert_eq!(
        submitted_ids::<Pipeline>(&vec![queued(1), queued(2), queued(3)]),
        SubmittedIds::Range(HeaderId(1, 1), HeaderId(3, 3))
    );
}
