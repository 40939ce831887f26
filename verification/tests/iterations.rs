use futures::executor::block_on;
use headers_relay::clients::{
    send_source_request, send_target_request, SourceClient, SourceFuture, SourceRequest,
    SourceNote, SubmittedIds, TargetClient, TargetFuture, TargetNote, TargetRequest,
};
use headers_relay::failure::Failure;
use headers_relay::progress::print_sync_progress;
use headers_relay::queue::HeadersSync;
use headers_relay::selection::{ask_about_source, ask_about_target};
use headers_relay::stall::Stall;
use headers_relay::state::{
    Event, Iteration, SourceAction, SourceEvent, SyncLoop, TargetAction, TargetEvent,
};
use headers_relay::timing::{Clock, BACKUP_STALL_SYNC_TIMEOUT, STALL_SYNC_TIMEOUT};
use headers_relay::types::{
    HeaderId, HeaderStatus, HeadersSyncPipeline, MaybeConnectionError, QueuedHeader,
};
use std::cell::RefCell;
use std::collections::HashSet;
use std::future::{ready, Ready};
use std::rc::Rc;

const SECOND: u128 = 1_000_000_000;

/// Clock that stands still.
#[derive(Clone, Copy)]
struct At(u128);

impl Clock for At {
    fn now(self) -> (At, u128) {
        let now = self.0;
        (self, now)
    }
}

/// Clock that moves on by a given time whenever it is read.
#[derive(Debug, PartialEq)]
struct Running {
    next: u128,
    by: u128,
}

impl Clock for Running {
    fn now(self) -> (Running, u128) {
        (Running { next: self.next + self.by, by: self.by }, self.next)
    }
}

fn running(from: u128, by: u128) -> Running {
    Running { next: from, by }
}

struct Pipeline;

impl HeadersSyncPipeline for Pipeline {
    const SOURCE_NAME: &'static str = "Source";
    const TARGET_NAME: &'static str = "Target";

    type Hash = u8;
    type Number = u32;
    type Header = &'static str;
    type Extra = u16;
    type Completion = u64;
}

type Id = HeaderId<u8, u32>;

fn id(number: u32) -> Id {
    HeaderId(number, number as u8)
}

fn queued(number: u32) -> QueuedHeader<Pipeline> {
    QueuedHeader { id: id(number), parent_id: id(number - 1), header: "header", extra: Some(5) }
}

#[derive(Clone, Debug, PartialEq)]
enum NodeError {
    Connection,
    Other,
}

impl MaybeConnectionError for NodeError {
    fn is_connection_error(&self) -> bool {
        *self == NodeError::Connection
    }
}

/// What was called, in order, on everything that writes to the same journal.
type Journal = Rc<RefCell<Vec<String>>>;

/// Client that answers at once, and remembers what it was asked.
#[derive(Clone, Debug, PartialEq)]
struct Client(Vec<String>, Journal);

impl Client {
    fn asked<T>(mut self, call: String, answer: T) -> Ready<(Client, Result<T, NodeError>)> {
        self.1.borrow_mut().push(call.clone());
        self.0.push(call);
        ready((self, Ok(answer)))
    }
}

type Answer<T> = Ready<(Client, Result<T, NodeError>)>;

impl SourceClient<Pipeline> for Client {
    type Error = NodeError;
    type BestBlockNumber = Answer<u32>;
    type HeaderByHash = Answer<&'static str>;
    type HeaderByNumber = Answer<&'static str>;
    type HeaderCompletion = Answer<(Id, Option<u64>)>;
    type HeaderExtra = Answer<(Id, u16)>;

    fn best_block_number(self) -> Answer<u32> {
        self.asked(format!("best_block_number"), 77)
    }

    fn header_by_hash(self, hash: u8) -> Answer<&'static str> {
        self.asked(format!("header_by_hash {}", hash), "by hash")
    }

    fn header_by_number(self, number: u32) -> Answer<&'static str> {
        self.asked(format!("header_by_number {}", number), "by number")
    }

    fn header_completion(self, id: Id) -> Answer<(Id, Option<u64>)> {
        self.asked(format!("header_completion {}", id.0), (id, Some(8)))
    }

    fn header_extra(self, id: Id, header: QueuedHeader<Pipeline>) -> Answer<(Id, u16)> {
        self.asked(format!("header_extra {} {}", id.0, header.id.0), (id, 9))
    }
}

impl TargetClient<Pipeline> for Client {
    type Error = NodeError;
    type BestHeaderId = Answer<Id>;
    type IsKnownHeader = Answer<(Id, bool)>;
    type SubmitHeaders = Answer<Vec<Id>>;
    type IncompleteHeadersIds = Answer<HashSet<Id>>;
    type CompleteHeader = Answer<Id>;
    type RequiresExtra = Answer<(Id, bool)>;

    fn best_header_id(self) -> Answer<Id> {
        self.asked(format!("best_header_id"), id(66))
    }

    fn is_known_header(self, id: Id) -> Answer<(Id, bool)> {
        self.asked(format!("is_known_header {}", id.0), (id, true))
    }

    fn submit_headers(self, headers: Vec<QueuedHeader<Pipeline>>) -> Answer<Vec<Id>> {
        let ids: Vec<Id> = headers.iter().map(|header| header.id).collect();
        self.asked(format!("submit_headers {}", ids.len()), ids)
    }

    fn incomplete_headers_ids(self) -> Answer<HashSet<Id>> {
        self.asked(format!("incomplete_headers_ids"), HashSet::new())
    }

    fn complete_header(self, id: Id, completion: u64) -> Answer<Id> {
        self.asked(format!("complete_header {} {}", id.0, completion), id)
    }

    fn requires_extra(self, header: QueuedHeader<Pipeline>) -> Answer<(Id, bool)> {
        self.asked(format!("requires_extra {}", header.id.0), (header.id, false))
    }
}

/// Queue with prepared answers, which remembers what it was asked and told.
struct Queue {
    calls: Journal,
    selects_nothing: bool,
    status: (Option<Id>, Option<u32>),
    almost_synced: bool,
    submitted: usize,
    header: Option<(HeaderStatus, u32)>,
    new_header: Option<u32>,
    to_submit: u32,
    to_complete: Option<(Id, u64)>,
    incomplete: Option<Id>,
    head_updated: bool,
}

impl Queue {
    fn idle() -> Queue {
        Queue {
            calls: Journal::default(),
            selects_nothing: false,
            status: (None, None),
            almost_synced: false,
            submitted: 0,
            header: None,
            new_header: None,
            to_submit: 0,
            to_complete: None,
            incomplete: None,
            head_updated: false,
        }
    }

    fn note(&self, call: String) {
        self.calls.borrow_mut().push(call);
    }

    fn told(self, call: String) -> Queue {
        self.note(call);
        self
    }

    fn calls(&self) -> Vec<String> {
        self.calls.borrow().clone()
    }
}

impl HeadersSync<Pipeline> for Queue {
    type Params = u32;

    fn new(sync_params: u32) -> Queue {
        Queue { new_header: Some(sync_params), ..Queue::idle() }
    }

    fn status(&self) -> (Option<Id>, Option<u32>) {
        self.note(format!("status"));
        self.status
    }

    fn is_almost_synced(&self) -> bool {
        self.note(format!("is_almost_synced"));
        self.almost_synced
    }

    fn headers_in_status(&self, status: HeaderStatus) -> usize {
        self.note(format!("headers_in_status {:?}", status));
        self.submitted
    }

    fn header(&self, status: HeaderStatus) -> Option<QueuedHeader<Pipeline>> {
        self.note(format!("header {:?}", status));
        match self.header {
            Some((s, number)) if s == status => Some(queued(number)),
            _ => None,
        }
    }

    fn select_new_header_to_download(&self) -> Option<u32> {
        self.note(format!("select_new_header_to_download"));
        self.new_header
    }

    fn select_headers_to_submit(&self, stalled: bool) -> Option<Vec<QueuedHeader<Pipeline>>> {
        self.note(format!("select_headers_to_submit {}", stalled));
        if self.selects_nothing {
            Some(Vec::new())
        } else if self.to_submit == 0 {
            None
        } else {
            Some((1..=self.to_submit).map(queued).collect())
        }
    }

    fn header_to_complete(self) -> (Queue, Option<(Id, u64)>) {
        let answer = self.to_complete;
        (self.told(format!("header_to_complete")), answer)
    }

    fn incomplete_header(self) -> (Queue, Option<Id>) {
        let answer = self.incomplete;
        (self.told(format!("incomplete_header")), answer)
    }

    fn source_best_header_number_response(self, number: u32) -> Queue {
        self.told(format!("source_best_header_number_response {}", number))
    }

    fn target_best_header_response(self, id: Id) -> (Queue, bool) {
        let answer = self.head_updated;
        (self.told(format!("target_best_header_response {}", id.0)), answer)
    }

    fn restart(self) -> Queue {
        self.told(format!("restart"))
    }

    fn header_response(self, header: &'static str) -> Queue {
        self.told(format!("header_response {}", header))
    }

    fn maybe_orphan_response(self, id: Id, known: bool) -> Queue {
        self.told(format!("maybe_orphan_response {} {}", id.0, known))
    }

    fn maybe_extra_response(self, id: Id, required: bool) -> Queue {
        self.told(format!("maybe_extra_response {} {}", id.0, required))
    }

    fn extra_response(self, id: Id, extra: u16) -> Queue {
        self.told(format!("extra_response {} {}", id.0, extra))
    }

    fn completion_response(self, id: Id, completion: Option<u64>) -> Queue {
        self.told(format!("completion_response {} {:?}", id.0, completion))
    }

    fn incomplete_headers_response(self, ids: HashSet<Id>) -> Queue {
        self.told(format!("incomplete_headers_response {}", ids.len()))
    }

    fn headers_submitted(self, ids: Vec<Id>) -> Queue {
        self.told(format!("headers_submitted {}", ids.len()))
    }

    fn header_completed(self, id: Id) -> Queue {
        self.told(format!("header_completed {}", id.0))
    }
}

type Loop = SyncLoop<Pipeline, Client, Client>;
type Done = Iteration<Pipeline, Client, Client, Queue>;
type LoopEvent = Event<Pipeline, Client, Client>;

fn client() -> Client {
    Client(Vec::new(), Journal::default())
}

fn quiet() -> Loop {
    SyncLoop {
        source_client: None,
        source_best_block_number_required: false,
        target_client: None,
        target_best_block_required: false,
        target_incomplete_headers_required: false,
        stall: Stall { countdown: None, last_update_time: 0 },
        progress_context: (0, None, None),
    }
}

fn source(event: SourceEvent<Pipeline, Client>) -> LoopEvent {
    Event::Source(event)
}

fn target(event: TargetEvent<Pipeline, Client>) -> LoopEvent {
    Event::Target(event)
}

fn source_told(event: SourceEvent<Pipeline, Client>) -> Vec<String> {
    let mut state = quiet();
    let (queue, failure) = state.handle_source_event(Queue::idle(), event);
    assert!(failure.is_none());
    assert_eq!(state.source_client, Some(client()));
    queue.calls()
}

fn target_told(event: TargetEvent<Pipeline, Client>) -> Vec<String> {
    let mut state = quiet();
    let (queue, failure, restarted, _) = state.handle_target_event(Queue::idle(), event, At(1));
    assert!(failure.is_none());
    assert!(!restarted);
    assert_eq!(state.target_client, Some(client()));
    queue.calls()
}

#[test]
fn start_asks_both_nodes_for_their_best() {
    let (state, queue, source_future, target_future, _) =
        Loop::start::<Queue, _>(client(), client(), 33, At(5 * SECOND));
    assert_eq!(state.source_client, None);
    assert_eq!(state.target_client, None);
    assert!(!state.source_best_block_number_required);
    assert!(!state.target_best_block_required);
    assert!(state.target_incomplete_headers_required);
    assert_eq!(state.stall, Stall { countdown: None, last_update_time: 5 * SECOND });
    assert_eq!(state.progress_context, (5 * SECOND, None, None));
    assert_eq!(queue.new_header, Some(33));
    match source_future {
        SourceFuture::BestBlockNumber(f) => {
            let (client, result) = block_on(f);
            assert_eq!(client.0, vec!["best_block_number"]);
            assert_eq!(result, Ok(77));
        }
        _ => panic!("wrong request"),
    }
    match target_future {
        TargetFuture::BestBlock(f) => {
            let (client, result) = block_on(f);
            assert_eq!(client.0, vec!["best_header_id"]);
            assert_eq!(result, Ok(id(66)));
        }
        _ => panic!("wrong request"),
    }
}

#[test]
fn source_requests_reach_the_client() {
    match send_source_request::<Pipeline, _>(client(), SourceRequest::BestBlockNumber) {
        SourceFuture::BestBlockNumber(f) => assert_eq!(block_on(f).0 .0[0], "best_block_number"),
        _ => panic!("wrong request"),
    }
    match send_source_request::<Pipeline, _>(client(), SourceRequest::Completion(id(4))) {
        SourceFuture::Completion(f) => assert_eq!(block_on(f).0 .0[0], "header_completion 4"),
        _ => panic!("wrong request"),
    }
    match send_source_request::<Pipeline, _>(client(), SourceRequest::Extra(id(4), queued(4))) {
        SourceFuture::Extra(f) => assert_eq!(block_on(f).0 .0[0], "header_extra 4 4"),
        _ => panic!("wrong request"),
    }
    match send_source_request::<Pipeline, _>(client(), SourceRequest::OrphanHeader(HeaderId(4, 200))) {
        SourceFuture::OrphanHeader(f) => assert_eq!(block_on(f).0 .0[0], "header_by_hash 200"),
        _ => panic!("wrong request"),
    }
    match send_source_request::<Pipeline, _>(client(), SourceRequest::NewHeader(4)) {
        SourceFuture::NewHeader(f) => assert_eq!(block_on(f).0 .0[0], "header_by_number 4"),
        _ => panic!("wrong request"),
    }
}

#[test]
fn target_requests_reach_the_client() {
    match send_target_request::<Pipeline, _>(client(), TargetRequest::BestBlock) {
        TargetFuture::BestBlock(f) => assert_eq!(block_on(f).0 .0[0], "best_header_id"),
        _ => panic!("wrong request"),
    }
    match send_target_request::<Pipeline, _>(client(), TargetRequest::IncompleteHeaders) {
        TargetFuture::IncompleteHeaders(f) => {
            assert_eq!(block_on(f).0 .0[0], "incomplete_headers_ids")
        }
        _ => panic!("wrong request"),
    }
    match send_target_request::<Pipeline, _>(client(), TargetRequest::CompleteHeader(id(4), 6)) {
        TargetFuture::CompleteHeader(f) => assert_eq!(block_on(f).0 .0[0], "complete_header 4 6"),
        _ => panic!("wrong request"),
    }
    match send_target_request::<Pipeline, _>(client(), TargetRequest::ExtraCheck(queued(4))) {
        TargetFuture::ExtraCheck(f) => assert_eq!(block_on(f).0 .0[0], "requires_extra 4"),
        _ => panic!("wrong request"),
    }
    match send_target_request::<Pipeline, _>(client(), TargetRequest::ExistenceStatus(id(4))) {
        TargetFuture::ExistenceStatus(f) => assert_eq!(block_on(f).0 .0[0], "is_known_header 4"),
        _ => panic!("wrong request"),
    }
    let request = TargetRequest::SubmitHeaders(vec![queued(4), queued(5)]);
    match send_target_request::<Pipeline, _>(client(), request) {
        TargetFuture::SubmitHeaders(f) => {
            let (client, ids) = block_on(f);
            assert_eq!(client.0[0], "submit_headers 2");
            assert_eq!(ids, Ok(vec![id(4), id(5)]));
        }
        _ => panic!("wrong request"),
    }
}

#[test]
fn source_answers_go_to_the_queue() {
    assert_eq!(
        source_told(SourceEvent::BestBlockNumber(client(), Ok(9))),
        vec!["source_best_header_number_response 9"]
    );
    assert_eq!(
        source_told(SourceEvent::NewHeader(client(), Ok("new"))),
        vec!["header_response new"]
    );
    assert_eq!(
        source_told(SourceEvent::OrphanHeader(client(), Ok("lost"))),
        vec!["header_response lost"]
    );
    assert_eq!(
        source_told(SourceEvent::Extra(client(), Ok((id(3), 4)))),
        vec!["extra_response 3 4"]
    );
    assert_eq!(
        source_told(SourceEvent::Completion(client(), Ok((id(3), None)))),
        vec!["completion_response 3 None"]
    );
    assert!(source_told(SourceEvent::Reconnect(client())).is_empty());
}

#[test]
fn target_answers_go_to_the_queue() {
    assert_eq!(
        target_told(TargetEvent::BestBlock(client(), Ok(id(3)))),
        vec!["target_best_header_response 3"]
    );
    assert_eq!(
        target_told(TargetEvent::IncompleteHeaders(client(), Ok(HashSet::from([id(1), id(2)])))),
        vec!["incomplete_headers_response 2"]
    );
    assert_eq!(
        target_told(TargetEvent::ExistenceStatus(client(), Ok((id(3), true)))),
        vec!["maybe_orphan_response 3 true"]
    );
    assert_eq!(
        target_told(TargetEvent::SubmitHeaders(client(), Ok(vec![id(3)]))),
        vec!["headers_submitted 1"]
    );
    assert_eq!(
        target_told(TargetEvent::CompleteHeader(client(), Ok(id(3)))),
        vec!["header_completed 3"]
    );
    assert_eq!(
        target_told(TargetEvent::ExtraCheck(client(), Ok((id(3), false)))),
        vec!["maybe_extra_response 3 false"]
    );
    assert!(target_told(TargetEvent::Reconnect(client())).is_empty());
}

#[test]
fn failed_request_does_not_reach_the_queue() {
    let mut state = Loop { source_best_block_number_required: true, ..quiet() };
    let event = SourceEvent::BestBlockNumber(client(), Err(NodeError::Other));
    let (queue, failure) = state.handle_source_event(Queue::idle(), event);
    assert!(queue.calls().is_empty());
    assert!(matches!(failure, Some(Failure::Failed(NodeError::Other))));
    assert_eq!(state.source_client, Some(client()));
    // it is not repeated before the next tick
    assert!(!state.source_best_block_number_required);

    let stall = Stall { countdown: Some(1), last_update_time: 0 };
    let mut state = Loop { target_best_block_required: true, stall, ..quiet() };
    let event = TargetEvent::BestBlock(client(), Err(NodeError::Connection));
    let (queue, failure, restarted, _) =
        state.handle_target_event(Queue::idle(), event, At(STALL_SYNC_TIMEOUT * 2));
    assert!(queue.calls().is_empty());
    assert!(!restarted);
    assert!(matches!(
        failure,
        Some(Failure::GoOffline { delay: 10_000_000_000, error: NodeError::Connection, .. })
    ));
    assert_eq!(state.target_client, None);
    assert_eq!(state.stall, stall);
    assert!(!state.target_best_block_required);
}

#[test]
fn questions_stop_at_the_first_work() {
    let silent = Stall::new(0);
    let late = At(BACKUP_STALL_SYNC_TIMEOUT + 1);
    let (queue, _, _) = ask_about_target::<Pipeline, _, _>(false, false, &silent, late, Queue::idle());
    assert_eq!(
        queue.calls(),
        vec![
            "header_to_complete",
            "header MaybeExtra",
            "header MaybeOrphan",
            "select_headers_to_submit true",
        ]
    );

    let work = Queue { header: Some((HeaderStatus::MaybeExtra, 2)), ..Queue::idle() };
    let (queue, answers, _) = ask_about_target::<Pipeline, _, _>(false, false, &silent, late, work);
    assert_eq!(queue.calls(), vec!["header_to_complete", "header MaybeExtra"]);
    assert!(answers.maybe_extra.is_some());

    let (queue, _, _) = ask_about_target::<Pipeline, _, _>(false, true, &silent, late, Queue::idle());
    assert!(queue.calls().is_empty());
    let (queue, _, _) = ask_about_target::<Pipeline, _, _>(true, false, &silent, late, Queue::idle());
    assert!(queue.calls().is_empty());

    let (queue, _) = ask_about_source::<Pipeline, _>(false, Queue::idle());
    assert_eq!(
        queue.calls(),
        vec![
            "incomplete_header",
            "header Extra",
            "header Orphan",
            "select_new_header_to_download",
        ]
    );

    let work = Queue { incomplete: Some(id(2)), ..Queue::idle() };
    let (queue, answers) = ask_about_source::<Pipeline, _>(false, work);
    assert_eq!(queue.calls(), vec!["incomplete_header"]);
    assert_eq!(answers.incomplete, Some(id(2)));

    let (queue, _) = ask_about_source::<Pipeline, _>(true, Queue::idle());
    assert!(queue.calls().is_empty());
}

#[test]
fn iteration_takes_in_then_prints_then_asks() {
    let mut state = quiet();
    let work = Queue {
        header: Some((HeaderStatus::MaybeOrphan, 8)),
        status: (Some(id(4)), Some(9)),
        ..Queue::idle()
    };
    let event = target(TargetEvent::CompleteHeader(client(), Ok(id(3))));
    let done: Done = state.iterate(work, event, At(11 * SECOND)).0;
    assert_eq!(
        done.sync.calls(),
        vec![
            "header_completed 3",
            "status",
            "header_to_complete",
            "header MaybeExtra",
            "header MaybeOrphan",
        ]
    );
    assert!(matches!(done.message, Some(m) if m.synced == Some(4) && m.total == Some(9)));
    assert_eq!(state.progress_context, (11 * SECOND, Some(4), Some(9)));
    assert!(matches!(
        done.target_action,
        TargetAction::Sent(TargetNote::ExistenceStatus(HeaderId(7, 7)), TargetFuture::ExistenceStatus(f))
            if block_on(f.clone()).0 .0 == vec!["is_known_header 7"]
    ));
    assert!(matches!(done.source_action, SourceAction::Wait));
    assert_eq!(state.target_client, None);
}

#[test]
fn target_has_its_turn_before_the_source() {
    let mut state = Loop { source_client: Some(client()), target_client: Some(client()), ..quiet() };
    let work = Queue { new_header: Some(12), ..Queue::idle() };
    let done: Done = state.iterate(work, source(SourceEvent::Tick), At(1)).0;
    assert_eq!(
        done.sync.calls(),
        vec![
            "is_almost_synced",
            "status",
            "header_to_complete",
            "header MaybeExtra",
            "header MaybeOrphan",
            "select_headers_to_submit false",
            "incomplete_header",
            "header Extra",
            "header Orphan",
            "select_new_header_to_download",
        ]
    );
    assert!(matches!(done.target_action, TargetAction::Wait));
    assert_eq!(state.target_client, Some(client()));
    assert!(matches!(done.source_action, SourceAction::Sent(SourceNote::NewHeader(12), SourceFuture::NewHeader(_))));
    assert_eq!(state.source_client, None);
}

#[test]
fn absent_clients_are_asked_nothing() {
    let mut state = quiet();
    let work = Queue { new_header: Some(12), to_submit: 3, ..Queue::idle() };
    let done: Done = state.iterate(work, target(TargetEvent::Tick), At(1)).0;
    assert_eq!(done.sync.calls(), vec!["status"]);
    assert!(matches!(done.target_action, TargetAction::Wait));
    assert!(matches!(done.source_action, SourceAction::Wait));
}

#[test]
fn target_tick_asks_for_the_best_header_then_for_incomplete_headers() {
    let mut state = Loop { target_client: Some(client()), ..quiet() };
    let work = Queue { to_submit: 3, ..Queue::idle() };
    let done: Done = state.iterate(work, target(TargetEvent::Tick), At(1)).0;
    assert!(matches!(done.target_action, TargetAction::Sent(TargetNote::BestBlock, TargetFuture::BestBlock(_))));

    let event = target(TargetEvent::BestBlock(client(), Ok(id(1))));
    let done: Done = state.iterate(done.sync, event, At(2)).0;
    assert!(matches!(done.target_action, TargetAction::Sent(TargetNote::IncompleteHeaders, TargetFuture::IncompleteHeaders(_))));

    let event = target(TargetEvent::IncompleteHeaders(client(), Ok(HashSet::new())));
    let done: Done = state.iterate(done.sync, event, At(3)).0;
    assert!(matches!(done.target_action, TargetAction::Sent(
            TargetNote::SubmitHeaders(3, SubmittedIds::Range(HeaderId(1, 1), HeaderId(3, 3))),
            TargetFuture::SubmitHeaders(_)
        )));
    assert_eq!(state.stall.countdown, Some(3));
}

#[test]
fn source_tick_asks_for_the_best_number_when_almost_synced() {
    let mut state = Loop { source_client: Some(client()), ..quiet() };
    let done: Done = state.iterate(Queue::idle(), source(SourceEvent::Tick), At(1)).0;
    assert!(matches!(done.source_action, SourceAction::Wait));
    assert!(!state.source_best_block_number_required);

    let almost = Queue { almost_synced: true, new_header: Some(3), ..done.sync };
    let done: Done = state.iterate(almost, source(SourceEvent::Tick), At(2)).0;
    assert!(matches!(done.source_action, SourceAction::Sent(SourceNote::BestBlockNumber, SourceFuture::BestBlockNumber(_))));

    let event = source(SourceEvent::BestBlockNumber(client(), Ok(8)));
    let done: Done = state.iterate(done.sync, event, At(3)).0;
    assert!(matches!(done.source_action, SourceAction::Sent(SourceNote::NewHeader(3), SourceFuture::NewHeader(_))));
}

#[test]
fn client_rests_after_a_lost_connection() {
    let mut state = quiet();
    let work = Queue { new_header: Some(3), ..Queue::idle() };
    let event = source(SourceEvent::NewHeader(client(), Err(NodeError::Connection)));
    let done: Done = state.iterate(work, event, At(1)).0;
    assert!(matches!(
        done.reaction.source_failure,
        Some(Failure::GoOffline { delay: 10_000_000_000, .. })
    ));
    assert!(matches!(done.source_action, SourceAction::Wait));

    let done: Done = state.iterate(done.sync, source(SourceEvent::Tick), At(2)).0;
    assert!(matches!(done.source_action, SourceAction::Wait));

    let done: Done = state.iterate(done.sync, source(SourceEvent::Reconnect(client())), At(3)).0;
    assert!(matches!(done.source_action, SourceAction::Sent(SourceNote::NewHeader(3), SourceFuture::NewHeader(_))));
}

#[test]
fn stalled_synchronization_is_restarted() {
    let mut state = Loop { target_client: Some(client()), ..quiet() };
    let work = Queue { to_submit: 2, ..Queue::idle() };
    let done: Done = state.iterate(work, source(SourceEvent::Tick), At(7 * SECOND)).0;
    assert!(matches!(done.target_action, TargetAction::Sent(TargetNote::SubmitHeaders(..), TargetFuture::SubmitHeaders(_))));
    assert_eq!(state.stall.countdown, Some(7 * SECOND));

    let sync = Queue { to_submit: 0, ..done.sync };
    let event = target(TargetEvent::SubmitHeaders(client(), Ok(vec![id(1), id(2)])));
    let done: Done = state.iterate(sync, event, At(8 * SECOND)).0;
    assert_eq!(state.stall.countdown, Some(7 * SECOND));

    let event = target(TargetEvent::BestBlock(client(), Ok(id(5))));
    let done: Done = state.iterate(done.sync, event, At(7 * SECOND + STALL_SYNC_TIMEOUT - 1)).0;
    assert!(!done.reaction.restarted);
    assert_eq!(state.stall.countdown, Some(7 * SECOND));

    let sync = Queue { calls: Journal::default(), ..done.sync };
    let event = target(TargetEvent::BestBlock(client(), Ok(id(5))));
    let done: Done = state.iterate(sync, event, At(7 * SECOND + STALL_SYNC_TIMEOUT)).0;
    assert!(done.reaction.restarted);
    assert_eq!(done.sync.calls()[..2], ["target_best_header_response 5", "restart"]);
    assert_eq!(state.stall.countdown, None);
}

#[test]
fn moving_target_is_not_restarted() {
    let stall = Stall { countdown: Some(0), last_update_time: 0 };
    let mut state = Loop { stall, ..quiet() };
    let work = Queue { head_updated: true, submitted: 4, ..Queue::idle() };
    let event = target(TargetEvent::BestBlock(client(), Ok(id(5))));
    let done: Done = state.iterate(work, event, At(2 * STALL_SYNC_TIMEOUT)).0;
    assert!(!done.reaction.restarted);
    assert_eq!(
        done.sync.calls()[..2],
        ["target_best_header_response 5", "headers_in_status Submitted"]
    );
    let now = 2 * STALL_SYNC_TIMEOUT;
    assert_eq!(state.stall, Stall { countdown: Some(now), last_update_time: now });

    let work = Queue { head_updated: true, submitted: 0, ..Queue::idle() };
    let event = target(TargetEvent::BestBlock(client(), Ok(id(6))));
    let done: Done = state.iterate(work, event, At(now + 1)).0;
    assert!(!done.reaction.restarted);
    assert_eq!(state.stall, Stall { countdown: None, last_update_time: now + 1 });
}

#[test]
fn backup_relay_learns_of_a_silent_target() {
    let mut state = Loop { target_client: Some(client()), ..quiet() };
    let (queue, _, _) = state.take_target_turn(Queue::idle(), At(BACKUP_STALL_SYNC_TIMEOUT));
    assert_eq!(queue.calls()[3], "select_headers_to_submit false");
    let (queue, _, _) = state.take_target_turn(Queue::idle(), At(BACKUP_STALL_SYNC_TIMEOUT + 1));
    assert_eq!(queue.calls()[3], "select_headers_to_submit true");
}

#[test]
fn every_kind_of_work_becomes_its_request() {
    let turn = |queue: Queue| {
        let mut state = Loop { target_client: Some(client()), ..quiet() };
        state.take_target_turn(queue, At(1)).1
    };
    let work = Queue { to_complete: Some((id(3), 30)), ..Queue::idle() };
    assert!(matches!(turn(work), TargetAction::Sent(TargetNote::CompleteHeader(HeaderId(3, 3)), TargetFuture::CompleteHeader(f))
            if block_on(f.clone()).0 .0 == vec!["complete_header 3 30"]));
    let work = Queue { header: Some((HeaderStatus::MaybeExtra, 4)), ..Queue::idle() };
    assert!(matches!(turn(work), TargetAction::Sent(TargetNote::ExtraCheck(HeaderId(4, 4)), TargetFuture::ExtraCheck(f))
            if block_on(f.clone()).0 .0 == vec!["requires_extra 4"]));
    assert!(matches!(turn(Queue::idle()), TargetAction::Wait));

    let turn = |queue: Queue| {
        let mut state = Loop { source_client: Some(client()), ..quiet() };
        state.take_source_turn(queue).1
    };
    let work = Queue { header: Some((HeaderStatus::Extra, 4)), ..Queue::idle() };
    assert!(matches!(
        turn(work),
        SourceAction::Sent(SourceNote::Extra(HeaderId(4, 4)), SourceFuture::Extra(f))
            if block_on(f.clone()).0 .0 == vec!["header_extra 4 4"]
    ));
    let work = Queue { header: Some((HeaderStatus::Orphan, 4)), ..Queue::idle() };
    assert!(matches!(
        turn(work),
        SourceAction::Sent(SourceNote::OrphanHeader(HeaderId(3, 3)), SourceFuture::OrphanHeader(f))
            if block_on(f.clone()).0 .0 == vec!["header_by_hash 3"]
    ));
    assert!(matches!(turn(Queue::idle()), SourceAction::Wait));
}

#[test]
fn orphan_of_genesis_ends_the_loop() {
    let mut state = Loop { source_client: Some(client()), ..quiet() };
    let work = Queue { header: Some((HeaderStatus::Orphan, 1)), ..Queue::idle() };
    let done: Done = state.iterate(work, target(TargetEvent::Tick), At(1)).0;
    assert!(matches!(done.source_action, SourceAction::Stop));
    assert_eq!(state.source_client, None);
}

#[test]
fn progress_is_read_from_the_queue() {
    let queue = Queue { status: (Some(id(20)), Some(30)), ..Queue::idle() };
    let (_, (context, message)) =
        print_sync_progress::<Pipeline, Queue, At>((0, Some(9), None), &queue, At(1));
    assert_eq!(context, (1, Some(20), Some(30)));
    assert!(matches!(message, Some(m) if m.synced == Some(20) && m.total == Some(30)));
    let (_, (context, message)) =
        print_sync_progress::<Pipeline, Queue, At>((0, Some(10), None), &queue, At(1));
    assert_eq!(context, (0, Some(10), None));
    assert!(message.is_none());
}

#[test]
fn a_run_keeps_each_client_in_one_place() {
    let (mut state, queue, _, _, _) = Loop::start::<Queue, _>(client(), client(), 1, At(0));
    // both clients are out
    let event = source(SourceEvent::BestBlockNumber(client(), Ok(5)));
    let done: Done = state.iterate(queue, event, At(1)).0;
    // the source client is out again, at once
    assert!(matches!(done.source_action, SourceAction::Sent(SourceNote::NewHeader(1), SourceFuture::NewHeader(_))));
    assert_eq!(state.source_client, None);
    assert_eq!(state.target_client, None);

    // before the first answer about incomplete headers nothing else is asked
    let sync = Queue { to_submit: 1, ..done.sync };
    let event = target(TargetEvent::BestBlock(client(), Ok(id(1))));
    let done: Done = state.iterate(sync, event, At(2)).0;
    assert!(matches!(done.target_action, TargetAction::Sent(TargetNote::IncompleteHeaders, TargetFuture::IncompleteHeaders(_))));
    assert_eq!(state.target_client, None);

    // with nothing to do the client stays with the loop
    let sync = Queue { new_header: None, ..done.sync };
    let event = source(SourceEvent::NewHeader(client(), Err(NodeError::Other)));
    let done: Done = state.iterate(sync, event, At(3)).0;
    assert!(matches!(done.source_action, SourceAction::Wait));
    assert!(matches!(done.reaction.source_failure, Some(Failure::Failed(NodeError::Other))));
    assert_eq!(state.source_client, Some(client()));
}

#[test]
fn clock_is_read_afresh_at_each_use() {
    // the start reads it for the progress messages, then for the last update
    let clock = running(100, 7);
    let (state, _, _, _, clock) = Loop::start::<Queue, _>(client(), client(), 1, clock);
    assert_eq!(state.progress_context, (100, None, None));
    assert_eq!(state.stall, Stall { countdown: None, last_update_time: 107 });
    assert_eq!(clock.next, 114);

    // a new head: the update, the countdown and the progress message
    let clock = running(20 * SECOND, SECOND);
    let mut state = Loop { target_best_block_required: true, ..quiet() };
    let work = Queue { head_updated: true, submitted: 1, ..Queue::idle() };
    let event = target(TargetEvent::BestBlock(client(), Ok(id(5))));
    let (done, clock): (Done, Running) = state.iterate(work, event, clock);
    assert_eq!(
        state.stall,
        Stall { countdown: Some(21 * SECOND), last_update_time: 20 * SECOND }
    );
    assert_eq!(state.progress_context, (22 * SECOND, None, None));
    // and the silence of the target node
    assert_eq!(clock.next, 24 * SECOND);
    assert!(matches!(done.target_action, TargetAction::Wait));

    // a submission: the progress message, the silence, the countdown
    let clock = running(30 * SECOND, SECOND);
    let mut state = Loop { target_client: Some(client()), ..quiet() };
    let work = Queue { to_submit: 1, ..Queue::idle() };
    let (done, clock): (Done, Running) = state.iterate(work, source(SourceEvent::Tick), clock);
    assert!(matches!(done.target_action, TargetAction::Sent(TargetNote::SubmitHeaders(..), TargetFuture::SubmitHeaders(_))));
    assert_eq!(state.progress_context.0, 30 * SECOND);
    assert_eq!(state.stall.countdown, Some(32 * SECOND));
    assert_eq!(clock.next, 33 * SECOND);
}

#[test]
fn countdown_may_run_out_after_the_event_was_seen() {
    // the countdown is looked at one step of the clock before the silence is
    let stall = Stall { countdown: Some(0), last_update_time: 0 };
    let mut state = Loop { stall, ..quiet() };
    let clock = running(STALL_SYNC_TIMEOUT - 1, BACKUP_STALL_SYNC_TIMEOUT);
    let event = target(TargetEvent::BestBlock(client(), Ok(id(5))));
    let (done, clock): (Done, Running) = state.iterate(Queue::idle(), event, clock);
    assert!(!done.reaction.restarted);
    assert!(done.sync.calls().contains(&format!("select_headers_to_submit true")));
    assert_eq!(clock, running(STALL_SYNC_TIMEOUT - 1 + 3 * BACKUP_STALL_SYNC_TIMEOUT, BACKUP_STALL_SYNC_TIMEOUT));
}

#[test]
fn clock_is_not_read_without_need() {
    let clock = running(1, 1);
    let mut state = Loop { target_client: Some(client()), ..quiet() };
    let event = source(SourceEvent::Tick);
    let work = Queue { to_complete: Some((id(3), 30)), ..Queue::idle() };
    let (_, clock): (Done, Running) = state.iterate(work, event, clock);
    // once, for the progress message
    assert_eq!(clock.next, 2);

    // without a countdown an unchanged head needs no clock
    let mut state = quiet();
    let (_, restarted, clock) = state.handle_target_head(Queue::idle(), id(1), clock);
    assert!(!restarted);
    assert_eq!(clock.next, 2);
}

/// Clock that notes when it is read.
struct Noted(Journal);

impl Clock for Noted {
    fn now(self) -> (Noted, u128) {
        self.0.borrow_mut().push(format!("now"));
        (self, 1)
    }
}

#[test]
fn countdown_starts_after_the_submission_call() {
    let journal = Journal::default();
    let busy = || Client(Vec::new(), journal.clone());
    let mut state = Loop { source_client: Some(busy()), target_client: Some(busy()), ..quiet() };
    let work = Queue {
        calls: journal.clone(),
        to_submit: 2,
        new_header: Some(9),
        ..Queue::idle()
    };
    let (done, _) = state.iterate(work, source(SourceEvent::Tick), Noted(journal.clone()));
    assert_eq!(
        *journal.borrow(),
        vec![
            "is_almost_synced",
            "now",
            "status",
            "header_to_complete",
            "header MaybeExtra",
            "header MaybeOrphan",
            "now",
            "select_headers_to_submit false",
            "submit_headers 2",
            "now",
            "incomplete_header",
            "header Extra",
            "header Orphan",
            "select_new_header_to_download",
            "header_by_number 9",
        ]
    );
    assert!(matches!(
        done.target_action,
        TargetAction::Sent(
            TargetNote::SubmitHeaders(2, SubmittedIds::Two(HeaderId(1, 1), HeaderId(2, 2))),
            _
        )
    ));
    assert_eq!(state.stall.countdown, Some(1));
}

#[test]
fn head_is_taken_in_in_order() {
    let journal = Journal::default();
    let mut state = quiet();
    let work = Queue {
        calls: journal.clone(),
        head_updated: true,
        submitted: 1,
        ..Queue::idle()
    };
    let (_, restarted, _) = state.handle_target_head(work, id(4), Noted(journal.clone()));
    assert!(!restarted);
    assert_eq!(
        *journal.borrow(),
        vec!["target_best_header_response 4", "now", "headers_in_status Submitted", "now"]
    );
}

#[test]
fn empty_submission_breaks_the_loop() {
    let mut state = Loop { source_client: Some(client()), target_client: Some(client()), ..quiet() };
    let work = Queue { selects_nothing: true, new_header: Some(9), ..Queue::idle() };
    let done: Done = state.iterate(work, source(SourceEvent::Tick), At(1)).0;
    assert!(matches!(done.target_action, TargetAction::EmptySubmission));
    assert!(matches!(done.source_action, SourceAction::Wait));
    // nothing was sent
    assert_eq!(state.target_client, Some(client()));
    assert_eq!(state.source_client, Some(client()));
    assert_eq!(state.stall.countdown, None);
}

#[test]
fn rested_client_has_its_turn() {
    let mut state = quiet();
    let work = Queue { to_submit: 1, ..Queue::idle() };
    let done: Done = state.iterate(work, target(TargetEvent::Reconnect(client())), At(1)).0;
    assert!(matches!(
        done.target_action,
        TargetAction::Sent(TargetNote::SubmitHeaders(1, SubmittedIds::One(HeaderId(1, 1))), _)
    ));
}

#[test]
fn misconfiguration_waits_for_its_turn() {
    let orphan = || Queue { header: Some((HeaderStatus::Orphan, 1)), ..Queue::idle() };
    // without an available client
    let mut state = quiet();
    let done: Done = state.iterate(orphan(), target(TargetEvent::Tick), At(1)).0;
    assert!(matches!(done.source_action, SourceAction::Wait));
    // with a more urgent request
    let mut state = Loop { source_client: Some(client()), ..quiet() };
    let urgent = Queue { incomplete: Some(id(3)), ..orphan() };
    let done: Done = state.iterate(urgent, target(TargetEvent::Tick), At(1)).0;
    assert!(matches!(
        done.source_action,
        SourceAction::Sent(SourceNote::Completion(HeaderId(3, 3)), SourceFuture::Completion(_))
    ));
}
