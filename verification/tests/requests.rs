use std::sync::{Arc, Mutex};
use std::task::{Wake, Waker};
use widevine::host::Host;
use widevine::promise_set::{
    PromiseResult, PromiseResultData, RejectionInfo, INITIALIZED_PROMISE_ID,
};
use widevine::types::{Exception, InitDataType, SessionType};
use widevine::{CreateSessionError, InitializeCDMError, ModuleCall, WidevineAPI};

struct Bell {
    rings: Mutex<usize>,
}

impl Bell {
    fn rung(&self) -> usize {
        *self.rings.lock().unwrap()
    }
}

impl Wake for Bell {
    fn wake(self: Arc<Self>) {
        *self.rings.lock().unwrap() += 1;
    }
}

fn bell_waker() -> (Arc<Bell>, Waker) {
    let bell = Arc::new(Bell { rings: Mutex::new(0) });
    let waker = Waker::from(bell.clone());
    (bell, waker)
}

fn bad_state() -> RejectionInfo {
    RejectionInfo {
        exception: Exception::InvalidStateError,
        system_code: 5,
        error_message: "bad state".to_owned(),
    }
}

#[test]
fn test_widevine_api() {
    let api = WidevineAPI::new();
    assert_eq!(api.next_promise_id(), 1);
}

#[test]
fn test_cdm_initialization() {
    let mut api = WidevineAPI::new();
    let mut host = Host::new();
    assert_eq!(api.initialize_cdm(), Ok(ModuleCall::Initialize));
    let future = host.get_future(INITIALIZED_PROMISE_ID);
    let (bell, waker) = bell_waker();
    assert!(host.poll(&future, waker).is_none());
    host.on_initialized(true).waiter.unwrap().wake();
    assert_eq!(bell.rung(), 1);
    let (_, waker) = bell_waker();
    let completion = host.poll(&future, waker).unwrap();
    let result = WidevineAPI::initialize_cdm_result(completion);
    assert!(result.is_ok())
}

#[test]
fn initialization_is_requested_once() {
    let mut api = WidevineAPI::new();
    assert_eq!(api.initialize_cdm(), Ok(ModuleCall::Initialize));
    assert_eq!(api.initialize_cdm(), Err(InitializeCDMError::Failed));
    assert_eq!(api.initialize_cdm(), Err(InitializeCDMError::Failed));
    assert_eq!(api.next_promise_id(), 1);
}

#[test]
fn initialization_succeeds_only_on_true() {
    let yes = PromiseResult::Resolved(PromiseResultData::Initialized(true));
    assert_eq!(WidevineAPI::initialize_cdm_result(yes), Ok(()));
    let no = PromiseResult::Resolved(PromiseResultData::Initialized(false));
    assert_eq!(WidevineAPI::initialize_cdm_result(no), Err(InitializeCDMError::Failed));
    let rejected = PromiseResult::Rejected(bad_state());
    assert_eq!(
        WidevineAPI::initialize_cdm_result(rejected),
        Err(InitializeCDMError::Rejected(bad_state()))
    );
}

#[test]
fn initialization_fails_on_a_payload_of_another_shape() {
    let empty = PromiseResult::Resolved(PromiseResultData::Empty);
    assert_eq!(WidevineAPI::initialize_cdm_result(empty), Err(InitializeCDMError::Failed));
    let session = PromiseResult::Resolved(PromiseResultData::NewSession("s".to_owned()));
    assert_eq!(WidevineAPI::initialize_cdm_result(session), Err(InitializeCDMError::Failed));
}

#[test]
fn certificate_request_takes_the_next_id_and_counts_the_bytes() {
    let mut api = WidevineAPI::new();
    let call = api.set_server_certificate(&[1, 2, 3, 4, 5]);
    assert_eq!(call, ModuleCall::SetServerCertificate { promise_id: 1, certificate_size: 5 });
    let call = api.set_server_certificate(&[]);
    assert_eq!(call, ModuleCall::SetServerCertificate { promise_id: 2, certificate_size: 0 });
    assert_eq!(api.next_promise_id(), 3);
}

#[test]
fn plain_request_resolves_to_ok_and_rejection_to_its_details() {
    let mut api = WidevineAPI::new();
    api.set_server_certificate(&[1]);
    api.update_session("sess", &[2]);
    assert_eq!(api.request_result(1, PromiseResult::Resolved(PromiseResultData::Empty)), Ok(()));
    assert_eq!(api.request_result(2, PromiseResult::Rejected(bad_state())), Err(bad_state()));
}

#[test]
fn update_request_counts_the_session_id_in_bytes() {
    let mut api = WidevineAPI::new();
    let call = api.update_session("s\u{e9}ance", &[0u8; 300]);
    assert_eq!(
        call,
        ModuleCall::UpdateSession { promise_id: 1, session_id_size: 7, response_size: 300 }
    );
}

#[test]
fn session_request_registers_the_consumer_first() {
    let mut api = WidevineAPI::new();
    let mut host = Host::new();
    let call = api.create_session(
        &mut host,
        SessionType::PersistentLicense,
        InitDataType::KeyIds,
        &[7u8; 20],
        4,
    );
    assert_eq!(
        call,
        ModuleCall::CreateSession {
            promise_id: 1,
            session_type: SessionType::PersistentLicense,
            init_data_type: InitDataType::KeyIds,
            init_data_size: 20,
        }
    );
    assert!(host.on_expiration_change("early", 1));
    let events = host.take_events();
    assert_eq!(events.len(), 1);
    assert_eq!(events[0].consumer, 4);
}

#[test]
fn new_session_is_returned_and_a_late_rejection_reaches_nobody() {
    let mut api = WidevineAPI::new();
    let mut host = Host::new();
    let call = api.create_session(&mut host, SessionType::Temporary, InitDataType::Cenc, &[1], 0);
    let promise_id = match call {
        ModuleCall::CreateSession { promise_id, .. } => promise_id,
        _ => panic!("not a session request"),
    };
    assert_eq!(promise_id, 1);

    let future = host.get_future(1);
    let (bell, waker) = bell_waker();
    assert!(host.poll(&future, waker).is_none());
    let done = host.on_resolve_new_session(promise_id, "sess-42");
    assert!(done.stored);
    done.waiter.unwrap().wake();
    assert_eq!(bell.rung(), 1);

    let (second, waker) = bell_waker();
    let completion = host.poll(&future, waker).unwrap();
    assert_eq!(api.create_session_result(1, completion), Ok("sess-42".to_owned()));

    let late = host.on_reject(promise_id, Exception::InvalidStateError, 5, "bad state");
    assert!(!late.stored);
    assert!(late.waiter.is_none());
    assert_eq!(bell.rung(), 1);
    assert_eq!(second.rung(), 0);
    let (third, waker) = bell_waker();
    assert!(host.poll(&future, waker).is_none());
    assert_eq!(third.rung(), 0);
    let other = host.get_future(2);
    let (_, waker) = bell_waker();
    assert!(host.poll(&other, waker).is_none());
}

#[test]
fn session_request_fails_on_a_payload_of_another_shape() {
    let mut api = WidevineAPI::new();
    let mut host = Host::new();
    api.create_session(&mut host, SessionType::Temporary, InitDataType::WebM, &[], 0);
    let empty = PromiseResult::Resolved(PromiseResultData::Empty);
    assert_eq!(api.create_session_result(1, empty), Err(CreateSessionError::Failed));
    let flag = PromiseResult::Resolved(PromiseResultData::Initialized(true));
    assert_eq!(api.create_session_result(1, flag), Err(CreateSessionError::Failed));
}

#[test]
fn session_request_reports_the_rejection() {
    let mut api = WidevineAPI::new();
    let mut host = Host::new();
    api.create_session(&mut host, SessionType::PermanentKeyRelease, InitDataType::Cenc, &[], 0);
    assert_eq!(
        api.create_session_result(1, PromiseResult::Rejected(bad_state())),
        Err(CreateSessionError::Rejected(bad_state()))
    );
}

#[test]
fn kinds_cross_the_boundary_as_numbers() {
    assert_eq!(SessionType::Temporary.code(), 0);
    assert_eq!(SessionType::PersistentLicense.code(), 1);
    assert_eq!(SessionType::PermanentKeyRelease.code(), 2);
    assert_eq!(InitDataType::Cenc.code(), 0);
    assert_eq!(InitDataType::KeyIds.code(), 1);
    assert_eq!(InitDataType::WebM.code(), 2);
}

#[test]
fn expired_timers_become_calls_in_drain_order() {
    let api = WidevineAPI::new();
    let mut host = Host::new();
    host.new_timer(0, 20, 0xb);
    host.new_timer(0, 10, 0xa);
    host.new_timer(0, 30, 0xc);
    assert!(api.update(&mut host, 5).is_empty());
    assert_eq!(
        api.update(&mut host, 25),
        vec![ModuleCall::TimerExpired { context: 0xa }, ModuleCall::TimerExpired { context: 0xb }]
    );
    assert_eq!(api.update(&mut host, 30), vec![ModuleCall::TimerExpired { context: 0xc }]);
    assert!(api.update(&mut host, 31).is_empty());
}
