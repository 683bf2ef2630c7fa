use ichika::connector::{IchikaConnector, RaceStep};
use ichika::events::{DisconnectReason, NetworkStatus};
use ichika::login::{
    qr_rows, reconnect_allowed, should_reconnect, token_login_succeeded, Callback, LoginAction, LoginError,
    LoginOutcome, LoginResponse, PasswordInput, PasswordLogin, QrCodeLogin, QrCodeState, QrInput,
    Request,
};
use ichika::receipt::{RawMessageReceipt, ReceiptError, ReceiptKind, RecallRequest, RecallTarget};

#[test]
fn password_login_success() {
    let (mut m, a) = PasswordLogin::start(false);
    assert_eq!(a, LoginAction::Send(Request::PasswordLogin));
    assert_eq!(m.step(PasswordInput::Response(LoginResponse::Success)), LoginAction::Invoke(Callback::Success));
    assert_eq!(m.step(PasswordInput::Acknowledged), LoginAction::Finish(LoginOutcome::Success));
}

#[test]
fn device_lock_with_sms() {
    let (mut m, _) = PasswordLogin::start(true);
    let locked = LoginResponse::DeviceLocked {
        sms_phone: Some("138".to_string()),
        verify_url: Some("https://v".to_string()),
        message: None,
    };
    assert_eq!(m.step(PasswordInput::Response(locked.clone())), LoginAction::Send(Request::RequestSms));
    assert_eq!(
        m.step(PasswordInput::SmsRequested(Some(locked))),
        LoginAction::Invoke(Callback::RequestSms {
            message: "请解锁设备锁进行验证".to_string(),
            phone: "138".to_string()
        })
    );
    assert_eq!(
        m.step(PasswordInput::SmsCode(Some("1234".to_string()))),
        LoginAction::Send(Request::SubmitSmsCode("1234".to_string()))
    );
}

#[test]
fn device_lock_without_sms_waits_for_manual_verification() {
    let (mut m, _) = PasswordLogin::start(false);
    let locked = LoginResponse::DeviceLocked {
        sms_phone: Some("138".to_string()),
        verify_url: Some("https://v".to_string()),
        message: Some("verify".to_string()),
    };
    assert_eq!(
        m.step(PasswordInput::Response(locked)),
        LoginAction::Invoke(Callback::DeviceLocked {
            message: "verify".to_string(),
            verify_url: "https://v".to_string()
        })
    );
    assert_eq!(m.step(PasswordInput::Acknowledged), LoginAction::Send(Request::PasswordLogin));
}

#[test]
fn captcha_and_missing_url() {
    let (mut m, _) = PasswordLogin::start(false);
    let need = LoginResponse::NeedCaptcha { verify_url: Some("u".to_string()) };
    assert_eq!(
        m.step(PasswordInput::Response(need)),
        LoginAction::Invoke(Callback::NeedCaptcha { verify_url: "u".to_string() })
    );
    assert_eq!(
        m.step(PasswordInput::Ticket("t".to_string())),
        LoginAction::Send(Request::SubmitTicket("t".to_string()))
    );
    let (mut m2, _) = PasswordLogin::start(false);
    assert_eq!(
        m2.step(PasswordInput::Response(LoginResponse::NeedCaptcha { verify_url: None })),
        LoginAction::Fail(LoginError::MissingVerifyUrl)
    );
}

#[test]
fn terminal_states_end_the_attempt() {
    let (mut m, _) = PasswordLogin::start(false);
    assert_eq!(m.step(PasswordInput::Response(LoginResponse::AccountFrozen)), LoginAction::Invoke(Callback::AccountFrozen));
    assert_eq!(m.step(PasswordInput::Acknowledged), LoginAction::Finish(LoginOutcome::AccountFrozen));
    let (mut u, _) = PasswordLogin::start(false);
    u.step(PasswordInput::Response(LoginResponse::UnknownStatus { status: 9, message: "x".to_string() }));
    assert_eq!(u.step(PasswordInput::Acknowledged), LoginAction::Finish(LoginOutcome::UnknownStatus(9)));
    assert_eq!(u.step(PasswordInput::Acknowledged), LoginAction::Fail(LoginError::UnexpectedInput));
}

#[test]
fn qr_login_flow() {
    let (mut q, a) = QrCodeLogin::start(100);
    assert_eq!(a, LoginAction::Send(Request::FetchQrCode));
    assert_eq!(
        q.step(QrInput::State(QrCodeState::ImageFetch { sig: vec![1, 2] })),
        LoginAction::Invoke(Callback::DisplayQrCode)
    );
    assert_eq!(q.step(QrInput::Acknowledged), LoginAction::Send(Request::QueryQrCode(vec![1, 2])));
    assert_eq!(q.step(QrInput::State(QrCodeState::Timeout)), LoginAction::Invoke(Callback::Timeout));
    assert_eq!(q.step(QrInput::Acknowledged), LoginAction::Send(Request::FetchQrCode));
    assert_eq!(
        q.step(QrInput::State(QrCodeState::Confirmed { uin: 200 })),
        LoginAction::Invoke(Callback::UinMismatch { expected: 100, actual: 200 })
    );
    assert_eq!(q.step(QrInput::Acknowledged), LoginAction::Send(Request::FetchQrCode));
    assert_eq!(q.step(QrInput::State(QrCodeState::Confirmed { uin: 100 })), LoginAction::Send(Request::QrCodeLogin));
    assert_eq!(
        q.step(QrInput::Response(LoginResponse::DeviceLockLogin)),
        LoginAction::Send(Request::DeviceLockLogin)
    );
    assert_eq!(
        q.step(QrInput::Response(LoginResponse::Success)),
        LoginAction::Invoke(Callback::QrSuccess { uin: 100 })
    );
    assert_eq!(q.step(QrInput::Acknowledged), LoginAction::Finish(LoginOutcome::Success));
}

#[test]
fn reconnect_only_after_network_loss() {
    assert!(should_reconnect(DisconnectReason::Network));
    assert!(should_reconnect(DisconnectReason::Actively(NetworkStatus::NetworkOffline)));
    assert!(!should_reconnect(DisconnectReason::Actively(NetworkStatus::KickedOffline)));
    assert!(reconnect_allowed(NetworkStatus::NetworkOffline));
    assert!(!reconnect_allowed(NetworkStatus::MsfOffline));
    assert!(token_login_succeeded(&Some(LoginResponse::Success)));
    assert!(!token_login_succeeded(&Some(LoginResponse::AccountFrozen)));
    assert!(!token_login_succeeded(&None));
}

#[test]
fn connector_race() {
    let mut c = IchikaConnector::new(2);
    assert_eq!(c.begin(), RaceStep::Wait);
    assert_eq!(c.finished(false), RaceStep::Wait);
    assert_eq!(c.finished(true), RaceStep::Winner);
    let mut d = IchikaConnector::new(1);
    assert_eq!(d.finished(false), RaceStep::NoneConnected);
    assert_eq!(IchikaConnector::new(0).begin(), RaceStep::NoneConnected);
}

#[test]
fn send_then_recall_scenario() {
    let receipt = RawMessageReceipt::new(vec![42], vec![99], 1700, ReceiptKind::Friend, 555).unwrap();
    assert_eq!((receipt.seq, receipt.rand, receipt.time), (42, 99, 1700));
    let req = RecallRequest::from_receipt(&receipt).unwrap();
    assert_eq!(req.target(), RecallTarget::Friend { uin: 555, time: 1700 });
    assert_eq!(req.seqs(), vec![42]);
    assert_eq!(req.rands(), vec![99]);
    let single = RecallRequest::single(RecallTarget::Friend { uin: 555, time: 1700 }, 43, 99);
    assert_eq!(single.seqs(), vec![43]);
}

#[test]
fn recall_pairs_must_match() {
    let t = RecallTarget::Group { uin: 1 };
    assert_eq!(RecallRequest::new(t, vec![1, 2], vec![3]).unwrap_err(), ReceiptError::Mismatched);
    assert_eq!(RecallRequest::new(t, vec![], vec![3]).unwrap_err(), ReceiptError::EmptySeqs);
    assert_eq!(RecallRequest::new(t, vec![1], vec![]).unwrap_err(), ReceiptError::EmptyRands);
    let ok = RecallRequest::new(t, vec![1, 2], vec![3, 4]).unwrap();
    assert_eq!((ok.seqs(), ok.rands()), (vec![1, 2], vec![3, 4]));
    assert_eq!(RawMessageReceipt::new(vec![], vec![1], 0, ReceiptKind::Group, 1), Err(ReceiptError::EmptySeqs));
    let empty = RawMessageReceipt::empty(ReceiptKind::Group, 5, 77);
    assert_eq!((empty.raw_seqs, empty.raw_rands, empty.time), (vec![0], vec![0], 77));
}

#[test]
fn qr_rows_chunk_modules() {
    let modules = vec![true, false, false, true, true];
    assert_eq!(qr_rows(&modules, 2), vec![vec![true, false], vec![false, true], vec![true]]);
    assert_eq!(qr_rows(&modules, 5), vec![modules.clone()]);
    assert_eq!(qr_rows(&vec![], 3), Vec::<Vec<bool>>::new());
}
