//! Login and reconnect decisions, as state machines that the caller drives.
//!
//! A machine never talks to the network or to the user itself: each step returns an action
//! (call a handler, send a request, finish) and the caller feeds back what came of it.
use vstd::prelude::*;

use crate::events::{DisconnectReason, NetworkStatus};
use crate::text::owned;

verus! {

/// What the engine answered to a login request.
#[derive(Debug, PartialEq, Eq, Clone)]
pub enum LoginResponse {
    Success,
    DeviceLocked { sms_phone: Option<String>, verify_url: Option<String>, message: Option<String> },
    NeedCaptcha { verify_url: Option<String> },
    DeviceLockLogin,
    AccountFrozen,
    TooManySmsRequest,
    UnknownStatus { status: u8, message: String },
}

/// A handler that the caller supplied, with its arguments.
#[derive(Debug, PartialEq, Eq, Clone)]
pub enum Callback {
    Success,
    RequestSms { message: String, phone: String },
    DeviceLocked { message: String, verify_url: String },
    NeedCaptcha { verify_url: String },
    DeviceLockLogin,
    AccountFrozen,
    TooManySmsRequest,
    UnknownStatus { message: String, status: u8 },
    WaitingForScan,
    WaitingForConfirm,
    Canceled,
    Timeout,
    DisplayQrCode,
    UinMismatch { expected: i64, actual: i64 },
    QrSuccess { uin: i64 },
}

/// A request to the engine.
#[derive(Debug, PartialEq, Eq, Clone)]
pub enum Request {
    PasswordLogin,
    RequestSms,
    SubmitSmsCode(String),
    SubmitTicket(String),
    DeviceLockLogin,
    FetchQrCode,
    QueryQrCode(Vec<u8>),
    QrCodeLogin,
}

/// How a login attempt ended.
#[derive(Debug, PartialEq, Eq, Clone, Copy)]
pub enum LoginOutcome {
    Success,
    AccountFrozen,
    TooManySmsRequest,
    UnknownStatus(u8),
}

/// Why a login attempt stopped with an error.
#[derive(Debug, PartialEq, Eq, Clone, Copy)]
pub enum LoginError {
    /// The engine asked for verification without a verification url.
    MissingVerifyUrl,
    /// The engine refused the confirmed QR code login.
    QrLoginFailed,
    /// The input does not answer the action that the machine is waiting on.
    UnexpectedInput,
}

/// The next thing the caller does.
#[derive(Debug, PartialEq, Eq, Clone)]
pub enum LoginAction {
    /// Call this handler and feed back what it returned.
    Invoke(Callback),
    /// Send this request and feed back the engine's answer.
    Send(Request),
    /// The attempt is over.
    Finish(LoginOutcome),
    /// The attempt failed.
    Fail(LoginError),
}

/// What the caller feeds back to a password login.
#[derive(Debug, PartialEq, Eq, Clone)]
pub enum PasswordInput {
    /// The engine's answer to a login request.
    Response(LoginResponse),
    /// The engine's answer to an SMS request, `None` when the request failed.
    SmsRequested(Option<LoginResponse>),
    /// The code that the SMS handler returned, if any.
    SmsCode(Option<String>),
    /// The ticket that the captcha handler returned.
    Ticket(String),
    /// A handler without a result returned.
    Acknowledged,
}

#[derive(Debug, PartialEq, Eq, Clone)]
pub enum PasswordState {
    AwaitResponse,
    AwaitSms { message: String, verify_url: String, phone: String },
    AwaitSmsCode { message: String, verify_url: String },
    AwaitDeviceLockAck,
    AwaitTicket,
    AwaitDeviceLockLoginAck,
    AwaitFinal(LoginOutcome),
    Done,
}

/// The text shown for a device lock that came without a message.
pub open spec fn default_lock_message() -> Seq<char> {
    "请解锁设备锁进行验证"@
}

pub open spec fn lock_message(m: Option<String>) -> Seq<char> {
    match m {
        Some(s) => s@,
        None => default_lock_message(),
    }
}

fn lock_message_of(m: &Option<String>) -> (r: String)
    ensures
        r@ == lock_message(*m),
{
    match m {
        Some(s) => s.clone(),
        None => owned("请解锁设备锁进行验证"),
    }
}

/// Where a password login goes on a response from the engine.
pub open spec fn on_response(resp: LoginResponse, sms: bool, next: PasswordState, a: LoginAction) -> bool {
    match resp {
        LoginResponse::Success => next == PasswordState::AwaitFinal(LoginOutcome::Success) && a
            == LoginAction::Invoke(Callback::Success),
        LoginResponse::DeviceLocked { sms_phone, verify_url, message } => match verify_url {
            None => next == PasswordState::Done && a == LoginAction::Fail(
                LoginError::MissingVerifyUrl,
            ),
            Some(url) => if sms && sms_phone is Some {
                next matches PasswordState::AwaitSms { message: m, verify_url: u, phone: p }
                    && m@ == lock_message(message) && u == url && p == sms_phone->Some_0 && a
                    == LoginAction::Send(Request::RequestSms)
            } else {
                next == PasswordState::AwaitDeviceLockAck && (a matches LoginAction::Invoke(
                    Callback::DeviceLocked { message: m, verify_url: u },
                ) && m@ == lock_message(message) && u == url)
            },
        },
        LoginResponse::NeedCaptcha { verify_url } => match verify_url {
            None => next == PasswordState::Done && a == LoginAction::Fail(
                LoginError::MissingVerifyUrl,
            ),
            Some(url) => next == PasswordState::AwaitTicket && a == LoginAction::Invoke(
                Callback::NeedCaptcha { verify_url: url },
            ),
        },
        LoginResponse::DeviceLockLogin => next == PasswordState::AwaitDeviceLockLoginAck && a
            == LoginAction::Invoke(Callback::DeviceLockLogin),
        LoginResponse::AccountFrozen => next == PasswordState::AwaitFinal(
            LoginOutcome::AccountFrozen,
        ) && a == LoginAction::Invoke(Callback::AccountFrozen),
        LoginResponse::TooManySmsRequest => next == PasswordState::AwaitFinal(
            LoginOutcome::TooManySmsRequest,
        ) && a == LoginAction::Invoke(Callback::TooManySmsRequest),
        LoginResponse::UnknownStatus { status, message } => next == PasswordState::AwaitFinal(
            LoginOutcome::UnknownStatus(status),
        ) && a == LoginAction::Invoke(Callback::UnknownStatus { message, status }),
    }
}

/// A password login: it starts with a login request, walks through device lock, SMS and
/// captcha verification, and ends in one outcome.
pub struct PasswordLogin {
    pub sms: bool,
    pub state: PasswordState,
}

impl PasswordLogin {
    /// A login that may use SMS verification when `sms` is set, and the request it starts with.
    pub fn start(sms: bool) -> (r: (Self, LoginAction))
        ensures
            r.0.sms == sms,
            r.0.state == PasswordState::AwaitResponse,
            r.1 == LoginAction::Send(Request::PasswordLogin),
    {
        (PasswordLogin { sms, state: PasswordState::AwaitResponse }, LoginAction::Send(Request::PasswordLogin))
    }

    fn respond(&mut self, resp: LoginResponse) -> (r: LoginAction)
        ensures
            final(self).sms == old(self).sms,
            on_response(resp, old(self).sms, final(self).state, r),
    {
        match resp {
            LoginResponse::Success => {
                self.state = PasswordState::AwaitFinal(LoginOutcome::Success);
                LoginAction::Invoke(Callback::Success)
            },
            LoginResponse::DeviceLocked { sms_phone, verify_url, message } => {
                let url = match verify_url {
                    Some(u) => u,
                    None => {
                        self.state = PasswordState::Done;
                        return LoginAction::Fail(LoginError::MissingVerifyUrl);
                    },
                };
                let m = lock_message_of(&message);
                if self.sms && sms_phone.is_some() {
                    let phone = match sms_phone {
                        Some(p) => p,
                        None => String::new(),
                    };
                    self.state = PasswordState::AwaitSms { message: m, verify_url: url, phone };
                    LoginAction::Send(Request::RequestSms)
                } else {
                    self.state = PasswordState::AwaitDeviceLockAck;
                    LoginAction::Invoke(Callback::DeviceLocked { message: m, verify_url: url })
                }
            },
            LoginResponse::NeedCaptcha { verify_url } => match verify_url {
                None => {
                    self.state = PasswordState::Done;
                    LoginAction::Fail(LoginError::MissingVerifyUrl)
                },
                Some(url) => {
                    self.state = PasswordState::AwaitTicket;
                    LoginAction::Invoke(Callback::NeedCaptcha { verify_url: url })
                },
            },
            LoginResponse::DeviceLockLogin => {
                self.state = PasswordState::AwaitDeviceLockLoginAck;
                LoginAction::Invoke(Callback::DeviceLockLogin)
            },
            LoginResponse::AccountFrozen => {
                self.state = PasswordState::AwaitFinal(LoginOutcome::AccountFrozen);
                LoginAction::Invoke(Callback::AccountFrozen)
            },
            LoginResponse::TooManySmsRequest => {
                self.state = PasswordState::AwaitFinal(LoginOutcome::TooManySmsRequest);
                LoginAction::Invoke(Callback::TooManySmsRequest)
            },
            LoginResponse::UnknownStatus { status, message } => {
                self.state = PasswordState::AwaitFinal(LoginOutcome::UnknownStatus(status));
                LoginAction::Invoke(Callback::UnknownStatus { message, status })
            },
        }
    }

    /// Feeds back what came of the last action and returns the next one.
    pub fn step(&mut self, input: PasswordInput) -> (r: LoginAction)
        ensures
            final(self).sms == old(self).sms,
            match (old(self).state, input) {
                (PasswordState::AwaitResponse, PasswordInput::Response(resp)) => on_response(
                    resp,
                    old(self).sms,
                    final(self).state,
                    r,
                ),
                (
                    PasswordState::AwaitSms { message, verify_url, phone },
                    PasswordInput::SmsRequested(answer),
                ) => match answer {
                    Some(LoginResponse::DeviceLocked { .. }) => final(self).state
                        == PasswordState::AwaitSmsCode { message, verify_url } && r
                        == LoginAction::Invoke(Callback::RequestSms { message, phone }),
                    Some(resp) => on_response(resp, old(self).sms, final(self).state, r),
                    None => final(self).state == PasswordState::AwaitDeviceLockAck && r
                        == LoginAction::Invoke(Callback::DeviceLocked { message, verify_url }),
                },
                (
                    PasswordState::AwaitSmsCode { message, verify_url },
                    PasswordInput::SmsCode(code),
                ) => match code {
                    Some(c) => final(self).state == PasswordState::AwaitResponse && r
                        == LoginAction::Send(Request::SubmitSmsCode(c)),
                    None => final(self).state == PasswordState::AwaitDeviceLockAck && r
                        == LoginAction::Invoke(Callback::DeviceLocked { message, verify_url }),
                },
                (PasswordState::AwaitDeviceLockAck, PasswordInput::Acknowledged) => final(self).state == PasswordState::AwaitResponse && r == LoginAction::Send(
                    Request::PasswordLogin,
                ),
                (PasswordState::AwaitTicket, PasswordInput::Ticket(t)) => final(self).state
                    == PasswordState::AwaitResponse && r == LoginAction::Send(
                    Request::SubmitTicket(t),
                ),
                (PasswordState::AwaitDeviceLockLoginAck, PasswordInput::Acknowledged) => final(self).state == PasswordState::AwaitResponse && r == LoginAction::Send(
                    Request::DeviceLockLogin,
                ),
                (PasswordState::AwaitFinal(outcome), PasswordInput::Acknowledged) => final(self).state == PasswordState::Done && r == LoginAction::Finish(outcome),
                _ => final(self).state == PasswordState::Done && r == LoginAction::Fail(
                    LoginError::UnexpectedInput,
                ),
            },
    {
        match (&self.state, input) {
            (PasswordState::AwaitResponse, PasswordInput::Response(resp)) => self.respond(resp),
            (
                PasswordState::AwaitSms { message, verify_url, phone },
                PasswordInput::SmsRequested(answer),
            ) => {
                let message = message.clone();
                let verify_url = verify_url.clone();
                let phone = phone.clone();
                match answer {
                    Some(LoginResponse::DeviceLocked { .. }) => {
                        self.state = PasswordState::AwaitSmsCode {
                            message: message.clone(),
                            verify_url,
                        };
                        LoginAction::Invoke(Callback::RequestSms { message, phone })
                    },
                    Some(resp) => self.respond(resp),
                    None => {
                        self.state = PasswordState::AwaitDeviceLockAck;
                        LoginAction::Invoke(Callback::DeviceLocked { message, verify_url })
                    },
                }
            },
            (
                PasswordState::AwaitSmsCode { message, verify_url },
                PasswordInput::SmsCode(code),
            ) => match code {
                Some(c) => {
                    self.state = PasswordState::AwaitResponse;
                    LoginAction::Send(Request::SubmitSmsCode(c))
                },
                None => {
                    let message = message.clone();
                    let verify_url = verify_url.clone();
                    self.state = PasswordState::AwaitDeviceLockAck;
                    LoginAction::Invoke(Callback::DeviceLocked { message, verify_url })
                },
            },
            (PasswordState::AwaitDeviceLockAck, PasswordInput::Acknowledged) => {
                self.state = PasswordState::AwaitResponse;
                LoginAction::Send(Request::PasswordLogin)
            },
            (PasswordState::AwaitTicket, PasswordInput::Ticket(t)) => {
                self.state = PasswordState::AwaitResponse;
                LoginAction::Send(Request::SubmitTicket(t))
            },
            (PasswordState::AwaitDeviceLockLoginAck, PasswordInput::Acknowledged) => {
                self.state = PasswordState::AwaitResponse;
                LoginAction::Send(Request::DeviceLockLogin)
            },
            (PasswordState::AwaitFinal(outcome), PasswordInput::Acknowledged) => {
                let outcome = *outcome;
                self.state = PasswordState::Done;
                LoginAction::Finish(outcome)
            },
            _ => {
                self.state = PasswordState::Done;
                LoginAction::Fail(LoginError::UnexpectedInput)
            },
        }
    }
}

/// What the engine reports while a QR code login waits.
#[derive(Debug, PartialEq, Eq, Clone)]
pub enum QrCodeState {
    WaitingForScan,
    WaitingForConfirm,
    Canceled,
    Timeout,
    /// A new QR code image with its signature.
    ImageFetch { sig: Vec<u8> },
    /// The code was confirmed by account `uin`.
    Confirmed { uin: i64 },
}

/// What the caller feeds back to a QR code login.
#[derive(Debug, PartialEq, Eq, Clone)]
pub enum QrInput {
    State(QrCodeState),
    Response(LoginResponse),
    Acknowledged,
}

#[derive(Debug, PartialEq, Eq, Clone, Copy)]
pub enum QrPhase {
    AwaitState,
    AwaitPollAck,
    AwaitRefetchAck,
    AwaitLogin,
    AwaitDeviceLockLogin,
    AwaitFinalAck,
    Done,
}

/// A QR code login for account `uin`: it shows codes and polls until the expected account
/// confirms one.
pub struct QrCodeLogin {
    pub uin: i64,
    pub sig: Vec<u8>,
    pub phase: QrPhase,
}

impl QrCodeLogin {
    /// The signature of the code shown last.
    pub open spec fn sig_view(&self) -> Seq<u8> {
        self.sig@
    }

    /// A login for `uin` and the request it starts with.
    pub fn start(uin: i64) -> (r: (Self, LoginAction))
        ensures
            r.0.uin == uin,
            r.0.phase == QrPhase::AwaitState,
            r.0.sig_view() == Seq::<u8>::empty(),
            r.1 == LoginAction::Send(Request::FetchQrCode),
    {
        let sig: Vec<u8> = Vec::new();
        (QrCodeLogin { uin, sig, phase: QrPhase::AwaitState }, LoginAction::Send(Request::FetchQrCode))
    }

    /// Feeds back what came of the last action and returns the next one. After a poll is
    /// acknowledged the caller waits its interval before sending the query.
    pub fn step(&mut self, input: QrInput) -> (r: LoginAction)
        ensures
            final(self).uin == old(self).uin,
            !(input matches QrInput::State(QrCodeState::ImageFetch { .. })) ==> final(self).sig_view()
                == old(self).sig_view(),
            match (old(self).phase, input) {
                (QrPhase::AwaitState, QrInput::State(st)) => match st {
                    QrCodeState::WaitingForScan => final(self).phase == QrPhase::AwaitPollAck
                        && final(self).sig_view() == old(self).sig_view() && r
                        == LoginAction::Invoke(Callback::WaitingForScan),
                    QrCodeState::WaitingForConfirm => final(self).phase == QrPhase::AwaitPollAck
                        && final(self).sig_view() == old(self).sig_view() && r
                        == LoginAction::Invoke(Callback::WaitingForConfirm),
                    QrCodeState::Canceled => final(self).phase == QrPhase::AwaitRefetchAck && r
                        == LoginAction::Invoke(Callback::Canceled),
                    QrCodeState::Timeout => final(self).phase == QrPhase::AwaitRefetchAck && r
                        == LoginAction::Invoke(Callback::Timeout),
                    QrCodeState::ImageFetch { sig } => final(self).phase == QrPhase::AwaitPollAck
                        && final(self).sig_view() == sig@ && r == LoginAction::Invoke(
                        Callback::DisplayQrCode,
                    ),
                    QrCodeState::Confirmed { uin } => if uin == old(self).uin {
                        final(self).phase == QrPhase::AwaitLogin && r == LoginAction::Send(
                            Request::QrCodeLogin,
                        )
                    } else {
                        final(self).phase == QrPhase::AwaitRefetchAck && r == LoginAction::Invoke(
                            Callback::UinMismatch { expected: old(self).uin, actual: uin },
                        )
                    },
                },
                (QrPhase::AwaitPollAck, QrInput::Acknowledged) => final(self).phase
                    == QrPhase::AwaitState && final(self).sig_view() == old(self).sig_view() && (
                r matches LoginAction::Send(Request::QueryQrCode(s)) && s@ == old(self).sig_view()),
                (QrPhase::AwaitRefetchAck, QrInput::Acknowledged) => final(self).phase
                    == QrPhase::AwaitState && r == LoginAction::Send(Request::FetchQrCode),
                (QrPhase::AwaitLogin, QrInput::Response(resp)) => match resp {
                    LoginResponse::DeviceLockLogin => final(self).phase
                        == QrPhase::AwaitDeviceLockLogin && r == LoginAction::Send(
                        Request::DeviceLockLogin,
                    ),
                    LoginResponse::Success => final(self).phase == QrPhase::AwaitFinalAck && r
                        == LoginAction::Invoke(Callback::QrSuccess { uin: old(self).uin }),
                    _ => final(self).phase == QrPhase::Done && r == LoginAction::Fail(
                        LoginError::QrLoginFailed,
                    ),
                },
                (QrPhase::AwaitDeviceLockLogin, QrInput::Response(resp)) => match resp {
                    LoginResponse::Success => final(self).phase == QrPhase::AwaitFinalAck && r
                        == LoginAction::Invoke(Callback::QrSuccess { uin: old(self).uin }),
                    _ => final(self).phase == QrPhase::Done && r == LoginAction::Fail(
                        LoginError::QrLoginFailed,
                    ),
                },
                (QrPhase::AwaitFinalAck, QrInput::Acknowledged) => final(self).phase
                    == QrPhase::Done && r == LoginAction::Finish(LoginOutcome::Success),
                _ => final(self).phase == QrPhase::Done && r == LoginAction::Fail(
                    LoginError::UnexpectedInput,
                ),
            },
    {
        match (self.phase, input) {
            (QrPhase::AwaitState, QrInput::State(st)) => match st {
                QrCodeState::WaitingForScan => {
                    self.phase = QrPhase::AwaitPollAck;
                    LoginAction::Invoke(Callback::WaitingForScan)
                },
                QrCodeState::WaitingForConfirm => {
                    self.phase = QrPhase::AwaitPollAck;
                    LoginAction::Invoke(Callback::WaitingForConfirm)
                },
                QrCodeState::Canceled => {
                    self.phase = QrPhase::AwaitRefetchAck;
                    LoginAction::Invoke(Callback::Canceled)
                },
                QrCodeState::Timeout => {
                    self.phase = QrPhase::AwaitRefetchAck;
                    LoginAction::Invoke(Callback::Timeout)
                },
                QrCodeState::ImageFetch { sig } => {
                    self.sig = sig;
                    self.phase = QrPhase::AwaitPollAck;
                    LoginAction::Invoke(Callback::DisplayQrCode)
                },
                QrCodeState::Confirmed { uin } => {
                    if uin == self.uin {
                        self.phase = QrPhase::AwaitLogin;
                        LoginAction::Send(Request::QrCodeLogin)
                    } else {
                        self.phase = QrPhase::AwaitRefetchAck;
                        LoginAction::Invoke(Callback::UinMismatch { expected: self.uin, actual: uin })
                    }
                },
            },
            (QrPhase::AwaitPollAck, QrInput::Acknowledged) => {
                self.phase = QrPhase::AwaitState;
                let sig = self.sig.clone();
                assert(sig@ =~= self.sig@);
                LoginAction::Send(Request::QueryQrCode(sig))
            },
            (QrPhase::AwaitRefetchAck, QrInput::Acknowledged) => {
                self.phase = QrPhase::AwaitState;
                LoginAction::Send(Request::FetchQrCode)
            },
            (QrPhase::AwaitLogin, QrInput::Response(resp)) => match resp {
                LoginResponse::DeviceLockLogin => {
                    self.phase = QrPhase::AwaitDeviceLockLogin;
                    LoginAction::Send(Request::DeviceLockLogin)
                },
                LoginResponse::Success => {
                    self.phase = QrPhase::AwaitFinalAck;
                    LoginAction::Invoke(Callback::QrSuccess { uin: self.uin })
                },
                _ => {
                    self.phase = QrPhase::Done;
                    LoginAction::Fail(LoginError::QrLoginFailed)
                },
            },
            (QrPhase::AwaitDeviceLockLogin, QrInput::Response(resp)) => match resp {
                LoginResponse::Success => {
                    self.phase = QrPhase::AwaitFinalAck;
                    LoginAction::Invoke(Callback::QrSuccess { uin: self.uin })
                },
                _ => {
                    self.phase = QrPhase::Done;
                    LoginAction::Fail(LoginError::QrLoginFailed)
                },
            },
            (QrPhase::AwaitFinalAck, QrInput::Acknowledged) => {
                self.phase = QrPhase::Done;
                LoginAction::Finish(LoginOutcome::Success)
            },
            _ => {
                self.phase = QrPhase::Done;
                LoginAction::Fail(LoginError::UnexpectedInput)
            },
        }
    }
}

pub open spec fn row_end(i: int, width: int, n: int) -> int {
    if (i + 1) * width <= n {
        (i + 1) * width
    } else {
        n
    }
}

/// Rows of a QR code of `width` modules from its modules in reading order (`true` for a
/// light module); the last row holds what is left.
pub fn qr_rows(modules: &Vec<bool>, width: usize) -> (r: Vec<Vec<bool>>)
    requires
        width > 0,
    ensures
        r@.len() * width >= modules@.len(),
        r@.len() == 0 || (r@.len() - 1) * width < modules@.len(),
        forall|i: int|
            0 <= i < r@.len() ==> (#[trigger] r@[i])@ == modules@.subrange(
                i * width,
                row_end(i, width as int, modules@.len() as int),
            ),
{
    let n = modules.len();
    let mut rows: Vec<Vec<bool>> = Vec::new();
    let mut start: usize = 0;
    assert(rows@.len() * width == 0) by (nonlinear_arith)
        requires
            rows@.len() == 0,
    ;
    while start < n
        invariant
            width > 0,
            n == modules@.len(),
            start <= n,
            start < n ==> start as int == rows@.len() * width,
            start == n ==> rows@.len() * width >= n,
            rows@.len() == 0 || (rows@.len() - 1) * width < n,
            forall|i: int|
                0 <= i < rows@.len() ==> (#[trigger] rows@[i])@ == modules@.subrange(
                    i * width,
                    row_end(i, width as int, n as int),
                ),
        decreases n - start,
    {
        let end = if n - start <= width {
            n
        } else {
            start + width
        };
        let mut row: Vec<bool> = Vec::new();
        let mut k: usize = start;
        while k < end
            invariant
                start <= k <= end <= n,
                n == modules@.len(),
                row@ == modules@.subrange(start as int, k as int),
            decreases end - k,
        {
            row.push(modules[k]);
            k = k + 1;
            assert(row@ =~= modules@.subrange(start as int, k as int));
        }
        let ghost i = rows@.len() as int;
        proof {
            assert((i + 1) * width == i * width + width) by (nonlinear_arith);
            assert(end as int == row_end(i, width as int, n as int));
        }
        rows.push(row);
        proof {
            assert(rows@.len() * width == i * width + width) by (nonlinear_arith)
                requires
                    rows@.len() == i + 1,
            ;
        }
        start = end;
    }
    rows
}

/// Whether a disconnect calls for reconnecting: only a network failure does, never a kick, a
/// forced logout or a stop on purpose.
pub fn should_reconnect(reason: DisconnectReason) -> (r: bool)
    ensures
        r == (reason == DisconnectReason::Network || reason == DisconnectReason::Actively(
            NetworkStatus::NetworkOffline,
        )),
{
    match reason {
        DisconnectReason::Network => true,
        DisconnectReason::Actively(NetworkStatus::NetworkOffline) => true,
        DisconnectReason::Actively(_) => false,
    }
}

/// Whether a reconnect attempt goes on, given the client's status when it starts: only a
/// client that went offline through the network is reconnected.
pub fn reconnect_allowed(status: NetworkStatus) -> (r: bool)
    ensures
        r == (status == NetworkStatus::NetworkOffline),
{
    match status {
        NetworkStatus::NetworkOffline => true,
        _ => false,
    }
}

/// Whether a token login succeeded: a token was found and the engine accepted it. `None`
/// stands for no token, or a request that failed.
pub fn token_login_succeeded(answer: &Option<LoginResponse>) -> (r: bool)
    ensures
        r == (answer == &Some(LoginResponse::Success)),
{
    match answer {
        Some(LoginResponse::Success) => true,
        _ => false,
    }
}

} // verus!
