use crate::config::{Config, PLACEHOLDER};
use crate::fault::{Fault, Severity};
use crate::waiter::{
    answer, answers_of, evaluations, is_pause_of, lemma_wait_exhausted, pause_at,
    wait_for_condition_with_timeout, wait_outcome, Pause, WaitOutcome,
};
use vstd::prelude::*;
use vstd::utf8::{encode_utf8, encode_utf8_decode_utf8};

verus! {

/// Longest network name, in bytes, that the Wi-Fi driver stores.
pub const MAX_SSID_LEN: usize = 32;

/// Longest passphrase, in bytes, that the Wi-Fi driver stores.
pub const MAX_PASSPHRASE_LEN: usize = 64;

/// Length of `text` in bytes once it is encoded as UTF-8.
pub open spec fn byte_len(text: Seq<char>) -> nat {
    encode_utf8(text).len()
}

/// A credential is acceptable when it has been set and fits into `limit` bytes.
pub open spec fn acceptable(text: Seq<char>, limit: nat) -> bool {
    text != PLACEHOLDER@ && byte_len(text) <= limit
}

/// The verdict on a pair of credentials. The network name is looked at first.
pub open spec fn credentials_verdict(ssid: Seq<char>, passphrase: Seq<char>) -> Result<(), Fault> {
    if !acceptable(ssid, MAX_SSID_LEN as nat) {
        Err(Fault::InvalidSsid)
    } else if !acceptable(passphrase, MAX_PASSPHRASE_LEN as nat) {
        Err(Fault::InvalidPassphrase)
    } else {
        Ok(())
    }
}

/// Whether two strings hold the same text.
fn same_text(a: &str, b: &str) -> (same: bool)
    ensures
        same == (a@ == b@),
{
    let left = a.as_bytes();
    let right = b.as_bytes();
    if left.len() != right.len() {
        return false;
    }
    let mut i: usize = 0;
    while i < left.len()
        invariant
            i <= left.len(),
            left.len() == right.len(),
            left@ == encode_utf8(a@),
            right@ == encode_utf8(b@),
            forall|j: int| 0 <= j < i ==> left@[j] == right@[j],
        decreases left.len() - i,
    {
        if left[i] != right[i] {
            return false;
        }
        i = i + 1;
    }
    proof {
        assert(left@ =~= right@);
        encode_utf8_decode_utf8(a@);
        encode_utf8_decode_utf8(b@);
    }
    true
}

/// Whether a credential has been set and fits into `limit` bytes.
pub fn is_acceptable(text: &str, limit: usize) -> (ok: bool)
    ensures
        ok == acceptable(text@, limit as nat),
{
    !same_text(text, PLACEHOLDER) && text.as_bytes().len() <= limit
}

/// Validates the network name and the passphrase against the driver's limits.
pub fn check_credentials(ssid: &str, passphrase: &str) -> (verdict: Result<(), Fault>)
    ensures
        verdict == credentials_verdict(ssid@, passphrase@),
{
    if !is_acceptable(ssid, MAX_SSID_LEN) {
        Err(Fault::InvalidSsid)
    } else if !is_acceptable(passphrase, MAX_PASSPHRASE_LEN) {
        Err(Fault::InvalidPassphrase)
    } else {
        Ok(())
    }
}

/// How an answer to the status query counts: a query that failed counts as
/// "not connected yet".
pub open spec fn spec_link_is_up<E>(status: Result<bool, E>) -> bool {
    status matches Ok(connected) && connected
}

/// Reads an answer to the status query.
pub fn link_is_up<E>(status: Result<bool, E>) -> (up: bool)
    ensures
        up == spec_link_is_up(status),
{
    match status {
        Ok(connected) => connected,
        Err(_) => false,
    }
}

/// Each of `statuses` is an answer that the status query `status` may give.
pub open spec fn statuses_of<E, S: Fn() -> Result<bool, E>>(
    status: S,
    statuses: Seq<Result<bool, E>>,
) -> bool {
    forall|i: int| 0 <= i < statuses.len() ==> call_ensures(status, (), #[trigger] statuses[i])
}

/// Waits until the status query reports the link up or `timeout_sec` seconds
/// have gone by. The outcome is that of a wait on the answers of the query, each
/// read by `link_is_up`, and every pause that the outcome counts has been taken.
pub fn await_link<E, S: Fn() -> Result<bool, E>, P: Fn(Pause)>(
    status: S,
    pause: P,
    timeout_sec: u64,
) -> (outcome: WaitOutcome)
    requires
        call_requires(status, ()),
        forall|p: Pause| is_pause_of(p, timeout_sec) ==> call_requires(pause, (p,)),
    ensures
        exists|statuses: Seq<Result<bool, E>>|
            {
                let answers = statuses.map_values(|s: Result<bool, E>| spec_link_is_up(s));
                &&& #[trigger] statuses_of(status, statuses)
                &&& statuses.len() == evaluations(answers, timeout_sec as nat)
                &&& outcome == wait_outcome(answers, timeout_sec)
            },
        outcome.sleeps <= timeout_sec,
        forall|i: u64|
            1 <= i <= outcome.sleeps ==> call_ensures(
                pause,
                (#[trigger] pause_at(i, timeout_sec),),
                (),
            ),
{
    let query = &status;
    let condition = || -> (up: bool)
        requires
            call_requires(query, ()),
        ensures
            exists|s: Result<bool, E>|
                call_ensures(query, (), s) && up == #[trigger] spec_link_is_up(s),
        { link_is_up(query()) };
    let outcome = wait_for_condition_with_timeout(condition, pause, timeout_sec);
    proof {
        let answers = choose|answers: Seq<bool>|
            {
                &&& #[trigger] answers_of(condition, answers)
                &&& answers.len() == evaluations(answers, timeout_sec as nat)
                &&& outcome == wait_outcome(answers, timeout_sec)
            };
        let statuses = Seq::new(
            answers.len(),
            |i: int|
                choose|s: Result<bool, E>|
                    call_ensures(query, (), s) && answers[i] == #[trigger] spec_link_is_up(s),
        );
        assert forall|i: int| 0 <= i < statuses.len() implies call_ensures(
            status,
            (),
            #[trigger] statuses[i],
        ) && answers[i] == spec_link_is_up(statuses[i]) by {
            assert(call_ensures(condition, (), answers[i]));
        }
        assert(statuses_of(status, statuses));
        assert(statuses.map_values(|s: Result<bool, E>| spec_link_is_up(s)) =~= answers);
    }
    outcome
}

/// What the bring-up controller asks of the Wi-Fi driver. The request that is
/// outstanding is the controller's whole state.
#[derive(Clone, Copy, Debug, PartialEq, Eq)]
pub enum BringUpRequest {
    /// Construct the driver on the modem and the event loop, without a stored profile.
    CreateDriver,
    /// Put the driver into client mode with these credentials.
    Configure { ssid: &'static str, passphrase: &'static str },
    /// Start the driver.
    Start,
    /// Ask the driver to connect.
    Connect,
    /// Poll the link status once a second until it is up or the time has run out.
    AwaitLink { timeout_sec: u64 },
    /// The link is up. The connection stays open for as long as the process lives.
    Connected,
    /// Bring-up has failed for good.
    Abort(Fault),
}

impl BringUpRequest {
    /// Bring-up has ended, one way or the other.
    pub open spec fn is_terminal(self) -> bool {
        self is Connected || self is Abort
    }

    /// The request hands credentials to the driver or puts the radio to work.
    pub open spec fn touches_network(self) -> bool {
        self is Configure || self is Start || self is Connect || self is AwaitLink
    }
}

/// The request that follows `pending` once the driver has answered it. `ok` says
/// whether the driver call succeeded or, for `AwaitLink`, whether the link came up.
pub open spec fn spec_next_request(config: Config, pending: BringUpRequest, ok: bool) -> BringUpRequest {
    match pending {
        BringUpRequest::CreateDriver => if !ok {
            BringUpRequest::Abort(Fault::DriverUnavailable)
        } else {
            match credentials_verdict(config.wifi_ssid@, config.wifi_password@) {
                Err(fault) => BringUpRequest::Abort(fault),
                Ok(_) => BringUpRequest::Configure {
                    ssid: config.wifi_ssid,
                    passphrase: config.wifi_password,
                },
            }
        },
        BringUpRequest::Configure { .. } => if ok {
            BringUpRequest::Start
        } else {
            BringUpRequest::Abort(Fault::ConfigurationRejected)
        },
        BringUpRequest::Start => if ok {
            BringUpRequest::Connect
        } else {
            BringUpRequest::Abort(Fault::StartFailed)
        },
        BringUpRequest::Connect => if ok {
            BringUpRequest::AwaitLink { timeout_sec: config.wifi_connect_timeout_sec }
        } else {
            BringUpRequest::Abort(Fault::ConnectFailed)
        },
        BringUpRequest::AwaitLink { .. } => if ok {
            BringUpRequest::Connected
        } else {
            BringUpRequest::Abort(Fault::ConnectTimeout)
        },
        BringUpRequest::Connected => BringUpRequest::Connected,
        BringUpRequest::Abort(fault) => BringUpRequest::Abort(fault),
    }
}

/// The request that is outstanding after the driver has given `replies`, in this order.
pub open spec fn request_after(config: Config, replies: Seq<bool>) -> BringUpRequest
    decreases replies.len(),
{
    if replies.len() == 0 {
        BringUpRequest::CreateDriver
    } else {
        spec_next_request(config, request_after(config, replies.drop_last()), replies.last())
    }
}

/// Bring-up opens by constructing the driver.
pub fn first_request() -> (request: BringUpRequest)
    ensures
        request == BringUpRequest::CreateDriver,
{
    BringUpRequest::CreateDriver
}

/// Decides what to do once the driver has answered `pending`.
pub fn next_request(config: &Config, pending: BringUpRequest, ok: bool) -> (next: BringUpRequest)
    ensures
        next == spec_next_request(*config, pending, ok),
{
    match pending {
        BringUpRequest::CreateDriver => {
            if !ok {
                BringUpRequest::Abort(Fault::DriverUnavailable)
            } else {
                match check_credentials(config.wifi_ssid, config.wifi_password) {
                    Err(fault) => BringUpRequest::Abort(fault),
                    Ok(_) => BringUpRequest::Configure {
                        ssid: config.wifi_ssid,
                        passphrase: config.wifi_password,
                    },
                }
            }
        },
        BringUpRequest::Configure { .. } => {
            if ok {
                BringUpRequest::Start
            } else {
                BringUpRequest::Abort(Fault::ConfigurationRejected)
            }
        },
        BringUpRequest::Start => {
            if ok {
                BringUpRequest::Connect
            } else {
                BringUpRequest::Abort(Fault::StartFailed)
            }
        },
        BringUpRequest::Connect => {
            if ok {
                BringUpRequest::AwaitLink { timeout_sec: config.wifi_connect_timeout_sec }
            } else {
                BringUpRequest::Abort(Fault::ConnectFailed)
            }
        },
        BringUpRequest::AwaitLink { .. } => {
            if ok {
                BringUpRequest::Connected
            } else {
                BringUpRequest::Abort(Fault::ConnectTimeout)
            }
        },
        BringUpRequest::Connected => BringUpRequest::Connected,
        BringUpRequest::Abort(fault) => BringUpRequest::Abort(fault),
    }
}

/// Number of driver answers still needed before bring-up has ended.
pub open spec fn steps_left(request: BringUpRequest) -> nat {
    match request {
        BringUpRequest::CreateDriver => 5,
        BringUpRequest::Configure { .. } => 4,
        BringUpRequest::Start => 3,
        BringUpRequest::Connect => 2,
        BringUpRequest::AwaitLink { .. } => 1,
        BringUpRequest::Connected => 0,
        BringUpRequest::Abort(_) => 0,
    }
}

/// Every answer brings bring-up closer to its end, and an ended bring-up stays as it is.
pub proof fn lemma_progress(config: Config, pending: BringUpRequest, ok: bool)
    ensures
        pending.is_terminal() ==> spec_next_request(config, pending, ok) == pending,
        !pending.is_terminal() ==> steps_left(spec_next_request(config, pending, ok)) < steps_left(
            pending,
        ),
        pending.is_terminal() <==> steps_left(pending) == 0,
{
}

/// Bring-up never runs on: after five answers it has ended, whatever they were.
pub proof fn lemma_bring_up_ends(config: Config, replies: Seq<bool>)
    ensures
        steps_left(request_after(config, replies)) + replies.len() <= 5 || request_after(
            config,
            replies,
        ).is_terminal(),
        replies.len() >= 5 ==> request_after(config, replies).is_terminal(),
    decreases replies.len(),
{
    if replies.len() > 0 {
        lemma_bring_up_ends(config, replies.drop_last());
        lemma_progress(config, request_after(config, replies.drop_last()), replies.last());
    }
}

/// One more answer moves the run on by one decision.
pub proof fn lemma_one_more_answer(config: Config, replies: Seq<bool>, n: int)
    requires
        0 <= n < replies.len(),
    ensures
        request_after(config, replies.take(n + 1)) == spec_next_request(
            config,
            request_after(config, replies.take(n)),
            replies[n],
        ),
        request_after(config, replies.take(0)) == BringUpRequest::CreateDriver,
{
    assert(replies.take(n + 1).drop_last() =~= replies.take(n));
}

/// Once a run has ended, further answers change nothing.
pub proof fn lemma_end_is_final(config: Config, replies: Seq<bool>, n: int)
    requires
        0 <= n <= replies.len(),
        request_after(config, replies.take(n)).is_terminal(),
    ensures
        request_after(config, replies) == request_after(config, replies.take(n)),
    decreases replies.len(),
{
    if n < replies.len() {
        let earlier = replies.drop_last();
        assert(earlier.take(n) =~= replies.take(n));
        lemma_end_is_final(config, earlier, n);
    } else {
        assert(replies.take(n) =~= replies);
    }
}

/// With a network name or a passphrase that is unset or too long, bring-up fails
/// before the driver is handed a configuration and before the radio is touched:
/// the only request ever made is the construction of the driver, and the answer to
/// it ends bring-up. Where the driver could be constructed, the fault says which
/// credential was refused.
pub proof fn lemma_bad_credentials_never_reach_network(config: Config, replies: Seq<bool>)
    requires
        credentials_verdict(config.wifi_ssid@, config.wifi_password@) is Err,
    ensures
        !request_after(config, replies).touches_network(),
        request_after(config, replies) != BringUpRequest::Connected,
        replies.len() > 0 ==> request_after(config, replies) == BringUpRequest::Abort(
            if replies[0] {
                credentials_verdict(config.wifi_ssid@, config.wifi_password@)->Err_0
            } else {
                Fault::DriverUnavailable
            },
        ),
{
    if replies.len() > 0 {
        lemma_one_more_answer(config, replies, 0);
        lemma_end_is_final(config, replies, 1);
    }
}

/// Credentials that were never set are refused, so a build that supplies no
/// settings fails closed: its bring-up never gets as far as the network.
pub proof fn lemma_unset_credentials_refused(config: Config, replies: Seq<bool>)
    requires
        config.wifi_ssid@ == PLACEHOLDER@ || config.wifi_password@ == PLACEHOLDER@,
    ensures
        credentials_verdict(config.wifi_ssid@, config.wifi_password@) is Err,
        config.wifi_ssid@ == PLACEHOLDER@ ==> credentials_verdict(
            config.wifi_ssid@,
            config.wifi_password@,
        ) == Err::<(), Fault>(Fault::InvalidSsid),
        !request_after(config, replies).touches_network(),
        request_after(config, replies) != BringUpRequest::Connected,
{
    lemma_bad_credentials_never_reach_network(config, replies);
}

/// Bring-up reports success only when the credentials were accepted, every driver
/// call succeeded and the wait found the link up.
pub proof fn lemma_connected_only_after_success(config: Config, replies: Seq<bool>)
    requires
        request_after(config, replies) == BringUpRequest::Connected,
    ensures
        replies.len() >= 5,
        forall|i: int| 0 <= i < 5 ==> replies[i],
        credentials_verdict(config.wifi_ssid@, config.wifi_password@) is Ok,
    decreases replies.len(),
{
    if replies.len() > 0 {
        lemma_one_more_answer(config, replies, 0);
    }
    if replies.len() > 1 {
        lemma_one_more_answer(config, replies, 1);
    }
    if replies.len() > 2 {
        lemma_one_more_answer(config, replies, 2);
    }
    if replies.len() > 3 {
        lemma_one_more_answer(config, replies, 3);
    }
    if replies.len() > 4 {
        lemma_one_more_answer(config, replies, 4);
        lemma_bring_up_ends(config, replies.take(5));
        lemma_end_is_final(config, replies, 5);
    } else {
        assert(replies.take(replies.len() as int) =~= replies);
    }
}

/// Every fault that ends bring-up is fatal: without a connection the node has
/// nothing to do, so the process aborts.
pub proof fn lemma_bring_up_faults_are_fatal(config: Config, replies: Seq<bool>)
    ensures
        request_after(config, replies) matches BringUpRequest::Abort(fault)
            ==> fault.spec_severity() == Severity::Fatal,
    decreases replies.len(),
{
    if replies.len() > 0 {
        lemma_bring_up_faults_are_fatal(config, replies.drop_last());
    }
}

/// A link that stays down for the whole configured time ends bring-up with a
/// fatal fault: control is never handed on as if the node were connected. Where
/// the credentials were accepted and the driver calls before the wait all
/// succeeded, the fault is the timeout.
pub proof fn lemma_link_timeout_aborts(config: Config, replies: Seq<bool>, answers: Seq<bool>)
    requires
        replies.len() >= 5,
        forall|i: int| 0 <= i <= config.wifi_connect_timeout_sec ==> !answer(answers, i),
        replies[4] == wait_outcome(answers, config.wifi_connect_timeout_sec).satisfied,
    ensures
        request_after(config, replies) matches BringUpRequest::Abort(fault)
            && fault.spec_severity() == Severity::Fatal,
        credentials_verdict(config.wifi_ssid@, config.wifi_password@) is Ok && (forall|i: int|
            0 <= i < 4 ==> replies[i]) ==> request_after(config, replies) == BringUpRequest::Abort(
            Fault::ConnectTimeout,
        ),
{
    lemma_wait_exhausted(answers, config.wifi_connect_timeout_sec);
    lemma_bring_up_ends(config, replies);
    lemma_bring_up_faults_are_fatal(config, replies);
    if request_after(config, replies) == BringUpRequest::Connected {
        lemma_connected_only_after_success(config, replies);
    }
    lemma_one_more_answer(config, replies, 0);
    lemma_one_more_answer(config, replies, 1);
    lemma_one_more_answer(config, replies, 2);
    lemma_one_more_answer(config, replies, 3);
    lemma_one_more_answer(config, replies, 4);
    lemma_bring_up_ends(config, replies.take(5));
    lemma_end_is_final(config, replies, 5);
}

} // verus!
