use crate::bring_up::BringUpRequest;
use crate::config::Config;
use crate::fault::Fault;
use crate::sampling::{Reply, SamplingRequest, BUS_CLOCK_HZ};
use vstd::prelude::*;

verus! {

/// What the node asks of the platform, from power-up on. The request that is
/// outstanding is the node's whole state.
#[derive(Clone, Copy, Debug, PartialEq, Eq)]
pub enum Request {
    /// Apply the platform's runtime patches and set up logging.
    InitLogging,
    /// Let this many seconds go by before anything else is touched.
    Countdown { seconds: u64 },
    /// Take ownership of the modem, the pins and the bus controller.
    TakePeripherals,
    /// Take the system event loop.
    TakeEventLoop,
    /// A step of network bring-up.
    BringUp(BringUpRequest),
    /// A step of sensor setup or of the sampling loop.
    Sample(SamplingRequest),
    /// The node cannot go on.
    Abort(Fault),
}

/// The node-level request for the bring-up request `request`: the end of
/// bring-up is the start of sampling, and a fault of bring-up is a fault of the
/// node.
pub open spec fn after_bring_up(request: BringUpRequest) -> Request {
    match request {
        BringUpRequest::Connected => Request::Sample(
            SamplingRequest::OpenBus { clock_hz: BUS_CLOCK_HZ },
        ),
        BringUpRequest::Abort(fault) => Request::Abort(fault),
        _ => Request::BringUp(request),
    }
}

/// The node-level request for the sampling request `request`.
pub open spec fn after_sampling(request: SamplingRequest) -> Request {
    match request {
        SamplingRequest::Abort(fault) => Request::Abort(fault),
        _ => Request::Sample(request),
    }
}

/// The request that follows `pending` once it has been answered with `reply`.
///
/// Logging cannot fail and the outcome of the countdown is of no interest, so
/// their answers are not looked at. For the two acquisitions and for every step
/// of bring-up only `Reply::Done` is a success.
pub open spec fn spec_next_request(config: Config, pending: Request, reply: Reply) -> Request {
    match pending {
        Request::InitLogging => Request::Countdown { seconds: config.start_delay_sec },
        Request::Countdown { .. } => Request::TakePeripherals,
        Request::TakePeripherals => if reply is Done {
            Request::TakeEventLoop
        } else {
            Request::Abort(Fault::PeripheralsUnavailable)
        },
        Request::TakeEventLoop => if reply is Done {
            Request::BringUp(BringUpRequest::CreateDriver)
        } else {
            Request::Abort(Fault::EventLoopUnavailable)
        },
        Request::BringUp(request) => after_bring_up(
            crate::bring_up::spec_next_request(config, request, reply is Done),
        ),
        Request::Sample(request) => after_sampling(
            crate::sampling::spec_next_request(request, reply),
        ),
        Request::Abort(fault) => Request::Abort(fault),
    }
}

/// The request that is outstanding after the platform has given `replies`, in this order.
pub open spec fn request_after(config: Config, replies: Seq<Reply>) -> Request
    decreases replies.len(),
{
    if replies.len() == 0 {
        Request::InitLogging
    } else {
        spec_next_request(config, request_after(config, replies.drop_last()), replies.last())
    }
}

/// How far the node has come. The stages are passed in this order, and none is
/// entered twice.
pub open spec fn stage(request: Request) -> nat {
    match request {
        Request::InitLogging => 0,
        Request::Countdown { .. } => 1,
        Request::TakePeripherals => 2,
        Request::TakeEventLoop => 3,
        Request::BringUp(_) => 4,
        Request::Sample(request) => if request.is_steady() {
            6
        } else {
            5
        },
        Request::Abort(_) => 7,
    }
}

/// The node starts by setting up logging.
pub fn first_request() -> (request: Request)
    ensures
        request == Request::InitLogging,
{
    Request::InitLogging
}

/// Decides what to do once `pending` has been answered with `reply`.
pub fn next_request(config: &Config, pending: Request, reply: Reply) -> (next: Request)
    ensures
        next == spec_next_request(*config, pending, reply),
{
    let done = match reply {
        Reply::Done => true,
        _ => false,
    };
    match pending {
        Request::InitLogging => Request::Countdown { seconds: config.start_delay_sec },
        Request::Countdown { .. } => Request::TakePeripherals,
        Request::TakePeripherals => {
            if done {
                Request::TakeEventLoop
            } else {
                Request::Abort(Fault::PeripheralsUnavailable)
            }
        },
        Request::TakeEventLoop => {
            if done {
                Request::BringUp(crate::bring_up::first_request())
            } else {
                Request::Abort(Fault::EventLoopUnavailable)
            }
        },
        Request::BringUp(request) => {
            match crate::bring_up::next_request(config, request, done) {
                BringUpRequest::Connected => Request::Sample(crate::sampling::first_request()),
                BringUpRequest::Abort(fault) => Request::Abort(fault),
                next => Request::BringUp(next),
            }
        },
        Request::Sample(request) => {
            match crate::sampling::next_request(request, reply) {
                SamplingRequest::Abort(fault) => Request::Abort(fault),
                next => Request::Sample(next),
            }
        },
        Request::Abort(fault) => Request::Abort(fault),
    }
}

/// No answer takes the node back to an earlier stage: logging comes before the
/// countdown, the countdown before the acquisitions, these before bring-up,
/// bring-up before the sensor is set up, and that before the first measurement.
pub proof fn lemma_stages_in_order(config: Config, pending: Request, reply: Reply)
    ensures
        stage(pending) <= stage(spec_next_request(config, pending, reply)),
        stage(pending) < 4 ==> stage(spec_next_request(config, pending, reply)) == stage(pending) + 1
            || spec_next_request(config, pending, reply) is Abort,
{
}

/// Along a run the stages only ever go up.
pub proof fn lemma_runs_in_order(config: Config, replies: Seq<Reply>, n: int)
    requires
        0 <= n <= replies.len(),
    ensures
        stage(request_after(config, replies.take(n))) <= stage(request_after(config, replies)),
    decreases replies.len(),
{
    if n < replies.len() {
        let earlier = replies.drop_last();
        assert(earlier.take(n) =~= replies.take(n));
        lemma_runs_in_order(config, earlier, n);
        lemma_stages_in_order(config, request_after(config, earlier), replies.last());
    } else {
        assert(replies.take(n) =~= replies);
    }
}

/// The countdown always lasts the configured number of seconds and its
/// outcome is set aside: the peripherals are taken next, whatever it was.
pub proof fn lemma_countdown_is_discarded(config: Config, first: Reply, second: Reply)
    ensures
        request_after(config, seq![first]) == (Request::Countdown {
            seconds: config.start_delay_sec,
        }),
        request_after(config, seq![first, second]) == Request::TakePeripherals,
{
    assert(seq![first].drop_last() =~= Seq::<Reply>::empty());
    assert(seq![first, second].drop_last() =~= seq![first]);
    assert(request_after(config, Seq::<Reply>::empty()) == Request::InitLogging);
}

/// A node that has reached its steady state stays there: no answer makes it
/// abort or start over.
pub proof fn lemma_steady_state_is_forever(config: Config, pending: Request, reply: Reply)
    requires
        stage(pending) == 6,
    ensures
        stage(spec_next_request(config, pending, reply)) == 6,
{
}

} // verus!
