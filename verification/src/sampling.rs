use crate::fault::Fault;
use vstd::prelude::*;

verus! {

/// Seconds between two measurements.
pub const SAMPLE_INTERVAL_SEC: u64 = 5;

/// Clock of the sensor bus, in hertz.
pub const BUS_CLOCK_HZ: u32 = 100_000;

/// One reading in physical units. Both values are signed fixed-point numbers
/// with sixteen fractional bits: the field holds the value times 65536.
#[derive(Clone, Copy, Debug, PartialEq, Eq, Structural)]
pub struct Measurement {
    /// Temperature in degrees Celsius.
    pub temperature: i32,
    /// Relative humidity in percent.
    pub humidity: i32,
}

/// What came of a request.
#[derive(Clone, Copy, Debug, PartialEq, Eq, Structural)]
pub enum Reply {
    /// The request was carried out.
    Done,
    /// The request failed.
    Failed,
    /// The sensor delivered its serial number.
    Serial(u32),
    /// The sensor delivered a reading.
    Measured(Measurement),
}

impl Reply {
    /// The reply to a request that either succeeds or fails.
    pub fn completed(ok: bool) -> (reply: Reply)
        ensures
            reply == (if ok {
                Reply::Done
            } else {
                Reply::Failed
            }),
    {
        if ok {
            Reply::Done
        } else {
            Reply::Failed
        }
    }
}

/// What the sampling loop asks of the sensor and of the clock. The request that
/// is outstanding is the loop's whole state: nothing is kept from one cycle to
/// the next.
#[derive(Clone, Copy, Debug, PartialEq, Eq, Structural)]
pub enum SamplingRequest {
    /// Initialise the bus on its two pins and open a session with the sensor.
    OpenBus { clock_hz: u32 },
    /// Read the factory serial number.
    ReadSerial,
    /// Log the serial number.
    AnnounceSerial { serial: u32 },
    /// Take one measurement at high precision.
    Measure,
    /// Emit the line for this reading.
    Report { reading: Measurement },
    /// Sleep before the next measurement.
    Sleep { seconds: u64 },
    /// The sensor cannot be used.
    Abort(Fault),
}

impl SamplingRequest {
    /// The request belongs to the endless part of the loop.
    pub open spec fn is_steady(self) -> bool {
        self is Measure || self is Report || self is Sleep
    }
}

/// The request that follows `pending` once it has been answered with `reply`.
///
/// During setup anything but the expected answer is a failure, and a failure is
/// a fault. A measurement that fails is passed over in silence: the loop goes
/// straight to its sleep.
pub open spec fn spec_next_request(pending: SamplingRequest, reply: Reply) -> SamplingRequest {
    match pending {
        SamplingRequest::OpenBus { .. } => match reply {
            Reply::Done => SamplingRequest::ReadSerial,
            _ => SamplingRequest::Abort(Fault::BusUnavailable),
        },
        SamplingRequest::ReadSerial => match reply {
            Reply::Serial(serial) => SamplingRequest::AnnounceSerial { serial },
            _ => SamplingRequest::Abort(Fault::SerialNumberUnreadable),
        },
        SamplingRequest::AnnounceSerial { .. } => SamplingRequest::Measure,
        SamplingRequest::Measure => match reply {
            Reply::Measured(reading) => SamplingRequest::Report { reading },
            _ => SamplingRequest::Sleep { seconds: SAMPLE_INTERVAL_SEC },
        },
        SamplingRequest::Report { .. } => SamplingRequest::Sleep { seconds: SAMPLE_INTERVAL_SEC },
        SamplingRequest::Sleep { .. } => SamplingRequest::Measure,
        SamplingRequest::Abort(fault) => SamplingRequest::Abort(fault),
    }
}

/// Sampling opens by initialising the bus.
pub fn first_request() -> (request: SamplingRequest)
    ensures
        request == (SamplingRequest::OpenBus { clock_hz: BUS_CLOCK_HZ }),
{
    SamplingRequest::OpenBus { clock_hz: BUS_CLOCK_HZ }
}

/// Decides what to do once `pending` has been answered with `reply`.
pub fn next_request(pending: SamplingRequest, reply: Reply) -> (next: SamplingRequest)
    ensures
        next == spec_next_request(pending, reply),
{
    match pending {
        SamplingRequest::OpenBus { .. } => match reply {
            Reply::Done => SamplingRequest::ReadSerial,
            _ => SamplingRequest::Abort(Fault::BusUnavailable),
        },
        SamplingRequest::ReadSerial => match reply {
            Reply::Serial(serial) => SamplingRequest::AnnounceSerial { serial },
            _ => SamplingRequest::Abort(Fault::SerialNumberUnreadable),
        },
        SamplingRequest::AnnounceSerial { .. } => SamplingRequest::Measure,
        SamplingRequest::Measure => match reply {
            Reply::Measured(reading) => SamplingRequest::Report { reading },
            _ => SamplingRequest::Sleep { seconds: SAMPLE_INTERVAL_SEC },
        },
        SamplingRequest::Report { .. } => SamplingRequest::Sleep { seconds: SAMPLE_INTERVAL_SEC },
        SamplingRequest::Sleep { .. } => SamplingRequest::Measure,
        SamplingRequest::Abort(fault) => SamplingRequest::Abort(fault),
    }
}

/// The line for one reading, given its two values as decimal text.
pub open spec fn spec_report_line(temperature: Seq<char>, humidity: Seq<char>) -> Seq<char> {
    "{ temperature: "@ + temperature + ", humidity: "@ + humidity + " }"@
}

/// Builds the line for one reading from its two values, already written out
/// as decimal numbers.
pub fn report_line(temperature: &str, humidity: &str) -> (line: String)
    ensures
        line@ == spec_report_line(temperature@, humidity@),
{
    let mut line = String::from_str("{ temperature: ");
    line.append(temperature);
    line.append(", humidity: ");
    line.append(humidity);
    line.append(" }");
    line
}

/// The requests that follow the answer to a measurement request, up to the next
/// measurement request.
pub open spec fn cycle(response: Reply) -> Seq<SamplingRequest> {
    match response {
        Reply::Measured(reading) => seq![
            SamplingRequest::Report { reading },
            SamplingRequest::Sleep { seconds: SAMPLE_INTERVAL_SEC },
            SamplingRequest::Measure,
        ],
        _ => seq![SamplingRequest::Sleep { seconds: SAMPLE_INTERVAL_SEC }, SamplingRequest::Measure],
    }
}

/// The requests made over the cycles in which the sensor answers `responses`.
pub open spec fn cycles(responses: Seq<Reply>) -> Seq<SamplingRequest>
    decreases responses.len(),
{
    if responses.len() == 0 {
        Seq::empty()
    } else {
        cycles(responses.drop_last()) + cycle(responses.last())
    }
}

/// The reading that a request reports, if it reports one.
pub open spec fn reading_of(request: SamplingRequest) -> Option<Measurement> {
    match request {
        SamplingRequest::Report { reading } => Some(reading),
        _ => None,
    }
}

/// The reading that a reply delivers, if it delivers one.
pub open spec fn measurement_of(reply: Reply) -> Option<Measurement> {
    match reply {
        Reply::Measured(reading) => Some(reading),
        _ => None,
    }
}

/// The readings reported by `requests`, in order.
pub open spec fn reported(requests: Seq<SamplingRequest>) -> Seq<Measurement> {
    requests.filter_map(|request: SamplingRequest| reading_of(request))
}

/// The readings delivered by `responses`, in order.
pub open spec fn measured(responses: Seq<Reply>) -> Seq<Measurement> {
    responses.filter_map(|reply: Reply| measurement_of(reply))
}

/// The sleeps among `requests`.
pub open spec fn sleeps(requests: Seq<SamplingRequest>) -> Seq<SamplingRequest> {
    requests.filter(|request: SamplingRequest| request is Sleep)
}

/// The steady state has no way out: whatever the answers, the loop goes on
/// measuring, reporting and sleeping.
pub proof fn lemma_steady_state_is_closed(pending: SamplingRequest, reply: Reply)
    requires
        pending.is_steady(),
    ensures
        spec_next_request(pending, reply).is_steady(),
{
}

/// A cycle is what the loop does between two measurements: answered `response`
/// at the measurement and anything at all afterwards, it makes the requests of
/// `cycle(response)` one after the other, and the last of them is the next
/// measurement.
pub proof fn lemma_cycle_is_run(response: Reply, later: Reply, i: int)
    requires
        0 <= i < cycle(response).len() - 1,
    ensures
        cycle(response)[0] == spec_next_request(SamplingRequest::Measure, response),
        cycle(response)[i + 1] == spec_next_request(cycle(response)[i], later),
        cycle(response).last() == SamplingRequest::Measure,
{
}

/// What a cycle adds to the requests made so far is fixed by the sensor's
/// answer in that cycle: nothing is carried over from the cycles before it.
pub proof fn lemma_cycles_are_independent(before: Seq<Reply>, response: Reply)
    ensures
        cycles(before.push(response)) == cycles(before) + cycle(response),
{
    assert(before.push(response).drop_last() =~= before);
}

/// Over any number of cycles the loop reports exactly the readings that the
/// sensor delivered, in the order in which it delivered them, sleeps once per
/// cycle for the fixed interval, and never gives up.
pub proof fn lemma_cycles_report_what_was_measured(responses: Seq<Reply>)
    ensures
        reported(cycles(responses)) == measured(responses),
        sleeps(cycles(responses)).len() == responses.len(),
        forall|i: int|
            0 <= i < cycles(responses).len() ==> (#[trigger] cycles(responses)[i]).is_steady(),
        forall|i: int|
            0 <= i < cycles(responses).len() && cycles(responses)[i] is Sleep ==> cycles(
                responses,
            )[i] == (SamplingRequest::Sleep { seconds: SAMPLE_INTERVAL_SEC }),
    decreases responses.len(),
{
    reveal(Seq::filter);
    let by_reading = |request: SamplingRequest| reading_of(request);
    let by_measurement = |reply: Reply| measurement_of(reply);
    let is_sleep = |request: SamplingRequest| request is Sleep;
    if responses.len() > 0 {
        let earlier = responses.drop_last();
        let response = responses.last();
        lemma_cycles_report_what_was_measured(earlier);
        let head = cycles(earlier);
        let sleep = SamplingRequest::Sleep { seconds: SAMPLE_INTERVAL_SEC };
        let all = cycles(responses);
        match response {
            Reply::Measured(reading) => {
                let report = SamplingRequest::Report { reading };
                assert(all.drop_last() =~= head + seq![report, sleep]);
                assert(all.drop_last().drop_last() =~= head + seq![report]);
                assert(all.drop_last().drop_last().drop_last() =~= head);
                assert(all.last() == SamplingRequest::Measure);
                assert(all.drop_last().last() == sleep);
                assert(all.drop_last().drop_last().last() == report);
                assert(all.filter_map(by_reading) == all.drop_last().filter_map(by_reading));
                assert(all.drop_last().filter_map(by_reading) == all.drop_last().drop_last().filter_map(
                    by_reading,
                ));
                assert(all.filter(is_sleep) == all.drop_last().filter(is_sleep));
                assert(all.drop_last().filter(is_sleep) == all.drop_last().drop_last().filter(
                    is_sleep,
                ).push(sleep));
            },
            _ => {
                assert(all.drop_last() =~= head + seq![sleep]);
                assert(all.drop_last().drop_last() =~= head);
                assert(all.last() == SamplingRequest::Measure);
                assert(all.drop_last().last() == sleep);
                assert(all.filter_map(by_reading) == all.drop_last().filter_map(by_reading));
                assert(all.filter(is_sleep) == all.drop_last().filter(is_sleep));
                assert(all.drop_last().filter(is_sleep) == head.filter(is_sleep).push(sleep));
            },
        }
    }
}

} // verus!
