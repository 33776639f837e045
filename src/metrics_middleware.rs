use vstd::prelude::*;

verus! {

/// Name of the counter that counts completed requests.
pub const REQUEST_COUNT_METRIC: &'static str = "http-request-count";

/// Name of the histogram that holds request latencies, in seconds.
pub const REQUEST_DURATION_METRIC: &'static str = "http-request-duration";

/// Label that holds the request method.
pub const METHOD_LABEL: &'static str = "method";

/// Label that holds the matched route template.
pub const ROUTE_LABEL: &'static str = "path";

/// Label that holds the response status code.
pub const STATUS_LABEL: &'static str = "status";

/// The status recorded for a request whose inner handler failed.
pub const FAILURE_STATUS: u16 = 500;

/// The character of the decimal digit `d`.
pub open spec fn digit_char(d: int) -> char {
    seq!['0', '1', '2', '3', '4', '5', '6', '7', '8', '9'][d]
}

/// The decimal digits of `n`, most significant first, without leading zeros.
pub open spec fn decimal(n: nat) -> Seq<char>
    decreases n,
{
    if n < 10 {
        seq![digit_char(n as int)]
    } else {
        decimal(n / 10).push(digit_char((n % 10) as int))
    }
}

fn digit_str(d: u16) -> (r: &'static str)
    requires
        d < 10,
    ensures
        r@ == seq![digit_char(d as int)],
{
    if d == 0 {
        proof { reveal_strlit("0"); }
        "0"
    } else if d == 1 {
        proof { reveal_strlit("1"); }
        "1"
    } else if d == 2 {
        proof { reveal_strlit("2"); }
        "2"
    } else if d == 3 {
        proof { reveal_strlit("3"); }
        "3"
    } else if d == 4 {
        proof { reveal_strlit("4"); }
        "4"
    } else if d == 5 {
        proof { reveal_strlit("5"); }
        "5"
    } else if d == 6 {
        proof { reveal_strlit("6"); }
        "6"
    } else if d == 7 {
        proof { reveal_strlit("7"); }
        "7"
    } else if d == 8 {
        proof { reveal_strlit("8"); }
        "8"
    } else {
        proof { reveal_strlit("9"); }
        "9"
    }
}

fn push_decimal(out: &mut String, n: u16)
    ensures
        final(out)@ == old(out)@ + decimal(n as nat),
    decreases n,
{
    if n >= 10 {
        push_decimal(out, n / 10);
    }
    out.append(digit_str(n % 10));
    assert(final(out)@ =~= old(out)@ + decimal(n as nat));
}

/// The decimal text of a status code, as it stands in the status label.
pub fn status_text(status: u16) -> (r: String)
    ensures
        r@ == decimal(status as nat),
{
    let mut out = String::new();
    push_decimal(&mut out, status);
    proof {
        assert(out@ =~= decimal(status as nat));
    }
    out
}

/// Every number has at least one decimal digit.
pub proof fn lemma_decimal_nonempty(n: nat)
    ensures
        decimal(n).len() >= 1,
    decreases n,
{
    if n >= 10 {
        lemma_decimal_nonempty(n / 10);
    }
}

/// Two numbers with the same decimal text are equal.
pub proof fn lemma_decimal_injective(a: nat, b: nat)
    ensures
        decimal(a) == decimal(b) <==> a == b,
    decreases a,
{
    if decimal(a) == decimal(b) {
        let digits = seq!['0', '1', '2', '3', '4', '5', '6', '7', '8', '9'];
        if a < 10 && b < 10 {
            assert(decimal(a)[0] == digits[a as int]);
            assert(decimal(b)[0] == digits[b as int]);
        } else if a >= 10 && b >= 10 {
            lemma_decimal_nonempty(a / 10);
            lemma_decimal_nonempty(b / 10);
            let da = decimal(a / 10);
            let db = decimal(b / 10);
            assert(decimal(a).last() == digits[(a % 10) as int]);
            assert(decimal(b).last() == digits[(b % 10) as int]);
            assert(da =~= decimal(a).drop_last());
            assert(db =~= decimal(b).drop_last());
            lemma_decimal_injective(a / 10, b / 10);
        } else if a < 10 {
            lemma_decimal_nonempty(b / 10);
            assert(decimal(b).len() >= 2);
        } else {
            lemma_decimal_nonempty(a / 10);
            assert(decimal(a).len() >= 2);
        }
    }
}

/// What one instrumented request leaves in the registry: one increment of the
/// request counter and one latency observation, both under the labels
/// (method, route, status).
#[derive(Clone, Debug)]
pub struct MetricEvent {
    pub method: String,
    pub route: String,
    pub status: u16,
    pub latency_nanos: u64,
}

/// The status that labels a request: the response's own status, or
/// `FAILURE_STATUS` where the inner handler failed.
pub open spec fn status_of(response_status: Option<u16>) -> u16 {
    match response_status {
        Some(s) => s,
        None => FAILURE_STATUS,
    }
}

/// The event recorded for a request; none for a request that matched no route.
pub open spec fn event_of(
    method: Seq<char>,
    matched_route: Option<Seq<char>>,
    response_status: Option<u16>,
    latency_nanos: u64,
) -> Option<(Seq<char>, Seq<char>, u16, u64)> {
    match matched_route {
        Some(route) => Some((method, route, status_of(response_status), latency_nanos)),
        None => None,
    }
}

impl View for MetricEvent {
    type V = (Seq<char>, Seq<char>, u16, u64);

    open spec fn view(&self) -> Self::V {
        (self.method@, self.route@, self.status, self.latency_nanos)
    }
}

impl MetricEvent {
    /// The label pairs of this event, in the order method, route, status.
    pub open spec fn spec_labels(&self) -> Seq<(Seq<char>, Seq<char>)> {
        seq![
            (METHOD_LABEL@, self.method@),
            (ROUTE_LABEL@, self.route@),
            (STATUS_LABEL@, decimal(self.status as nat)),
        ]
    }

    /// The labels under which this event is recorded.
    pub fn labels(&self) -> (r: Vec<(String, String)>)
        ensures
            r@.len() == 3,
            forall|i: int|
                0 <= i < 3 ==> (#[trigger] r@[i]).0@ == self.spec_labels()[i].0 && r@[i].1@
                    == self.spec_labels()[i].1,
    {
        let mut r: Vec<(String, String)> = Vec::new();
        r.push((String::from_str(METHOD_LABEL), self.method.clone()));
        r.push((String::from_str(ROUTE_LABEL), self.route.clone()));
        r.push((String::from_str(STATUS_LABEL), status_text(self.status)));
        r
    }
}

/// Two events share their labels, and so the series they aggregate into, if
/// and only if they have the same method, route and status.
pub proof fn lemma_labels_identify_series(e1: MetricEvent, e2: MetricEvent)
    ensures
        e1.spec_labels() == e2.spec_labels() <==> (e1.method@ == e2.method@ && e1.route@
            == e2.route@ && e1.status == e2.status),
{
    lemma_decimal_injective(e1.status as nat, e2.status as nat);
    if e1.spec_labels() == e2.spec_labels() {
        assert(e1.spec_labels()[0] == e2.spec_labels()[0]);
        assert(e1.spec_labels()[1] == e2.spec_labels()[1]);
        assert(e1.spec_labels()[2] == e2.spec_labels()[2]);
    }
    if e1.method@ == e2.method@ && e1.route@ == e2.route@ && e1.status == e2.status {
        assert(e1.spec_labels() =~= e2.spec_labels());
    }
}

/// The status under which a completed request is labelled.
pub fn status_label(response_status: Option<u16>) -> (r: u16)
    ensures
        r == status_of(response_status),
{
    match response_status {
        Some(s) => s,
        None => FAILURE_STATUS,
    }
}

/// Decides what a completed request records. A request that matched no route
/// template records nothing, so that client-chosen paths never become labels.
/// `response_status` is `None` where the inner handler failed.
pub fn metric_event(
    method: String,
    matched_route: Option<String>,
    response_status: Option<u16>,
    latency_nanos: u64,
) -> (r: Option<MetricEvent>)
    ensures
        match r {
            Some(e) => event_of(method@, matched_route.deep_view(), response_status, latency_nanos)
                == Some(e@),
            None => matched_route is None,
        },
        r is None <==> matched_route is None,
{
    match matched_route {
        Some(route) => Some(
            MetricEvent { method, route, status: status_label(response_status), latency_nanos },
        ),
        None => None,
    }
}

/// The decorator's factory: wraps a request handler in a `MetricsService`.
#[derive(Clone, Copy, Debug)]
pub struct MetricsLayer;

impl MetricsLayer {
    /// Wraps `inner`; the wrapped handler is kept as it is.
    pub fn layer<S>(&self, inner: S) -> (r: MetricsService<S>)
        ensures
            r.spec_inner() == inner,
    {
        MetricsService { inner }
    }
}

/// A request handler wrapped so that each request it completes is measured.
#[derive(Clone, Debug)]
pub struct MetricsService<S> {
    inner: S,
}

impl<S> MetricsService<S> {
    pub closed spec fn spec_inner(&self) -> S {
        self.inner
    }

    /// The wrapped handler.
    pub fn inner(&self) -> (r: &S)
        ensures
            *r == self.spec_inner(),
    {
        &self.inner
    }

    /// Gives the wrapped handler back.
    pub fn into_inner(self) -> (r: S)
        ensures
            r == self.spec_inner(),
    {
        self.inner
    }
}

} // verus!
