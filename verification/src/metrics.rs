//! Request counters of the local gateway and their Prometheus text form.

use vstd::prelude::*;

use crate::text::{decimal, push_decimal};

verus! {

/// Counters of the requests the gateway has handled.
pub struct GatewayMetrics {
    requests_total: u64,
    requests_failed_total: u64,
    request_latency_ms_sum: u64,
    request_latency_ms_max: u64,
}

/// The counters as numbers.
pub struct MetricsView {
    pub requests_total: u64,
    pub requests_failed_total: u64,
    pub request_latency_ms_sum: u64,
    pub request_latency_ms_max: u64,
}

/// Sum of two counters, wrapping at 2^64 as an atomic add does.
pub open spec fn wrapped(a: u64, b: u64) -> u64 {
    ((a as int + b as int) % 0x1_0000_0000_0000_0000) as u64
}

/// The counters after one request of `ms` milliseconds that succeeded when `ok`.
pub open spec fn observed(m: MetricsView, ms: u64, ok: bool) -> MetricsView {
    MetricsView {
        requests_total: wrapped(m.requests_total, 1),
        requests_failed_total: if ok {
            m.requests_failed_total
        } else {
            wrapped(m.requests_failed_total, 1)
        },
        request_latency_ms_sum: wrapped(m.request_latency_ms_sum, ms),
        request_latency_ms_max: if ms > m.request_latency_ms_max {
            ms
        } else {
            m.request_latency_ms_max
        },
    }
}

/// Counters with nothing observed.
pub open spec fn zero_metrics() -> MetricsView {
    MetricsView {
        requests_total: 0,
        requests_failed_total: 0,
        request_latency_ms_sum: 0,
        request_latency_ms_max: 0,
    }
}

/// Whole milliseconds of a duration, as `Duration::as_millis` gives them.
pub uninterp spec fn duration_as_millis(d: std::time::Duration) -> u128;

/// Whole milliseconds of a duration. Calls `Duration::as_millis`, a function of the
/// duration alone; its value is named, not spelled out.
#[verifier::external_body]
fn duration_millis(d: &std::time::Duration) -> (res: u128)
    ensures
        res == duration_as_millis(*d),
{
    d.as_millis()
}

/// Milliseconds capped at the largest `u64`.
pub open spec fn capped_millis(ms: u128) -> u64 {
    if ms > u64::MAX {
        u64::MAX
    } else {
        ms as u64
    }
}

impl GatewayMetrics {
    /// The counters as numbers.
    pub closed spec fn view(&self) -> MetricsView {
        MetricsView {
            requests_total: self.requests_total,
            requests_failed_total: self.requests_failed_total,
            request_latency_ms_sum: self.request_latency_ms_sum,
            request_latency_ms_max: self.request_latency_ms_max,
        }
    }

    /// Counters with nothing observed.
    pub fn new() -> (m: Self)
        ensures
            m@ == zero_metrics(),
    {
        GatewayMetrics {
            requests_total: 0,
            requests_failed_total: 0,
            request_latency_ms_sum: 0,
            request_latency_ms_max: 0,
        }
    }

    /// Records one request that took `duration_ms` milliseconds.
    pub fn observe_request_millis(&mut self, duration_ms: u64, ok: bool)
        ensures
            final(self)@ == observed(old(self)@, duration_ms, ok),
    {
        self.requests_total = self.requests_total.wrapping_add(1);
        if !ok {
            self.requests_failed_total = self.requests_failed_total.wrapping_add(1);
        }
        self.request_latency_ms_sum = self.request_latency_ms_sum.wrapping_add(duration_ms);
        if duration_ms > self.request_latency_ms_max {
            self.request_latency_ms_max = duration_ms;
        }
    }

    /// Records one request that took `duration`, in whole milliseconds capped at the
    /// largest `u64`.
    pub fn observe_request(&mut self, duration: std::time::Duration, ok: bool)
        ensures
            final(self)@ == observed(old(self)@, capped_millis(duration_as_millis(duration)), ok),
    {
        let ms = duration_millis(&duration);
        let capped: u64 = if ms > u64::MAX as u128 {
            u64::MAX
        } else {
            ms as u64
        };
        self.observe_request_millis(capped, ok);
    }

    /// The counters in the Prometheus text format.
    pub fn render_prometheus(&self) -> (res: String)
        ensures
            res@ == prometheus_text(self@),
    {
        let mut s = "# HELP hellox_gateway_up Whether the gateway is running (1) or not (0).\n".to_owned();
        s.append("# TYPE hellox_gateway_up gauge\n");
        s.append("hellox_gateway_up 1\n");
        s.append(
            "# HELP hellox_gateway_requests_total Total number of /v1/messages requests processed by the gateway.\n",
        );
        s.append("# TYPE hellox_gateway_requests_total counter\n");
        s.append("hellox_gateway_requests_total ");
        push_decimal(&mut s, self.requests_total);
        s.append(
            "\n# HELP hellox_gateway_requests_failed_total Total number of /v1/messages requests that returned an error status.\n",
        );
        s.append("# TYPE hellox_gateway_requests_failed_total counter\n");
        s.append("hellox_gateway_requests_failed_total ");
        push_decimal(&mut s, self.requests_failed_total);
        s.append(
            "\n# HELP hellox_gateway_request_latency_ms_sum Sum of request latencies (ms) for /v1/messages.\n",
        );
        s.append("# TYPE hellox_gateway_request_latency_ms_sum counter\n");
        s.append("hellox_gateway_request_latency_ms_sum ");
        push_decimal(&mut s, self.request_latency_ms_sum);
        s.append(
            "\n# HELP hellox_gateway_request_latency_ms_max Max request latency (ms) observed for /v1/messages.\n",
        );
        s.append("# TYPE hellox_gateway_request_latency_ms_max gauge\n");
        s.append("hellox_gateway_request_latency_ms_max ");
        push_decimal(&mut s, self.request_latency_ms_max);
        s.append("\n");
        s
    }
}

impl Default for GatewayMetrics {
    fn default() -> (m: Self)
        ensures
            m@ == zero_metrics(),
    {
        GatewayMetrics::new()
    }
}

/// The Prometheus text of the counters: the up gauge, then each counter with its
/// help and type lines, every line ending in a newline.
pub open spec fn prometheus_text(m: MetricsView) -> Seq<char> {
    "# HELP hellox_gateway_up Whether the gateway is running (1) or not (0).\n"@
        + "# TYPE hellox_gateway_up gauge\n"@ + "hellox_gateway_up 1\n"@
        + "# HELP hellox_gateway_requests_total Total number of /v1/messages requests processed by the gateway.\n"@
        + "# TYPE hellox_gateway_requests_total counter\n"@ + "hellox_gateway_requests_total "@
        + decimal(m.requests_total as nat)
        + "\n# HELP hellox_gateway_requests_failed_total Total number of /v1/messages requests that returned an error status.\n"@
        + "# TYPE hellox_gateway_requests_failed_total counter\n"@
        + "hellox_gateway_requests_failed_total "@ + decimal(m.requests_failed_total as nat)
        + "\n# HELP hellox_gateway_request_latency_ms_sum Sum of request latencies (ms) for /v1/messages.\n"@
        + "# TYPE hellox_gateway_request_latency_ms_sum counter\n"@
        + "hellox_gateway_request_latency_ms_sum "@ + decimal(m.request_latency_ms_sum as nat)
        + "\n# HELP hellox_gateway_request_latency_ms_max Max request latency (ms) observed for /v1/messages.\n"@
        + "# TYPE hellox_gateway_request_latency_ms_max gauge\n"@
        + "hellox_gateway_request_latency_ms_max "@ + decimal(m.request_latency_ms_max as nat)
        + "\n"@
}

/// The counters after the requests of `obs` (duration in ms, success), in order,
/// starting from nothing.
pub open spec fn replay(obs: Seq<(u64, bool)>) -> MetricsView
    decreases obs.len(),
{
    if obs.len() == 0 {
        zero_metrics()
    } else {
        observed(replay(obs.drop_last()), obs.last().0, obs.last().1)
    }
}

/// How many requests of `obs` failed.
pub open spec fn failures(obs: Seq<(u64, bool)>) -> nat
    decreases obs.len(),
{
    if obs.len() == 0 {
        0
    } else {
        failures(obs.drop_last()) + if obs.last().1 {
            0nat
        } else {
            1nat
        }
    }
}

/// The longest duration in `obs`, or 0.
pub open spec fn longest(obs: Seq<(u64, bool)>) -> u64
    decreases obs.len(),
{
    if obs.len() == 0 {
        0
    } else if obs.last().0 > longest(obs.drop_last()) {
        obs.last().0
    } else {
        longest(obs.drop_last())
    }
}

/// Starting from nothing, fewer than 2^64 requests leave the total equal to their
/// number, the failed count equal to the number that failed (never above the
/// total), and the maximum equal to the longest duration, at least as long as each.
pub proof fn lemma_replay_counts(obs: Seq<(u64, bool)>)
    requires
        obs.len() < 0x1_0000_0000_0000_0000,
    ensures
        replay(obs).requests_total == obs.len(),
        replay(obs).requests_failed_total == failures(obs),
        failures(obs) <= obs.len(),
        replay(obs).request_latency_ms_max == longest(obs),
        forall|i: int| 0 <= i < obs.len() ==> (#[trigger] obs[i]).0 <= longest(obs),
    decreases obs.len(),
{
    if obs.len() > 0 {
        let rest = obs.drop_last();
        lemma_replay_counts(rest);
        assert forall|i: int| 0 <= i < obs.len() implies (#[trigger] obs[i]).0 <= longest(obs) by {
            if i < rest.len() {
                assert(obs[i] == rest[i]);
            }
        }
    }
}

/// The summed duration of the requests of `obs`.
pub open spec fn total_ms(obs: Seq<(u64, bool)>) -> nat
    decreases obs.len(),
{
    if obs.len() == 0 {
        0
    } else {
        total_ms(obs.drop_last()) + obs.last().0 as nat
    }
}

/// Law: starting from nothing, while the summed duration stays below 2^64 the
/// latency sum is that sum, and the longest latency never exceeds it.
pub proof fn lemma_replay_latency(obs: Seq<(u64, bool)>)
    requires
        total_ms(obs) < 0x1_0000_0000_0000_0000,
    ensures
        replay(obs).request_latency_ms_sum == total_ms(obs),
        replay(obs).request_latency_ms_max <= replay(obs).request_latency_ms_sum,
    decreases obs.len(),
{
    if obs.len() > 0 {
        lemma_replay_latency(obs.drop_last());
    }
}

} // verus!
