use pi_agent::latency::{
    percentile_nearest_rank, saturating_ticks, LatencyComponentBreakdown, LatencyPercentiles,
    TurnLatencyAccumulator, TurnLatencyBreakdown, TURN_LATENCY_BREAKDOWN_SCHEMA_V1,
};

#[test]
fn latency_breakdown_reports_component_tail_percentiles() {
    let breakdown =
        TurnLatencyBreakdown::from_component_samples(250, &[10, 30, 20], &[40, 5], &[2], &[]);

    assert_eq!(breakdown.schema, TURN_LATENCY_BREAKDOWN_SCHEMA_V1);
    assert_eq!(breakdown.provider_streaming.duration_ms, 60);
    assert_eq!(breakdown.provider_streaming.samples, 3);
    assert_eq!(breakdown.provider_streaming.tail_percentiles.p50_ms, 20);
    assert_eq!(breakdown.provider_streaming.tail_percentiles.p95_ms, 30);
    assert_eq!(breakdown.provider_streaming.tail_percentiles.p99_ms, 30);
    assert_eq!(breakdown.provider_streaming.tail_percentiles.p999_ms, 30);
    assert_eq!(breakdown.local_tools.duration_ms, 45);
    assert_eq!(breakdown.extension_hostcalls.duration_ms, 2);
    assert_eq!(breakdown.persistence.duration_ms, 0);
    assert_eq!(breakdown.dominant_component, "provider_streaming");
}

#[test]
fn percentiles_are_the_nearest_ranks() {
    let samples: Vec<u64> = (1..=1000).rev().collect();
    let p = LatencyPercentiles::from_samples(&samples);
    assert_eq!(p.p50_ms, 500);
    assert_eq!(p.p95_ms, 950);
    assert_eq!(p.p99_ms, 990);
    assert_eq!(p.p999_ms, 999);
    assert_eq!(percentile_nearest_rank(&[], 50, 100), 0);
    assert_eq!(percentile_nearest_rank(&[7], 1, 100), 7);
    assert_eq!(percentile_nearest_rank(&[3, 9], 50, 100), 3);
    assert_eq!(LatencyPercentiles::default(), LatencyPercentiles::from_samples(&[]));
}

#[test]
fn sums_of_samples_saturate() {
    let c = LatencyComponentBreakdown::from_millis_samples(&[u64::MAX, 5]);
    assert_eq!(c.duration_ms, u64::MAX);
    assert_eq!(c.samples, 2);
    assert_eq!(c.tail_percentiles.p50_ms, 5);
    assert_eq!(
        LatencyComponentBreakdown::default(),
        LatencyComponentBreakdown::from_millis_samples(&[])
    );
}

#[test]
fn the_order_of_samples_does_not_show() {
    assert_eq!(
        LatencyComponentBreakdown::from_millis_samples(&[4, 1, 3, 2]),
        LatencyComponentBreakdown::from_millis_samples(&[1, 2, 3, 4])
    );
}

#[test]
fn each_component_can_dominate() {
    let dominant = |a: &[u64], b: &[u64], c: &[u64], d: &[u64]| {
        TurnLatencyBreakdown::from_component_samples(1, a, b, c, d).dominant_component
    };
    assert_eq!(dominant(&[1], &[2], &[], &[]), "local_tools");
    assert_eq!(dominant(&[1], &[2], &[3], &[]), "extension_hostcalls");
    assert_eq!(dominant(&[1], &[2], &[3], &[4]), "persistence");
    assert_eq!(dominant(&[], &[], &[], &[]), "none");
}

#[test]
fn recorded_times_end_up_in_their_component() {
    let mut turn = TurnLatencyAccumulator::started();
    turn.record_provider_streaming(12);
    turn.record_provider_streaming(u128::MAX);
    turn.record_local_tool(3);
    turn.record_extension_hostcall(4);
    let breakdown = turn.snapshot(77);
    assert_eq!(breakdown.total_ms, 77);
    assert_eq!(breakdown.provider_streaming.samples, 2);
    assert_eq!(breakdown.provider_streaming.duration_ms, u64::MAX);
    assert_eq!(breakdown.local_tools.duration_ms, 3);
    assert_eq!(breakdown.extension_hostcalls.duration_ms, 4);
    assert_eq!(breakdown.persistence.samples, 0);
    assert_eq!(saturating_ticks(5), 5);
    assert_eq!(saturating_ticks(u128::MAX), u64::MAX);
}
