use pi_agent::agent::AgentConfig;
use pi_agent::limits::{
    clamp_max_tool_iterations, iteration_handoff_steering_text,
    resolve_compatible_tool_parallelism, resolve_max_tool_iterations,
    should_warn_at_iteration_threshold, ITERATION_WARN_MIN_CAP, MAX_TOOL_ITERATIONS_CEILING,
    MAX_TOOL_ITERATIONS_DEFAULT,
};

#[test]
fn compatible_tool_parallelism_preserves_historical_floor() {
    assert_eq!(resolve_compatible_tool_parallelism(None, 1), 8);
    assert_eq!(resolve_compatible_tool_parallelism(None, 8), 8);
}

#[test]
fn compatible_tool_parallelism_scales_on_many_core_hosts() {
    assert_eq!(resolve_compatible_tool_parallelism(None, 32), 32);
    assert_eq!(resolve_compatible_tool_parallelism(None, 64), 64);
    assert_eq!(resolve_compatible_tool_parallelism(None, 128), 64);
}

#[test]
fn compatible_tool_parallelism_accepts_bounded_override() {
    assert_eq!(resolve_compatible_tool_parallelism(Some("16"), 4), 16);
    assert_eq!(resolve_compatible_tool_parallelism(Some("512"), 64), 256);
    assert_eq!(resolve_compatible_tool_parallelism(Some("1"), 64), 1);
}

#[test]
fn compatible_tool_parallelism_ignores_invalid_override() {
    assert_eq!(resolve_compatible_tool_parallelism(Some("not-a-number"), 24), 24);
    assert_eq!(resolve_compatible_tool_parallelism(Some("0"), 24), 24);
    assert_eq!(resolve_compatible_tool_parallelism(Some(" "), 24), 24);
}

#[test]
fn test_agent_config_default() {
    let config = AgentConfig::with_iteration_setting(None);
    let expected = resolve_max_tool_iterations(None);
    assert_eq!(config.max_tool_iterations, expected);
    assert!(config.system_prompt.is_none());
    assert!(!config.block_images);
}

#[test]
fn the_setting_for_tool_rounds_reaches_the_configuration() {
    assert_eq!(AgentConfig::with_iteration_setting(Some(" 7 ")).max_tool_iterations, 7);
    assert_eq!(AgentConfig::with_iteration_setting(Some("x")).max_tool_iterations, 50);
    assert!(!AgentConfig::with_iteration_setting(None).fail_closed_hooks);
}

#[test]
fn resolve_max_tool_iterations_handles_unset_empty_and_whitespace() {
    assert_eq!(resolve_max_tool_iterations(None), MAX_TOOL_ITERATIONS_DEFAULT);
    assert_eq!(resolve_max_tool_iterations(Some("")), MAX_TOOL_ITERATIONS_DEFAULT);
    assert_eq!(resolve_max_tool_iterations(Some("    ")), MAX_TOOL_ITERATIONS_DEFAULT);
}

#[test]
fn resolve_max_tool_iterations_rejects_zero_and_invalid() {
    assert_eq!(resolve_max_tool_iterations(Some("0")), MAX_TOOL_ITERATIONS_DEFAULT);
    assert_eq!(resolve_max_tool_iterations(Some("not-a-number")), MAX_TOOL_ITERATIONS_DEFAULT);
    assert_eq!(resolve_max_tool_iterations(Some("-5")), MAX_TOOL_ITERATIONS_DEFAULT);
    assert_eq!(resolve_max_tool_iterations(Some("3.14")), MAX_TOOL_ITERATIONS_DEFAULT);
}

#[test]
fn resolve_max_tool_iterations_accepts_valid_overrides_and_trims_whitespace() {
    assert_eq!(resolve_max_tool_iterations(Some("1")), 1);
    assert_eq!(resolve_max_tool_iterations(Some("100")), 100);
    assert_eq!(resolve_max_tool_iterations(Some("  200  ")), 200);
    assert_eq!(resolve_max_tool_iterations(Some("999")), 999);
}

#[test]
fn resolve_max_tool_iterations_clamps_above_ceiling() {
    assert_eq!(resolve_max_tool_iterations(Some("99999")), MAX_TOOL_ITERATIONS_CEILING);
    // The ceiling itself should pass through unchanged.
    assert_eq!(resolve_max_tool_iterations(Some("1000")), MAX_TOOL_ITERATIONS_CEILING);
}

#[test]
fn clamp_max_tool_iterations_matches_resolve_semantics() {
    assert_eq!(clamp_max_tool_iterations(None), MAX_TOOL_ITERATIONS_DEFAULT);
    assert_eq!(clamp_max_tool_iterations(Some(0)), MAX_TOOL_ITERATIONS_DEFAULT);
    assert_eq!(clamp_max_tool_iterations(Some(7)), 7);
    assert_eq!(clamp_max_tool_iterations(Some(usize::MAX)), MAX_TOOL_ITERATIONS_CEILING);
}

#[test]
fn numbers_with_a_sign_are_read_as_the_standard_library_reads_them() {
    assert_eq!(resolve_max_tool_iterations(Some("+12")), 12);
    assert_eq!(resolve_max_tool_iterations(Some("+")), MAX_TOOL_ITERATIONS_DEFAULT);
    assert_eq!(
        resolve_max_tool_iterations(Some("99999999999999999999999999")),
        MAX_TOOL_ITERATIONS_DEFAULT
    );
    assert_eq!(resolve_max_tool_iterations(Some("\u{2003}0012\u{a0}")), 12);
}

#[test]
fn iteration_warning_fires_at_80_percent_for_default_cap() {
    assert!(!should_warn_at_iteration_threshold(39, 50));
    assert!(should_warn_at_iteration_threshold(40, 50));
    assert!(should_warn_at_iteration_threshold(50, 50));
    assert!(!should_warn_at_iteration_threshold(0, 50));
}

#[test]
fn iteration_warning_fires_at_80_percent_for_custom_caps() {
    for (cap, threshold) in [(100usize, 80usize), (200, 160), (1000, 800)] {
        assert!(
            !should_warn_at_iteration_threshold(threshold - 1, cap),
            "expected no warning below threshold (current=cap={cap}, threshold={threshold})"
        );
        assert!(
            should_warn_at_iteration_threshold(threshold, cap),
            "expected warning at threshold (cap={cap}, threshold={threshold})"
        );
    }
}

#[test]
fn iteration_warning_skipped_for_caps_below_minimum() {
    for cap in 0..ITERATION_WARN_MIN_CAP {
        for current in 0..=cap.saturating_add(2) {
            assert!(
                !should_warn_at_iteration_threshold(current, cap),
                "should not warn at current={current} cap={cap}"
            );
        }
    }
}

#[test]
fn iteration_warning_handles_minimum_warnable_cap_boundary() {
    assert!(!should_warn_at_iteration_threshold(3, 5));
    assert!(should_warn_at_iteration_threshold(4, 5));
    assert!(should_warn_at_iteration_threshold(5, 5));
}

#[test]
fn iteration_warning_handles_overflow_resistant_caps() {
    assert!(!should_warn_at_iteration_threshold(1_000_000, usize::MAX));
    assert!(!should_warn_at_iteration_threshold(usize::MAX / 6, usize::MAX));
    // A round at the saturated threshold should fire.
    assert!(should_warn_at_iteration_threshold(usize::MAX / 5, usize::MAX));
}

#[test]
fn iteration_handoff_steering_text_is_self_describing() {
    let text = iteration_handoff_steering_text(42, 50);
    assert!(text.contains("[runtime]"));
    assert!(text.contains("Tool-iteration budget at >=80%"));
    assert!(text.contains("used 42 of 50"));
    assert!(text.contains("graceful handoff"));
    assert!(text.contains("incomplete-handoff"));
    assert!(text.contains("Do NOT compress"));
}
