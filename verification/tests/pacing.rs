use waymux::compositor::{PRESENTATION_REFRESH_PERIOD_NS, VIRTUAL_OUTPUT_REFRESH_MHZ};

#[test]
fn output_refresh_is_240hz() {
    // 240 Hz: a live A/B showed lowering this to 60 Hz starved KWin's frame
    // supply to the encoder (~31 vs ~45 fps) with no GPU saving. Keep high.
    assert_eq!(VIRTUAL_OUTPUT_REFRESH_MHZ, 240_000);
}

#[test]
fn presentation_period_matches_output_refresh() {
    // The wp_presentation refresh PERIOD must equal 1e9 / refresh_hz, or
    // KWin's next-paint timer drifts (the exact class of bug that left the
    // period at 240 Hz while we thought the mode was 120 Hz).
    let refresh_hz = (VIRTUAL_OUTPUT_REFRESH_MHZ as u32) / 1000;
    let expected_ns = 1_000_000_000 / refresh_hz;
    let diff = (PRESENTATION_REFRESH_PERIOD_NS as i64 - expected_ns as i64).abs();
    assert!(
        diff <= 1,
        "presentation period {PRESENTATION_REFRESH_PERIOD_NS} ns must match \
         1e9/{refresh_hz}Hz = {expected_ns} ns (drift breaks KWin's render timer)"
    );
}
