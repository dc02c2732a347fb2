use reelsynth_ui::oscillator::{effective_wave_quant, ensure_segment_interps, quant_slot_count};
use reelsynth_ui::quant_interp::{
    display_label_from_patch_str, fill_segment_interps, resize_segment_interps, segment_count,
    segment_mode, toolbar_curve_label, toolbar_segment_label, WtQuantInterp,
};

const ALL: [WtQuantInterp; 6] = [
    WtQuantInterp::Hold,
    WtQuantInterp::Linear,
    WtQuantInterp::Spline,
    WtQuantInterp::Polynomial,
    WtQuantInterp::Exponential,
    WtQuantInterp::MovingAverage,
];

#[test]
fn segment_count_is_knobs_minus_one() {
    assert_eq!(segment_count(0), 0);
    assert_eq!(segment_count(1), 0);
    assert_eq!(segment_count(8), 7);
    assert_eq!(segment_count(16), 15);
}

#[test]
fn last_knob_has_no_segment() {
    let n = 8;
    assert_eq!(segment_count(n), n - 1);
    let segs = vec![WtQuantInterp::Linear; segment_count(n)];
    assert!(segs.get(n - 1).is_none());
    assert!(segs.get(n - 2).is_some());
}

#[test]
fn curve_default_fills_all_segments() {
    let mut segs = vec![WtQuantInterp::Hold; 3];
    fill_segment_interps(&mut segs, 8, WtQuantInterp::Spline);
    assert_eq!(segs.len(), 7);
    assert!(segs.iter().all(|&m| m == WtQuantInterp::Spline));
}

#[test]
fn resize_preserves_and_fills() {
    let mut segs = vec![WtQuantInterp::Linear, WtQuantInterp::Exponential];
    resize_segment_interps(&mut segs, 8, WtQuantInterp::Hold);
    assert_eq!(segs.len(), 7);
    assert_eq!(segs[0], WtQuantInterp::Linear);
    assert_eq!(segs[1], WtQuantInterp::Exponential);
    assert!(segs[2..].iter().all(|&m| m == WtQuantInterp::Hold));

    resize_segment_interps(&mut segs, 4, WtQuantInterp::Polynomial);
    assert_eq!(segs.len(), 3);
    assert_eq!(segs[0], WtQuantInterp::Linear);
}

#[test]
fn patch_str_roundtrip() {
    for mode in ALL {
        assert_eq!(WtQuantInterp::from_patch_str(mode.to_patch_str()), mode);
    }
    assert_eq!(WtQuantInterp::from_patch_str("cubic"), WtQuantInterp::Spline);
    assert_eq!(WtQuantInterp::from_patch_str(""), WtQuantInterp::Hold);
    assert_eq!(WtQuantInterp::from_patch_str("none"), WtQuantInterp::Hold);
}

#[test]
fn display_labels_never_show_none() {
    assert_eq!(display_label_from_patch_str("none"), "Hold");
    assert_eq!(display_label_from_patch_str(""), "Hold");
    assert_eq!(display_label_from_patch_str("linear"), "Linear");
    assert_eq!(toolbar_curve_label(WtQuantInterp::Hold), "All·Hold");
    assert_eq!(toolbar_segment_label(2, WtQuantInterp::Spline), "3→4·Spline");
}

#[test]
fn patch_str_is_trimmed_and_case_folded() {
    assert_eq!(WtQuantInterp::from_patch_str("  LINEAR \t"), WtQuantInterp::Linear);
    assert_eq!(WtQuantInterp::from_patch_str("Moving-Average"), WtQuantInterp::MovingAverage);
    assert_eq!(WtQuantInterp::from_patch_str("moving_average"), WtQuantInterp::MovingAverage);
    assert_eq!(WtQuantInterp::from_patch_str("\u{3000}Polynomial\u{2009}"), WtQuantInterp::Polynomial);
    assert_eq!(WtQuantInterp::from_patch_str("EXPONENTIAL"), WtQuantInterp::Exponential);
    assert_eq!(WtQuantInterp::from_patch_str("ma"), WtQuantInterp::MovingAverage);
    assert_eq!(WtQuantInterp::from_patch_str("sp line"), WtQuantInterp::Hold);
    assert_eq!(WtQuantInterp::from_patch_str("linéar"), WtQuantInterp::Hold);
}

#[test]
fn index_roundtrip_and_labels() {
    for (i, mode) in ALL.iter().enumerate() {
        assert_eq!(mode.index(), i);
        assert_eq!(WtQuantInterp::from_index(i), *mode);
    }
    assert_eq!(WtQuantInterp::from_index(6), WtQuantInterp::Hold);
    assert_eq!(WtQuantInterp::from_index(usize::MAX), WtQuantInterp::Hold);
    let labels: Vec<&str> = ALL.iter().map(|m| m.label()).collect();
    assert_eq!(labels, vec!["Hold", "Linear", "Spline", "Poly", "Expo", "MA"]);
    assert_eq!(WtQuantInterp::default_mode(), WtQuantInterp::Hold);
    assert_eq!(
        WtQuantInterp::MovingAverage.tooltip(),
        "MA — linear on segment, then short centered box filter"
    );
    assert_eq!(WtQuantInterp::Hold.tooltip(), "Step — flat band on this segment (rectangular)");
}

#[test]
fn toolbar_labels_for_first_segment_and_curves() {
    assert_eq!(toolbar_segment_label(0, WtQuantInterp::Hold), "1→2·Hold");
    assert_eq!(toolbar_segment_label(14, WtQuantInterp::MovingAverage), "15→16·MA");
    assert_eq!(toolbar_curve_label(WtQuantInterp::Exponential), "All·Expo");
}

#[test]
fn segment_mode_falls_back_past_end() {
    let segs = vec![WtQuantInterp::Linear, WtQuantInterp::Spline];
    assert_eq!(segment_mode(&segs, 1, WtQuantInterp::Hold), WtQuantInterp::Spline);
    assert_eq!(segment_mode(&segs, 2, WtQuantInterp::Exponential), WtQuantInterp::Exponential);
    assert_eq!(segment_mode(&[], 0, WtQuantInterp::Polynomial), WtQuantInterp::Polynomial);
}

#[test]
fn layer_segments_follow_quant_count() {
    let mut segs = vec![WtQuantInterp::Hold, WtQuantInterp::Linear, WtQuantInterp::Spline];
    ensure_segment_interps(WtQuantInterp::Exponential, &mut segs, 4);
    assert_eq!(segs, vec![WtQuantInterp::Hold, WtQuantInterp::Linear, WtQuantInterp::Spline]);
    ensure_segment_interps(WtQuantInterp::Exponential, &mut segs, 6);
    assert_eq!(segs.len(), 5);
    assert_eq!(segs[3], WtQuantInterp::Exponential);
    let mut empty = Vec::new();
    ensure_segment_interps(WtQuantInterp::Polynomial, &mut empty, 8);
    assert_eq!(empty, vec![WtQuantInterp::Polynomial; 7]);
    ensure_segment_interps(WtQuantInterp::Polynomial, &mut empty, 0);
    assert!(empty.is_empty());
}

#[test]
fn effective_quant_and_slot_counts() {
    assert_eq!(effective_wave_quant(255, 0), 255);
    assert_eq!(effective_wave_quant(8, 100), 8);
    assert_eq!(effective_wave_quant(0, 12), 12);
    assert_eq!(effective_wave_quant(0, 300), 255);
    assert_eq!(effective_wave_quant(0, 0), 16);
    assert_eq!(quant_slot_count(255), 256);
    assert_eq!(quant_slot_count(16), 16);
    assert_eq!(quant_slot_count(0), 0);
}
