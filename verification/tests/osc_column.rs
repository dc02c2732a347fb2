use reelsynth_ui::osc_column::{
    fm_algorithm_for_source, fm_algorithm_index, fm_source_for_algorithm, fm_source_from_algorithm, fm_source_from_index, fm_source_index,
    osc_type_from_index, osc_type_index, stack_layer_type_from_index, stack_layer_type_index,
    stack_mode_from_index, stack_mode_index, stack_mode_label, stack_mode_tooltip,
    warp_mode_from_index, warp_mode_index,
};

#[test]
fn osc_type_cycle_roundtrip() {
    for ty in ["wavetable", "saw", "square", "triangle", "pulse"] {
        let idx = osc_type_index(ty);
        assert_eq!(osc_type_from_index(idx), ty);
    }
}

#[test]
fn warp_mode_roundtrip() {
    for mode in ["none", "sync", "bend"] {
        let idx = warp_mode_index(mode);
        assert_eq!(warp_mode_from_index(idx), mode);
    }
}

#[test]
fn fm_algorithm_roundtrip() {
    for src in ["none", "osc2", "osc3", "osc2_osc3"] {
        let idx = fm_algorithm_index(src);
        assert_eq!(fm_source_from_algorithm(idx), src);
    }
}

#[test]
fn fm_source_roundtrip() {
    for src in ["none", "osc2", "osc3", "osc2_osc3", "feedback"] {
        let idx = fm_source_index(src);
        assert_eq!(fm_source_from_index(idx), src);
    }
}

#[test]
fn selectors_ignore_ascii_case_and_default_to_first() {
    assert_eq!(osc_type_index("SAW"), 1);
    assert_eq!(osc_type_index("Triangle"), 3);
    assert_eq!(osc_type_index("sine"), 0);
    assert_eq!(warp_mode_index("BEND"), 2);
    assert_eq!(fm_source_index("OSC2+OSC3"), 3);
    assert_eq!(fm_algorithm_index("feedback"), 0);
    assert_eq!(fm_source_index("Feedback"), 4);
    assert_eq!(osc_type_from_index(99), "wavetable");
    assert_eq!(fm_source_from_index(9), "none");
}

#[test]
fn stack_modes_and_layers() {
    assert_eq!(stack_mode_index("Average"), 1);
    assert_eq!(stack_mode_index("avg equal"), 2);
    assert_eq!(stack_mode_index("AvgEqual"), 2);
    assert_eq!(stack_mode_index("none"), 0);
    for i in 0..3 {
        assert_eq!(stack_mode_index(stack_mode_from_index(i)), i);
    }
    assert_eq!(stack_mode_label("none"), "Add");
    assert_eq!(stack_mode_label("AVG_EQUAL"), "Avg Equal");
    assert_eq!(stack_mode_label("avg"), "Avg");
    assert_eq!(stack_mode_tooltip("avg"), "Level-weighted mean (sign-sensitive)");
    assert_eq!(stack_mode_tooltip("add"), "Signed sum of all layers");
    assert_eq!(stack_mode_tooltip("avg_equal"), "Each layer counts equally (1/N)");
    for i in 0..6 {
        assert_eq!(stack_layer_type_index(stack_layer_type_from_index(i)), i);
    }
    assert_eq!(stack_layer_type_index("Tri"), 3);
    assert_eq!(stack_layer_type_index("noise"), 0);
    assert_eq!(stack_layer_type_from_index(6), "saw");
}

#[test]
fn fm_algorithm_and_source_follow_each_other() {
    assert_eq!(fm_source_for_algorithm(0), 0);
    assert_eq!(fm_source_for_algorithm(2), 2);
    assert_eq!(fm_algorithm_for_source(1), 1);
    assert_eq!(fm_algorithm_for_source(3), 3);
    assert_eq!(fm_algorithm_for_source(4), 0);
    assert_eq!(fm_algorithm_for_source(0), 0);
    assert_eq!(fm_algorithm_for_source(9), 0);
    for a in 0..4 {
        assert_eq!(fm_algorithm_for_source(fm_source_for_algorithm(a)), a);
    }
}
