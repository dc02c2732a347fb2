use reelsynth_ui::state_sync::{
    filter_mode_from_type, filter_type_from_mode, is_wavetable_source, lfo_shape_from_index,
    lfo_shape_index, loaded_bank_layer_index, preset_category_label, selected_layer_after_sync,
};

#[test]
fn lfo_shape_roundtrip() {
    assert_eq!(lfo_shape_from_index(lfo_shape_index("triangle")), "tri");
    assert_eq!(lfo_shape_index(lfo_shape_from_index(3)), 3);
}

#[test]
fn lfo_shapes_and_filter_modes_map_both_ways() {
    for i in 0..4 {
        assert_eq!(lfo_shape_index(lfo_shape_from_index(i)), i);
        assert_eq!(filter_mode_from_type(filter_type_from_mode(i)), i);
    }
    assert_eq!(lfo_shape_index("S&H"), 3);
    assert_eq!(lfo_shape_index("square"), 0);
    assert_eq!(lfo_shape_from_index(7), "sine");
    assert_eq!(filter_mode_from_type("HP"), 1);
    assert_eq!(filter_mode_from_type("bp"), 2);
    assert_eq!(filter_mode_from_type("Notch"), 3);
    assert_eq!(filter_mode_from_type("ladder"), 0);
    assert_eq!(filter_type_from_mode(5), "lowpass");
}

#[test]
fn wavetable_source_ignores_case() {
    assert!(is_wavetable_source("wavetable"));
    assert!(is_wavetable_source("WaveTable"));
    assert!(!is_wavetable_source("saw"));
    assert!(!is_wavetable_source(" wavetable"));
}

#[test]
fn layer_selection_is_clamped_after_sync() {
    assert_eq!(selected_layer_after_sync(None, 3), Some(0));
    assert_eq!(selected_layer_after_sync(Some(1), 3), Some(1));
    assert_eq!(selected_layer_after_sync(Some(5), 3), Some(2));
    assert_eq!(selected_layer_after_sync(Some(5), 0), Some(0));
}

#[test]
fn loaded_bank_prefers_existing_wavetable_layer() {
    assert_eq!(loaded_bank_layer_index(&[false, true, true], Some(0)), 1);
    assert_eq!(loaded_bank_layer_index(&[false, false, false], Some(2)), 2);
    assert_eq!(loaded_bank_layer_index(&[false, false, false], Some(9)), 2);
    assert_eq!(loaded_bank_layer_index(&[false, false], None), 0);
    assert_eq!(loaded_bank_layer_index(&[], Some(3)), 0);
}

#[test]
fn preset_category_label_shows_wavetable_id() {
    assert_eq!(preset_category_label(Some("saw_morph")), "Preset · Wavetable · saw morph");
    assert_eq!(preset_category_label(Some("formant")), "Preset · Wavetable · formant");
    assert_eq!(preset_category_label(None), "Preset · Wavetable · wavetable");
    assert_eq!(preset_category_label(Some("_a__b_")), "Preset · Wavetable ·  a  b ");
}
