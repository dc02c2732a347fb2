use reelsynth_ui::agent::{
    check_layer_index, check_quant_slot, require_selected_layer, require_wave_quant,
    seam_mode_from_label, QuantSeamMode,
};

#[test]
fn seam_labels() {
    assert_eq!(seam_mode_from_label("off"), Ok(QuantSeamMode::Off));
    assert_eq!(seam_mode_from_label("soft"), Ok(QuantSeamMode::Soft));
    assert_eq!(seam_mode_from_label("adaptive"), Ok(QuantSeamMode::Adaptive));
    assert_eq!(seam_mode_from_label("Seam·Adapt"), Ok(QuantSeamMode::Adaptive));
    assert_eq!(seam_mode_from_label("SEAM-OPT"), Ok(QuantSeamMode::Opt));
    assert_eq!(seam_mode_from_label("Denoise_Opt"), Ok(QuantSeamMode::Opt));
    assert_eq!(seam_mode_from_label("Loud"), Err("unknown seam mode: loud".to_string()));
    assert_eq!(seam_mode_from_label(""), Err("unknown seam mode: ".to_string()));
}

#[test]
fn index_checks() {
    assert_eq!(check_layer_index(2, 3), Ok(()));
    assert_eq!(check_layer_index(3, 3), Err("layer 3 out of range (0..3)".to_string()));
    assert_eq!(check_quant_slot(15, 16), Ok(()));
    assert_eq!(check_quant_slot(16, 16), Err("slot 16 out of range (0..16)".to_string()));
    assert_eq!(require_selected_layer(Some(4)), Ok(4));
    assert_eq!(require_selected_layer(None), Err("no layer selected".to_string()));
    assert_eq!(require_wave_quant(16), Ok(16));
    assert_eq!(require_wave_quant(0), Err("wave_quant is 0".to_string()));
}
