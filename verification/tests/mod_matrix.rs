use reelsynth_ui::mod_matrix::{
    automation_target_to_engine, default_mod_slots, engine_source_to_ui, engine_target_to_ui,
    mod_slots_from_patch, mod_slots_to_patch, next_mod_curve, polarity_after_amount_edit,
    routes_readback, ui_source_to_engine, ui_target_to_engine, EngineModSlot, ModPolarity,
    ModSlotUi,
};

#[test]
fn wt_fine_target_maps() {
    let routes = vec![ModSlotUi {
        source: "LFO 2",
        target: "WT Fine",
        amount: 8,
        curve: "Lin",
        enabled: true,
        polarity: ModPolarity::Bipolar,
    }];
    let slots = mod_slots_to_patch(&routes);
    assert_eq!(slots[0].target, "osc1_position");
}

#[test]
fn wt_slot_target_maps() {
    let routes = vec![ModSlotUi {
        source: "LFO 1",
        target: "WT Slot",
        amount: 10,
        curve: "Lin",
        enabled: true,
        polarity: ModPolarity::Bipolar,
    }];
    let slots = mod_slots_to_patch(&routes);
    assert_eq!(slots[0].target, "osc1_wave_slot");
    let restored = mod_slots_from_patch(&routes_readback(&slots));
    assert_eq!(restored[0].target, "WT Slot");
}

#[test]
fn env2_maps_to_filt_env() {
    let routes = vec![ModSlotUi {
        source: "Env 2",
        target: "Cutoff",
        amount: 25,
        curve: "Exp",
        enabled: true,
        polarity: ModPolarity::Positive,
    }];
    let slots = mod_slots_to_patch(&routes);
    assert_eq!(slots.len(), 1);
    assert_eq!(slots[0].source, "filt_env");
    assert_eq!(slots[0].target, "filter_cutoff");
}

#[test]
fn round_trip_mod_route() {
    let routes = default_mod_slots();
    let slots = mod_slots_to_patch(&routes);
    assert!(!slots.is_empty());
    let restored = mod_slots_from_patch(&routes_readback(&slots));
    assert_eq!(restored.len(), routes.len());
    assert_eq!(restored[0].source, routes[0].source);
    assert_eq!(restored[0].target, routes[0].target);
}

#[test]
fn disabled_routes_persist() {
    let mut routes = default_mod_slots();
    routes[0].enabled = false;
    let slots = mod_slots_to_patch(&routes);
    assert!(!slots[0].enabled);
}

#[test]
fn default_rows_and_empty_matrix() {
    let rows = default_mod_slots();
    assert_eq!(rows.len(), 3);
    assert_eq!((rows[1].source, rows[1].target, rows[1].amount, rows[1].curve), ("Env 2", "Cutoff", 25, "Exp"));
    assert_eq!(rows[2].polarity, ModPolarity::Positive);
    let hydrated = mod_slots_from_patch(&[]);
    assert_eq!(hydrated.len(), 3);
    assert_eq!(hydrated[0].amount, 15);
    let one = ModSlotUi::default_slot();
    assert_eq!((one.source, one.target, one.amount), ("LFO 1", "WT Pos", 0));
}

#[test]
fn engine_ids_map_to_labels() {
    assert_eq!(engine_source_to_ui("lfo"), "LFO 1");
    assert_eq!(engine_source_to_ui("vel"), "Velo");
    assert_eq!(engine_source_to_ui("m3"), "M3");
    assert_eq!(engine_source_to_ui("unknown"), "LFO 1");
    assert_eq!(engine_target_to_ui("osc2_level"), "Level");
    assert_eq!(engine_target_to_ui("osc3_wave_slot"), "WT Slot");
    assert_eq!(engine_target_to_ui("filter_resonance"), "Res");
    assert_eq!(engine_target_to_ui("osc1_fm_index"), "FM Idx");
    assert_eq!(engine_target_to_ui("_pan"), "Pan");
    assert_eq!(engine_target_to_ui("mystery"), "WT Pos");
    assert_eq!(ui_source_to_engine("After").as_deref(), Some("aftertouch"));
    assert_eq!(ui_source_to_engine("custom").as_deref(), Some("custom"));
    assert_eq!(ui_target_to_engine("Pitch").as_deref(), Some("osc1_detune"));
    assert_eq!(ui_target_to_engine("Other").as_deref(), Some("Other"));
    assert_eq!(automation_target_to_engine("Cutoff"), "filter_cutoff");
    assert_eq!(automation_target_to_engine("WT Pos"), "osc1_position");
}

#[test]
fn every_offered_label_survives_the_engine() {
    for label in ["LFO 1", "LFO 2", "Env 2", "Env 1", "Velo", "ModWh", "After", "Step", "Rand", "M1", "M2", "M3", "M4"] {
        let id = ui_source_to_engine(label).unwrap();
        assert_eq!(engine_source_to_ui(&id), label);
    }
    for (label, back) in [
        ("WT Pos", "WT Pos"),
        ("WT Fine", "WT Pos"),
        ("WT Slot", "WT Slot"),
        ("Cutoff", "Cutoff"),
        ("Res", "Res"),
        ("FM Idx", "FM Idx"),
        ("Pitch", "Detune"),
        ("Detune", "Detune"),
        ("Level", "Level"),
        ("Pan", "Pan"),
    ] {
        let id = ui_target_to_engine(label).unwrap();
        assert_eq!(engine_target_to_ui(&id), back);
    }
}

#[test]
fn readback_polarity_and_amounts() {
    let rows = vec![
        ModSlotUi { source: "Velo", target: "Level", amount: -40, curve: "Step", enabled: true, polarity: ModPolarity::Negative },
        ModSlotUi { source: "Rand", target: "Pan", amount: 0, curve: "Lin", enabled: false, polarity: ModPolarity::Positive },
    ];
    let back = routes_readback(&mod_slots_to_patch(&rows));
    assert_eq!(back[0].amount_percent, -40);
    assert_eq!(back[0].polarity, ModPolarity::Negative);
    assert_eq!(back[1].polarity, ModPolarity::Bipolar);
    let restored = mod_slots_from_patch(&back);
    assert_eq!(restored[0].curve, "Lin");
    assert_eq!(restored[1].target, "Pan");
    assert!(!restored[1].enabled);
    let slot = EngineModSlot {
        source: "env1".to_string(),
        target: "osc1_detune".to_string(),
        amount_percent: 12,
        polarity: ModPolarity::Positive,
        enabled: true,
    };
    let row = &mod_slots_from_patch(&[slot])[0];
    assert_eq!((row.source, row.target, row.amount), ("Env 1", "Detune", 12));
}

#[test]
fn curve_cycles_and_polarity_follows_edits() {
    assert_eq!(next_mod_curve("Lin"), "Exp");
    assert_eq!(next_mod_curve("Exp"), "Step");
    assert_eq!(next_mod_curve("Step"), "Lin");
    assert_eq!(next_mod_curve("odd"), "Lin");
    assert_eq!(polarity_after_amount_edit(ModPolarity::Bipolar, -5), ModPolarity::Bipolar);
    assert_eq!(polarity_after_amount_edit(ModPolarity::Positive, -5), ModPolarity::Negative);
    assert_eq!(polarity_after_amount_edit(ModPolarity::Negative, 0), ModPolarity::Positive);
}
