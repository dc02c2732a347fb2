use reelsynth_ui::actions::{ArrangementActions, PianoRollTool, S1Actions, TransportBarActions};
use reelsynth_ui::layout::{
    audit_element_label, bottom_fx_strip_visible, bottom_mod_strip_visible, embed_mod_fx_in_center,
    AuditElement, ShellLayoutOptions,
};
use reelsynth_ui::state::{
    active_osc_index, add_oscillator, remove_oscillator, ShellAppSettings, ShellConfig, ShellMode,
    WtView3dMode,
};

#[test]
fn settings_labels() {
    let mut s = ShellAppSettings::default();
    assert_eq!(s.backend_label(), "Auto");
    assert_eq!(s.layout_label(), "Auto");
    assert_eq!(s.detected_keyboard_label, "QWERTY");
    s.graphics_backend_idx = 2;
    s.keyboard_layout_idx = 3;
    assert_eq!(s.backend_label(), "OpenGL (Glow)");
    assert_eq!(s.layout_label(), "QWERTZ");
    s.graphics_backend_idx = 3;
    s.keyboard_layout_idx = 4;
    assert_eq!(s.backend_label(), "Auto");
    assert_eq!(s.layout_label(), "Auto");
}

#[test]
fn defaults() {
    assert_eq!(ShellMode::default(), ShellMode::Design);
    assert_eq!(WtView3dMode::default(), WtView3dMode::Morph);
    let c = ShellConfig::default();
    assert!(!c.show_osc_column && !c.show_fx_rack);
    let a = S1Actions::default();
    assert!(a.import_factory_wt.is_none() && !a.frame_edited);
    let t = TransportBarActions::default();
    assert!(!t.play && !t.stop);
    let r = ArrangementActions::default();
    assert!(!r.clip_created);
    assert_ne!(PianoRollTool::Pencil, PianoRollTool::Eraser);
}

#[test]
fn oscillator_tabs() {
    assert_eq!(active_osc_index(5, 3), 2);
    assert_eq!(active_osc_index(1, 3), 1);
    assert_eq!(active_osc_index(4, 0), 0);
    let mut oscs = vec!['a', 'b', 'c'];
    let mut tab = 2usize;
    add_oscillator(&mut oscs, &mut tab, 'd');
    assert_eq!((oscs.len(), tab), (4, 3));
    remove_oscillator(&mut oscs, &mut tab, 3);
    assert_eq!(oscs, vec!['a', 'b', 'c']);
    assert_eq!(tab, 2);
    remove_oscillator(&mut oscs, &mut tab, 9);
    assert_eq!(oscs.len(), 3);
    remove_oscillator(&mut oscs, &mut tab, 0);
    remove_oscillator(&mut oscs, &mut tab, 0);
    assert_eq!(oscs, vec!['c']);
    assert_eq!(tab, 0);
    remove_oscillator(&mut oscs, &mut tab, 0);
    assert_eq!(oscs, vec!['c']);
}

#[test]
fn mod_fx_placement() {
    let mut o = ShellLayoutOptions::default();
    assert!(o.piano_visible && o.mod_matrix_open && !o.show_osc_column);
    o.show_mod_matrix = true;
    assert!(!embed_mod_fx_in_center(o));
    assert!(bottom_mod_strip_visible(o));
    o.show_osc_column = true;
    assert!(embed_mod_fx_in_center(o));
    assert!(!bottom_mod_strip_visible(o));
    assert!(!bottom_fx_strip_visible(o));
    assert_eq!(audit_element_label(AuditElement::PianoWrap), "piano_wrap");
    assert_eq!(audit_element_label(AuditElement::ModStrip), "mod_strip");
}

#[test]
fn unlimited_add_oscillator() {
    // Oscillators stand in as their slot labels; only the count matters here.
    let mut oscs = vec!["active"];
    let mut osc_tab = 0usize;
    for _ in 0..10 {
        add_oscillator(&mut oscs, &mut osc_tab, "silent");
    }
    assert_eq!(oscs.len(), 11);
    assert_eq!(osc_tab, 10);
}

#[test]
fn picking_another_backend_asks_for_a_restart() {
    let mut s = ShellAppSettings::default();
    s.pick_backend(0);
    assert!(!s.pending_backend_restart && !s.dirty);
    assert_eq!(s.graphics_backend_idx, 0);
    s.pick_backend(2);
    assert_eq!(s.graphics_backend_idx, 2);
    assert!(s.pending_backend_restart && s.dirty);
    assert_eq!(s.backend_label(), "OpenGL (Glow)");
}
