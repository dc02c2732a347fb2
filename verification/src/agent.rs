//! Argument checks of the headless Design session: seam-mode labels and layer / quant
//! slot indices, with the error messages the session reports.
use vstd::prelude::*;

use crate::text::{ascii_lowercase, chars_eq, decimal, lower_chars, string_from_chars, usize_to_decimal};

verus! {

/// Wrap-seam reduction applied after Quant rebuilds.
#[derive(Debug, Clone, Copy, PartialEq, Eq, Structural)]
pub enum QuantSeamMode {
    Off,
    Soft,
    Adaptive,
    Opt,
}

/// Seam mode named by a lowercased label, if any.
pub open spec fn seam_mode_of_key(k: Seq<char>) -> Option<QuantSeamMode> {
    if k == "off"@ || k == "seam·off"@ || k == "seam-off"@ {
        Some(QuantSeamMode::Off)
    } else if k == "soft"@ || k == "seam·soft"@ || k == "seam-soft"@ {
        Some(QuantSeamMode::Soft)
    } else if k == "adapt"@ || k == "adaptive"@ || k == "seam·adapt"@ || k == "seam-adapt"@ {
        Some(QuantSeamMode::Adaptive)
    } else if k == "opt"@ || k == "denoise"@ || k == "denoise_opt"@ || k == "seam·opt"@
        || k == "seam-opt"@ {
        Some(QuantSeamMode::Opt)
    } else {
        None
    }
}

/// Seam mode for a user label, matched ASCII-case-insensitively; an unknown label is
/// reported with its lowercased form.
pub fn seam_mode_from_label(label: &str) -> (r: Result<QuantSeamMode, String>)
    ensures
        seam_mode_of_key(ascii_lowercase(label@)) is Some ==> r == Ok::<QuantSeamMode, String>(
            seam_mode_of_key(ascii_lowercase(label@))->0,
        ),
        seam_mode_of_key(ascii_lowercase(label@)) is None ==> r is Err && r->Err_0@
            == "unknown seam mode: "@ + ascii_lowercase(label@),
{
    let k = lower_chars(label);
    let ks = k.as_slice();
    if chars_eq(ks, "off") || chars_eq(ks, "seam·off") || chars_eq(ks, "seam-off") {
        Ok(QuantSeamMode::Off)
    } else if chars_eq(ks, "soft") || chars_eq(ks, "seam·soft") || chars_eq(ks, "seam-soft") {
        Ok(QuantSeamMode::Soft)
    } else if chars_eq(ks, "adapt") || chars_eq(ks, "adaptive") || chars_eq(ks, "seam·adapt")
        || chars_eq(ks, "seam-adapt") {
        Ok(QuantSeamMode::Adaptive)
    } else if chars_eq(ks, "opt") || chars_eq(ks, "denoise") || chars_eq(ks, "denoise_opt")
        || chars_eq(ks, "seam·opt") || chars_eq(ks, "seam-opt") {
        Ok(QuantSeamMode::Opt)
    } else {
        let mut msg = crate::text::string_of("unknown seam mode: ");
        let lowered = string_from_chars(ks);
        msg.append(lowered.as_str());
        Err(msg)
    }
}

/// `prefix`, the index, then ` out of range (0..count)`: the session's range error.
fn range_error(prefix: &str, index: usize, count: usize) -> (r: String)
    ensures
        r@ == prefix@ + decimal(index as nat) + " out of range (0.."@ + decimal(count as nat)
            + ")"@,
{
    let mut msg = crate::text::string_of(prefix);
    let i = usize_to_decimal(index);
    msg.append(i.as_str());
    msg.append(" out of range (0..");
    let n = usize_to_decimal(count);
    msg.append(n.as_str());
    msg.append(")");
    msg
}

/// A layer index is accepted when below the layer count.
pub fn check_layer_index(index: usize, layer_count: usize) -> (r: Result<(), String>)
    ensures
        index < layer_count ==> r is Ok,
        index >= layer_count ==> r is Err && r->Err_0@ == "layer "@ + decimal(index as nat)
            + " out of range (0.."@ + decimal(layer_count as nat) + ")"@,
{
    if index >= layer_count {
        return Err(range_error("layer ", index, layer_count));
    }
    Ok(())
}

/// A quant slot is accepted when below the slot count.
pub fn check_quant_slot(slot: usize, slots: usize) -> (r: Result<(), String>)
    ensures
        slot < slots ==> r is Ok,
        slot >= slots ==> r is Err && r->Err_0@ == "slot "@ + decimal(slot as nat)
            + " out of range (0.."@ + decimal(slots as nat) + ")"@,
{
    if slot >= slots {
        return Err(range_error("slot ", slot, slots));
    }
    Ok(())
}

/// The selected layer, or the session's error when none is selected.
pub fn require_selected_layer(selected: Option<usize>) -> (r: Result<usize, String>)
    ensures
        selected is Some ==> r == Ok::<usize, String>(selected->0),
        selected is None ==> r is Err && r->Err_0@ == "no layer selected"@,
{
    match selected {
        Some(i) => Ok(i),
        None => Err(crate::text::string_of("no layer selected")),
    }
}

/// A quant setting of 0 cannot be promoted or edited.
pub fn require_wave_quant(wave_quant: u8) -> (r: Result<u8, String>)
    ensures
        wave_quant != 0 ==> r == Ok::<u8, String>(wave_quant),
        wave_quant == 0 ==> r is Err && r->Err_0@ == "wave_quant is 0"@,
{
    if wave_quant == 0 {
        return Err(crate::text::string_of("wave_quant is 0"));
    }
    Ok(wave_quant)
}

/// Every seam label the session accepts selects the mode it names: `off`, `soft`,
/// `adapt` / `adaptive` and `opt` / `denoise` / `denoise_opt`, each also with a `seam·`
/// or `seam-` prefix.
pub proof fn lemma_seam_labels_name_their_modes()
    ensures
        seam_mode_of_key("off"@) == Some(QuantSeamMode::Off),
        seam_mode_of_key("seam·off"@) == Some(QuantSeamMode::Off),
        seam_mode_of_key("seam-off"@) == Some(QuantSeamMode::Off),
        seam_mode_of_key("soft"@) == Some(QuantSeamMode::Soft),
        seam_mode_of_key("seam·soft"@) == Some(QuantSeamMode::Soft),
        seam_mode_of_key("seam-soft"@) == Some(QuantSeamMode::Soft),
        seam_mode_of_key("adapt"@) == Some(QuantSeamMode::Adaptive),
        seam_mode_of_key("adaptive"@) == Some(QuantSeamMode::Adaptive),
        seam_mode_of_key("seam·adapt"@) == Some(QuantSeamMode::Adaptive),
        seam_mode_of_key("seam-adapt"@) == Some(QuantSeamMode::Adaptive),
        seam_mode_of_key("opt"@) == Some(QuantSeamMode::Opt),
        seam_mode_of_key("denoise"@) == Some(QuantSeamMode::Opt),
        seam_mode_of_key("denoise_opt"@) == Some(QuantSeamMode::Opt),
        seam_mode_of_key("seam·opt"@) == Some(QuantSeamMode::Opt),
        seam_mode_of_key("seam-opt"@) == Some(QuantSeamMode::Opt),
{
    reveal_strlit("off");
    reveal_strlit("seam·off");
    reveal_strlit("seam-off");
    reveal_strlit("soft");
    reveal_strlit("seam·soft");
    reveal_strlit("seam-soft");
    reveal_strlit("adapt");
    reveal_strlit("adaptive");
    reveal_strlit("seam·adapt");
    reveal_strlit("seam-adapt");
    reveal_strlit("opt");
    reveal_strlit("denoise");
    reveal_strlit("denoise_opt");
    reveal_strlit("seam·opt");
    reveal_strlit("seam-opt");
    assert("soft"@ != "off"@) by { assert("soft"@.len() != "off"@.len()); }
    assert("soft"@ != "seam·off"@) by { assert("soft"@.len() != "seam·off"@.len()); }
    assert("soft"@ != "seam-off"@) by { assert("soft"@.len() != "seam-off"@.len()); }
    assert("seam·soft"@ != "off"@) by { assert("seam·soft"@.len() != "off"@.len()); }
    assert("seam·soft"@ != "seam·off"@) by { assert("seam·soft"@.len() != "seam·off"@.len()); }
    assert("seam·soft"@ != "seam-off"@) by { assert("seam·soft"@.len() != "seam-off"@.len()); }
    assert("seam-soft"@ != "off"@) by { assert("seam-soft"@.len() != "off"@.len()); }
    assert("seam-soft"@ != "seam·off"@) by { assert("seam-soft"@.len() != "seam·off"@.len()); }
    assert("seam-soft"@ != "seam-off"@) by { assert("seam-soft"@.len() != "seam-off"@.len()); }
    assert("adapt"@ != "off"@) by { assert("adapt"@.len() != "off"@.len()); }
    assert("adapt"@ != "seam·off"@) by { assert("adapt"@.len() != "seam·off"@.len()); }
    assert("adapt"@ != "seam-off"@) by { assert("adapt"@.len() != "seam-off"@.len()); }
    assert("adapt"@ != "soft"@) by { assert("adapt"@.len() != "soft"@.len()); }
    assert("adapt"@ != "seam·soft"@) by { assert("adapt"@.len() != "seam·soft"@.len()); }
    assert("adapt"@ != "seam-soft"@) by { assert("adapt"@.len() != "seam-soft"@.len()); }
    assert("adaptive"@ != "off"@) by { assert("adaptive"@.len() != "off"@.len()); }
    assert("adaptive"@ != "seam·off"@) by { assert("adaptive"@[0] != "seam·off"@[0]); }
    assert("adaptive"@ != "seam-off"@) by { assert("adaptive"@[0] != "seam-off"@[0]); }
    assert("adaptive"@ != "soft"@) by { assert("adaptive"@.len() != "soft"@.len()); }
    assert("adaptive"@ != "seam·soft"@) by { assert("adaptive"@.len() != "seam·soft"@.len()); }
    assert("adaptive"@ != "seam-soft"@) by { assert("adaptive"@.len() != "seam-soft"@.len()); }
    assert("seam·adapt"@ != "off"@) by { assert("seam·adapt"@.len() != "off"@.len()); }
    assert("seam·adapt"@ != "seam·off"@) by { assert("seam·adapt"@.len() != "seam·off"@.len()); }
    assert("seam·adapt"@ != "seam-off"@) by { assert("seam·adapt"@.len() != "seam-off"@.len()); }
    assert("seam·adapt"@ != "soft"@) by { assert("seam·adapt"@.len() != "soft"@.len()); }
    assert("seam·adapt"@ != "seam·soft"@) by { assert("seam·adapt"@.len() != "seam·soft"@.len()); }
    assert("seam·adapt"@ != "seam-soft"@) by { assert("seam·adapt"@.len() != "seam-soft"@.len()); }
    assert("seam-adapt"@ != "off"@) by { assert("seam-adapt"@.len() != "off"@.len()); }
    assert("seam-adapt"@ != "seam·off"@) by { assert("seam-adapt"@.len() != "seam·off"@.len()); }
    assert("seam-adapt"@ != "seam-off"@) by { assert("seam-adapt"@.len() != "seam-off"@.len()); }
    assert("seam-adapt"@ != "soft"@) by { assert("seam-adapt"@.len() != "soft"@.len()); }
    assert("seam-adapt"@ != "seam·soft"@) by { assert("seam-adapt"@.len() != "seam·soft"@.len()); }
    assert("seam-adapt"@ != "seam-soft"@) by { assert("seam-adapt"@.len() != "seam-soft"@.len()); }
    assert("opt"@ != "off"@) by { assert("opt"@[1] != "off"@[1]); }
    assert("opt"@ != "seam·off"@) by { assert("opt"@.len() != "seam·off"@.len()); }
    assert("opt"@ != "seam-off"@) by { assert("opt"@.len() != "seam-off"@.len()); }
    assert("opt"@ != "soft"@) by { assert("opt"@.len() != "soft"@.len()); }
    assert("opt"@ != "seam·soft"@) by { assert("opt"@.len() != "seam·soft"@.len()); }
    assert("opt"@ != "seam-soft"@) by { assert("opt"@.len() != "seam-soft"@.len()); }
    assert("opt"@ != "adapt"@) by { assert("opt"@.len() != "adapt"@.len()); }
    assert("opt"@ != "adaptive"@) by { assert("opt"@.len() != "adaptive"@.len()); }
    assert("opt"@ != "seam·adapt"@) by { assert("opt"@.len() != "seam·adapt"@.len()); }
    assert("opt"@ != "seam-adapt"@) by { assert("opt"@.len() != "seam-adapt"@.len()); }
    assert("denoise"@ != "off"@) by { assert("denoise"@.len() != "off"@.len()); }
    assert("denoise"@ != "seam·off"@) by { assert("denoise"@.len() != "seam·off"@.len()); }
    assert("denoise"@ != "seam-off"@) by { assert("denoise"@.len() != "seam-off"@.len()); }
    assert("denoise"@ != "soft"@) by { assert("denoise"@.len() != "soft"@.len()); }
    assert("denoise"@ != "seam·soft"@) by { assert("denoise"@.len() != "seam·soft"@.len()); }
    assert("denoise"@ != "seam-soft"@) by { assert("denoise"@.len() != "seam-soft"@.len()); }
    assert("denoise"@ != "adapt"@) by { assert("denoise"@.len() != "adapt"@.len()); }
    assert("denoise"@ != "adaptive"@) by { assert("denoise"@.len() != "adaptive"@.len()); }
    assert("denoise"@ != "seam·adapt"@) by { assert("denoise"@.len() != "seam·adapt"@.len()); }
    assert("denoise"@ != "seam-adapt"@) by { assert("denoise"@.len() != "seam-adapt"@.len()); }
    assert("denoise_opt"@ != "off"@) by { assert("denoise_opt"@.len() != "off"@.len()); }
    assert("denoise_opt"@ != "seam·off"@) by { assert("denoise_opt"@.len() != "seam·off"@.len()); }
    assert("denoise_opt"@ != "seam-off"@) by { assert("denoise_opt"@.len() != "seam-off"@.len()); }
    assert("denoise_opt"@ != "soft"@) by { assert("denoise_opt"@.len() != "soft"@.len()); }
    assert("denoise_opt"@ != "seam·soft"@) by { assert("denoise_opt"@.len() != "seam·soft"@.len()); }
    assert("denoise_opt"@ != "seam-soft"@) by { assert("denoise_opt"@.len() != "seam-soft"@.len()); }
    assert("denoise_opt"@ != "adapt"@) by { assert("denoise_opt"@.len() != "adapt"@.len()); }
    assert("denoise_opt"@ != "adaptive"@) by { assert("denoise_opt"@.len() != "adaptive"@.len()); }
    assert("denoise_opt"@ != "seam·adapt"@) by { assert("denoise_opt"@.len() != "seam·adapt"@.len()); }
    assert("denoise_opt"@ != "seam-adapt"@) by { assert("denoise_opt"@.len() != "seam-adapt"@.len()); }
    assert("seam·opt"@ != "off"@) by { assert("seam·opt"@.len() != "off"@.len()); }
    assert("seam·opt"@ != "seam·off"@) by { assert("seam·opt"@[6] != "seam·off"@[6]); }
    assert("seam·opt"@ != "seam-off"@) by { assert("seam·opt"@[4] != "seam-off"@[4]); }
    assert("seam·opt"@ != "soft"@) by { assert("seam·opt"@.len() != "soft"@.len()); }
    assert("seam·opt"@ != "seam·soft"@) by { assert("seam·opt"@.len() != "seam·soft"@.len()); }
    assert("seam·opt"@ != "seam-soft"@) by { assert("seam·opt"@.len() != "seam-soft"@.len()); }
    assert("seam·opt"@ != "adapt"@) by { assert("seam·opt"@.len() != "adapt"@.len()); }
    assert("seam·opt"@ != "adaptive"@) by { assert("seam·opt"@[0] != "adaptive"@[0]); }
    assert("seam·opt"@ != "seam·adapt"@) by { assert("seam·opt"@.len() != "seam·adapt"@.len()); }
    assert("seam·opt"@ != "seam-adapt"@) by { assert("seam·opt"@.len() != "seam-adapt"@.len()); }
    assert("seam-opt"@ != "off"@) by { assert("seam-opt"@.len() != "off"@.len()); }
    assert("seam-opt"@ != "seam·off"@) by { assert("seam-opt"@[4] != "seam·off"@[4]); }
    assert("seam-opt"@ != "seam-off"@) by { assert("seam-opt"@[6] != "seam-off"@[6]); }
    assert("seam-opt"@ != "soft"@) by { assert("seam-opt"@.len() != "soft"@.len()); }
    assert("seam-opt"@ != "seam·soft"@) by { assert("seam-opt"@.len() != "seam·soft"@.len()); }
    assert("seam-opt"@ != "seam-soft"@) by { assert("seam-opt"@.len() != "seam-soft"@.len()); }
    assert("seam-opt"@ != "adapt"@) by { assert("seam-opt"@.len() != "adapt"@.len()); }
    assert("seam-opt"@ != "adaptive"@) by { assert("seam-opt"@[0] != "adaptive"@[0]); }
    assert("seam-opt"@ != "seam·adapt"@) by { assert("seam-opt"@.len() != "seam·adapt"@.len()); }
    assert("seam-opt"@ != "seam-adapt"@) by { assert("seam-opt"@.len() != "seam-adapt"@.len()); }
}

} // verus!
