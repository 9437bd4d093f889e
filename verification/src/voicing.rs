//! Whether a patch plays mono or poly: what a probe heard, what Surge XT's scene
//! parameters say, and the decision drawn from both.
use vstd::prelude::*;

use crate::text::{chars_are, find_chars_from, lowercase_chars, string_chars, trim_chars};

verus! {

/// The CLAP plugin ID of Surge XT, whose scene parameters are read.
pub const SURGE_PLUGIN_ID: &'static str = "org.surge-synth-team.surge-xt";

#[derive(Clone, Copy, Debug, PartialEq, Eq, Structural)]
pub enum PatchVoicing {
    Mono,
    Poly,
    Unknown,
}

#[derive(Clone, Copy, Debug, PartialEq, Eq, Structural)]
pub enum SurgeVoicing {
    Mono,
    Poly,
    Mixed,
    Unknown,
}

/// What a rendering probe of the patch heard.
#[derive(Clone, Debug, PartialEq, Eq)]
pub struct ProbeReport {
    pub result: PatchVoicing,
    pub ended_note_ids: Vec<u32>,
    pub blocks: u32,
}

/// The plugin's own voice-info extension.
#[derive(Clone, Debug, PartialEq, Eq)]
pub struct VoiceInfoReport {
    pub voice_count: u32,
    pub voice_capacity: u32,
    pub supports_overlapping_notes: bool,
}

/// Surge XT's scene parameters, as their display texts, and what they mean.
#[derive(Clone, Debug, PartialEq, Eq)]
pub struct SurgeParamsReport {
    pub scene_mode: String,
    pub active_scene: String,
    pub scene_a_play_mode: String,
    pub scene_b_play_mode: String,
    pub result: SurgeVoicing,
}

/// Everything known about a patch's voicing, and the decision.
#[derive(Clone, Debug, PartialEq, Eq)]
pub struct VoicingReport {
    pub decision: PatchVoicing,
    pub probe: ProbeReport,
    pub voice_info: Option<VoiceInfoReport>,
    pub surge: Option<SurgeParamsReport>,
    pub disagreement: bool,
}

/// The scene parameters found so far while walking the plugin's parameters.
pub struct SurgeParamValues {
    pub scene_mode: Option<String>,
    pub active_scene: Option<String>,
    pub scene_a_play_mode: Option<String>,
    pub scene_b_play_mode: Option<String>,
}

/// The probe and Surge XT disagree: one says mono where the other says poly or mixed.
pub open spec fn spec_disagreement(probe: PatchVoicing, surge: Option<SurgeVoicing>) -> bool {
    match surge {
        Some(SurgeVoicing::Mono) => probe == PatchVoicing::Poly,
        Some(SurgeVoicing::Poly) | Some(SurgeVoicing::Mixed) => probe == PatchVoicing::Mono,
        _ => false,
    }
}

/// Surge XT's scene parameters, when they say poly or mixed, outrank the probe.
pub open spec fn spec_decision(probe: PatchVoicing, surge: Option<SurgeVoicing>) -> PatchVoicing {
    match surge {
        Some(SurgeVoicing::Poly) | Some(SurgeVoicing::Mixed) => PatchVoicing::Poly,
        _ => probe,
    }
}

pub open spec fn surge_result(surge: Option<SurgeParamsReport>) -> Option<SurgeVoicing> {
    match surge {
        Some(s) => Some(s.result),
        None => None,
    }
}

/// Combines the probe with the plugin's own reports.
pub fn build_voicing_report(
    probe: ProbeReport,
    voice_info: Option<VoiceInfoReport>,
    surge: Option<SurgeParamsReport>,
) -> (report: VoicingReport)
    ensures
        report.decision == spec_decision(probe.result, surge_result(surge)),
        report.disagreement == spec_disagreement(probe.result, surge_result(surge)),
        report.probe == probe,
        report.voice_info == voice_info,
        report.surge == surge,
{
    let surge_voicing: Option<SurgeVoicing> = match &surge {
        Some(s) => Some(s.result),
        None => None,
    };
    let disagreement = match surge_voicing {
        Some(SurgeVoicing::Mono) => probe.result == PatchVoicing::Poly,
        Some(SurgeVoicing::Poly) | Some(SurgeVoicing::Mixed) => probe.result == PatchVoicing::Mono,
        _ => false,
    };
    let decision = match surge_voicing {
        Some(SurgeVoicing::Poly) | Some(SurgeVoicing::Mixed) => PatchVoicing::Poly,
        _ => probe.result,
    };
    VoicingReport { decision, probe, voice_info, surge, disagreement }
}

/// A display text as compared: trimmed of white space, ASCII letters in lower case.
pub open spec fn normalized(text: Seq<char>) -> Seq<char> {
    crate::text::ascii_lower(crate::text::trimmed(text))
}

fn normalize(text: &str) -> (out: Vec<char>)
    ensures
        out@ == normalized(text@),
{
    let chars = string_chars(text);
    let trimmed = trim_chars(&chars);
    lowercase_chars(&trimmed)
}

/// The labels Surge XT shows for its mono play modes.
pub open spec fn is_mono_label(t: Seq<char>) -> bool {
    ||| t == "mono"@
    ||| t == "mono (single trigger)"@
    ||| t == "mono (fingered portamento)"@
    ||| t == "mono (single trigger & fingered portamento)"@
    ||| t == "latch (monophonic)"@
}

/// What a scene's play mode text means.
pub open spec fn spec_classify_play_mode(value: Seq<char>) -> PatchVoicing {
    let t = normalized(value);
    if t == "poly"@ {
        PatchVoicing::Poly
    } else if is_mono_label(t) {
        PatchVoicing::Mono
    } else {
        PatchVoicing::Unknown
    }
}

pub fn classify_play_mode(value: &str) -> (voicing: PatchVoicing)
    ensures
        voicing == spec_classify_play_mode(value@),
{
    let t = normalize(value);
    if chars_are(&t, "poly") {
        PatchVoicing::Poly
    } else if chars_are(&t, "mono") || chars_are(&t, "mono (single trigger)") || chars_are(
        &t,
        "mono (fingered portamento)",
    ) || chars_are(&t, "mono (single trigger & fingered portamento)") || chars_are(
        &t,
        "latch (monophonic)",
    ) {
        PatchVoicing::Mono
    } else {
        PatchVoicing::Unknown
    }
}

pub open spec fn spec_surge_from_single(value: PatchVoicing) -> SurgeVoicing {
    match value {
        PatchVoicing::Mono => SurgeVoicing::Mono,
        PatchVoicing::Poly => SurgeVoicing::Poly,
        PatchVoicing::Unknown => SurgeVoicing::Unknown,
    }
}

pub fn surge_from_single(value: PatchVoicing) -> (voicing: SurgeVoicing)
    ensures
        voicing == spec_surge_from_single(value),
{
    match value {
        PatchVoicing::Mono => SurgeVoicing::Mono,
        PatchVoicing::Poly => SurgeVoicing::Poly,
        PatchVoicing::Unknown => SurgeVoicing::Unknown,
    }
}

/// What Surge XT's scene mode, active scene and the two play modes say together: in
/// single mode the active scene decides; in split and dual modes both scenes play.
pub open spec fn spec_classify_surge(
    scene_mode: Seq<char>,
    active_scene: Seq<char>,
    a: Seq<char>,
    b: Seq<char>,
) -> SurgeVoicing {
    let a = spec_classify_play_mode(a);
    let b = spec_classify_play_mode(b);
    let mode = normalized(scene_mode);
    let active = normalized(active_scene);
    if mode == "single"@ {
        if active == "a"@ || active == "0"@ {
            spec_surge_from_single(a)
        } else if active == "b"@ || active == "1"@ {
            spec_surge_from_single(b)
        } else {
            SurgeVoicing::Unknown
        }
    } else if !(mode == "key split"@ || mode == "dual"@ || mode == "channel split"@) {
        SurgeVoicing::Unknown
    } else {
        match (a, b) {
            (PatchVoicing::Mono, PatchVoicing::Mono) => SurgeVoicing::Mono,
            (PatchVoicing::Poly, PatchVoicing::Poly) => SurgeVoicing::Poly,
            (PatchVoicing::Mono, PatchVoicing::Poly) | (PatchVoicing::Poly, PatchVoicing::Mono) =>
                SurgeVoicing::Mixed,
            _ => SurgeVoicing::Unknown,
        }
    }
}

/// In single scene mode only the active scene plays: with scene B active (`b` or `1`,
/// in any case and spacing) the answer is what scene B's play mode says, whatever
/// scene A's says; with scene A active (`a` or `0`) it is what scene A's says,
/// whatever scene B's says.
pub proof fn law_single_mode_follows_the_active_scene(
    scene_mode: Seq<char>,
    active_scene: Seq<char>,
    a: Seq<char>,
    other_a: Seq<char>,
    b: Seq<char>,
    other_b: Seq<char>,
)
    requires
        normalized(scene_mode) == "single"@,
    ensures
        normalized(active_scene) == "b"@ || normalized(active_scene) == "1"@ ==> {
            &&& spec_classify_surge(scene_mode, active_scene, a, b) == spec_classify_surge(
                scene_mode,
                active_scene,
                other_a,
                b,
            )
            &&& (spec_classify_play_mode(b) == PatchVoicing::Poly ==> spec_classify_surge(
                scene_mode,
                active_scene,
                a,
                b,
            ) == SurgeVoicing::Poly)
            &&& (spec_classify_play_mode(b) == PatchVoicing::Mono ==> spec_classify_surge(
                scene_mode,
                active_scene,
                a,
                b,
            ) == SurgeVoicing::Mono)
        },
        normalized(active_scene) == "a"@ || normalized(active_scene) == "0"@ ==> {
            &&& spec_classify_surge(scene_mode, active_scene, a, b) == spec_classify_surge(
                scene_mode,
                active_scene,
                a,
                other_b,
            )
            &&& (spec_classify_play_mode(a) == PatchVoicing::Poly ==> spec_classify_surge(
                scene_mode,
                active_scene,
                a,
                b,
            ) == SurgeVoicing::Poly)
            &&& (spec_classify_play_mode(a) == PatchVoicing::Mono ==> spec_classify_surge(
                scene_mode,
                active_scene,
                a,
                b,
            ) == SurgeVoicing::Mono)
        },
{
    reveal_strlit("a");
    reveal_strlit("b");
    reveal_strlit("0");
    reveal_strlit("1");
    assert("b"@ != "a"@ && "b"@ != "0"@) by {
        assert("b"@[0] != "a"@[0] && "b"@[0] != "0"@[0]);
    }
    assert("1"@ != "a"@ && "1"@ != "0"@) by {
        assert("1"@[0] != "a"@[0] && "1"@[0] != "0"@[0]);
    }
}

/// In a split or dual scene mode both scenes play, so the order of the two play modes
/// does not matter: two mono scenes are mono, two poly scenes poly, and one of each
/// mixed.
pub proof fn law_both_scenes_play_in_split_modes(
    scene_mode: Seq<char>,
    active_scene: Seq<char>,
    a: Seq<char>,
    b: Seq<char>,
)
    requires
        normalized(scene_mode) == "key split"@ || normalized(scene_mode) == "dual"@ || normalized(
            scene_mode,
        ) == "channel split"@,
    ensures
        spec_classify_surge(scene_mode, active_scene, a, b) == spec_classify_surge(
            scene_mode,
            active_scene,
            b,
            a,
        ),
        spec_classify_play_mode(a) == PatchVoicing::Mono && spec_classify_play_mode(b)
            == PatchVoicing::Mono ==> spec_classify_surge(scene_mode, active_scene, a, b)
            == SurgeVoicing::Mono,
        spec_classify_play_mode(a) == PatchVoicing::Poly && spec_classify_play_mode(b)
            == PatchVoicing::Poly ==> spec_classify_surge(scene_mode, active_scene, a, b)
            == SurgeVoicing::Poly,
        spec_classify_play_mode(a) == PatchVoicing::Mono && spec_classify_play_mode(b)
            == PatchVoicing::Poly ==> spec_classify_surge(scene_mode, active_scene, a, b)
            == SurgeVoicing::Mixed,
{
    reveal_strlit("single");
    reveal_strlit("key split");
    reveal_strlit("dual");
    reveal_strlit("channel split");
    assert("key split"@ != "single"@ && "dual"@ != "single"@ && "channel split"@ != "single"@)
        by {
        assert("key split"@[0] != "single"@[0] && "dual"@[0] != "single"@[0]
            && "channel split"@[0] != "single"@[0]);
    }
}

pub fn classify_surge(scene_mode: &str, active_scene: &str, a: &str, b: &str) -> (voicing:
    SurgeVoicing)
    ensures
        voicing == spec_classify_surge(scene_mode@, active_scene@, a@, b@),
{
    let a = classify_play_mode(a);
    let b = classify_play_mode(b);
    let mode = normalize(scene_mode);
    if chars_are(&mode, "single") {
        let active = normalize(active_scene);
        if chars_are(&active, "a") || chars_are(&active, "0") {
            return surge_from_single(a);
        } else if chars_are(&active, "b") || chars_are(&active, "1") {
            return surge_from_single(b);
        } else {
            return SurgeVoicing::Unknown;
        }
    }
    if !(chars_are(&mode, "key split") || chars_are(&mode, "dual") || chars_are(
        &mode,
        "channel split",
    )) {
        return SurgeVoicing::Unknown;
    }
    match (a, b) {
        (PatchVoicing::Mono, PatchVoicing::Mono) => SurgeVoicing::Mono,
        (PatchVoicing::Poly, PatchVoicing::Poly) => SurgeVoicing::Poly,
        (PatchVoicing::Mono, PatchVoicing::Poly) | (PatchVoicing::Poly, PatchVoicing::Mono) =>
            SurgeVoicing::Mixed,
        _ => SurgeVoicing::Unknown,
    }
}

pub open spec fn option_text(value: Option<String>) -> Option<Seq<char>> {
    match value {
        Some(v) => Some(v@),
        None => None,
    }
}

/// Which scene parameter a parameter's name and module make it, if any: 1 scene mode,
/// 2 active scene, 3 and 4 the play modes of scenes A and B.
pub open spec fn surge_param_slot(name: Seq<char>, module: Seq<char>) -> int {
    let name = crate::text::ascii_lower(name);
    let module = crate::text::ascii_lower(module);
    if name == "scene mode"@ {
        1
    } else if name == "active scene"@ {
        2
    } else if name == "a play mode"@ {
        3
    } else if name == "b play mode"@ {
        4
    } else if name == "play mode"@ && crate::text::first_match(module, "scene a"@) is Some {
        3
    } else if name == "play mode"@ && crate::text::first_match(module, "scene b"@) is Some {
        4
    } else {
        0
    }
}

impl SurgeParamValues {
    pub fn new() -> (values: SurgeParamValues)
        ensures
            values.scene_mode is None && values.active_scene is None,
            values.scene_a_play_mode is None && values.scene_b_play_mode is None,
    {
        SurgeParamValues {
            scene_mode: None,
            active_scene: None,
            scene_a_play_mode: None,
            scene_b_play_mode: None,
        }
    }

    /// All four parameters, with what they say; `None` while one is missing.
    pub fn into_report(self) -> (report: Option<SurgeParamsReport>)
        ensures
            report is Some <==> (self.scene_mode is Some && self.active_scene is Some
                && self.scene_a_play_mode is Some && self.scene_b_play_mode is Some),
            report matches Some(r) ==> {
                &&& Some(r.scene_mode@) == option_text(self.scene_mode)
                &&& Some(r.active_scene@) == option_text(self.active_scene)
                &&& Some(r.scene_a_play_mode@) == option_text(self.scene_a_play_mode)
                &&& Some(r.scene_b_play_mode@) == option_text(self.scene_b_play_mode)
                &&& r.result == spec_classify_surge(
                    r.scene_mode@,
                    r.active_scene@,
                    r.scene_a_play_mode@,
                    r.scene_b_play_mode@,
                )
            },
    {
        let scene_mode = match self.scene_mode {
            Some(v) => v,
            None => return None,
        };
        let active_scene = match self.active_scene {
            Some(v) => v,
            None => return None,
        };
        let scene_a_play_mode = match self.scene_a_play_mode {
            Some(v) => v,
            None => return None,
        };
        let scene_b_play_mode = match self.scene_b_play_mode {
            Some(v) => v,
            None => return None,
        };
        let result = classify_surge(
            scene_mode.as_str(),
            active_scene.as_str(),
            scene_a_play_mode.as_str(),
            scene_b_play_mode.as_str(),
        );
        Some(
            SurgeParamsReport {
                scene_mode,
                active_scene,
                scene_a_play_mode,
                scene_b_play_mode,
                result,
            },
        )
    }
}

/// Keeps `value` if the parameter `name` of `module` is one of the scene parameters.
pub fn record_surge_param(values: &mut SurgeParamValues, name: &str, module: &str, value: String)
    ensures
        ({
            let slot = surge_param_slot(name@, module@);
            &&& final(values).scene_mode == (if slot == 1 {
                Some(value)
            } else {
                old(values).scene_mode
            })
            &&& final(values).active_scene == (if slot == 2 {
                Some(value)
            } else {
                old(values).active_scene
            })
            &&& final(values).scene_a_play_mode == (if slot == 3 {
                Some(value)
            } else {
                old(values).scene_a_play_mode
            })
            &&& final(values).scene_b_play_mode == (if slot == 4 {
                Some(value)
            } else {
                old(values).scene_b_play_mode
            })
        }),
{
    let name_chars = string_chars(name);
    let module_chars = string_chars(module);
    let name = lowercase_chars(&name_chars);
    let module = lowercase_chars(&module_chars);
    if chars_are(&name, "scene mode") {
        values.scene_mode = Some(value);
    } else if chars_are(&name, "active scene") {
        values.active_scene = Some(value);
    } else if chars_are(&name, "a play mode") {
        values.scene_a_play_mode = Some(value);
    } else if chars_are(&name, "b play mode") {
        values.scene_b_play_mode = Some(value);
    } else if chars_are(&name, "play mode") {
        let scene_a = string_chars("scene a");
        let scene_b = string_chars("scene b");
        if find_chars_from(&module, &scene_a, 0).is_some() {
            values.scene_a_play_mode = Some(value);
        } else if find_chars_from(&module, &scene_b, 0).is_some() {
            values.scene_b_play_mode = Some(value);
        }
    }
}

} // verus!
