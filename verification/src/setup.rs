use vstd::prelude::*;

use crate::console::{Config, ConfigView};

verus! {

/// What happened last while the console is being set up.
pub enum SetupEvent {
    Started,
    FontLoaded,
    FontLoadFailed,
    FontApplied,
    FontApplyFailed,
    FontAnnounced,
    KeyboardSet,
    KeyboardFailed,
    KeyboardAnnounced,
}

/// What the console setup does next.
pub enum SetupAction {
    /// Load the font file at this path.
    LoadFont(String),
    /// Apply the loaded font to the console.
    ApplyFont,
    /// Report this status line to the service manager, for the font.
    AnnounceFont(String),
    /// Put the keyboard into Unicode mode.
    SetUnicode,
    /// Report this status line to the service manager, for the keyboard.
    AnnounceKeyboard(String),
    /// Nothing is left to do.
    Done,
}

/// After the font (configured or not) is dealt with: the keyboard is put in
/// Unicode mode when a keymap is configured.
pub open spec fn keyboard_step(a: SetupAction, cfg: ConfigView) -> bool {
    if cfg.keymap is Some {
        a is SetUnicode
    } else {
        a is Done
    }
}

/// The action that follows `ev` when the console is set up from `cfg`;
/// `announce` says whether successes are reported to the service manager.
pub open spec fn spec_setup_step(a: SetupAction, cfg: ConfigView, announce: bool, ev: SetupEvent) -> bool {
    match ev {
        SetupEvent::Started => match cfg.font {
            Some(p) => a matches SetupAction::LoadFont(q) && q@ == p,
            None => keyboard_step(a, cfg),
        },
        SetupEvent::FontLoaded => a is ApplyFont,
        SetupEvent::FontApplied => match cfg.font {
            Some(p) => if announce {
                a matches SetupAction::AnnounceFont(m) && m@ == "Font loaded: "@ + p
            } else {
                keyboard_step(a, cfg)
            },
            None => keyboard_step(a, cfg),
        },
        SetupEvent::FontLoadFailed | SetupEvent::FontApplyFailed | SetupEvent::FontAnnounced =>
            keyboard_step(a, cfg),
        SetupEvent::KeyboardSet => if announce {
            a matches SetupAction::AnnounceKeyboard(m) && m@ == "Keyboard set to unicode mode"@
        } else {
            a is Done
        },
        SetupEvent::KeyboardFailed | SetupEvent::KeyboardAnnounced => a is Done,
    }
}

fn keyboard_action(config: &Config) -> (a: SetupAction)
    ensures
        keyboard_step(a, config@),
{
    if config.keymap.is_some() {
        SetupAction::SetUnicode
    } else {
        SetupAction::Done
    }
}

/// The next step of setting up the console from `config`: the font (if one
/// is configured) is loaded and applied, then the keyboard is put in Unicode
/// mode (if a keymap is configured); a failure of one step is reported and
/// the setup goes on with the next.
pub fn setup_step(config: &Config, announce: bool, event: SetupEvent) -> (a: SetupAction)
    ensures
        spec_setup_step(a, config@, announce, event),
{
    match event {
        SetupEvent::Started => match &config.font {
            Some(p) => SetupAction::LoadFont(p.clone()),
            None => keyboard_action(config),
        },
        SetupEvent::FontLoaded => SetupAction::ApplyFont,
        SetupEvent::FontApplied => match &config.font {
            Some(p) => if announce {
                SetupAction::AnnounceFont(String::from_str("Font loaded: ").concat(p.as_str()))
            } else {
                keyboard_action(config)
            },
            None => keyboard_action(config),
        },
        SetupEvent::FontLoadFailed | SetupEvent::FontApplyFailed | SetupEvent::FontAnnounced =>
            keyboard_action(config),
        SetupEvent::KeyboardSet => if announce {
            SetupAction::AnnounceKeyboard(String::from_str("Keyboard set to unicode mode"))
        } else {
            SetupAction::Done
        },
        SetupEvent::KeyboardFailed | SetupEvent::KeyboardAnnounced => SetupAction::Done,
    }
}

/// The event that reports that action `a` succeeded.
pub open spec fn success_event(a: SetupAction) -> SetupEvent {
    match a {
        SetupAction::LoadFont(_) => SetupEvent::FontLoaded,
        SetupAction::ApplyFont => SetupEvent::FontApplied,
        SetupAction::AnnounceFont(_) => SetupEvent::FontAnnounced,
        SetupAction::SetUnicode => SetupEvent::KeyboardSet,
        SetupAction::AnnounceKeyboard(_) => SetupEvent::KeyboardAnnounced,
        SetupAction::Done => SetupEvent::KeyboardAnnounced,
    }
}

/// How many actions the font part of a successful setup takes.
pub open spec fn font_steps(cfg: ConfigView, announce: bool) -> int {
    if cfg.font is Some { if announce { 3 } else { 2 } } else { 0 }
}

/// How many actions the keyboard part of a successful setup takes.
pub open spec fn keyboard_steps(cfg: ConfigView, announce: bool) -> int {
    if cfg.keymap is Some { if announce { 2 } else { 1 } } else { 0 }
}

/// What the action at position `j` of a successful setup is.
spec fn step_at(a: SetupAction, j: int, cfg: ConfigView, announce: bool) -> bool {
    let f = font_steps(cfg, announce);
    let k = keyboard_steps(cfg, announce);
    if j < f {
        let p = cfg.font->Some_0;
        if j == 0 {
            a matches SetupAction::LoadFont(q) && q@ == p
        } else if j == 1 {
            a is ApplyFont
        } else {
            a matches SetupAction::AnnounceFont(m) && m@ == "Font loaded: "@ + p
        }
    } else if j < f + k {
        if j == f {
            a is SetUnicode
        } else {
            a matches SetupAction::AnnounceKeyboard(m) && m@ == "Keyboard set to unicode mode"@
        }
    } else {
        a is Done
    }
}

/// In a successful setup, the action at each position up to the last one
/// that the configuration calls for is the one that `step_at` names.
proof fn lemma_run_prefix(cfg: ConfigView, announce: bool, acts: Seq<SetupAction>, i: int)
    requires
        acts.len() > 0,
        spec_setup_step(acts[0], cfg, announce, SetupEvent::Started),
        forall|j: int| 0 < j < acts.len() ==>
            #[trigger] spec_setup_step(acts[j], cfg, announce, success_event(acts[j - 1])),
        forall|j: int| 0 <= j < acts.len() - 1 ==> !(#[trigger] acts[j] is Done),
        acts.last() is Done,
        0 <= i <= font_steps(cfg, announce) + keyboard_steps(cfg, announce),
    ensures
        i < acts.len(),
        step_at(acts[i], i, cfg, announce),
    decreases i,
{
    if i > 0 {
        lemma_run_prefix(cfg, announce, acts, i - 1);
        assert(!(acts[i - 1] is Done));
        assert(i - 1 < acts.len() - 1);
        assert(spec_setup_step(acts[i], cfg, announce, success_event(acts[i - 1])));
    }
}

/// A setup in which every step succeeds: when a font is configured it is
/// loaded, applied and (when announcing) reported, each once; then, when a
/// keymap is configured, the keyboard is put in Unicode mode and (when
/// announcing) that is reported; then the setup is done, and nothing else
/// happens on the way.
pub proof fn lemma_setup_run(cfg: ConfigView, announce: bool, acts: Seq<SetupAction>)
    requires
        acts.len() > 0,
        spec_setup_step(acts[0], cfg, announce, SetupEvent::Started),
        forall|i: int| 0 < i < acts.len() ==>
            #[trigger] spec_setup_step(acts[i], cfg, announce, success_event(acts[i - 1])),
        forall|i: int| 0 <= i < acts.len() - 1 ==> !(#[trigger] acts[i] is Done),
        acts.last() is Done,
    ensures
        acts.len() == font_steps(cfg, announce) + keyboard_steps(cfg, announce) + 1,
        cfg.font matches Some(p) ==> {
            &&& acts[0] matches SetupAction::LoadFont(q) && q@ == p
            &&& acts[1] is ApplyFont
            &&& announce ==> (acts[2] matches SetupAction::AnnounceFont(m)
                && m@ == "Font loaded: "@ + p)
        },
        cfg.keymap is Some ==> {
            &&& acts[font_steps(cfg, announce)] is SetUnicode
            &&& announce ==> (acts[font_steps(cfg, announce) + 1] matches
                SetupAction::AnnounceKeyboard(m) && m@ == "Keyboard set to unicode mode"@)
        },
{
    let f = font_steps(cfg, announce);
    lemma_run_prefix(cfg, announce, acts, f + keyboard_steps(cfg, announce));
    if cfg.font is Some {
        lemma_run_prefix(cfg, announce, acts, 0);
        lemma_run_prefix(cfg, announce, acts, 1);
        if announce {
            lemma_run_prefix(cfg, announce, acts, 2);
        }
    }
    if cfg.keymap is Some {
        lemma_run_prefix(cfg, announce, acts, f);
        if announce {
            lemma_run_prefix(cfg, announce, acts, f + 1);
        }
    }
}

/// A failed font step changes nothing in the keyboard part of the setup:
/// after the font fails to load or to apply, the keyboard is still put in
/// Unicode mode when a keymap is configured, and the setup ends only when
/// none is; this is the step that a setup with no font starts with.
pub proof fn lemma_font_failure_keeps_keyboard(cfg: ConfigView, announce: bool, ev: SetupEvent, a: SetupAction)
    requires
        ev is FontLoadFailed || ev is FontApplyFailed,
        spec_setup_step(a, cfg, announce, ev),
    ensures
        cfg.keymap is Some ==> a is SetUnicode,
        cfg.keymap is None ==> a is Done,
        spec_setup_step(a, ConfigView { font: None, ..cfg }, announce, SetupEvent::Started),
{
}

/// Whether `ev` can report the outcome of carrying out `a`: its success,
/// or, for the steps that can fail (loading or applying the font, setting
/// the keyboard mode), its failure.
pub open spec fn outcome_of(ev: SetupEvent, a: SetupAction) -> bool {
    match a {
        SetupAction::LoadFont(_) => ev is FontLoaded || ev is FontLoadFailed,
        SetupAction::ApplyFont => ev is FontApplied || ev is FontApplyFailed,
        SetupAction::AnnounceFont(_) => ev is FontAnnounced,
        SetupAction::SetUnicode => ev is KeyboardSet || ev is KeyboardFailed,
        SetupAction::AnnounceKeyboard(_) => ev is KeyboardAnnounced,
        SetupAction::Done => false,
    }
}

/// The place of an action in the order of the setup: loading the font,
/// applying it, reporting it, setting the keyboard mode, reporting that,
/// and being done.
pub open spec fn stage(a: SetupAction) -> int {
    match a {
        SetupAction::LoadFont(_) => 0,
        SetupAction::ApplyFont => 1,
        SetupAction::AnnounceFont(_) => 2,
        SetupAction::SetUnicode => 3,
        SetupAction::AnnounceKeyboard(_) => 4,
        SetupAction::Done => 5,
    }
}

/// The conditions of a setup run, with failures allowed: `acts[i]` is the
/// action chosen after event `evs[i]`, and each event after the first
/// reports an outcome of the action before it.
pub open spec fn is_setup_run(cfg: ConfigView, announce: bool, acts: Seq<SetupAction>, evs: Seq<SetupEvent>) -> bool {
    &&& acts.len() > 0
    &&& evs.len() == acts.len()
    &&& evs[0] is Started
    &&& forall|i: int| 0 <= i < acts.len() ==> #[trigger] spec_setup_step(acts[i], cfg, announce, evs[i])
    &&& forall|i: int| 0 < i < acts.len() ==> #[trigger] outcome_of(evs[i], acts[i - 1])
}

proof fn lemma_run_stages(cfg: ConfigView, announce: bool, acts: Seq<SetupAction>, evs: Seq<SetupEvent>, j: int)
    requires
        is_setup_run(cfg, announce, acts, evs),
        0 <= j < acts.len(),
    ensures
        stage(acts[j]) >= j,
        forall|i: int| 0 <= i < j ==> stage(#[trigger] acts[i]) < stage(acts[j]),
        stage(acts[j]) >= 3 ==> cfg.keymap is None || exists|i: int|
            0 <= i <= j && #[trigger] acts[i] is SetUnicode,
    decreases j,
{
    if j > 0 {
        lemma_run_stages(cfg, announce, acts, evs, j - 1);
        assert(outcome_of(evs[j], acts[j - 1]));
        assert(spec_setup_step(acts[j], cfg, announce, evs[j]));
        assert(stage(acts[j]) > stage(acts[j - 1]));
        if stage(acts[j]) >= 3 && cfg.keymap is Some {
            if stage(acts[j - 1]) >= 3 {
                let i = choose|i: int| 0 <= i <= j - 1 && #[trigger] acts[i] is SetUnicode;
                assert(acts[i] is SetUnicode);
            } else {
                assert(acts[j] is SetUnicode);
            }
        }
    } else {
        assert(spec_setup_step(acts[0], cfg, announce, evs[0]));
        if stage(acts[0]) >= 3 && cfg.keymap is Some {
            assert(acts[0] is SetUnicode);
        }
    }
}

/// Any run of the setup, whichever steps fail, ends after at most six
/// actions, and its actions come in the order that `stage` gives, each at
/// most once. The font is loaded exactly when one is configured, as the
/// first action; and, once the run is done, the keyboard has been put in
/// Unicode mode exactly when a keymap is configured, whether or not the
/// font steps failed.
pub proof fn lemma_setup_any_run(cfg: ConfigView, announce: bool, acts: Seq<SetupAction>, evs: Seq<SetupEvent>)
    requires
        is_setup_run(cfg, announce, acts, evs),
        acts.last() is Done,
    ensures
        acts.len() <= 6,
        forall|i: int, j: int| 0 <= i < j < acts.len() ==> stage(#[trigger] acts[i]) < stage(#[trigger] acts[j]),
        (exists|i: int| 0 <= i < acts.len() && #[trigger] acts[i] is LoadFont) <==> cfg.font is Some,
        cfg.font matches Some(p) ==> (acts[0] matches SetupAction::LoadFont(q) && q@ == p),
        (exists|i: int| 0 <= i < acts.len() && #[trigger] acts[i] is SetUnicode) <==> cfg.keymap is Some,
{
    let n = acts.len() - 1;
    lemma_run_stages(cfg, announce, acts, evs, n);
    assert forall|i: int, j: int| 0 <= i < j < acts.len() implies stage(#[trigger] acts[i]) < stage(#[trigger] acts[j]) by {
        lemma_run_stages(cfg, announce, acts, evs, j);
    }
    assert(spec_setup_step(acts[0], cfg, announce, evs[0]));
    assert forall|i: int| 0 <= i < acts.len() && #[trigger] acts[i] is LoadFont implies cfg.font is Some by {
        assert(spec_setup_step(acts[i], cfg, announce, evs[i]));
        if i > 0 {
            assert(outcome_of(evs[i], acts[i - 1]));
        }
    }
    assert forall|i: int| 0 <= i < acts.len() && #[trigger] acts[i] is SetUnicode implies cfg.keymap is Some by {
        assert(spec_setup_step(acts[i], cfg, announce, evs[i]));
    }
    if cfg.font is Some {
        assert(acts[0] is LoadFont);
    }
}

} // verus!
