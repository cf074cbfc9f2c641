//! Behavior settings: combos, forks, morse (tap-dance) keys, timeouts and the
//! macro buffer, plus the compact form of the timeouts that storage keeps.
use vstd::prelude::*;

use crate::action::{Action, KeyAction};
use crate::config::MACRO_SPACE_SIZE;

verus! {

/// Timing and decision settings of a morse key, kept as its packed raw bits.
#[derive(Clone, Copy, Debug, PartialEq, Eq, Structural)]
pub struct MorseProfile(pub u32);

/// A combo: pressing all `actions` together produces `output`.
pub struct ComboConfig {
    pub actions: Vec<KeyAction>,
    pub output: KeyAction,
    pub layer: Option<u8>,
}

impl ComboConfig {
    /// The empty combo, written for a combo slot that holds nothing.
    pub fn empty() -> (r: ComboConfig)
        ensures
            r.actions@ == Seq::<KeyAction>::empty(),
            r.output == KeyAction::No,
            r.layer is None,
    {
        ComboConfig { actions: Vec::new(), output: KeyAction::No, layer: None }
    }

    /// True when the combo has no trigger keys and no output.
    pub open spec fn spec_is_empty(&self) -> bool {
        self.actions@.len() == 0 && self.output == KeyAction::No
    }

    /// True when the combo has no trigger keys and no output.
    pub fn is_empty(&self) -> (r: bool)
        ensures
            r == self.spec_is_empty(),
    {
        self.actions.len() == 0 && self.output == KeyAction::No
    }

    /// A copy of this combo.
    pub fn duplicate(&self) -> (r: ComboConfig)
        ensures
            r.actions@ == self.actions@,
            r.output == self.output,
            r.layer == self.layer,
    {
        let mut actions: Vec<KeyAction> = Vec::new();
        let n = self.actions.len();
        for i in 0..n
            invariant
                n == self.actions@.len(),
                actions@ == self.actions@.take(i as int),
        {
            actions.push(self.actions[i]);
            assert(actions@ =~= self.actions@.take(i + 1));
        }
        assert(actions@ =~= self.actions@);
        ComboConfig { actions, output: self.output, layer: self.layer }
    }
}

/// A combo slot in use.
pub struct Combo {
    pub config: ComboConfig,
}

impl Combo {
    /// A combo built from its configuration.
    pub fn new(config: ComboConfig) -> (r: Combo)
        ensures
            r.config == config,
    {
        Combo { config }
    }
}

/// A fork: `trigger` produces `positive_output` when the `match_any` state bits
/// hold and `match_none` do not, else `negative_output`.
#[derive(Clone, Copy, Debug, PartialEq, Eq, Structural)]
pub struct Fork {
    pub trigger: KeyAction,
    pub negative_output: KeyAction,
    pub positive_output: KeyAction,
    pub match_any: u16,
    pub match_none: u16,
    pub kept_modifiers: u8,
    pub bindable: bool,
}

impl Fork {
    /// The empty fork.
    pub fn empty() -> (r: Fork)
        ensures
            r.trigger == KeyAction::No,
            r.negative_output == KeyAction::No,
            r.positive_output == KeyAction::No,
            r.match_any == 0 && r.match_none == 0 && r.kept_modifiers == 0 && !r.bindable,
    {
        Fork {
            trigger: KeyAction::No,
            negative_output: KeyAction::No,
            positive_output: KeyAction::No,
            match_any: 0,
            match_none: 0,
            kept_modifiers: 0,
            bindable: false,
        }
    }
}

/// A morse (tap-dance) key: a profile and the action for each tap/hold pattern.
pub struct Morse {
    pub profile: MorseProfile,
    pub actions: Vec<(u16, Action)>,
}

impl Morse {
    /// A morse key with the given profile and no actions.
    pub fn new(profile: MorseProfile) -> (r: Morse)
        ensures
            r.profile == profile,
            r.actions@ == Seq::<(u16, Action)>::empty(),
    {
        Morse { profile, actions: Vec::new() }
    }

    /// A copy of this morse key.
    pub fn duplicate(&self) -> (r: Morse)
        ensures
            r.profile == self.profile,
            r.actions@ == self.actions@,
    {
        let mut actions: Vec<(u16, Action)> = Vec::new();
        let n = self.actions.len();
        for i in 0..n
            invariant
                n == self.actions@.len(),
                actions@ == self.actions@.take(i as int),
        {
            actions.push(self.actions[i]);
            assert(actions@ =~= self.actions@.take(i + 1));
        }
        assert(actions@ =~= self.actions@);
        Morse { profile: self.profile, actions }
    }
}

/// The behavior settings of the keyboard, with every duration in milliseconds.
pub struct BehaviorConfig {
    /// The default (base) layer.
    pub default_layer: u8,
    /// Typing idle time before a morse key may resolve to hold.
    pub prior_idle_time_ms: u64,
    /// The profile a morse key without its own uses.
    pub morse_default_profile: MorseProfile,
    /// Time within which combo keys must be pressed.
    pub combo_timeout_ms: u64,
    /// Time a one-shot modifier or layer stays armed.
    pub one_shot_timeout_ms: u64,
    /// Interval between the press and release of a tapped key.
    pub tap_interval: u16,
    /// Interval between the press and release of a tapped caps lock.
    pub tap_capslock_interval: u16,
    /// The macro buffer, `MACRO_SPACE_SIZE` bytes.
    pub macro_sequences: Vec<u8>,
    /// Combo slots.
    pub combos: Vec<Option<Combo>>,
    /// Fork slots.
    pub forks: Vec<Fork>,
    /// Morse slots.
    pub morses: Vec<Morse>,
}

impl BehaviorConfig {
    /// Well-formed: the macro buffer has its full size.
    pub open spec fn wf(&self) -> bool {
        self.macro_sequences@.len() == MACRO_SPACE_SIZE
    }

    /// Settings with the given numbers of empty combo, fork and morse slots,
    /// an all-zero macro buffer and the stock timings.
    pub fn new(num_combos: usize, num_forks: usize, num_morses: usize) -> (r: BehaviorConfig)
        ensures
            r.wf(),
            r.default_layer == 0,
            r.prior_idle_time_ms == 120,
            r.morse_default_profile == MorseProfile(0),
            r.combo_timeout_ms == 50,
            r.one_shot_timeout_ms == 1000,
            r.tap_interval == 20,
            r.tap_capslock_interval == 20,
            forall|i: int| 0 <= i < MACRO_SPACE_SIZE ==> r.macro_sequences@[i] == 0,
            r.combos@.len() == num_combos,
            forall|i: int| 0 <= i < num_combos ==> r.combos@[i] is None,
            r.forks@.len() == num_forks,
            forall|i: int| 0 <= i < num_forks ==> r.forks@[i].trigger == KeyAction::No,
            r.morses@.len() == num_morses,
    {
        let mut macro_sequences: Vec<u8> = Vec::new();
        for i in 0..MACRO_SPACE_SIZE
            invariant
                macro_sequences@.len() == i,
                forall|j: int| 0 <= j < i ==> macro_sequences@[j] == 0,
        {
            macro_sequences.push(0);
        }
        let mut combos: Vec<Option<Combo>> = Vec::new();
        for i in 0..num_combos
            invariant
                combos@.len() == i,
                forall|j: int| 0 <= j < i ==> combos@[j] is None,
        {
            combos.push(None);
        }
        let mut forks: Vec<Fork> = Vec::new();
        for i in 0..num_forks
            invariant
                forks@.len() == i,
                forall|j: int| 0 <= j < i ==> forks@[j].trigger == KeyAction::No,
        {
            forks.push(Fork::empty());
        }
        let mut morses: Vec<Morse> = Vec::new();
        for i in 0..num_morses
            invariant
                morses@.len() == i,
        {
            morses.push(Morse::new(MorseProfile(0)));
        }
        BehaviorConfig {
            default_layer: 0,
            prior_idle_time_ms: 120,
            morse_default_profile: MorseProfile(0),
            combo_timeout_ms: 50,
            one_shot_timeout_ms: 1000,
            tap_interval: 20,
            tap_capslock_interval: 20,
            macro_sequences,
            combos,
            forks,
            morses,
        }
    }
}

/// The timing settings as storage keeps them: timeouts in milliseconds, cut to
/// 16 bits.
#[derive(Clone, Copy, Debug, PartialEq, Eq, Structural)]
pub struct StoredBehaviorConfig {
    pub prior_idle_time: u16,
    pub morse_default_profile: MorseProfile,
    pub combo_timeout: u16,
    pub one_shot_timeout: u16,
    pub tap_interval: u16,
    pub tap_capslock_interval: u16,
}

/// A millisecond count cut to its low 16 bits.
pub open spec fn ms_to_u16(ms: u64) -> u16 {
    (ms % 0x10000) as u16
}

/// The stored form of a behavior's timing settings.
pub open spec fn spec_stored_behavior(b: BehaviorView) -> StoredBehaviorConfig {
    StoredBehaviorConfig {
        prior_idle_time: ms_to_u16(b.prior_idle_time_ms),
        morse_default_profile: b.morse_default_profile,
        combo_timeout: ms_to_u16(b.combo_timeout_ms),
        one_shot_timeout: ms_to_u16(b.one_shot_timeout_ms),
        tap_interval: b.tap_interval,
        tap_capslock_interval: b.tap_capslock_interval,
    }
}

impl StoredBehaviorConfig {
    /// The stored form of `behavior`'s timing settings. Durations are taken in
    /// whole milliseconds and cut to 16 bits, as an `as u16` cast does.
    pub fn from_behavior(behavior: &BehaviorConfig) -> (r: StoredBehaviorConfig)
        ensures
            r == spec_stored_behavior(behavior@),
            r.prior_idle_time == ms_to_u16(behavior.prior_idle_time_ms),
            r.morse_default_profile == behavior.morse_default_profile,
            r.combo_timeout == ms_to_u16(behavior.combo_timeout_ms),
            r.one_shot_timeout == ms_to_u16(behavior.one_shot_timeout_ms),
            r.tap_interval == behavior.tap_interval,
            r.tap_capslock_interval == behavior.tap_capslock_interval,
    {
        StoredBehaviorConfig {
            prior_idle_time: (behavior.prior_idle_time_ms % 0x10000) as u16,
            morse_default_profile: behavior.morse_default_profile,
            combo_timeout: (behavior.combo_timeout_ms % 0x10000) as u16,
            one_shot_timeout: (behavior.one_shot_timeout_ms % 0x10000) as u16,
            tap_interval: behavior.tap_interval,
            tap_capslock_interval: behavior.tap_capslock_interval,
        }
    }
}

// ---------------------------------------------------------------------------
// Mathematical views
// ---------------------------------------------------------------------------

/// A combo's configuration as values.
#[verifier::ext_equal]
pub struct ComboView {
    pub actions: Seq<KeyAction>,
    pub output: KeyAction,
    pub layer: Option<u8>,
}

impl View for ComboConfig {
    type V = ComboView;

    open spec fn view(&self) -> ComboView {
        ComboView { actions: self.actions@, output: self.output, layer: self.layer }
    }
}

/// A morse key as values.
#[verifier::ext_equal]
pub struct MorseView {
    pub profile: MorseProfile,
    pub actions: Seq<(u16, Action)>,
}

impl View for Morse {
    type V = MorseView;

    open spec fn view(&self) -> MorseView {
        MorseView { profile: self.profile, actions: self.actions@ }
    }
}

/// The view of a combo slot: the configuration of the combo it holds.
pub open spec fn spec_combo_slot_view(c: Option<Combo>) -> Option<ComboView> {
    match c {
        Some(x) => Some(x.config@),
        None => None,
    }
}

/// The behavior settings as values.
#[verifier::ext_equal]
pub struct BehaviorView {
    pub default_layer: u8,
    pub prior_idle_time_ms: u64,
    pub morse_default_profile: MorseProfile,
    pub combo_timeout_ms: u64,
    pub one_shot_timeout_ms: u64,
    pub tap_interval: u16,
    pub tap_capslock_interval: u16,
    pub macro_sequences: Seq<u8>,
    pub combos: Seq<Option<ComboView>>,
    pub forks: Seq<Fork>,
    pub morses: Seq<MorseView>,
}

impl View for BehaviorConfig {
    type V = BehaviorView;

    open spec fn view(&self) -> BehaviorView {
        BehaviorView {
            default_layer: self.default_layer,
            prior_idle_time_ms: self.prior_idle_time_ms,
            morse_default_profile: self.morse_default_profile,
            combo_timeout_ms: self.combo_timeout_ms,
            one_shot_timeout_ms: self.one_shot_timeout_ms,
            tap_interval: self.tap_interval,
            tap_capslock_interval: self.tap_capslock_interval,
            macro_sequences: self.macro_sequences@,
            combos: self.combos@.map_values(|c: Option<Combo>| spec_combo_slot_view(c)),
            forks: self.forks@,
            morses: self.morses@.map_values(|m: Morse| m@),
        }
    }
}

} // verus!
