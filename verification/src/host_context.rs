//! The keymap as the host services (Vial, Rynk) see it, and the context they
//! share: every read answers from the keymap, every write updates it and
//! answers the item to persist.
use vstd::prelude::*;

use crate::action::{EncoderAction, KeyAction};
use crate::behavior::{
    spec_combo_slot_view, spec_stored_behavior, BehaviorConfig, BehaviorView, Combo, ComboConfig, Fork, Morse,
    MorseProfile,
    StoredBehaviorConfig,
};
use crate::config::MACRO_SPACE_SIZE;
use crate::grid::{lemma_coords_of_flat, lemma_flat_in_bounds, lemma_nonempty_grid, spec_flat};
use crate::keymap::{lemma_encoder_index_in_bounds, KeymapData, KeymapView};
use crate::restore::copy_bytes;
use crate::storage::StorageItem;
use crate::task::FlashOperationMessage;

verus! {

/// The live keymap: key and encoder actions, behavior settings, the active
/// layer and the matrix state bitmap.
pub struct KeyMap {
    data: KeymapData,
    behavior: BehaviorConfig,
    active_layer: u8,
    matrix_state: Vec<u8>,
}

/// The live keymap as values.
#[verifier::ext_equal]
pub struct KeyMapView {
    pub data: KeymapView,
    pub behavior: BehaviorView,
    pub active_layer: u8,
    pub matrix_state: Seq<u8>,
}

impl View for KeyMap {
    type V = KeyMapView;

    closed spec fn view(&self) -> KeyMapView {
        KeyMapView {
            data: self.data@,
            behavior: self.behavior@,
            active_layer: self.active_layer,
            matrix_state: self.matrix_state@,
        }
    }
}

impl KeyMapView {
    /// Well-formed: full-size flat maps and macro buffer.
    pub open spec fn wf(&self) -> bool {
        self.data.wf() && self.behavior.macro_sequences.len() == MACRO_SPACE_SIZE
    }
}

impl KeyMap {
    /// The keymap over the given data and settings, with the default layer
    /// active and the given matrix state bitmap.
    pub fn new(data: KeymapData, behavior: BehaviorConfig, matrix_state: Vec<u8>) -> (r: KeyMap)
        requires
            data@.wf(),
            behavior.wf(),
        ensures
            r@.wf(),
            r@.data == data@,
            r@.behavior == behavior@,
            r@.active_layer == behavior.default_layer,
            r@.matrix_state == matrix_state@,
    {
        let active_layer = behavior.default_layer;
        KeyMap { data, behavior, active_layer, matrix_state }
    }

    /// Well-formed.
    pub closed spec fn wf(&self) -> bool {
        self@.wf()
    }
}

/// The behavior settings a host changes at once.
#[derive(Clone, Copy, Debug)]
pub struct HostBehaviorConfig {
    pub combo_timeout_ms: u16,
    pub oneshot_timeout_ms: u16,
    pub tap_interval_ms: u16,
    pub tap_capslock_interval_ms: u16,
    pub morse_default_profile: MorseProfile,
    pub morse_prior_idle_time_ms: u16,
}

/// Context shared between the host services.
pub struct KeyboardContext {
    keymap: KeyMap,
    layout_blob: &'static [u8],
}

/// The byte the macro buffer holds at `i`, 0 past its end.
pub open spec fn spec_macro_byte(m: Seq<u8>, i: int) -> u8 {
    if 0 <= i < m.len() {
        m[i]
    } else {
        0
    }
}

/// The macro buffer after writing `data` at `offset`: the bytes that fit are
/// written, the rest of `data` is dropped.
pub open spec fn spec_write_macro(m: Seq<u8>, offset: int, data: Seq<u8>) -> Seq<u8> {
    Seq::new(
        m.len(),
        |i: int|
            if offset <= i < offset + data.len() {
                data[i - offset]
            } else {
                m[i]
            },
    )
}

/// The combo slot written for a configuration: none for an empty one.
pub open spec fn spec_combo_slot_for(config: crate::behavior::ComboView) -> Option<crate::behavior::ComboView> {
    if config.actions.len() == 0 && config.output == KeyAction::No {
        None
    } else {
        Some(config)
    }
}

/// What a host sees of a combo it wrote: once a context's combo slots (as
/// `with_combos` hands them to its callback) map to the combos that
/// `set_combo(idx, config)` leaves, slot `idx` is empty exactly when `config`
/// has no trigger keys and no output, and otherwise holds `config`; every
/// other slot shows the combo it held before.
pub proof fn lemma_combo_write_reads_back(
    slots: Seq<Option<Combo>>,
    before: Seq<Option<crate::behavior::ComboView>>,
    idx: int,
    config: crate::behavior::ComboView,
    j: int,
)
    requires
        0 <= idx < before.len(),
        slots.map_values(|c: Option<Combo>| spec_combo_slot_view(c)) == before.update(idx, spec_combo_slot_for(config)),
        0 <= j < before.len(),
    ensures
        slots.len() == before.len(),
        slots[idx] is None <==> (config.actions.len() == 0 && config.output == KeyAction::No),
        slots[idx] matches Some(c) ==> c.config@ == config,
        j != idx ==> spec_combo_slot_view(slots[j]) == before[j],
{
    let m = slots.map_values(|c: Option<Combo>| spec_combo_slot_view(c));
    assert(m.len() == before.len());
    assert(m[idx] == spec_combo_slot_view(slots[idx]));
    assert(m[j] == spec_combo_slot_view(slots[j]));
}

/// The keymap after setting the action at `(layer, row, col)`: that position
/// holds `action`; a position outside the grid changes nothing.
pub open spec fn spec_set_action(k: KeyMapView, layer: u8, row: u8, col: u8, action: KeyAction) -> KeyMapView {
    if layer < k.data.num_layers && row < k.data.rows && col < k.data.cols {
        KeyMapView {
            data: KeymapView {
                keymap: k.data.keymap.update(
                    spec_flat(layer as int, row as int, col as int, k.data.rows as int, k.data.cols as int),
                    action,
                ),
                ..k.data
            },
            ..k
        }
    } else {
        k
    }
}

/// A host reads back what it wrote: after setting the action at a position
/// inside the grid, that position holds the action and every other position
/// holds what it held.
pub proof fn lemma_set_action_reads_back(
    k: KeyMapView,
    layer: u8,
    row: u8,
    col: u8,
    action: KeyAction,
    l2: u8,
    r2: u8,
    c2: u8,
)
    requires
        k.wf(),
        layer < k.data.num_layers,
        row < k.data.rows,
        col < k.data.cols,
        l2 < k.data.num_layers,
        r2 < k.data.rows,
        c2 < k.data.cols,
    ensures
        spec_set_action(k, layer, row, col, action).wf(),
        spec_set_action(k, layer, row, col, action).data.action_at(layer as int, row as int, col as int) == action,
        (l2, r2, c2) != (layer, row, col) ==> spec_set_action(k, layer, row, col, action).data.action_at(
            l2 as int,
            r2 as int,
            c2 as int,
        ) == k.data.action_at(l2 as int, r2 as int, c2 as int),
{
    let d = k.data;
    lemma_flat_in_bounds(layer as int, row as int, col as int, d.num_layers as int, d.rows as int, d.cols as int);
    lemma_flat_in_bounds(l2 as int, r2 as int, c2 as int, d.num_layers as int, d.rows as int, d.cols as int);
    lemma_coords_of_flat(layer as int, row as int, col as int, d.rows as int, d.cols as int);
    lemma_coords_of_flat(l2 as int, r2 as int, c2 as int, d.rows as int, d.cols as int);
}

/// A host reads back the macro bytes it wrote: after writing `data` at
/// `offset`, each written byte that fits the buffer reads back as written,
/// and every byte outside the written run is unchanged.
pub proof fn lemma_macro_write_reads_back(m: Seq<u8>, offset: int, data: Seq<u8>, i: int)
    requires
        0 <= offset,
        0 <= i < m.len(),
    ensures
        spec_write_macro(m, offset, data).len() == m.len(),
        offset <= i < offset + data.len() ==> spec_macro_byte(spec_write_macro(m, offset, data), i) == data[i - offset],
        !(offset <= i < offset + data.len()) ==> spec_macro_byte(spec_write_macro(m, offset, data), i) == m[i],
{
}

impl KeyboardContext {
    /// The live keymap, as values.
    pub closed spec fn keymap(&self) -> KeyMapView {
        self.keymap@
    }

    /// The layout blob served to hosts.
    pub closed spec fn blob(&self) -> Seq<u8> {
        self.layout_blob@
    }

    /// A context over `keymap`, with an empty layout blob.
    pub fn new(keymap: KeyMap) -> (r: KeyboardContext)
        requires
            keymap@.wf(),
        ensures
            r.keymap() == keymap@,
            r.keymap().wf(),
            r.blob() == Seq::<u8>::empty(),
    {
        let empty: &'static [u8] = &[];
        assert(empty@ =~= Seq::<u8>::empty());
        KeyboardContext { keymap, layout_blob: empty }
    }

    /// The action at `(layer, row, col)`; `KeyAction::No` outside the grid.
    pub fn get_action(&self, layer: u8, row: u8, col: u8) -> (r: KeyAction)
        requires
            self.keymap().wf(),
        ensures
            layer < self.keymap().data.num_layers && row < self.keymap().data.rows && col
                < self.keymap().data.cols ==> r == self.keymap().data.action_at(layer as int, row as int, col as int),
            !(layer < self.keymap().data.num_layers && row < self.keymap().data.rows && col
                < self.keymap().data.cols) ==> r == KeyAction::No,
    {
        self.keymap.data.action_at(layer as usize, row as usize, col as usize)
    }

    /// The action at flat index `index` (layer-major); `KeyAction::No` past
    /// the end.
    pub fn get_action_flat(&self, index: usize) -> (r: KeyAction)
        requires
            self.keymap().wf(),
        ensures
            index < self.keymap().data.keymap.len() ==> r == self.keymap().data.keymap[index as int],
            index >= self.keymap().data.keymap.len() ==> r == KeyAction::No,
    {
        if index < self.keymap.data.keymap.len() {
            self.keymap.data.keymap[index]
        } else {
            KeyAction::No
        }
    }

    /// `(rows, cols, num_layers)`.
    pub fn keymap_dimensions(&self) -> (r: (usize, usize, usize))
        ensures
            r.0 == self.keymap().data.rows,
            r.1 == self.keymap().data.cols,
            r.2 == self.keymap().data.num_layers,
    {
        (self.keymap.data.rows, self.keymap.data.cols, self.keymap.data.num_layers)
    }

    /// The opaque, compressed physical-layout blob served to hosts.
    pub fn layout_blob(&self) -> (r: &'static [u8])
        ensures
            r@ == self.blob(),
    {
        self.layout_blob
    }

    /// Sets the action at `(layer, row, col)` (ignored outside the grid) and
    /// answers the item that persists it.
    pub fn set_action(&mut self, layer: u8, row: u8, col: u8, action: KeyAction) -> (r: StorageItem)
        requires
            old(self).keymap().wf(),
        ensures
            final(self).keymap() == spec_set_action(old(self).keymap(), layer, row, col, action),
            final(self).keymap().wf(),
            r == (StorageItem::Keymap { layer, row, col, action }),
    {
        let l = layer as usize;
        let r_ = row as usize;
        let c = col as usize;
        let d = &mut self.keymap.data;
        if l < d.num_layers && r_ < d.rows && c < d.cols {
            proof {
                lemma_flat_in_bounds(l as int, r_ as int, c as int, d.num_layers as int, d.rows as int, d.cols as int);
            }
            // The vector's length bounds the flat index.
            let _cells = d.keymap.len();
            let i = (l * d.rows + r_) * d.cols + c;
            d.keymap[i] = action;
        }
        assert(self.keymap@.data.keymap.len() == old(self).keymap@.data.keymap.len());
        StorageItem::Keymap { layer, row, col, action }
    }

    /// The encoder action pair of encoder `idx` on `layer`; `None` outside.
    pub fn get_encoder(&self, layer: u8, idx: u8) -> (r: Option<EncoderAction>)
        requires
            self.keymap().wf(),
        ensures
            layer < self.keymap().data.num_layers && idx < self.keymap().data.num_encoders ==> r == Some(
                self.keymap().data.encoder_at(layer as int, idx as int),
            ),
            !(layer < self.keymap().data.num_layers && idx < self.keymap().data.num_encoders) ==> r is None,
    {
        self.keymap.data.encoder_at(layer as usize, idx as usize)
    }

    /// Number of encoders per layer.
    pub fn num_encoders(&self) -> (r: usize)
        ensures
            r == self.keymap().data.num_encoders,
    {
        self.keymap.data.num_encoders
    }
}

/// The keymap with its behavior settings replaced.
pub open spec fn spec_with_behavior(k: KeyMapView, b: BehaviorView) -> KeyMapView {
    KeyMapView { behavior: b, ..k }
}

/// The keymap with its encoder map replaced.
pub open spec fn spec_with_encoders(k: KeyMapView, e: Seq<EncoderAction>) -> KeyMapView {
    KeyMapView { data: KeymapView { encoder_map: e, ..k.data }, ..k }
}

/// An encoder pair with one direction replaced.
pub open spec fn spec_set_direction(e: EncoderAction, clockwise: bool, action: KeyAction) -> EncoderAction {
    if clockwise {
        EncoderAction { clockwise: action, ..e }
    } else {
        EncoderAction { counter_clockwise: action, ..e }
    }
}

/// The behavior after a host changes its timing settings.
pub open spec fn spec_host_behavior(b: BehaviorView, cfg: HostBehaviorConfig) -> BehaviorView {
    BehaviorView {
        combo_timeout_ms: cfg.combo_timeout_ms as u64,
        one_shot_timeout_ms: cfg.oneshot_timeout_ms as u64,
        tap_interval: cfg.tap_interval_ms,
        tap_capslock_interval: cfg.tap_capslock_interval_ms,
        morse_default_profile: cfg.morse_default_profile,
        prior_idle_time_ms: cfg.morse_prior_idle_time_ms as u64,
        ..b
    }
}

impl KeyboardContext {
    /// Sets one direction of encoder `idx` on `layer` and answers the item
    /// that persists the updated pair; `None` (and no change) outside the map.
    pub fn set_encoder_direction(&mut self, layer: u8, idx: u8, clockwise: bool, action: KeyAction) -> (r: Option<
        StorageItem,
    >)
        requires
            old(self).keymap().wf(),
        ensures
            final(self).keymap().wf(),
            layer < old(self).keymap().data.num_layers && idx < old(self).keymap().data.num_encoders ==> {
                let i = layer * old(self).keymap().data.num_encoders + idx;
                let e = spec_set_direction(old(self).keymap().data.encoder_map[i], clockwise, action);
                &&& final(self).keymap() == spec_with_encoders(
                    old(self).keymap(),
                    old(self).keymap().data.encoder_map.update(i, e),
                )
                &&& r == Some(StorageItem::Encoder { layer, idx, action: e })
            },
            !(layer < old(self).keymap().data.num_layers && idx < old(self).keymap().data.num_encoders) ==> (final(self).keymap() == old(self).keymap() && r is None),
    {
        let l = layer as usize;
        let x = idx as usize;
        let d = &mut self.keymap.data;
        if l < d.num_layers && x < d.num_encoders {
            proof {
                lemma_encoder_index_in_bounds(l as int, x as int, d.num_layers as int, d.num_encoders as int);
            }
            // The vector's length bounds the flat index.
            let _cells = d.encoder_map.len();
            let i = l * d.num_encoders + x;
            let mut e = d.encoder_map[i];
            if clockwise {
                e.clockwise = action;
            } else {
                e.counter_clockwise = action;
            }
            d.encoder_map[i] = e;
            proof {
                assert(self.keymap() =~= spec_with_encoders(old(self).keymap(), old(self).keymap().data.encoder_map.update(i as int, e)));
            }
            Some(StorageItem::Encoder { layer, idx, action: e })
        } else {
            None
        }
    }

    /// Sets both directions of encoder `idx` on `layer` and answers the item
    /// that persists them; `None` (and no change) outside the map.
    pub fn set_encoder(&mut self, layer: u8, idx: u8, action: EncoderAction) -> (r: Option<StorageItem>)
        requires
            old(self).keymap().wf(),
        ensures
            final(self).keymap().wf(),
            layer < old(self).keymap().data.num_layers && idx < old(self).keymap().data.num_encoders ==> {
                &&& final(self).keymap() == spec_with_encoders(
                    old(self).keymap(),
                    old(self).keymap().data.encoder_map.update(layer * old(self).keymap().data.num_encoders + idx, action),
                )
                &&& r == Some(StorageItem::Encoder { layer, idx, action })
            },
            !(layer < old(self).keymap().data.num_layers && idx < old(self).keymap().data.num_encoders) ==> (final(self).keymap() == old(self).keymap() && r is None),
    {
        let l = layer as usize;
        let x = idx as usize;
        let d = &mut self.keymap.data;
        if l < d.num_layers && x < d.num_encoders {
            proof {
                lemma_encoder_index_in_bounds(l as int, x as int, d.num_layers as int, d.num_encoders as int);
            }
            // The vector's length bounds the flat index.
            let _cells = d.encoder_map.len();
            let i = l * d.num_encoders + x;
            d.encoder_map[i] = action;
            proof {
                assert(self.keymap() =~= spec_with_encoders(old(self).keymap(), old(self).keymap().data.encoder_map.update(i as int, action)));
            }
            Some(StorageItem::Encoder { layer, idx, action })
        } else {
            None
        }
    }

    /// Reads the macro buffer from `offset` into `target`; bytes past the end
    /// of the buffer read as 0.
    pub fn read_macro_buffer(&self, offset: usize, target: &mut [u8])
        requires
            self.keymap().wf(),
        ensures
            final(target)@.len() == old(target)@.len(),
            forall|i: int|
                0 <= i < old(target)@.len() ==> final(target)@[i] == spec_macro_byte(
                    self.keymap().behavior.macro_sequences,
                    offset + i,
                ),
    {
        let m = &self.keymap.behavior.macro_sequences;
        let n = target.len();
        for i in 0..n
            invariant
                n == target@.len(),
                target@.len() == old(target)@.len(),
                m@ == self.keymap().behavior.macro_sequences,
                forall|j: int| 0 <= j < i ==> target@[j] == spec_macro_byte(m@, offset + j),
        {
            if offset < m.len() && i < m.len() - offset {
                target[i] = m[offset + i];
            } else {
                target[i] = 0;
            }
        }
    }

    /// Writes `data` into the macro buffer at `offset` (bytes past its end are
    /// dropped) and answers the item that persists the whole buffer.
    pub fn write_macro_buffer(&mut self, offset: usize, data: &[u8]) -> (r: StorageItem)
        requires
            old(self).keymap().wf(),
        ensures
            final(self).keymap().wf(),
            final(self).keymap() == spec_with_behavior(
                old(self).keymap(),
                BehaviorView {
                    macro_sequences: spec_write_macro(old(self).keymap().behavior.macro_sequences, offset as int, data@),
                    ..old(self).keymap().behavior
                },
            ),
            r matches StorageItem::MacroData(v) && v@ == final(self).keymap().behavior.macro_sequences,
    {
        let ghost m0 = self.keymap().behavior.macro_sequences;
        let n = data.len();
        for i in 0..n
            invariant
                n == data@.len(),
                m0 == old(self).keymap().behavior.macro_sequences,
                self.keymap().behavior.macro_sequences.len() == m0.len(),
                self.keymap() == spec_with_behavior(
                    old(self).keymap(),
                    BehaviorView {
                        macro_sequences: spec_write_macro(m0, offset as int, data@.take(i as int)),
                        ..old(self).keymap().behavior
                    },
                ),
        {
            let ghost before = self.keymap().behavior.macro_sequences;
            let len = self.keymap.behavior.macro_sequences.len();
            if offset < len && i < len - offset {
                self.keymap.behavior.macro_sequences[offset + i] = data[i];
            }
            proof {
                assert(spec_write_macro(m0, offset as int, data@.take(i + 1)) =~= self.keymap().behavior.macro_sequences);
                assert(self.keymap() =~= spec_with_behavior(
                    old(self).keymap(),
                    BehaviorView {
                        macro_sequences: spec_write_macro(m0, offset as int, data@.take(i + 1)),
                        ..old(self).keymap().behavior
                    },
                ));
            }
        }
        assert(data@.take(n as int) =~= data@);
        StorageItem::MacroData(copy_bytes(&self.keymap.behavior.macro_sequences))
    }

    /// Clears the macro buffer to all zeros.
    pub fn reset_macro_buffer(&mut self)
        requires
            old(self).keymap().wf(),
        ensures
            final(self).keymap().wf(),
            final(self).keymap() == spec_with_behavior(
                old(self).keymap(),
                BehaviorView {
                    macro_sequences: Seq::new(MACRO_SPACE_SIZE as nat, |i: int| 0u8),
                    ..old(self).keymap().behavior
                },
            ),
    {
        let n = self.keymap.behavior.macro_sequences.len();
        for i in 0..n
            invariant
                n == MACRO_SPACE_SIZE,
                self.keymap().behavior.macro_sequences.len() == n,
                forall|j: int| 0 <= j < i ==> self.keymap().behavior.macro_sequences[j] == 0,
                self.keymap() == spec_with_behavior(
                    old(self).keymap(),
                    BehaviorView {
                        macro_sequences: self.keymap().behavior.macro_sequences,
                        ..old(self).keymap().behavior
                    },
                ),
        {
            self.keymap.behavior.macro_sequences[i] = 0;
        }
        assert(self.keymap().behavior.macro_sequences =~= Seq::new(MACRO_SPACE_SIZE as nat, |i: int| 0u8));
    }
}

impl KeyboardContext {
    /// Calls `f` with the combo slots and answers what it answers.
    pub fn with_combos<R, F: FnOnce(&[Option<Combo>]) -> R>(&self, f: F) -> (r: R)
        requires
            forall|s: &[Option<Combo>]| s@ == self.combo_slots() ==> call_requires(f, (s,)),
        ensures
            exists|s: &[Option<Combo>]| s@ == self.combo_slots() && call_ensures(f, (s,), r),
            self.combo_slots().len() == self.keymap().behavior.combos.len(),
            self.combo_slots().map_values(|c: Option<Combo>| spec_combo_slot_view(c))
                == self.keymap().behavior.combos,
    {
        let s = self.keymap.behavior.combos.as_slice();
        f(s)
    }

    /// The combo slots, as values.
    pub closed spec fn combo_slots(&self) -> Seq<Option<Combo>> {
        self.keymap.behavior.combos@
    }

    /// Replaces combo slot `idx` with `config` (an empty configuration clears
    /// the slot) and answers the item that persists it; `None` (and no change)
    /// when `idx` is out of range.
    pub fn set_combo(&mut self, idx: u8, config: ComboConfig) -> (r: Option<StorageItem>)
        requires
            old(self).keymap().wf(),
        ensures
            final(self).keymap().wf(),
            idx < old(self).keymap().behavior.combos.len() ==> {
                &&& final(self).keymap() == spec_with_behavior(
                    old(self).keymap(),
                    BehaviorView {
                        combos: old(self).keymap().behavior.combos.update(idx as int, spec_combo_slot_for(config@)),
                        ..old(self).keymap().behavior
                    },
                )
                &&& r matches Some(StorageItem::Combo { idx: i, config: c }) && i == idx && c@ == config@
            },
            idx >= old(self).keymap().behavior.combos.len() ==> (final(self).keymap() == old(self).keymap() && r is None),
    {
        let i = idx as usize;
        if i >= self.keymap.behavior.combos.len() {
            return None;
        }
        let slot = if config.is_empty() {
            None
        } else {
            Some(Combo::new(config.duplicate()))
        };
        self.keymap.behavior.combos[i] = slot;
        proof {
            assert(self.keymap().behavior.combos =~= old(self).keymap().behavior.combos.update(
                idx as int,
                spec_combo_slot_for(config@),
            ));
            assert(self.keymap() =~= spec_with_behavior(
                old(self).keymap(),
                BehaviorView {
                    combos: old(self).keymap().behavior.combos.update(idx as int, spec_combo_slot_for(config@)),
                    ..old(self).keymap().behavior
                },
            ));
        }
        Some(StorageItem::Combo { idx, config })
    }

    /// The morse key in slot `idx`; `None` out of range.
    pub fn get_morse(&self, idx: u8) -> (r: Option<Morse>)
        ensures
            (idx as int) < self.keymap().behavior.morses.len() ==> (r matches Some(m) && m@ == self.keymap().behavior.morses[idx as int]),
            (idx as int) >= self.keymap().behavior.morses.len() ==> r is None,
    {
        let i = idx as usize;
        if i < self.keymap.behavior.morses.len() {
            Some(self.keymap.behavior.morses[i].duplicate())
        } else {
            None
        }
    }

    /// The number of morse slots.
    pub fn morses_len(&self) -> (r: usize)
        ensures
            r == self.keymap().behavior.morses.len(),
    {
        self.keymap.behavior.morses.len()
    }

    /// Replaces the morse key in slot `idx` with what `f` makes of it and
    /// answers the item that persists it; `None` (and no change) out of range.
    pub fn update_morse<F: FnOnce(Morse) -> Morse>(&mut self, idx: u8, f: F) -> (r: Option<StorageItem>)
        requires
            old(self).keymap().wf(),
            forall|m: Morse| call_requires(f, (m,)),
        ensures
            final(self).keymap().wf(),
            (idx as int) < old(self).keymap().behavior.morses.len() ==> exists|m_in: Morse, m_out: Morse|
                #![trigger call_ensures(f, (m_in,), m_out)]
                m_in@ == old(self).keymap().behavior.morses[idx as int] && call_ensures(f, (m_in,), m_out)
                    && final(self).keymap() == spec_with_behavior(
                    old(self).keymap(),
                    BehaviorView {
                        morses: old(self).keymap().behavior.morses.update(idx as int, m_out@),
                        ..old(self).keymap().behavior
                    },
                ) && (r matches Some(StorageItem::Morse { idx: i, morse }) && i == idx && morse@ == m_out@),
            (idx as int) >= old(self).keymap().behavior.morses.len() ==> (final(self).keymap() == old(self).keymap()
                && r is None),
    {
        let i = idx as usize;
        if i >= self.keymap.behavior.morses.len() {
            return None;
        }
        let m_in = self.keymap.behavior.morses[i].duplicate();
        let ghost m_in_ghost = m_in;
        let m_out = f(m_in);
        let stored = m_out.duplicate();
        let ghost m_out_ghost = m_out;
        self.keymap.behavior.morses[i] = m_out;
        proof {
            assert(self.keymap().behavior.morses =~= old(self).keymap().behavior.morses.update(
                idx as int,
                m_out_ghost@,
            ));
            assert(self.keymap() =~= spec_with_behavior(
                old(self).keymap(),
                BehaviorView {
                    morses: old(self).keymap().behavior.morses.update(idx as int, m_out_ghost@),
                    ..old(self).keymap().behavior
                },
            ));
            assert(call_ensures(f, (m_in_ghost,), m_out_ghost));
        }
        Some(StorageItem::Morse { idx, morse: stored })
    }

    /// The combo timeout, in milliseconds.
    pub fn combo_timeout(&self) -> (r: u64)
        ensures
            r == self.keymap().behavior.combo_timeout_ms,
    {
        self.keymap.behavior.combo_timeout_ms
    }

    /// The one-shot timeout, in milliseconds.
    pub fn one_shot_timeout(&self) -> (r: u64)
        ensures
            r == self.keymap().behavior.one_shot_timeout_ms,
    {
        self.keymap.behavior.one_shot_timeout_ms
    }

    /// The tap interval.
    pub fn tap_interval(&self) -> (r: u16)
        ensures
            r == self.keymap().behavior.tap_interval,
    {
        self.keymap.behavior.tap_interval
    }

    /// The caps lock tap interval.
    pub fn tap_capslock_interval(&self) -> (r: u16)
        ensures
            r == self.keymap().behavior.tap_capslock_interval,
    {
        self.keymap.behavior.tap_capslock_interval
    }

    /// The default morse profile.
    pub fn morse_default_profile(&self) -> (r: MorseProfile)
        ensures
            r == self.keymap().behavior.morse_default_profile,
    {
        self.keymap.behavior.morse_default_profile
    }

    /// The morse prior idle time, in milliseconds.
    pub fn morse_prior_idle_time(&self) -> (r: u64)
        ensures
            r == self.keymap().behavior.prior_idle_time_ms,
    {
        self.keymap.behavior.prior_idle_time_ms
    }

    fn behavior_snapshot(&self) -> (r: StorageItem)
        ensures
            r == StorageItem::BehaviorConfig(spec_stored_behavior(self.keymap().behavior)),
    {
        StorageItem::BehaviorConfig(StoredBehaviorConfig::from_behavior(&self.keymap.behavior))
    }

    /// Sets the combo timeout and answers the item that persists the timings.
    pub fn set_combo_timeout(&mut self, ms: u16) -> (r: StorageItem)
        requires
            old(self).keymap().wf(),
        ensures
            final(self).keymap() == spec_with_behavior(
                old(self).keymap(),
                BehaviorView { combo_timeout_ms: ms as u64, ..old(self).keymap().behavior },
            ),
            final(self).keymap().wf(),
            r == StorageItem::BehaviorConfig(spec_stored_behavior(final(self).keymap().behavior)),
    {
        self.keymap.behavior.combo_timeout_ms = ms as u64;
        assert(self.keymap() =~= spec_with_behavior(
            old(self).keymap(),
            BehaviorView { combo_timeout_ms: ms as u64, ..old(self).keymap().behavior },
        ));
        self.behavior_snapshot()
    }

    /// Sets the one-shot timeout and answers the item that persists the
    /// timings.
    pub fn set_one_shot_timeout(&mut self, ms: u16) -> (r: StorageItem)
        requires
            old(self).keymap().wf(),
        ensures
            final(self).keymap() == spec_with_behavior(
                old(self).keymap(),
                BehaviorView { one_shot_timeout_ms: ms as u64, ..old(self).keymap().behavior },
            ),
            final(self).keymap().wf(),
            r == StorageItem::BehaviorConfig(spec_stored_behavior(final(self).keymap().behavior)),
    {
        self.keymap.behavior.one_shot_timeout_ms = ms as u64;
        assert(self.keymap() =~= spec_with_behavior(
            old(self).keymap(),
            BehaviorView { one_shot_timeout_ms: ms as u64, ..old(self).keymap().behavior },
        ));
        self.behavior_snapshot()
    }

    /// Sets the tap interval and answers the item that persists the timings.
    pub fn set_tap_interval(&mut self, ms: u16) -> (r: StorageItem)
        requires
            old(self).keymap().wf(),
        ensures
            final(self).keymap() == spec_with_behavior(
                old(self).keymap(),
                BehaviorView { tap_interval: ms, ..old(self).keymap().behavior },
            ),
            final(self).keymap().wf(),
            r == StorageItem::BehaviorConfig(spec_stored_behavior(final(self).keymap().behavior)),
    {
        self.keymap.behavior.tap_interval = ms;
        assert(self.keymap() =~= spec_with_behavior(
            old(self).keymap(),
            BehaviorView { tap_interval: ms, ..old(self).keymap().behavior },
        ));
        self.behavior_snapshot()
    }

    /// Sets the caps lock tap interval and answers the item that persists the
    /// timings.
    pub fn set_tap_capslock_interval(&mut self, ms: u16) -> (r: StorageItem)
        requires
            old(self).keymap().wf(),
        ensures
            final(self).keymap() == spec_with_behavior(
                old(self).keymap(),
                BehaviorView { tap_capslock_interval: ms, ..old(self).keymap().behavior },
            ),
            final(self).keymap().wf(),
            r == StorageItem::BehaviorConfig(spec_stored_behavior(final(self).keymap().behavior)),
    {
        self.keymap.behavior.tap_capslock_interval = ms;
        assert(self.keymap() =~= spec_with_behavior(
            old(self).keymap(),
            BehaviorView { tap_capslock_interval: ms, ..old(self).keymap().behavior },
        ));
        self.behavior_snapshot()
    }

    /// Sets the default morse profile and answers the item that persists the
    /// timings.
    pub fn set_morse_default_profile(&mut self, profile: MorseProfile) -> (r: StorageItem)
        requires
            old(self).keymap().wf(),
        ensures
            final(self).keymap() == spec_with_behavior(
                old(self).keymap(),
                BehaviorView { morse_default_profile: profile, ..old(self).keymap().behavior },
            ),
            final(self).keymap().wf(),
            r == StorageItem::BehaviorConfig(spec_stored_behavior(final(self).keymap().behavior)),
    {
        self.keymap.behavior.morse_default_profile = profile;
        assert(self.keymap() =~= spec_with_behavior(
            old(self).keymap(),
            BehaviorView { morse_default_profile: profile, ..old(self).keymap().behavior },
        ));
        self.behavior_snapshot()
    }

    /// Sets the morse prior idle time and answers the item that persists the
    /// timings.
    pub fn set_morse_prior_idle_time(&mut self, ms: u16) -> (r: StorageItem)
        requires
            old(self).keymap().wf(),
        ensures
            final(self).keymap() == spec_with_behavior(
                old(self).keymap(),
                BehaviorView { prior_idle_time_ms: ms as u64, ..old(self).keymap().behavior },
            ),
            final(self).keymap().wf(),
            r == StorageItem::BehaviorConfig(spec_stored_behavior(final(self).keymap().behavior)),
    {
        self.keymap.behavior.prior_idle_time_ms = ms as u64;
        assert(self.keymap() =~= spec_with_behavior(
            old(self).keymap(),
            BehaviorView { prior_idle_time_ms: ms as u64, ..old(self).keymap().behavior },
        ));
        self.behavior_snapshot()
    }

    /// Sets every timing a host sends at once and answers the item that
    /// persists them.
    pub fn set_behavior_config(&mut self, cfg: HostBehaviorConfig) -> (r: StorageItem)
        requires
            old(self).keymap().wf(),
        ensures
            final(self).keymap() == spec_with_behavior(
                old(self).keymap(),
                spec_host_behavior(old(self).keymap().behavior, cfg),
            ),
            final(self).keymap().wf(),
            r == StorageItem::BehaviorConfig(spec_stored_behavior(final(self).keymap().behavior)),
    {
        self.keymap.behavior.combo_timeout_ms = cfg.combo_timeout_ms as u64;
        self.keymap.behavior.one_shot_timeout_ms = cfg.oneshot_timeout_ms as u64;
        self.keymap.behavior.tap_interval = cfg.tap_interval_ms;
        self.keymap.behavior.tap_capslock_interval = cfg.tap_capslock_interval_ms;
        self.keymap.behavior.morse_default_profile = cfg.morse_default_profile;
        self.keymap.behavior.prior_idle_time_ms = cfg.morse_prior_idle_time_ms as u64;
        assert(self.keymap() =~= spec_with_behavior(
            old(self).keymap(),
            spec_host_behavior(old(self).keymap().behavior, cfg),
        ));
        self.behavior_snapshot()
    }

    /// Selects the layout options and answers the item that persists them.
    pub fn set_layout_options(&mut self, opts: u32) -> (r: StorageItem)
        requires
            old(self).keymap().wf(),
        ensures
            final(self).keymap() == (KeyMapView {
                data: KeymapView { layout_option: opts, ..old(self).keymap().data },
                ..old(self).keymap()
            }),
            final(self).keymap().wf(),
            r == StorageItem::LayoutOption(opts),
    {
        self.keymap.data.layout_option = opts;
        assert(self.keymap() =~= (KeyMapView {
            data: KeymapView { layout_option: opts, ..old(self).keymap().data },
            ..old(self).keymap()
        }));
        StorageItem::LayoutOption(opts)
    }

    /// The selected layout options.
    pub fn layout_options(&self) -> (r: u32)
        ensures
            r == self.keymap().data.layout_option,
    {
        self.keymap.data.layout_option
    }

    /// The request that erases the storage and reboots.
    pub fn reset_storage(&self) -> (r: FlashOperationMessage)
        ensures
            r is Reset,
    {
        FlashOperationMessage::Reset
    }

    /// The active layer.
    pub fn active_layer(&self) -> (r: u8)
        ensures
            r == self.keymap().active_layer,
    {
        self.keymap.active_layer
    }

    /// The default layer.
    pub fn default_layer(&self) -> (r: u8)
        ensures
            r == self.keymap().behavior.default_layer,
    {
        self.keymap.behavior.default_layer
    }

    /// Sets the default layer and answers the item that persists it.
    pub fn set_default_layer(&mut self, layer: u8) -> (r: StorageItem)
        requires
            old(self).keymap().wf(),
        ensures
            final(self).keymap() == spec_with_behavior(
                old(self).keymap(),
                BehaviorView { default_layer: layer, ..old(self).keymap().behavior },
            ),
            final(self).keymap().wf(),
            r == StorageItem::DefaultLayer(layer),
    {
        self.keymap.behavior.default_layer = layer;
        assert(self.keymap() =~= spec_with_behavior(
            old(self).keymap(),
            BehaviorView { default_layer: layer, ..old(self).keymap().behavior },
        ));
        StorageItem::DefaultLayer(layer)
    }

    /// The fork in slot `idx`; `None` out of range.
    pub fn get_fork(&self, idx: u8) -> (r: Option<Fork>)
        ensures
            (idx as int) < self.keymap().behavior.forks.len() ==> r == Some(self.keymap().behavior.forks[idx as int]),
            (idx as int) >= self.keymap().behavior.forks.len() ==> r is None,
    {
        let i = idx as usize;
        if i < self.keymap.behavior.forks.len() {
            Some(self.keymap.behavior.forks[i])
        } else {
            None
        }
    }

    /// Replaces the fork in slot `idx` and answers the item that persists it;
    /// `None` (and no change) out of range.
    pub fn set_fork(&mut self, idx: u8, fork: Fork) -> (r: Option<StorageItem>)
        requires
            old(self).keymap().wf(),
        ensures
            final(self).keymap().wf(),
            (idx as int) < old(self).keymap().behavior.forks.len() ==> final(self).keymap() == spec_with_behavior(
                old(self).keymap(),
                BehaviorView {
                    forks: old(self).keymap().behavior.forks.update(idx as int, fork),
                    ..old(self).keymap().behavior
                },
            ) && r == Some(StorageItem::Fork { idx, fork }),
            (idx as int) >= old(self).keymap().behavior.forks.len() ==> (final(self).keymap() == old(self).keymap()
                && r is None),
    {
        let i = idx as usize;
        if i < self.keymap.behavior.forks.len() {
            self.keymap.behavior.forks[i] = fork;
            assert(self.keymap() =~= spec_with_behavior(
                old(self).keymap(),
                BehaviorView {
                    forks: old(self).keymap().behavior.forks.update(idx as int, fork),
                    ..old(self).keymap().behavior
                },
            ));
            Some(StorageItem::Fork { idx, fork })
        } else {
            None
        }
    }

    /// Copies the matrix state bitmap into `target`; bytes past its end read
    /// as 0.
    pub fn read_matrix_state(&self, target: &mut [u8])
        ensures
            final(target)@.len() == old(target)@.len(),
            forall|i: int|
                0 <= i < old(target)@.len() ==> final(target)@[i] == spec_macro_byte(self.keymap().matrix_state, i),
    {
        let m = &self.keymap.matrix_state;
        let n = target.len();
        for i in 0..n
            invariant
                n == target@.len(),
                target@.len() == old(target)@.len(),
                m@ == self.keymap().matrix_state,
                forall|j: int| 0 <= j < i ==> target@[j] == spec_macro_byte(m@, j),
        {
            if i < m.len() {
                target[i] = m[i];
            } else {
                target[i] = 0;
            }
        }
    }
}

} // verus!
