//! Restoring the keymap and behavior from stored items, and the items that
//! rewrite the stored layout with a compiled-in one.
use vstd::prelude::*;

use crate::action::KeyAction;
use crate::behavior::{
    spec_stored_behavior, BehaviorConfig, BehaviorView, Combo, ComboConfig, ComboView, MorseView,
    StoredBehaviorConfig,
};
use crate::grid::{lemma_coords_in_bounds, lemma_coords_of_flat, lemma_flat_in_bounds, spec_coords, spec_flat};
use crate::keymap::{lemma_encoder_index_in_bounds, KeymapData, KeymapView};
use crate::storage::{spec_item_key, spec_item_value, spec_value_wf, StorageItem, StorageKey, StorageValue, ValueView};

verus! {

/// The keymap data and behavior settings a restore works on.
#[verifier::ext_equal]
pub struct RestoreState {
    pub data: KeymapView,
    pub behavior: BehaviorView,
}

/// Both parts well-formed: full-size flat maps and macro buffer.
pub open spec fn spec_state_wf(st: RestoreState) -> bool {
    st.data.wf() && st.behavior.macro_sequences.len() == crate::config::MACRO_SPACE_SIZE
}

/// What restoring one stored `(key, value)` pair does.
///
/// A key action or encoder action outside the grid, and a combo, fork or
/// morse index outside the slots, are ignored; so are pairs whose key and
/// value do not belong together and keys that are not part of the layout.
pub open spec fn spec_apply(st: RestoreState, k: StorageKey, v: ValueView) -> RestoreState {
    let d = st.data;
    let b = st.behavior;
    match (k, v) {
        (StorageKey::Keymap { layer, row, col }, ValueView::KeyAction(a)) => {
            if layer < d.num_layers && row < d.rows && col < d.cols {
                RestoreState {
                    data: KeymapView {
                        keymap: d.keymap.update(spec_flat(layer as int, row as int, col as int, d.rows as int, d.cols as int), a),
                        ..d
                    },
                    ..st
                }
            } else {
                st
            }
        },
        (StorageKey::Encoder { layer, idx }, ValueView::EncoderAction(a)) => {
            if layer < d.num_layers && idx < d.num_encoders {
                RestoreState {
                    data: KeymapView { encoder_map: d.encoder_map.update(layer * d.num_encoders + idx, a), ..d },
                    ..st
                }
            } else {
                st
            }
        },
        (StorageKey::DefaultLayer, ValueView::DefaultLayer(layer)) => {
            RestoreState { behavior: BehaviorView { default_layer: layer, ..b }, ..st }
        },
        (StorageKey::LayoutOption, ValueView::LayoutOption(option)) => {
            RestoreState { data: KeymapView { layout_option: option, ..d }, ..st }
        },
        (StorageKey::BehaviorConfig, ValueView::BehaviorConfig(c)) => {
            RestoreState {
                behavior: BehaviorView {
                    prior_idle_time_ms: c.prior_idle_time as u64,
                    morse_default_profile: c.morse_default_profile,
                    combo_timeout_ms: c.combo_timeout as u64,
                    one_shot_timeout_ms: c.one_shot_timeout as u64,
                    tap_interval: c.tap_interval,
                    tap_capslock_interval: c.tap_capslock_interval,
                    ..b
                },
                ..st
            }
        },
        (StorageKey::MacroData, ValueView::MacroData(bytes)) => {
            RestoreState { behavior: BehaviorView { macro_sequences: bytes, ..b }, ..st }
        },
        (StorageKey::Combo(idx), ValueView::Combo(config)) => {
            if idx < b.combos.len() {
                RestoreState { behavior: BehaviorView { combos: b.combos.update(idx as int, Some(config)), ..b }, ..st }
            } else {
                st
            }
        },
        (StorageKey::Fork(idx), ValueView::Fork(fork)) => {
            if idx < b.forks.len() {
                RestoreState { behavior: BehaviorView { forks: b.forks.update(idx as int, fork), ..b }, ..st }
            } else {
                st
            }
        },
        (StorageKey::Morse(idx), ValueView::Morse(morse)) => {
            if idx < b.morses.len() {
                RestoreState { behavior: BehaviorView { morses: b.morses.update(idx as int, morse), ..b }, ..st }
            } else {
                st
            }
        },
        _ => st,
    }
}

/// Restoring never changes the grid dimensions or the number of slots, and
/// keeps the state well-formed.
pub proof fn lemma_apply_keeps_shape(st: RestoreState, k: StorageKey, v: ValueView)
    requires
        spec_state_wf(st),
        spec_value_wf(v),
    ensures
        spec_state_wf(spec_apply(st, k, v)),
        spec_apply(st, k, v).data.rows == st.data.rows,
        spec_apply(st, k, v).data.cols == st.data.cols,
        spec_apply(st, k, v).data.num_layers == st.data.num_layers,
        spec_apply(st, k, v).data.num_encoders == st.data.num_encoders,
        spec_apply(st, k, v).behavior.combos.len() == st.behavior.combos.len(),
        spec_apply(st, k, v).behavior.forks.len() == st.behavior.forks.len(),
        spec_apply(st, k, v).behavior.morses.len() == st.behavior.morses.len(),
{
    let d = st.data;
    match (k, v) {
        (StorageKey::Keymap { layer, row, col }, ValueView::KeyAction(_)) => {
            if layer < d.num_layers && row < d.rows && col < d.cols {
                lemma_flat_in_bounds(
                    layer as int,
                    row as int,
                    col as int,
                    d.num_layers as int,
                    d.rows as int,
                    d.cols as int,
                );
            }
        },
        (StorageKey::Encoder { layer, idx }, ValueView::EncoderAction(_)) => {
            if layer < d.num_layers && idx < d.num_encoders {
                lemma_encoder_index_in_bounds(layer as int, idx as int, d.num_layers as int, d.num_encoders as int);
            }
        },
        _ => {},
    }
}

/// The state of a keymap and behavior settings.
pub open spec fn spec_state(data: &KeymapData, behavior: &BehaviorConfig) -> RestoreState {
    RestoreState { data: data@, behavior: behavior@ }
}

/// Restores one stored `(key, value)` pair into the keymap data and behavior.
pub fn apply_stored_item(data: &mut KeymapData, behavior: &mut BehaviorConfig, key: &StorageKey, value: &StorageValue)
    requires
        spec_state_wf(spec_state(old(data), old(behavior))),
        spec_value_wf(value@),
    ensures
        spec_state(final(data), final(behavior)) == spec_apply(spec_state(old(data), old(behavior)), *key, value@),
{
    let ghost st = spec_state(data, behavior);
    match (key, value) {
        (StorageKey::Keymap { layer, row, col }, StorageValue::KeyAction(action)) => {
            let layer = *layer as usize;
            let row = *row as usize;
            let col = *col as usize;
            if layer < data.num_layers && row < data.rows && col < data.cols {
                proof {
                    lemma_flat_in_bounds(
                        layer as int,
                        row as int,
                        col as int,
                        data.num_layers as int,
                        data.rows as int,
                        data.cols as int,
                    );
                }
                // The vector's length bounds the flat index.
                let _cells = data.keymap.len();
                let i = (layer * data.rows + row) * data.cols + col;
                data.keymap[i] = *action;
            }
        },
        (StorageKey::Encoder { layer, idx }, StorageValue::EncoderAction(action)) => {
            let layer = *layer as usize;
            let idx = *idx as usize;
            if layer < data.num_layers && idx < data.num_encoders {
                proof {
                    lemma_encoder_index_in_bounds(
                        layer as int,
                        idx as int,
                        data.num_layers as int,
                        data.num_encoders as int,
                    );
                }
                // The vector's length bounds the flat index.
                let _cells = data.encoder_map.len();
                let i = layer * data.num_encoders + idx;
                data.encoder_map[i] = *action;
            }
        },
        // Restore the default (base) layer.
        (StorageKey::DefaultLayer, StorageValue::DefaultLayer(layer)) => {
            behavior.default_layer = *layer;
        },
        // Restore the VIA/Vial layout option selection.
        (StorageKey::LayoutOption, StorageValue::LayoutOption(option)) => {
            data.layout_option = *option;
        },
        (StorageKey::BehaviorConfig, StorageValue::BehaviorConfig(c)) => {
            behavior.prior_idle_time_ms = c.prior_idle_time as u64;
            behavior.morse_default_profile = c.morse_default_profile;
            behavior.combo_timeout_ms = c.combo_timeout as u64;
            behavior.one_shot_timeout_ms = c.one_shot_timeout as u64;
            behavior.tap_interval = c.tap_interval;
            behavior.tap_capslock_interval = c.tap_capslock_interval;
        },
        (StorageKey::MacroData, StorageValue::MacroData(bytes)) => {
            behavior.macro_sequences = copy_bytes(bytes);
        },
        (StorageKey::Combo(idx), StorageValue::Combo(config)) => {
            let idx = *idx as usize;
            if idx < behavior.combos.len() {
                let combo = Combo::new(config.duplicate());
                behavior.combos[idx] = Some(combo);
                proof {
                    assert(behavior@.combos =~= st.behavior.combos.update(idx as int, Some(config@)));
                }
            }
        },
        (StorageKey::Fork(idx), StorageValue::Fork(fork)) => {
            let idx = *idx as usize;
            if idx < behavior.forks.len() {
                behavior.forks[idx] = *fork;
            }
        },
        (StorageKey::Morse(idx), StorageValue::Morse(morse)) => {
            let idx = *idx as usize;
            if idx < behavior.morses.len() {
                behavior.morses[idx] = morse.duplicate();
                proof {
                    assert(behavior@.morses =~= st.behavior.morses.update(idx as int, morse@));
                }
            }
        },
        _ => {},
    }
    assert(spec_state(data, behavior) =~= spec_apply(st, *key, value@));
}

/// A copy of a byte vector.
pub fn copy_bytes(bytes: &Vec<u8>) -> (r: Vec<u8>)
    ensures
        r@ == bytes@,
{
    let mut copy: Vec<u8> = Vec::new();
    let n = bytes.len();
    for i in 0..n
        invariant
            n == bytes@.len(),
            copy@ == bytes@.take(i as int),
    {
        copy.push(bytes[i]);
        assert(copy@ =~= bytes@.take(i + 1));
    }
    assert(copy@ =~= bytes@);
    copy
}

/// Restoring a run of stored pairs, in order.
pub open spec fn spec_apply_all(st: RestoreState, entries: Seq<(StorageKey, ValueView)>) -> RestoreState
    decreases entries.len(),
{
    if entries.len() == 0 {
        st
    } else {
        let last = entries.last();
        spec_apply(spec_apply_all(st, entries.drop_last()), last.0, last.1)
    }
}

/// Restoring never changes the grid dimensions, and keeps the keymap data
/// well-formed.
pub proof fn lemma_apply_all_keeps_grid(st: RestoreState, entries: Seq<(StorageKey, ValueView)>)
    requires
        st.data.wf(),
    ensures
        spec_apply_all(st, entries).data.wf(),
        spec_apply_all(st, entries).data.rows == st.data.rows,
        spec_apply_all(st, entries).data.cols == st.data.cols,
        spec_apply_all(st, entries).data.num_layers == st.data.num_layers,
        spec_apply_all(st, entries).data.num_encoders == st.data.num_encoders,
    decreases entries.len(),
{
    if entries.len() > 0 {
        let prev = entries.drop_last();
        lemma_apply_all_keeps_grid(st, prev);
        let mid = spec_apply_all(st, prev);
        let d = mid.data;
        let last = entries.last();
        match (last.0, last.1) {
            (StorageKey::Keymap { layer, row, col }, ValueView::KeyAction(_)) => {
                if layer < d.num_layers && row < d.rows && col < d.cols {
                    lemma_flat_in_bounds(
                        layer as int,
                        row as int,
                        col as int,
                        d.num_layers as int,
                        d.rows as int,
                        d.cols as int,
                    );
                }
            },
            (StorageKey::Encoder { layer, idx }, ValueView::EncoderAction(_)) => {
                if layer < d.num_layers && idx < d.num_encoders {
                    lemma_encoder_index_in_bounds(layer as int, idx as int, d.num_layers as int, d.num_encoders as int);
                }
            },
            _ => {},
        }
    }
}

/// Restoring a pair under any key other than the key position `(layer, row,
/// col)` of the grid leaves the action there as it was.
proof fn lemma_apply_other_key(st: RestoreState, k: StorageKey, v: ValueView, layer: u8, row: u8, col: u8)
    requires
        st.data.wf(),
        layer < st.data.num_layers,
        row < st.data.rows,
        col < st.data.cols,
        k != (StorageKey::Keymap { layer, row, col }),
    ensures
        spec_apply(st, k, v).data.action_at(layer as int, row as int, col as int) == st.data.action_at(
            layer as int,
            row as int,
            col as int,
        ),
{
    let d = st.data;
    let here = spec_flat(layer as int, row as int, col as int, d.rows as int, d.cols as int);
    lemma_flat_in_bounds(layer as int, row as int, col as int, d.num_layers as int, d.rows as int, d.cols as int);
    match (k, v) {
        (StorageKey::Keymap { layer: l2, row: r2, col: c2 }, ValueView::KeyAction(a)) => {
            if l2 < d.num_layers && r2 < d.rows && c2 < d.cols {
                let there = spec_flat(l2 as int, r2 as int, c2 as int, d.rows as int, d.cols as int);
                lemma_flat_in_bounds(l2 as int, r2 as int, c2 as int, d.num_layers as int, d.rows as int, d.cols as int);
                lemma_coords_of_flat(layer as int, row as int, col as int, d.rows as int, d.cols as int);
                lemma_coords_of_flat(l2 as int, r2 as int, c2 as int, d.rows as int, d.cols as int);
                assert(l2 != layer || r2 != row || c2 != col);
                assert(here != there);
                assert(d.keymap.update(there, a)[here] == d.keymap[here]);
            }
        },
        _ => {},
    }
}

/// A stored key edit outranks the compiled-in keymap: after a restore, a key
/// position inside the grid holds the action of the last stored edit of that
/// position, whatever was compiled in and whatever else is stored.
pub proof fn lemma_last_key_edit_wins(
    st: RestoreState,
    entries: Seq<(StorageKey, ValueView)>,
    i: int,
    layer: u8,
    row: u8,
    col: u8,
    action: KeyAction,
)
    requires
        st.data.wf(),
        layer < st.data.num_layers,
        row < st.data.rows,
        col < st.data.cols,
        0 <= i < entries.len(),
        entries[i] == (StorageKey::Keymap { layer, row, col }, ValueView::KeyAction(action)),
        forall|j: int| i < j < entries.len() ==> #[trigger] entries[j].0 != (StorageKey::Keymap { layer, row, col }),
    ensures
        spec_apply_all(st, entries).data.action_at(layer as int, row as int, col as int) == action,
    decreases entries.len(),
{
    let prev = entries.drop_last();
    lemma_apply_all_keeps_grid(st, prev);
    let mid = spec_apply_all(st, prev);
    assert(mid.data.wf());
    if i == entries.len() - 1 {
        lemma_flat_in_bounds(
            layer as int,
            row as int,
            col as int,
            mid.data.num_layers as int,
            mid.data.rows as int,
            mid.data.cols as int,
        );
    } else {
        assert forall|j: int| i < j < prev.len() implies #[trigger] prev[j].0 != (StorageKey::Keymap { layer, row, col }) by {
            assert(prev[j] == entries[j]);
        }
        lemma_last_key_edit_wins(st, prev, i, layer, row, col, action);
        let last = entries.last();
        assert(last.0 != (StorageKey::Keymap { layer, row, col }));
        lemma_apply_other_key(mid, last.0, last.1, layer, row, col);
    }
}

/// True when `(k, v)` is a stored setting: the default layer, the layout
/// option, the behavior timings or the macro buffer.
pub open spec fn spec_is_setting(k: StorageKey, v: ValueView) -> bool {
    match (k, v) {
        (StorageKey::DefaultLayer, ValueView::DefaultLayer(_)) => true,
        (StorageKey::LayoutOption, ValueView::LayoutOption(_)) => true,
        (StorageKey::BehaviorConfig, ValueView::BehaviorConfig(_)) => true,
        (StorageKey::MacroData, ValueView::MacroData(_)) => true,
        _ => false,
    }
}

/// True when the state holds the stored setting `(k, v)`: the default layer,
/// the layout option, the six behavior timings (16-bit values widened) or the
/// macro buffer it stores.
pub open spec fn spec_setting_holds(st: RestoreState, k: StorageKey, v: ValueView) -> bool {
    match (k, v) {
        (StorageKey::DefaultLayer, ValueView::DefaultLayer(layer)) => st.behavior.default_layer == layer,
        (StorageKey::LayoutOption, ValueView::LayoutOption(option)) => st.data.layout_option == option,
        (StorageKey::BehaviorConfig, ValueView::BehaviorConfig(c)) => {
            &&& st.behavior.prior_idle_time_ms == c.prior_idle_time as u64
            &&& st.behavior.morse_default_profile == c.morse_default_profile
            &&& st.behavior.combo_timeout_ms == c.combo_timeout as u64
            &&& st.behavior.one_shot_timeout_ms == c.one_shot_timeout as u64
            &&& st.behavior.tap_interval == c.tap_interval
            &&& st.behavior.tap_capslock_interval == c.tap_capslock_interval
        },
        (StorageKey::MacroData, ValueView::MacroData(bytes)) => st.behavior.macro_sequences == bytes,
        _ => false,
    }
}

/// The latest stored setting wins: after a restore, the default layer, the
/// layout option, the behavior timings or the macro buffer are those of the
/// last item stored under that key, whatever was compiled in and whatever
/// else is stored.
pub proof fn lemma_last_setting_wins(st: RestoreState, entries: Seq<(StorageKey, ValueView)>, i: int)
    requires
        0 <= i < entries.len(),
        spec_is_setting(entries[i].0, entries[i].1),
        forall|j: int| i < j < entries.len() ==> #[trigger] entries[j].0 != entries[i].0,
    ensures
        spec_setting_holds(spec_apply_all(st, entries), entries[i].0, entries[i].1),
    decreases entries.len(),
{
    let prev = entries.drop_last();
    if i < entries.len() - 1 {
        assert forall|j: int| i < j < prev.len() implies #[trigger] prev[j].0 != prev[i].0 by {
            assert(prev[j] == entries[j]);
        }
        lemma_last_setting_wins(st, prev, i);
        assert(entries.last().0 != entries[i].0);
    }
}

/// A read item as a `(key, value)` pair of values; a failed read stands for a
/// pair that restores nothing.
pub open spec fn spec_read_entry(x: Result<(StorageKey, StorageValue), ()>) -> (StorageKey, ValueView) {
    match x {
        Ok((k, v)) => (k, v@),
        Err(_) => (StorageKey::StorageConfig, ValueView::StorageConfig(0)),
    }
}

/// The pairs of a run of read items.
pub open spec fn spec_read_entries(items: Seq<Result<(StorageKey, StorageValue), ()>>) -> Seq<(StorageKey, ValueView)> {
    items.map_values(|x: Result<(StorageKey, StorageValue), ()>| spec_read_entry(x))
}

/// Restores the keymap and behavior from every stored item, in storage
/// order, as the storage iterator yields them; later items win.
///
/// A read failure stops the restore there: the items before it are applied
/// and `Err` is returned.
pub fn read_keymap(
    data: &mut KeymapData,
    behavior: &mut BehaviorConfig,
    items: &Vec<Result<(StorageKey, StorageValue), ()>>,
) -> (r: Result<(), ()>)
    requires
        spec_state_wf(spec_state(old(data), old(behavior))),
        forall|i: int| #![trigger items@[i]] 0 <= i < items@.len() ==> (items@[i] matches Ok((_, v)) ==> spec_value_wf(v@)),
    ensures
        spec_state_wf(spec_state(final(data), final(behavior))),
        r is Ok <==> forall|i: int| 0 <= i < items@.len() ==> items@[i] is Ok,
        r is Ok ==> spec_state(final(data), final(behavior)) == spec_apply_all(
            spec_state(old(data), old(behavior)),
            spec_read_entries(items@),
        ),
        r is Err ==> exists|n: int|
            #![trigger items@[n]]
            0 <= n < items@.len() && items@[n] is Err && (forall|j: int| 0 <= j < n ==> items@[j] is Ok)
                && spec_state(final(data), final(behavior)) == spec_apply_all(
                spec_state(old(data), old(behavior)),
                spec_read_entries(items@.take(n)),
            ),
{
    let ghost st0 = spec_state(data, behavior);
    let n = items.len();
    let mut i: usize = 0;
    while i < n
        invariant
            n == items@.len(),
            i <= n,
            st0 == spec_state(old(data), old(behavior)),
            forall|j: int| #![trigger items@[j]] 0 <= j < items@.len() ==> (items@[j] matches Ok((_, v)) ==> spec_value_wf(v@)),
            forall|j: int| 0 <= j < i ==> items@[j] is Ok,
            spec_state_wf(spec_state(data, behavior)),
            spec_state(data, behavior) == spec_apply_all(st0, spec_read_entries(items@.take(i as int))),
        decreases n - i,
    {
        match &items[i] {
            Ok((k, v)) => {
                let ghost before = spec_state(data, behavior);
                apply_stored_item(data, behavior, k, v);
                proof {
                    lemma_apply_keeps_shape(before, *k, v@);
                    assert(spec_read_entries(items@.take(i + 1)).drop_last() =~= spec_read_entries(items@.take(i as int)));
                    assert(spec_read_entries(items@.take(i + 1)).last() == (*k, v@));
                }
            },
            Err(()) => {
                assert(items@[i as int] is Err);
                return Err(());
            },
        }
        i += 1;
    }
    assert(items@.take(n as int) =~= items@);
    Ok(())
}

} // verus!
