//! The items that overwrite the stored layout with a compiled-in one, and the
//! law that restoring them gives that layout back.
use vstd::prelude::*;

use crate::action::KeyAction;
use crate::behavior::{
    ms_to_u16, spec_stored_behavior, BehaviorConfig, BehaviorView, ComboConfig, ComboView, StoredBehaviorConfig,
};
use crate::grid::{lemma_coords_in_bounds, lemma_nonempty_grid, spec_coords};
use crate::keymap::{KeymapData, KeymapView};
use crate::restore::{copy_bytes, spec_apply, spec_apply_all, RestoreState};
use crate::storage::{spec_item_key, spec_item_value, StorageItem, StorageKey, ValueView};

verus! {

/// The configuration of an empty combo.
pub open spec fn spec_empty_combo() -> ComboView {
    ComboView { actions: Seq::empty(), output: KeyAction::No, layer: None }
}

/// The configuration written for a combo slot: the combo's, or the empty one.
pub open spec fn spec_slot_config(c: Option<ComboView>) -> ComboView {
    match c {
        Some(v) => v,
        None => spec_empty_combo(),
    }
}

/// The pair an item stores, as values.
pub open spec fn spec_item_entry(item: StorageItem) -> (StorageKey, ValueView) {
    (spec_item_key(item), spec_item_value(item)@)
}

/// The settings written first: timings, default layer 0, layout option 0, the
/// macro buffer.
pub open spec fn spec_header_entries(b: BehaviorView) -> Seq<(StorageKey, ValueView)> {
    seq![
        (StorageKey::BehaviorConfig, ValueView::BehaviorConfig(spec_stored_behavior(b))),
        (StorageKey::DefaultLayer, ValueView::DefaultLayer(0)),
        (StorageKey::LayoutOption, ValueView::LayoutOption(0)),
        (StorageKey::MacroData, ValueView::MacroData(b.macro_sequences)),
    ]
}

/// One key action per grid position, layer by layer, row by row.
pub open spec fn spec_keymap_entries(d: KeymapView) -> Seq<(StorageKey, ValueView)> {
    Seq::new(
        d.keymap.len(),
        |i: int|
            {
                let c = spec_coords(i, d.rows as int, d.cols as int);
                (
                    StorageKey::Keymap { layer: c.0 as u8, row: c.1 as u8, col: c.2 as u8 },
                    ValueView::KeyAction(d.keymap[i]),
                )
            },
    )
}

/// One encoder action pair per (layer, encoder), layer by layer.
pub open spec fn spec_encoder_entries(d: KeymapView) -> Seq<(StorageKey, ValueView)> {
    Seq::new(
        d.encoder_map.len(),
        |i: int|
            (
                StorageKey::Encoder {
                    layer: (i / (d.num_encoders as int)) as u8,
                    idx: (i % (d.num_encoders as int)) as u8,
                },
                ValueView::EncoderAction(d.encoder_map[i]),
            ),
    )
}

/// One combo per slot; an empty slot is written as an empty combo.
pub open spec fn spec_combo_entries(b: BehaviorView) -> Seq<(StorageKey, ValueView)> {
    Seq::new(b.combos.len(), |i: int| (StorageKey::Combo(i as u8), ValueView::Combo(spec_slot_config(b.combos[i]))))
}

/// One fork per slot.
pub open spec fn spec_fork_entries(b: BehaviorView) -> Seq<(StorageKey, ValueView)> {
    Seq::new(b.forks.len(), |i: int| (StorageKey::Fork(i as u8), ValueView::Fork(b.forks[i])))
}

/// One morse key per slot.
pub open spec fn spec_morse_entries(b: BehaviorView) -> Seq<(StorageKey, ValueView)> {
    Seq::new(b.morses.len(), |i: int| (StorageKey::Morse(i as u8), ValueView::Morse(b.morses[i])))
}

/// Every item that the layout owns, in the order they are written.
pub open spec fn spec_layout_entries(d: KeymapView, b: BehaviorView) -> Seq<(StorageKey, ValueView)> {
    spec_header_entries(b) + spec_keymap_entries(d) + spec_encoder_entries(d) + spec_combo_entries(b)
        + spec_fork_entries(b) + spec_morse_entries(b)
}

/// True for a key the layout owns: the settings, the macro buffer, and the
/// key, encoder, combo, fork and morse records. Pairings, the connection type,
/// user data and the schema record are not the layout's.
pub open spec fn spec_is_layout_key(k: StorageKey) -> bool {
    match k {
        StorageKey::BehaviorConfig | StorageKey::DefaultLayer | StorageKey::LayoutOption | StorageKey::MacroData
        | StorageKey::Keymap { .. } | StorageKey::Encoder { .. } | StorageKey::Combo(_) | StorageKey::Fork(_)
        | StorageKey::Morse(_) => true,
        _ => false,
    }
}

/// Rewriting the layout keeps the pairings: every item it writes is under a
/// key the layout owns, so bonds, the peer address, the active profile, the
/// connection type and user data survive it.
pub proof fn lemma_layout_rewrite_keeps_pairings(d: KeymapView, b: BehaviorView)
    ensures
        forall|i: int|
            0 <= i < spec_layout_entries(d, b).len() ==> spec_is_layout_key(#[trigger] spec_layout_entries(d, b)[i].0),
{
    let h = spec_header_entries(b);
    let k = spec_keymap_entries(d);
    let e = spec_encoder_entries(d);
    let c = spec_combo_entries(b);
    let f = spec_fork_entries(b);
    let m = spec_morse_entries(b);
    assert forall|i: int| 0 <= i < h.len() implies spec_is_layout_key(#[trigger] h[i].0) by {}
    assert forall|i: int| 0 <= i < k.len() implies spec_is_layout_key(#[trigger] k[i].0) by {}
    assert forall|i: int| 0 <= i < e.len() implies spec_is_layout_key(#[trigger] e[i].0) by {}
    assert forall|i: int| 0 <= i < c.len() implies spec_is_layout_key(#[trigger] c[i].0) by {}
    assert forall|i: int| 0 <= i < f.len() implies spec_is_layout_key(#[trigger] f[i].0) by {}
    assert forall|i: int| 0 <= i < m.len() implies spec_is_layout_key(#[trigger] m[i].0) by {}
    let s1 = h + k;
    assert forall|i: int| 0 <= i < s1.len() implies spec_is_layout_key(#[trigger] s1[i].0) by {
        if i >= h.len() {
            assert(s1[i] == k[i - h.len()]);
        }
    }
    let s2 = s1 + e;
    assert forall|i: int| 0 <= i < s2.len() implies spec_is_layout_key(#[trigger] s2[i].0) by {
        if i >= s1.len() {
            assert(s2[i] == e[i - s1.len()]);
        }
    }
    let s3 = s2 + c;
    assert forall|i: int| 0 <= i < s3.len() implies spec_is_layout_key(#[trigger] s3[i].0) by {
        if i >= s2.len() {
            assert(s3[i] == c[i - s2.len()]);
        }
    }
    let s4 = s3 + f;
    assert forall|i: int| 0 <= i < s4.len() implies spec_is_layout_key(#[trigger] s4[i].0) by {
        if i >= s3.len() {
            assert(s4[i] == f[i - s3.len()]);
        }
    }
    let s5 = s4 + m;
    assert forall|i: int| 0 <= i < s5.len() implies spec_is_layout_key(#[trigger] s5[i].0) by {
        if i >= s4.len() {
            assert(s5[i] == m[i - s4.len()]);
        }
    }
    assert(s5 == spec_layout_entries(d, b));
}

/// The items that overwrite every item the layout owns with the given
/// keymap data and behavior settings: timings, default layer 0, layout
/// option 0, macros, every key, every encoder, every combo slot (an empty slot
/// as an empty combo, so a combo added later is cleared), every fork and every
/// morse key. Indices are written as bytes.
pub fn layout_items(data: &KeymapData, behavior: &BehaviorConfig) -> (r: Vec<StorageItem>)
    requires
        data@.wf(),
    ensures
        r@.map_values(|it: StorageItem| spec_item_entry(it)) == spec_layout_entries(data@, behavior@),
{
    let ghost d = data@;
    let ghost b = behavior@;
    let mut items: Vec<StorageItem> = Vec::new();
    items.push(StorageItem::BehaviorConfig(StoredBehaviorConfig::from_behavior(behavior)));
    items.push(StorageItem::DefaultLayer(0));
    items.push(StorageItem::LayoutOption(0));
    items.push(StorageItem::MacroData(copy_bytes(&behavior.macro_sequences)));
    assert(items@.map_values(|it: StorageItem| spec_item_entry(it)) =~= spec_header_entries(b));

    let ghost pre = spec_header_entries(b);
    let n = data.keymap.len();
    for i in 0..n
        invariant
            n == d.keymap.len(),
            d == data@,
            b == behavior@,
            d.wf(),
            items@.map_values(|it: StorageItem| spec_item_entry(it)) == pre + spec_keymap_entries(d).take(i as int),
    {
        proof {
            lemma_nonempty_grid(i as int, d.num_layers as int, d.rows as int, d.cols as int);
            lemma_coords_in_bounds(i as int, d.num_layers as int, d.rows as int, d.cols as int);
        }
        let rc = data.rows * data.cols;
        let layer = #[verifier::truncate] ((i / rc) as u8);
        let row = #[verifier::truncate] (((i / data.cols) % data.rows) as u8);
        let col = #[verifier::truncate] ((i % data.cols) as u8);
        let ghost before = items@;
        items.push(StorageItem::Keymap { layer, row, col, action: data.keymap[i] });
        proof {
            assert(items@ == before.push(items@.last()));
            assert(items@.map_values(|it: StorageItem| spec_item_entry(it)) =~= before.map_values(
                |it: StorageItem| spec_item_entry(it),
            ).push(spec_keymap_entries(d)[i as int]));
            assert(spec_keymap_entries(d).take(i + 1) =~= spec_keymap_entries(d).take(i as int).push(
                spec_keymap_entries(d)[i as int],
            ));
            assert((pre + spec_keymap_entries(d).take(i as int)).push(spec_keymap_entries(d)[i as int]) =~= pre
                + spec_keymap_entries(d).take(i + 1));
        }
    }
    proof {
        assert(spec_keymap_entries(d).take(n as int) =~= spec_keymap_entries(d));
    }

    let ghost pre = pre + spec_keymap_entries(d);
    assert(pre + spec_encoder_entries(d).take(0) =~= pre);
    let n = data.encoder_map.len();
    for i in 0..n
        invariant
            n == d.encoder_map.len(),
            d == data@,
            b == behavior@,
            d.wf(),
            items@.map_values(|it: StorageItem| spec_item_entry(it)) == pre + spec_encoder_entries(d).take(i as int),
    {
        proof {
            if d.num_encoders == 0 {
                assert(d.num_layers * d.num_encoders == 0) by (nonlinear_arith)
                    requires
                        d.num_encoders == 0,
                ;
            }
        }
        let layer = #[verifier::truncate] ((i / data.num_encoders) as u8);
        let idx = #[verifier::truncate] ((i % data.num_encoders) as u8);
        let ghost before = items@;
        items.push(StorageItem::Encoder { layer, idx, action: data.encoder_map[i] });
        proof {
            assert(items@ == before.push(items@.last()));
            assert(items@.map_values(|it: StorageItem| spec_item_entry(it)) =~= before.map_values(
                |it: StorageItem| spec_item_entry(it),
            ).push(spec_encoder_entries(d)[i as int]));
            assert(spec_encoder_entries(d).take(i + 1) =~= spec_encoder_entries(d).take(i as int).push(
                spec_encoder_entries(d)[i as int],
            ));
            assert((pre + spec_encoder_entries(d).take(i as int)).push(spec_encoder_entries(d)[i as int]) =~= pre
                + spec_encoder_entries(d).take(i + 1));
        }
    }
    proof {
        assert(spec_encoder_entries(d).take(n as int) =~= spec_encoder_entries(d));
    }

    let ghost pre = pre + spec_encoder_entries(d);
    assert(pre + spec_combo_entries(b).take(0) =~= pre);
    let n = behavior.combos.len();
    for i in 0..n
        invariant
            n == b.combos.len(),
            d == data@,
            b == behavior@,
            d.wf(),
            items@.map_values(|it: StorageItem| spec_item_entry(it)) == pre + spec_combo_entries(b).take(i as int),
    {
        let config = match &behavior.combos[i] {
            Some(c) => c.config.duplicate(),
            None => ComboConfig::empty(),
        };
        proof {
            assert(b.combos[i as int] == crate::behavior::spec_combo_slot_view(behavior.combos@[i as int]));
            assert(config@ =~= spec_slot_config(b.combos[i as int]));
        }
        let idx = #[verifier::truncate] (i as u8);
        let ghost before = items@;
        items.push(StorageItem::Combo { idx, config });
        proof {
            assert(items@ == before.push(items@.last()));
            assert(items@.map_values(|it: StorageItem| spec_item_entry(it)) =~= before.map_values(
                |it: StorageItem| spec_item_entry(it),
            ).push(spec_combo_entries(b)[i as int]));
            assert(spec_combo_entries(b).take(i + 1) =~= spec_combo_entries(b).take(i as int).push(
                spec_combo_entries(b)[i as int],
            ));
            assert((pre + spec_combo_entries(b).take(i as int)).push(spec_combo_entries(b)[i as int]) =~= pre
                + spec_combo_entries(b).take(i + 1));
        }
    }
    proof {
        assert(spec_combo_entries(b).take(n as int) =~= spec_combo_entries(b));
    }

    let ghost pre = pre + spec_combo_entries(b);
    assert(pre + spec_fork_entries(b).take(0) =~= pre);
    let n = behavior.forks.len();
    for i in 0..n
        invariant
            n == b.forks.len(),
            d == data@,
            b == behavior@,
            d.wf(),
            items@.map_values(|it: StorageItem| spec_item_entry(it)) == pre + spec_fork_entries(b).take(i as int),
    {
        let idx = #[verifier::truncate] (i as u8);
        let ghost before = items@;
        items.push(StorageItem::Fork { idx, fork: behavior.forks[i] });
        proof {
            assert(items@ == before.push(items@.last()));
            assert(items@.map_values(|it: StorageItem| spec_item_entry(it)) =~= before.map_values(
                |it: StorageItem| spec_item_entry(it),
            ).push(spec_fork_entries(b)[i as int]));
            assert(spec_fork_entries(b).take(i + 1) =~= spec_fork_entries(b).take(i as int).push(
                spec_fork_entries(b)[i as int],
            ));
            assert((pre + spec_fork_entries(b).take(i as int)).push(spec_fork_entries(b)[i as int]) =~= pre
                + spec_fork_entries(b).take(i + 1));
        }
    }
    proof {
        assert(spec_fork_entries(b).take(n as int) =~= spec_fork_entries(b));
    }

    let ghost pre = pre + spec_fork_entries(b);
    assert(pre + spec_morse_entries(b).take(0) =~= pre);
    let n = behavior.morses.len();
    for i in 0..n
        invariant
            n == b.morses.len(),
            d == data@,
            b == behavior@,
            d.wf(),
            items@.map_values(|it: StorageItem| spec_item_entry(it)) == pre + spec_morse_entries(b).take(i as int),
    {
        let morse = behavior.morses[i].duplicate();
        proof {
            assert(b.morses[i as int] == behavior.morses@[i as int]@);
            assert(morse@ =~= b.morses[i as int]);
        }
        let idx = #[verifier::truncate] (i as u8);
        let ghost before = items@;
        items.push(StorageItem::Morse { idx, morse });
        proof {
            assert(items@ == before.push(items@.last()));
            assert(items@.map_values(|it: StorageItem| spec_item_entry(it)) =~= before.map_values(
                |it: StorageItem| spec_item_entry(it),
            ).push(spec_morse_entries(b)[i as int]));
            assert(spec_morse_entries(b).take(i + 1) =~= spec_morse_entries(b).take(i as int).push(
                spec_morse_entries(b)[i as int],
            ));
            assert((pre + spec_morse_entries(b).take(i as int)).push(spec_morse_entries(b)[i as int]) =~= pre
                + spec_morse_entries(b).take(i + 1));
        }
    }
    proof {
        assert(spec_morse_entries(b).take(n as int) =~= spec_morse_entries(b));
    }
    let ghost pre = pre + spec_morse_entries(b);
    assert(pre =~= spec_layout_entries(d, b));
    items
}

// ---------------------------------------------------------------------------
// Restoring the layout items gives the layout back
// ---------------------------------------------------------------------------

/// Restoring a run is restoring its first part, then its second part.
pub proof fn lemma_apply_all_append(st: RestoreState, s1: Seq<(StorageKey, ValueView)>, s2: Seq<(StorageKey, ValueView)>)
    ensures
        spec_apply_all(st, s1 + s2) == spec_apply_all(spec_apply_all(st, s1), s2),
    decreases s2.len(),
{
    if s2.len() == 0 {
        assert(s1 + s2 =~= s1);
    } else {
        lemma_apply_all_append(st, s1, s2.drop_last());
        assert((s1 + s2).drop_last() =~= s1 + s2.drop_last());
        assert((s1 + s2).last() == s2.last());
    }
}

/// A state has the grid dimensions and slot counts of the given layout, and
/// every part has its full size.
pub open spec fn spec_same_shape(st: RestoreState, d: KeymapView, b: BehaviorView) -> bool {
    &&& st.data.rows == d.rows
    &&& st.data.cols == d.cols
    &&& st.data.num_layers == d.num_layers
    &&& st.data.num_encoders == d.num_encoders
    &&& st.data.wf()
    &&& d.wf()
    &&& st.behavior.combos.len() == b.combos.len()
    &&& st.behavior.forks.len() == b.forks.len()
    &&& st.behavior.morses.len() == b.morses.len()
}

/// Every grid dimension and slot count fits the one-byte indices of keys.
pub open spec fn spec_byte_indexed(d: KeymapView, b: BehaviorView) -> bool {
    &&& d.rows <= 256
    &&& d.cols <= 256
    &&& d.num_layers <= 256
    &&& d.num_encoders <= 256
    &&& b.combos.len() <= 256
    &&& b.forks.len() <= 256
    &&& b.morses.len() <= 256
}

proof fn lemma_keymap_segment(st: RestoreState, d: KeymapView, b: BehaviorView, n: int)
    requires
        spec_same_shape(st, d, b),
        spec_byte_indexed(d, b),
        0 <= n <= d.keymap.len(),
    ensures
        spec_apply_all(st, spec_keymap_entries(d).take(n)) == (RestoreState {
            data: KeymapView { keymap: d.keymap.take(n) + st.data.keymap.skip(n), ..st.data },
            ..st
        }),
    decreases n,
{
    let target = RestoreState {
        data: KeymapView { keymap: d.keymap.take(n) + st.data.keymap.skip(n), ..st.data },
        ..st
    };
    if n == 0 {
        assert(spec_keymap_entries(d).take(0) =~= Seq::empty());
        assert(d.keymap.take(0) + st.data.keymap.skip(0) =~= st.data.keymap);
        assert(spec_apply_all(st, spec_keymap_entries(d).take(n)) =~= target);
    } else {
        lemma_keymap_segment(st, d, b, n - 1);
        assert(spec_keymap_entries(d).take(n).drop_last() =~= spec_keymap_entries(d).take(n - 1));
        lemma_coords_in_bounds(n - 1, d.num_layers as int, d.rows as int, d.cols as int);
        let prev = d.keymap.take(n - 1) + st.data.keymap.skip(n - 1);
        assert(prev.update(n - 1, d.keymap[n - 1]) =~= d.keymap.take(n) + st.data.keymap.skip(n));
        assert(spec_apply_all(st, spec_keymap_entries(d).take(n)) =~= target);
    }
}

proof fn lemma_encoder_segment(st: RestoreState, d: KeymapView, b: BehaviorView, n: int)
    requires
        spec_same_shape(st, d, b),
        spec_byte_indexed(d, b),
        0 <= n <= d.encoder_map.len(),
    ensures
        spec_apply_all(st, spec_encoder_entries(d).take(n)) == (RestoreState {
            data: KeymapView { encoder_map: d.encoder_map.take(n) + st.data.encoder_map.skip(n), ..st.data },
            ..st
        }),
    decreases n,
{
    let target = RestoreState {
        data: KeymapView { encoder_map: d.encoder_map.take(n) + st.data.encoder_map.skip(n), ..st.data },
        ..st
    };
    if n == 0 {
        assert(spec_encoder_entries(d).take(0) =~= Seq::empty());
        assert(d.encoder_map.take(0) + st.data.encoder_map.skip(0) =~= st.data.encoder_map);
        assert(spec_apply_all(st, spec_encoder_entries(d).take(n)) =~= target);
    } else {
        lemma_encoder_segment(st, d, b, n - 1);
        assert(spec_encoder_entries(d).take(n).drop_last() =~= spec_encoder_entries(d).take(n - 1));
        let i = n - 1;
        let e = d.num_encoders as int;
        if e == 0 {
            assert(d.num_layers * d.num_encoders == 0) by (nonlinear_arith)
                requires
                    d.num_encoders == 0,
            ;
        }
        vstd::arithmetic::div_mod::lemma_fundamental_div_mod(i, e);
        vstd::arithmetic::div_mod::lemma_mod_pos_bound(i, e);
        assert(0 <= i / e < d.num_layers) by (nonlinear_arith)
            requires
                0 <= i < d.num_layers * e,
                e > 0,
                i == e * (i / e) + i % e,
                0 <= i % e < e,
        ;
        assert((i / e) * e + i % e == i) by (nonlinear_arith)
            requires
                i == e * (i / e) + i % e,
        ;
        let prev = d.encoder_map.take(i) + st.data.encoder_map.skip(i);
        assert(prev.update(i, d.encoder_map[i]) =~= d.encoder_map.take(n) + st.data.encoder_map.skip(n));
        assert(spec_apply_all(st, spec_encoder_entries(d).take(n)) =~= target);
    }
}

/// The combo slots after restoring the layout: each holds its combo, or the
/// empty combo.
pub open spec fn spec_restored_combos(b: BehaviorView) -> Seq<Option<ComboView>> {
    Seq::new(b.combos.len(), |i: int| Some(spec_slot_config(b.combos[i])))
}

proof fn lemma_combo_segment(st: RestoreState, d: KeymapView, b: BehaviorView, n: int)
    requires
        spec_same_shape(st, d, b),
        spec_byte_indexed(d, b),
        0 <= n <= b.combos.len(),
    ensures
        spec_apply_all(st, spec_combo_entries(b).take(n)) == (RestoreState {
            behavior: BehaviorView {
                combos: spec_restored_combos(b).take(n) + st.behavior.combos.skip(n),
                ..st.behavior
            },
            ..st
        }),
    decreases n,
{
    let target = RestoreState {
        behavior: BehaviorView { combos: spec_restored_combos(b).take(n) + st.behavior.combos.skip(n), ..st.behavior },
        ..st
    };
    if n == 0 {
        assert(spec_combo_entries(b).take(0) =~= Seq::empty());
        assert(spec_restored_combos(b).take(0) + st.behavior.combos.skip(0) =~= st.behavior.combos);
        assert(spec_apply_all(st, spec_combo_entries(b).take(n)) =~= target);
    } else {
        lemma_combo_segment(st, d, b, n - 1);
        assert(spec_combo_entries(b).take(n).drop_last() =~= spec_combo_entries(b).take(n - 1));
        let prev = spec_restored_combos(b).take(n - 1) + st.behavior.combos.skip(n - 1);
        assert(prev.update(n - 1, Some(spec_slot_config(b.combos[n - 1]))) =~= spec_restored_combos(b).take(n)
            + st.behavior.combos.skip(n));
        assert(spec_apply_all(st, spec_combo_entries(b).take(n)) =~= target);
    }
}

proof fn lemma_fork_segment(st: RestoreState, d: KeymapView, b: BehaviorView, n: int)
    requires
        spec_same_shape(st, d, b),
        spec_byte_indexed(d, b),
        0 <= n <= b.forks.len(),
    ensures
        spec_apply_all(st, spec_fork_entries(b).take(n)) == (RestoreState {
            behavior: BehaviorView { forks: b.forks.take(n) + st.behavior.forks.skip(n), ..st.behavior },
            ..st
        }),
    decreases n,
{
    let target = RestoreState {
        behavior: BehaviorView { forks: b.forks.take(n) + st.behavior.forks.skip(n), ..st.behavior },
        ..st
    };
    if n == 0 {
        assert(spec_fork_entries(b).take(0) =~= Seq::empty());
        assert(b.forks.take(0) + st.behavior.forks.skip(0) =~= st.behavior.forks);
        assert(spec_apply_all(st, spec_fork_entries(b).take(n)) =~= target);
    } else {
        lemma_fork_segment(st, d, b, n - 1);
        assert(spec_fork_entries(b).take(n).drop_last() =~= spec_fork_entries(b).take(n - 1));
        let prev = b.forks.take(n - 1) + st.behavior.forks.skip(n - 1);
        assert(prev.update(n - 1, b.forks[n - 1]) =~= b.forks.take(n) + st.behavior.forks.skip(n));
        assert(spec_apply_all(st, spec_fork_entries(b).take(n)) =~= target);
    }
}

proof fn lemma_morse_segment(st: RestoreState, d: KeymapView, b: BehaviorView, n: int)
    requires
        spec_same_shape(st, d, b),
        spec_byte_indexed(d, b),
        0 <= n <= b.morses.len(),
    ensures
        spec_apply_all(st, spec_morse_entries(b).take(n)) == (RestoreState {
            behavior: BehaviorView { morses: b.morses.take(n) + st.behavior.morses.skip(n), ..st.behavior },
            ..st
        }),
    decreases n,
{
    let target = RestoreState {
        behavior: BehaviorView { morses: b.morses.take(n) + st.behavior.morses.skip(n), ..st.behavior },
        ..st
    };
    if n == 0 {
        assert(spec_morse_entries(b).take(0) =~= Seq::empty());
        assert(b.morses.take(0) + st.behavior.morses.skip(0) =~= st.behavior.morses);
        assert(spec_apply_all(st, spec_morse_entries(b).take(n)) =~= target);
    } else {
        lemma_morse_segment(st, d, b, n - 1);
        assert(spec_morse_entries(b).take(n).drop_last() =~= spec_morse_entries(b).take(n - 1));
        let prev = b.morses.take(n - 1) + st.behavior.morses.skip(n - 1);
        assert(prev.update(n - 1, b.morses[n - 1]) =~= b.morses.take(n) + st.behavior.morses.skip(n));
        assert(spec_apply_all(st, spec_morse_entries(b).take(n)) =~= target);
    }
}

proof fn lemma_header(st: RestoreState, b: BehaviorView)
    ensures
        spec_apply_all(st, spec_header_entries(b)) == (RestoreState {
            data: KeymapView { layout_option: 0, ..st.data },
            behavior: BehaviorView {
                default_layer: 0,
                prior_idle_time_ms: ms_to_u16(b.prior_idle_time_ms) as u64,
                morse_default_profile: b.morse_default_profile,
                combo_timeout_ms: ms_to_u16(b.combo_timeout_ms) as u64,
                one_shot_timeout_ms: ms_to_u16(b.one_shot_timeout_ms) as u64,
                tap_interval: b.tap_interval,
                tap_capslock_interval: b.tap_capslock_interval,
                macro_sequences: b.macro_sequences,
                ..st.behavior
            },
        }),
{
    let h = spec_header_entries(b);
    assert(h.take(1).drop_last() =~= h.take(0));
    assert(h.take(2).drop_last() =~= h.take(1));
    assert(h.take(3).drop_last() =~= h.take(2));
    assert(h.take(4).drop_last() =~= h.take(3));
    assert(h.take(4) =~= h);
    assert(h.take(0) =~= Seq::empty());
    assert(spec_apply_all(st, h.take(0)) == st);
    let s1 = spec_apply_all(st, h.take(1));
    assert(s1 == spec_apply(st, h[0].0, h[0].1));
    let s2 = spec_apply_all(st, h.take(2));
    assert(s2 == spec_apply(s1, h[1].0, h[1].1));
    let s3 = spec_apply_all(st, h.take(3));
    assert(s3 == spec_apply(s2, h[2].0, h[2].1));
    let s4 = spec_apply_all(st, h.take(4));
    assert(s4 == spec_apply(s3, h[3].0, h[3].1));
    assert(spec_apply_all(st, h) =~= (RestoreState {
        data: KeymapView { layout_option: 0, ..st.data },
        behavior: BehaviorView {
            default_layer: 0,
            prior_idle_time_ms: ms_to_u16(b.prior_idle_time_ms) as u64,
            morse_default_profile: b.morse_default_profile,
            combo_timeout_ms: ms_to_u16(b.combo_timeout_ms) as u64,
            one_shot_timeout_ms: ms_to_u16(b.one_shot_timeout_ms) as u64,
            tap_interval: b.tap_interval,
            tap_capslock_interval: b.tap_capslock_interval,
            macro_sequences: b.macro_sequences,
            ..st.behavior
        },
    }));
}

/// The layout settings restoring the layout items gives back: the layout's
/// keymap and encoders with layout option 0, default layer 0, the timings as
/// storage keeps them (whole milliseconds, cut to 16 bits), the layout's
/// macros, forks and morse keys, and each combo slot holding its combo or the
/// empty combo.
pub open spec fn spec_restored_layout(st: RestoreState, d: KeymapView, b: BehaviorView) -> RestoreState {
    RestoreState {
        data: KeymapView { layout_option: 0, ..d },
        behavior: BehaviorView {
            default_layer: 0,
            prior_idle_time_ms: ms_to_u16(b.prior_idle_time_ms) as u64,
            morse_default_profile: b.morse_default_profile,
            combo_timeout_ms: ms_to_u16(b.combo_timeout_ms) as u64,
            one_shot_timeout_ms: ms_to_u16(b.one_shot_timeout_ms) as u64,
            tap_interval: b.tap_interval,
            tap_capslock_interval: b.tap_capslock_interval,
            macro_sequences: b.macro_sequences,
            combos: spec_restored_combos(b),
            forks: b.forks,
            morses: b.morses,
        },
    }
}

/// Restoring the layout items over any stored state of the same shape gives
/// the layout back: once the layout is rewritten, the compiled-in layout wins
/// over whatever was stored before.
pub proof fn lemma_layout_restores(st: RestoreState, d: KeymapView, b: BehaviorView)
    requires
        spec_same_shape(st, d, b),
        spec_byte_indexed(d, b),
    ensures
        spec_apply_all(st, spec_layout_entries(d, b)) == spec_restored_layout(st, d, b),
{
    let h = spec_header_entries(b);
    let k = spec_keymap_entries(d);
    let e = spec_encoder_entries(d);
    let c = spec_combo_entries(b);
    let f = spec_fork_entries(b);
    let m = spec_morse_entries(b);
    lemma_apply_all_append(st, h + k + e + c + f, m);
    lemma_apply_all_append(st, h + k + e + c, f);
    lemma_apply_all_append(st, h + k + e, c);
    lemma_apply_all_append(st, h + k, e);
    lemma_apply_all_append(st, h, k);

    lemma_header(st, b);
    let s0 = spec_apply_all(st, h);
    assert(spec_same_shape(s0, d, b));
    lemma_keymap_segment(s0, d, b, d.keymap.len() as int);
    assert(k.take(d.keymap.len() as int) =~= k);
    assert(d.keymap.take(d.keymap.len() as int) + s0.data.keymap.skip(d.keymap.len() as int) =~= d.keymap);
    let s1 = spec_apply_all(s0, k);
    assert(spec_same_shape(s1, d, b));
    lemma_encoder_segment(s1, d, b, d.encoder_map.len() as int);
    assert(e.take(d.encoder_map.len() as int) =~= e);
    assert(d.encoder_map.take(d.encoder_map.len() as int) + s1.data.encoder_map.skip(d.encoder_map.len() as int)
        =~= d.encoder_map);
    let s2 = spec_apply_all(s1, e);
    assert(spec_same_shape(s2, d, b));
    lemma_combo_segment(s2, d, b, b.combos.len() as int);
    assert(c.take(b.combos.len() as int) =~= c);
    assert(spec_restored_combos(b).take(b.combos.len() as int) + s2.behavior.combos.skip(b.combos.len() as int)
        =~= spec_restored_combos(b));
    let s3 = spec_apply_all(s2, c);
    assert(spec_same_shape(s3, d, b));
    lemma_fork_segment(s3, d, b, b.forks.len() as int);
    assert(f.take(b.forks.len() as int) =~= f);
    assert(b.forks.take(b.forks.len() as int) + s3.behavior.forks.skip(b.forks.len() as int) =~= b.forks);
    let s4 = spec_apply_all(s3, f);
    assert(spec_same_shape(s4, d, b));
    lemma_morse_segment(s4, d, b, b.morses.len() as int);
    assert(m.take(b.morses.len() as int) =~= m);
    assert(b.morses.take(b.morses.len() as int) + s4.behavior.morses.skip(b.morses.len() as int) =~= b.morses);
    let s5 = spec_apply_all(s4, m);
    assert(s5 =~= spec_restored_layout(st, d, b));
}

} // verus!
