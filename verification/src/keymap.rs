//! The keymap data: one action per (layer, row, col) and one encoder action
//! pair per (layer, encoder), with the selected layout option.
use vstd::prelude::*;

use crate::action::{EncoderAction, KeyAction};
use crate::grid::{lemma_coords_of_flat, lemma_flat_in_bounds, spec_coords, spec_flat};

verus! {

/// The keymap data, stored layer-major in flat vectors.
pub struct KeymapData {
    pub rows: usize,
    pub cols: usize,
    pub num_layers: usize,
    pub num_encoders: usize,
    /// `keymap[(layer * rows + row) * cols + col]`.
    pub keymap: Vec<KeyAction>,
    /// `encoder_map[layer * num_encoders + idx]`.
    pub encoder_map: Vec<EncoderAction>,
    /// The VIA/Vial layout option selection.
    pub layout_option: u32,
}

/// An encoder that does nothing in either direction.
pub open spec fn spec_empty_encoder() -> EncoderAction {
    EncoderAction { clockwise: KeyAction::No, counter_clockwise: KeyAction::No }
}

/// The keymap data as values.
#[verifier::ext_equal]
pub struct KeymapView {
    pub rows: nat,
    pub cols: nat,
    pub num_layers: nat,
    pub num_encoders: nat,
    pub keymap: Seq<KeyAction>,
    pub encoder_map: Seq<EncoderAction>,
    pub layout_option: u32,
}

impl KeymapView {
    /// Well-formed: each flat vector has one entry per grid position.
    pub open spec fn wf(&self) -> bool {
        &&& self.keymap.len() == self.num_layers * self.rows * self.cols
        &&& self.encoder_map.len() == self.num_layers * self.num_encoders
    }

    /// The action at `(layer, row, col)`.
    pub open spec fn action_at(&self, layer: int, row: int, col: int) -> KeyAction {
        self.keymap[spec_flat(layer, row, col, self.rows as int, self.cols as int)]
    }

    /// The encoder action of encoder `idx` on `layer`.
    pub open spec fn encoder_at(&self, layer: int, idx: int) -> EncoderAction {
        self.encoder_map[layer * self.num_encoders + idx]
    }
}

impl View for KeymapData {
    type V = KeymapView;

    open spec fn view(&self) -> KeymapView {
        KeymapView {
            rows: self.rows as nat,
            cols: self.cols as nat,
            num_layers: self.num_layers as nat,
            num_encoders: self.num_encoders as nat,
            keymap: self.keymap@,
            encoder_map: self.encoder_map@,
            layout_option: self.layout_option,
        }
    }
}

/// The flat index of encoder `idx` on `layer` lies inside the encoder map.
pub proof fn lemma_encoder_index_in_bounds(layer: int, idx: int, layers: int, encoders: int)
    requires
        0 <= layer < layers,
        0 <= idx < encoders,
    ensures
        0 <= layer * encoders <= layer * encoders + idx < layers * encoders,
{
    assert(0 <= layer * encoders <= layer * encoders + idx < layers * encoders) by (nonlinear_arith)
        requires
            0 <= layer < layers,
            0 <= idx < encoders,
    ;
}

impl KeymapData {
    /// Keymap data over a flat layer-major keymap, with every encoder doing
    /// nothing and layout option 0.
    pub fn new_flat(rows: usize, cols: usize, num_layers: usize, num_encoders: usize, keymap: Vec<KeyAction>) -> (r:
        KeymapData)
        requires
            keymap@.len() == num_layers * rows * cols,
            num_layers * num_encoders <= usize::MAX,
        ensures
            r@.wf(),
            r.rows == rows && r.cols == cols && r.num_layers == num_layers && r.num_encoders == num_encoders,
            r.keymap@ == keymap@,
            forall|i: int| 0 <= i < r.encoder_map@.len() ==> r.encoder_map@[i] == spec_empty_encoder(),
            r.layout_option == 0,
    {
        let n: usize = num_layers * num_encoders;
        let mut encoder_map: Vec<EncoderAction> = Vec::new();
        for i in 0..n
            invariant
                encoder_map@.len() == i,
                forall|j: int| 0 <= j < i ==> encoder_map@[j] == spec_empty_encoder(),
        {
            encoder_map.push(EncoderAction::new_empty());
        }
        KeymapData { rows, cols, num_layers, num_encoders, keymap, encoder_map, layout_option: 0 }
    }

    /// Keymap data over a `NUM_LAYER x ROW x COL` keymap, flattened layer by
    /// layer and row by row, with `num_encoders` encoders doing nothing and
    /// layout option 0.
    pub fn from_layers<const ROW: usize, const COL: usize, const NUM_LAYER: usize>(
        layers: &[[[KeyAction; COL]; ROW]; NUM_LAYER],
        num_encoders: usize,
    ) -> (r: KeymapData)
        requires
            NUM_LAYER * ROW * COL <= usize::MAX,
            NUM_LAYER * num_encoders <= usize::MAX,
        ensures
            r@.wf(),
            r.rows == ROW && r.cols == COL && r.num_layers == NUM_LAYER && r.num_encoders == num_encoders,
            forall|l: int, row: int, c: int|
                0 <= l < NUM_LAYER && 0 <= row < ROW && 0 <= c < COL ==> #[trigger] r@.action_at(l, row, c)
                    == layers[l][row][c],
            forall|i: int| 0 <= i < r.encoder_map@.len() ==> r.encoder_map@[i] == spec_empty_encoder(),
            r.layout_option == 0,
    {
        let mut flat: Vec<KeyAction> = Vec::new();
        let mut l: usize = 0;
        while l < NUM_LAYER
            invariant
                l <= NUM_LAYER,
                NUM_LAYER * ROW * COL <= usize::MAX,
                flat@.len() == l * ROW * COL,
                forall|i: int|
                    0 <= i < flat@.len() ==> #[trigger] flat@[i] == layers[spec_coords(i, ROW as int, COL as int).0][spec_coords(i, ROW as int, COL as int).1][spec_coords(i, ROW as int, COL as int).2],
            decreases NUM_LAYER - l,
        {
            let mut row: usize = 0;
            while row < ROW
                invariant
                    l < NUM_LAYER,
                    row <= ROW,
                    NUM_LAYER * ROW * COL <= usize::MAX,
                    flat@.len() == (l * ROW + row) * COL,
                    forall|i: int|
                        0 <= i < flat@.len() ==> #[trigger] flat@[i] == layers[spec_coords(i, ROW as int, COL as int).0][spec_coords(i, ROW as int, COL as int).1][spec_coords(i, ROW as int, COL as int).2],
                decreases ROW - row,
            {
                let mut c: usize = 0;
                while c < COL
                    invariant
                        l < NUM_LAYER,
                        row < ROW,
                        c <= COL,
                        NUM_LAYER * ROW * COL <= usize::MAX,
                        flat@.len() == (l * ROW + row) * COL + c,
                        forall|i: int|
                            0 <= i < flat@.len() ==> #[trigger] flat@[i] == layers[spec_coords(i, ROW as int, COL as int).0][spec_coords(i, ROW as int, COL as int).1][spec_coords(i, ROW as int, COL as int).2],
                    decreases COL - c,
                {
                    proof {
                        lemma_coords_of_flat(l as int, row as int, c as int, ROW as int, COL as int);
                        lemma_flat_in_bounds(
                            l as int,
                            row as int,
                            c as int,
                            NUM_LAYER as int,
                            ROW as int,
                            COL as int,
                        );
                    }
                    flat.push(layers[l][row][c]);
                    c = c + 1;
                }
                proof {
                    assert((l * ROW + row) * COL + COL == (l * ROW + (row + 1)) * COL) by (nonlinear_arith);
                }
                row = row + 1;
            }
            proof {
                assert((l * ROW + ROW) * COL == (l + 1) * ROW * COL) by (nonlinear_arith);
            }
            l = l + 1;
        }
        let r = KeymapData::new_flat(ROW, COL, NUM_LAYER, num_encoders, flat);
        proof {
            assert forall|l2: int, row2: int, c2: int|
                0 <= l2 < NUM_LAYER && 0 <= row2 < ROW && 0 <= c2 < COL implies #[trigger] r@.action_at(l2, row2, c2)
                    == layers[l2][row2][c2] by {
                lemma_coords_of_flat(l2, row2, c2, ROW as int, COL as int);
                lemma_flat_in_bounds(l2, row2, c2, NUM_LAYER as int, ROW as int, COL as int);
            }
        }
        r
    }

    /// The action at `(layer, row, col)`; `KeyAction::No` outside the grid.
    pub fn action_at(&self, layer: usize, row: usize, col: usize) -> (r: KeyAction)
        requires
            self@.wf(),
        ensures
            layer < self.num_layers && row < self.rows && col < self.cols ==> r == self@.action_at(
                layer as int,
                row as int,
                col as int,
            ),
            !(layer < self.num_layers && row < self.rows && col < self.cols) ==> r == KeyAction::No,
    {
        // The vector's length bounds the flat index.
        let _cells = self.keymap.len();
        if layer < self.num_layers && row < self.rows && col < self.cols {
            proof {
                lemma_flat_in_bounds(
                    layer as int,
                    row as int,
                    col as int,
                    self.num_layers as int,
                    self.rows as int,
                    self.cols as int,
                );
            }
            self.keymap[(layer * self.rows + row) * self.cols + col]
        } else {
            KeyAction::No
        }
    }

    /// The encoder action of encoder `idx` on `layer`; `None` outside the map.
    pub fn encoder_at(&self, layer: usize, idx: usize) -> (r: Option<EncoderAction>)
        requires
            self@.wf(),
        ensures
            layer < self.num_layers && idx < self.num_encoders ==> r == Some(
                self@.encoder_at(layer as int, idx as int),
            ),
            !(layer < self.num_layers && idx < self.num_encoders) ==> r is None,
    {
        // The vector's length bounds the flat index.
        let _cells = self.encoder_map.len();
        if layer < self.num_layers && idx < self.num_encoders {
            proof {
                lemma_encoder_index_in_bounds(
                    layer as int,
                    idx as int,
                    self.num_layers as int,
                    self.num_encoders as int,
                );
            }
            Some(self.encoder_map[layer * self.num_encoders + idx])
        } else {
            None
        }
    }
}

} // verus!
