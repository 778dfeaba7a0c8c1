use vstd::prelude::*;

use crate::keys::SupportedKeys;

verus! {

/// One key of a layout: its legends, its identity and its relative width.
pub struct KeyDefinition {
    pub top_legend: Option<String>,
    pub bottom_legend: Option<String>,
    pub scan_code: SupportedKeys,
    /// Width relative to a square key, in thousandths (`1000` is one key);
    /// `None` stands for `1000`.
    pub width: Option<u32>,
}

/// Rows of keys, top to bottom; each row left to right.
pub type Layout = Vec<Vec<KeyDefinition>>;

/// The left and the right half of a split keyboard.
pub type Layer = (Layout, Layout);

/// All layers of a keyboard; layer `0` is the base layer.
pub struct LayoutDefinition {
    pub layer: Vec<Layer>,
}

/// Why a layout was refused.
#[derive(Clone, Copy, Debug, PartialEq, Eq, Structural)]
pub enum LayoutError {
    /// The layout has no layer, a key of zero width, or a scan code
    /// outside `0..=254`.
    MalformedLayout,
}

/// Width of a key in thousandths, with the default applied.
pub open spec fn width_of(k: KeyDefinition) -> nat {
    match k.width {
        Some(w) => w as nat,
        None => 1000,
    }
}

/// The key has a valid identity and a positive width.
pub open spec fn key_ok(k: KeyDefinition) -> bool {
    &&& k.scan_code.wf()
    &&& width_of(k) > 0
}

/// Every key of every row is well-formed.
pub open spec fn layout_ok(rows: Seq<Vec<KeyDefinition>>) -> bool {
    forall|i: int, j: int|
        0 <= i < rows.len() && 0 <= j < rows[i]@.len() ==> #[trigger] key_ok(rows[i]@[j])
}

/// Both halves of the layer are well-formed.
pub open spec fn layer_ok(l: Layer) -> bool {
    layout_ok(l.0@) && layout_ok(l.1@)
}

/// There is at least one layer, and every layer is well-formed.
pub open spec fn layers_ok(layers: Seq<Layer>) -> bool {
    &&& layers.len() > 0
    &&& forall|i: int| 0 <= i < layers.len() ==> #[trigger] layer_ok(layers[i])
}

impl KeyDefinition {
    /// Whether the key has a valid identity and a positive width.
    pub fn is_well_formed(&self) -> (r: bool)
        ensures
            r == key_ok(*self),
    {
        let width_ok = match self.width {
            Some(w) => w > 0,
            None => true,
        };
        width_ok && self.scan_code.is_valid()
    }

    /// Width in pixels of the key when a square key is `key_height` pixels
    /// wide, rounded to the nearest pixel (halves round up).
    pub fn pixel_width(&self, key_height: u16) -> (r: u64)
        ensures
            r as nat == (width_of(*self) * key_height as nat + 500) / 1000,
    {
        let w: u64 = match self.width {
            Some(w) => w as u64,
            None => 1000,
        };
        assert(w * (key_height as u64) <= 0xffff_ffff * 0xffff) by (nonlinear_arith)
            requires
                w <= 0xffff_ffff,
        ;
        (w * (key_height as u64) + 500) / 1000
    }
}

/// Whether every key of the rows is well-formed.
pub fn layout_is_ok(rows: &Layout) -> (r: bool)
    ensures
        r == layout_ok(rows@),
{
    let mut i: usize = 0;
    while i < rows.len()
        invariant
            i <= rows@.len(),
            forall|a: int, j: int|
                0 <= a < i && 0 <= j < rows@[a]@.len() ==> #[trigger] key_ok(rows@[a]@[j]),
        decreases rows@.len() - i,
    {
        let row = &rows[i];
        let mut j: usize = 0;
        while j < row.len()
            invariant
                i < rows@.len(),
                row == rows@[i as int],
                j <= row@.len(),
                forall|b: int| 0 <= b < j ==> #[trigger] key_ok(row@[b]),
            decreases row@.len() - j,
        {
            if !row[j].is_well_formed() {
                assert(!key_ok(rows@[i as int]@[j as int]));
                return false;
            }
            j += 1;
        }
        assert forall|a: int, b: int|
            0 <= a < i + 1 && 0 <= b < rows@[a]@.len() implies #[trigger] key_ok(rows@[a]@[b]) by {
            if a == i {
                assert(key_ok(row@[b]));
            }
        }
        i += 1;
    }
    true
}

impl LayoutDefinition {
    /// The layout is usable: it has a base layer and all keys are valid.
    pub open spec fn wf(&self) -> bool {
        layers_ok(self.layer@)
    }

    /// Number of layers.
    pub open spec fn layer_count(&self) -> nat {
        self.layer@.len()
    }

    /// Builds a layout from its layers, refusing one without a layer or with
    /// a malformed key.
    pub fn from_layers(layer: Vec<Layer>) -> (r: Result<LayoutDefinition, LayoutError>)
        ensures
            layers_ok(layer@) ==> r == Ok::<LayoutDefinition, LayoutError>(
                LayoutDefinition { layer },
            ),
            !layers_ok(layer@) ==> r == Err::<LayoutDefinition, LayoutError>(
                LayoutError::MalformedLayout,
            ),
    {
        if layer.len() == 0 {
            return Err(LayoutError::MalformedLayout);
        }
        let mut i: usize = 0;
        while i < layer.len()
            invariant
                i <= layer@.len(),
                forall|a: int| 0 <= a < i ==> #[trigger] layer_ok(layer@[a]),
            decreases layer@.len() - i,
        {
            if !layout_is_ok(&layer[i].0) || !layout_is_ok(&layer[i].1) {
                assert(!layer_ok(layer@[i as int]));
                return Err(LayoutError::MalformedLayout);
            }
            i += 1;
        }
        Ok(LayoutDefinition { layer })
    }

    /// The number of layers.
    pub fn len(&self) -> (r: usize)
        ensures
            r == self.layer_count(),
    {
        self.layer.len()
    }

    /// The layer with index `n`.
    pub fn get_layer(&self, n: usize) -> (r: &Layer)
        requires
            n < self.layer_count(),
        ensures
            *r == self.layer@[n as int],
    {
        &self.layer[n]
    }
}

} // verus!
