use vstd::prelude::*;

verus! {

/// The layout used when the user supplies none: a base layer of letters and
/// a second layer of digits, each split in two halves.
///
/// A key's `scan_code` is `{ key = c }`, `{ mod = c }`, `{ lock = c }`,
/// `{ layer = n }`, `"no_op"` or `"close"`; `width` is relative to a square
/// key.
pub const DEFAULT_LAYOUT: &'static str = "layer = [
  [
    [
      [ { scan_code = { key = 1 }, top_legend = \"Esc\" },
        { scan_code = { key = 16 }, top_legend = \"q\", bottom_legend = \"Q\" },
        { scan_code = { key = 17 }, top_legend = \"w\", bottom_legend = \"W\" },
        { scan_code = { key = 18 }, top_legend = \"e\", bottom_legend = \"E\" },
        { scan_code = { key = 19 }, top_legend = \"r\", bottom_legend = \"R\" },
        { scan_code = { key = 20 }, top_legend = \"t\", bottom_legend = \"T\" } ],
      [ { scan_code = { lock = 58 }, top_legend = \"Caps\", width = 1.5 },
        { scan_code = { key = 30 }, top_legend = \"a\", bottom_legend = \"A\" },
        { scan_code = { key = 31 }, top_legend = \"s\", bottom_legend = \"S\" },
        { scan_code = { key = 32 }, top_legend = \"d\", bottom_legend = \"D\" },
        { scan_code = { key = 33 }, top_legend = \"f\", bottom_legend = \"F\" },
        { scan_code = { key = 34 }, top_legend = \"g\", bottom_legend = \"G\" } ],
      [ { scan_code = { mod = 42 }, top_legend = \"Shift\", width = 1.5 },
        { scan_code = { key = 44 }, top_legend = \"z\", bottom_legend = \"Z\" },
        { scan_code = { key = 45 }, top_legend = \"x\", bottom_legend = \"X\" },
        { scan_code = { key = 46 }, top_legend = \"c\", bottom_legend = \"C\" },
        { scan_code = { key = 47 }, top_legend = \"v\", bottom_legend = \"V\" },
        { scan_code = { key = 48 }, top_legend = \"b\", bottom_legend = \"B\" } ],
      [ { scan_code = { mod = 29 }, top_legend = \"Ctrl\" },
        { scan_code = { mod = 56 }, top_legend = \"Alt\" },
        { scan_code = { layer = 1 }, top_legend = \"123\" },
        { scan_code = { key = 57 }, top_legend = \"Space\", width = 2.0 } ],
    ],
    [
      [ { scan_code = { key = 21 }, top_legend = \"y\", bottom_legend = \"Y\" },
        { scan_code = { key = 22 }, top_legend = \"u\", bottom_legend = \"U\" },
        { scan_code = { key = 23 }, top_legend = \"i\", bottom_legend = \"I\" },
        { scan_code = { key = 24 }, top_legend = \"o\", bottom_legend = \"O\" },
        { scan_code = { key = 25 }, top_legend = \"p\", bottom_legend = \"P\" },
        { scan_code = { key = 14 }, top_legend = \"Bksp\", width = 1.5 } ],
      [ { scan_code = { key = 35 }, top_legend = \"h\", bottom_legend = \"H\" },
        { scan_code = { key = 36 }, top_legend = \"j\", bottom_legend = \"J\" },
        { scan_code = { key = 37 }, top_legend = \"k\", bottom_legend = \"K\" },
        { scan_code = { key = 38 }, top_legend = \"l\", bottom_legend = \"L\" },
        { scan_code = { key = 28 }, top_legend = \"Enter\", width = 1.5 } ],
      [ { scan_code = { key = 49 }, top_legend = \"n\", bottom_legend = \"N\" },
        { scan_code = { key = 50 }, top_legend = \"m\", bottom_legend = \"M\" },
        { scan_code = { key = 51 }, top_legend = \",\", bottom_legend = \"<\" },
        { scan_code = { key = 52 }, top_legend = \".\", bottom_legend = \">\" },
        { scan_code = { mod = 54 }, top_legend = \"Shift\", width = 1.5 } ],
      [ { scan_code = { key = 57 }, top_legend = \"Space\", width = 2.0 },
        { scan_code = \"no_op\", width = 0.5 },
        { scan_code = { key = 15 }, top_legend = \"Tab\" },
        { scan_code = \"close\", top_legend = \"Close\" } ],
    ],
  ],
  [
    [
      [ { scan_code = { key = 2 }, top_legend = \"1\", bottom_legend = \"!\" },
        { scan_code = { key = 3 }, top_legend = \"2\", bottom_legend = \"@\" },
        { scan_code = { key = 4 }, top_legend = \"3\", bottom_legend = \"#\" },
        { scan_code = { key = 5 }, top_legend = \"4\", bottom_legend = \"$\" },
        { scan_code = { key = 6 }, top_legend = \"5\", bottom_legend = \"%\" } ],
      [ { scan_code = { mod = 42 }, top_legend = \"Shift\", width = 1.5 },
        { scan_code = { key = 12 }, top_legend = \"-\", bottom_legend = \"_\" },
        { scan_code = { key = 13 }, top_legend = \"=\", bottom_legend = \"+\" } ],
      [ { scan_code = { layer = 0 }, top_legend = \"abc\" },
        { scan_code = { key = 57 }, top_legend = \"Space\", width = 2.0 } ],
    ],
    [
      [ { scan_code = { key = 7 }, top_legend = \"6\", bottom_legend = \"^\" },
        { scan_code = { key = 8 }, top_legend = \"7\", bottom_legend = \"&\" },
        { scan_code = { key = 9 }, top_legend = \"8\", bottom_legend = \"*\" },
        { scan_code = { key = 10 }, top_legend = \"9\", bottom_legend = \"(\" },
        { scan_code = { key = 11 }, top_legend = \"0\", bottom_legend = \")\" } ],
      [ { scan_code = { key = 103 }, top_legend = \"Up\" },
        { scan_code = { key = 105 }, top_legend = \"Left\" },
        { scan_code = { key = 108 }, top_legend = \"Down\" },
        { scan_code = { key = 106 }, top_legend = \"Right\" } ],
      [ { scan_code = { key = 14 }, top_legend = \"Bksp\", width = 1.5 },
        { scan_code = { key = 28 }, top_legend = \"Enter\", width = 1.5 } ],
    ],
  ],
]
";

/// The documents that ship with the keyboard.
pub struct LayoutAssets;

impl LayoutAssets {
    /// The bundled default layout document.
    pub fn default_layout_str() -> (r: String)
        ensures
            r@ == DEFAULT_LAYOUT@,
    {
        DEFAULT_LAYOUT.to_owned()
    }
}

} // verus!
