use vstd::prelude::*;

use crate::keys::{SupportedKeys, SCAN_CODE_COUNT};
use crate::layout::{Layer, LayoutDefinition};

verus! {

/// An input to the keyboard state machine.
#[derive(Clone, Copy, Debug, PartialEq, Eq, Structural)]
pub enum UIMessage {
    /// A key was activated by the user.
    OneShot(SupportedKeys),
    /// Switch to the layer with this index.
    Layer(u8),
    /// Release every latched key and stop.
    AppQuit,
}

/// Why a transition was refused.
#[derive(Clone, Copy, Debug, PartialEq, Eq, Structural)]
pub enum KeyboardError {
    /// The target layer does not exist in the layout.
    UnknownLayer(u8),
}

/// The observable state of the keyboard.
pub struct KeyboardView {
    /// Index of the layer shown.
    pub layer: u8,
    /// One entry per scan code: whether that key is latched.
    pub latched: Seq<bool>,
    /// The keyboard has shut down and takes no more input.
    pub quit: bool,
}

/// The outcome of one transition.
pub struct Step {
    pub next: KeyboardView,
    /// Scan codes handed to the key-injection service, in order.
    pub sent: Seq<u8>,
    /// The unknown layer a switch asked for, if it failed.
    pub failed: Option<u8>,
}

/// Scan codes below `n` that are latched, ascending.
pub open spec fn latched_below(latched: Seq<bool>, n: nat) -> Seq<u8>
    decreases n,
{
    if n == 0 {
        seq![]
    } else {
        let rest = latched_below(latched, (n - 1) as nat);
        if latched[n - 1] {
            rest.push((n - 1) as u8)
        } else {
            rest
        }
    }
}

/// All latched scan codes, ascending; the scan covers every code `0..=254`.
pub open spec fn latched_codes(latched: Seq<bool>) -> Seq<u8> {
    latched_below(latched, SCAN_CODE_COUNT as nat)
}

/// No key is latched.
pub open spec fn no_latches() -> Seq<bool> {
    Seq::new(SCAN_CODE_COUNT as nat, |i: int| false)
}

/// Nothing changes and nothing is sent.
pub open spec fn unchanged(s: KeyboardView) -> Step {
    Step { next: s, sent: seq![], failed: None }
}

/// Shows layer `n` if it exists; otherwise fails with `n`, changing nothing.
pub open spec fn switch_layer(s: KeyboardView, layer_count: nat, n: u8) -> Step {
    if (n as nat) < layer_count {
        Step { next: KeyboardView { layer: n, ..s }, sent: seq![], failed: None }
    } else {
        Step { next: s, sent: seq![], failed: Some(n) }
    }
}

/// Stops the keyboard, sending every latched scan code in ascending order.
pub open spec fn shut_down(s: KeyboardView) -> Step {
    Step { next: KeyboardView { quit: true, ..s }, sent: latched_codes(s.latched), failed: None }
}

/// Activating a key that carries a scan code: a modifier or lock flips its
/// own latch; any other key clears every latch. The key is then sent.
pub open spec fn press(s: KeyboardView, k: SupportedKeys) -> Step {
    let c = k.code() as int;
    let latched = if k.is_latching() {
        s.latched.update(c, !s.latched[c])
    } else {
        no_latches()
    };
    Step { next: KeyboardView { latched, ..s }, sent: seq![k.code()], failed: None }
}

/// One transition of the keyboard on `msg`, for a layout with `layer_count`
/// layers.
pub open spec fn step(s: KeyboardView, layer_count: nat, msg: UIMessage) -> Step {
    if s.quit {
        unchanged(s)
    } else {
        match msg {
            UIMessage::AppQuit => shut_down(s),
            UIMessage::Layer(n) => switch_layer(s, layer_count, n),
            UIMessage::OneShot(k) => match k {
                SupportedKeys::Layer(n) => switch_layer(s, layer_count, n),
                SupportedKeys::Close => shut_down(s),
                SupportedKeys::NoOp => unchanged(s),
                _ => press(s, k),
            },
        }
    }
}

/// A well-formed state: one latch per scan code, a layer that exists.
pub open spec fn view_ok(s: KeyboardView, layer_count: nat) -> bool {
    s.latched.len() == SCAN_CODE_COUNT && (s.layer as nat) < layer_count
}

/// The message carries only valid scan codes.
pub open spec fn message_ok(msg: UIMessage) -> bool {
    match msg {
        UIMessage::OneShot(k) => k.wf(),
        _ => true,
    }
}

/// The keyboard: its layout, the layer shown and the latched keys.
pub struct UIModel {
    keyboard_definition: LayoutDefinition,
    key_height: u16,
    switch: u8,
    toggled: Vec<bool>,
    quit: bool,
}

impl UIModel {
    pub closed spec fn view(&self) -> KeyboardView {
        KeyboardView { layer: self.switch, latched: self.toggled@, quit: self.quit }
    }

    pub closed spec fn layout(&self) -> LayoutDefinition {
        self.keyboard_definition
    }

    pub closed spec fn height(&self) -> u16 {
        self.key_height
    }

    pub open spec fn wf(&self) -> bool {
        &&& self.layout().wf()
        &&& view_ok(self.view(), self.layout().layer_count())
    }

    /// A keyboard on the base layer with nothing latched.
    pub fn new(keyboard_definition: LayoutDefinition, key_height: u16) -> (r: UIModel)
        requires
            keyboard_definition.wf(),
        ensures
            r.wf(),
            r.layout() == keyboard_definition,
            r.height() == key_height,
            r.view() == (KeyboardView { layer: 0, latched: no_latches(), quit: false }),
    {
        let toggled = no_latch_vec();
        UIModel { keyboard_definition, key_height, switch: 0, toggled, quit: false }
    }

    /// Applies one input. Returns the scan codes to forward to the
    /// key-injection service, in order, or the unknown layer a switch asked
    /// for (the state is then unchanged).
    pub fn update(&mut self, msg: UIMessage) -> (r: Result<Vec<u8>, KeyboardError>)
        requires
            old(self).wf(),
            message_ok(msg),
        ensures
            final(self).wf(),
            final(self).layout() == old(self).layout(),
            final(self).height() == old(self).height(),
            ({
                let st = step(old(self).view(), old(self).layout().layer_count(), msg);
                &&& final(self).view() == st.next
                &&& match r {
                    Ok(sent) => st.failed is None && sent@ == st.sent,
                    Err(KeyboardError::UnknownLayer(n)) => st.failed == Some(n),
                }
            }),
    {
        if self.quit {
            return Ok(Vec::new());
        }
        match msg {
            UIMessage::AppQuit => self.shut_down(),
            UIMessage::Layer(n) => self.switch_to(n),
            UIMessage::OneShot(kc) => match kc {
                SupportedKeys::Layer(n) => self.switch_to(n),
                SupportedKeys::Close => self.shut_down(),
                SupportedKeys::NoOp => Ok(Vec::new()),
                _ => {
                    let code = kc.as_key_code();
                    if kc.is_mod_key() || kc.is_lock_key() {
                        let was = self.toggled[code as usize];
                        self.toggled.set(code as usize, !was);
                    } else {
                        self.clear_latches();
                    }
                    let mut sent: Vec<u8> = Vec::new();
                    sent.push(code);
                    Ok(sent)
                },
            },
        }
    }

    fn switch_to(&mut self, n: u8) -> (r: Result<Vec<u8>, KeyboardError>)
        requires
            old(self).wf(),
            !old(self).quit,
        ensures
            final(self).wf(),
            final(self).layout() == old(self).layout(),
            final(self).height() == old(self).height(),
            ({
                let st = switch_layer(old(self).view(), old(self).layout().layer_count(), n);
                &&& final(self).view() == st.next
                &&& match r {
                    Ok(sent) => st.failed is None && sent@ == st.sent,
                    Err(KeyboardError::UnknownLayer(m)) => st.failed == Some(m),
                }
            }),
    {
        if (n as usize) < self.keyboard_definition.len() {
            self.switch = n;
            Ok(Vec::new())
        } else {
            Err(KeyboardError::UnknownLayer(n))
        }
    }

    fn clear_latches(&mut self)
        requires
            old(self).wf(),
        ensures
            final(self).wf(),
            final(self).layout() == old(self).layout(),
            final(self).height() == old(self).height(),
            final(self).view() == (KeyboardView { latched: no_latches(), ..old(self).view() }),
    {
        let mut i: usize = 0;
        while i < SCAN_CODE_COUNT
            invariant
                self.keyboard_definition == old(self).keyboard_definition,
                self.key_height == old(self).key_height,
                self.switch == old(self).switch,
                self.quit == old(self).quit,
                self.toggled@.len() == SCAN_CODE_COUNT,
                i <= SCAN_CODE_COUNT,
                forall|j: int| 0 <= j < i ==> !#[trigger] self.toggled@[j],
            decreases SCAN_CODE_COUNT - i,
        {
            if self.toggled[i] {
                self.toggled.set(i, false);
            }
            i += 1;
        }
        assert(self.toggled@ =~= no_latches());
    }

    fn shut_down(&mut self) -> (r: Result<Vec<u8>, KeyboardError>)
        requires
            old(self).wf(),
            !old(self).quit,
        ensures
            final(self).wf(),
            final(self).layout() == old(self).layout(),
            final(self).height() == old(self).height(),
            final(self).view() == shut_down(old(self).view()).next,
            r == Ok::<Vec<u8>, KeyboardError>(r->Ok_0),
            r->Ok_0@ == latched_codes(old(self).toggled@),
    {
        let mut sent: Vec<u8> = Vec::new();
        let mut i: usize = 0;
        while i < SCAN_CODE_COUNT
            invariant
                self.toggled@.len() == SCAN_CODE_COUNT,
                i <= SCAN_CODE_COUNT,
                sent@ == latched_below(self.toggled@, i as nat),
            decreases SCAN_CODE_COUNT - i,
        {
            if self.toggled[i] {
                sent.push(i as u8);
            }
            i += 1;
        }
        self.quit = true;
        Ok(sent)
    }

    /// Index of the layer shown.
    pub fn active_layer(&self) -> (r: u8)
        ensures
            r == self.view().layer,
    {
        self.switch
    }

    /// Whether the key with scan code `code` is latched.
    pub fn is_toggled(&self, code: u8) -> (r: bool)
        requires
            self.wf(),
            (code as usize) < SCAN_CODE_COUNT,
        ensures
            r == self.view().latched[code as int],
    {
        self.toggled[code as usize]
    }

    /// Whether the keyboard has shut down.
    pub fn has_quit(&self) -> (r: bool)
        ensures
            r == self.view().quit,
    {
        self.quit
    }

    /// Height in pixels of a key.
    pub fn key_height(&self) -> (r: u16)
        ensures
            r == self.height(),
    {
        self.key_height
    }

    /// The layout the keyboard was built with.
    pub fn definition(&self) -> (r: &LayoutDefinition)
        ensures
            *r == self.layout(),
    {
        &self.keyboard_definition
    }

    /// The layer shown.
    pub fn current_layer(&self) -> (r: &Layer)
        requires
            self.wf(),
        ensures
            *r == self.layout().layer@[self.view().layer as int],
    {
        self.keyboard_definition.get_layer(self.switch as usize)
    }
}

/// A latch array with nothing latched.
fn no_latch_vec() -> (r: Vec<bool>)
    ensures
        r@ == no_latches(),
{
    let mut v: Vec<bool> = Vec::new();
    let mut i: usize = 0;
    while i < SCAN_CODE_COUNT
        invariant
            i <= SCAN_CODE_COUNT,
            v@.len() == i,
            forall|j: int| 0 <= j < i ==> !#[trigger] v@[j],
        decreases SCAN_CODE_COUNT - i,
    {
        v.push(false);
        i += 1;
    }
    assert(v@ =~= no_latches());
    v
}

} // verus!
