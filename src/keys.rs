use vstd::prelude::*;

verus! {

/// Number of distinct scan codes a key can carry: `0..=254`.
pub const SCAN_CODE_COUNT: usize = 255;

/// The identity of a key on the on-screen keyboard.
///
/// Regular keys, modifiers and lock keys carry the scan code that is
/// forwarded to the key-injection service. The pseudo-keys (`Layer`, `NoOp`,
/// `Close`) have no scan code: they are separate variants, so no numeric
/// value is reserved for them.
#[derive(Clone, Copy, Debug, PartialEq, Eq, Structural)]
pub enum SupportedKeys {
    /// A printable or control key.
    Key(u8),
    /// A shift-like key that latches until the next plain key.
    Mod(u8),
    /// A caps-lock-like key that latches until the next plain key.
    Lock(u8),
    /// Switches the keyboard to the layer with this index.
    Layer(u8),
    /// A blank spacer; never activated.
    NoOp,
    /// Shuts the keyboard down.
    Close,
}

impl SupportedKeys {
    /// The key forwards a scan code when activated.
    pub open spec fn is_emittable(self) -> bool {
        match self {
            SupportedKeys::Key(_) | SupportedKeys::Mod(_) | SupportedKeys::Lock(_) => true,
            _ => false,
        }
    }

    /// The key latches: a modifier or a lock key.
    pub open spec fn is_latching(self) -> bool {
        match self {
            SupportedKeys::Mod(_) | SupportedKeys::Lock(_) => true,
            _ => false,
        }
    }

    /// The scan code of an emittable key.
    pub open spec fn code(self) -> u8 {
        match self {
            SupportedKeys::Key(c) | SupportedKeys::Mod(c) | SupportedKeys::Lock(c) => c,
            _ => 0,
        }
    }

    /// Every scan code the key carries lies in `0..=254`.
    pub open spec fn wf(self) -> bool {
        self.is_emittable() ==> (self.code() as usize) < SCAN_CODE_COUNT
    }

    pub fn is_mod_key(&self) -> (r: bool)
        ensures
            r == (*self is Mod),
    {
        matches!(self, SupportedKeys::Mod(_))
    }

    pub fn is_lock_key(&self) -> (r: bool)
        ensures
            r == (*self is Lock),
    {
        matches!(self, SupportedKeys::Lock(_))
    }

    /// The scan code sent for this key; only regular, modifier and lock keys
    /// have one.
    pub fn as_key_code(&self) -> (r: u8)
        requires
            self.is_emittable(),
        ensures
            r == self.code(),
    {
        match self {
            SupportedKeys::Key(c) => *c,
            SupportedKeys::Mod(c) => *c,
            SupportedKeys::Lock(c) => *c,
            _ => 0,
        }
    }

    /// Whether every scan code the key carries is a valid one.
    pub fn is_valid(&self) -> (r: bool)
        ensures
            r == self.wf(),
    {
        match self {
            SupportedKeys::Key(c) | SupportedKeys::Mod(c) | SupportedKeys::Lock(c) => {
                (*c as usize) < SCAN_CODE_COUNT
            },
            _ => true,
        }
    }
}

} // verus!
