use vstd::prelude::*;

use crate::keys::{SupportedKeys, SCAN_CODE_COUNT};
use crate::model::{latched_below, step, view_ok, KeyboardView, UIMessage};

verus! {

/// The codes of `latched_below(l, n)` ascend strictly, lie below `n`, and are
/// exactly the latched ones.
pub proof fn lemma_latched_below(l: Seq<bool>, n: nat)
    requires
        n <= SCAN_CODE_COUNT,
        n <= l.len(),
    ensures
        forall|i: int, j: int|
            0 <= i < j < latched_below(l, n).len() ==> latched_below(l, n)[i]
                < latched_below(l, n)[j],
        forall|i: int|
            0 <= i < latched_below(l, n).len() ==> (#[trigger] latched_below(l, n)[i] as nat) < n,
        forall|c: u8| (c as nat) < n ==> (latched_below(l, n).contains(c) <==> l[c as int]),
        forall|c: u8| (c as nat) >= n ==> !latched_below(l, n).contains(c),
    decreases n,
{
    if n > 0 {
        let m = (n - 1) as nat;
        lemma_latched_below(l, m);
        let rest = latched_below(l, m);
        let r = latched_below(l, n);
        assert forall|c: u8| (c as nat) < n implies (r.contains(c) <==> l[c as int]) by {
            if l[m as int] {
                assert(r == rest.push(m as u8));
                if r.contains(c) {
                    let k = choose|k: int| 0 <= k < r.len() && r[k] == c;
                    if k < rest.len() {
                        assert(rest[k] == c);
                    }
                }
                if c as nat == m {
                    assert(r[r.len() - 1] == c);
                } else if l[c as int] {
                    let k = choose|k: int| 0 <= k < rest.len() && rest[k] == c;
                    assert(r[k] == c);
                }
            }
        }
        assert forall|c: u8| (c as nat) >= n implies !r.contains(c) by {
            if l[m as int] && r.contains(c) {
                let k = choose|k: int| 0 <= k < r.len() && r[k] == c;
                if k < rest.len() {
                    assert(rest[k] == c);
                    assert(rest.contains(c));
                }
            }
        }
    }
}

/// Activating a key that carries a scan code always succeeds and forwards
/// exactly that code, whatever the state and whether or not other keys of
/// the layout share the code.
pub proof fn lemma_key_forwarded(s: KeyboardView, layer_count: nat, k: SupportedKeys)
    requires
        view_ok(s, layer_count),
        !s.quit,
        k.is_emittable(),
        k.wf(),
    ensures
        step(s, layer_count, UIMessage::OneShot(k)).failed is None,
        step(s, layer_count, UIMessage::OneShot(k)).sent == seq![k.code()],
        view_ok(step(s, layer_count, UIMessage::OneShot(k)).next, layer_count),
{
}

/// Activating a modifier or lock key twice in a row restores the latches
/// and the layer. The first activation flips only that key's latch, and
/// each activation forwards the key.
pub proof fn lemma_toggle_twice(s: KeyboardView, layer_count: nat, k: SupportedKeys)
    requires
        view_ok(s, layer_count),
        !s.quit,
        k.is_latching(),
        k.wf(),
    ensures
        ({
            let first = step(s, layer_count, UIMessage::OneShot(k));
            let second = step(first.next, layer_count, UIMessage::OneShot(k));
            &&& first.sent == seq![k.code()]
            &&& second.sent == seq![k.code()]
            &&& first.next.latched[k.code() as int] == !s.latched[k.code() as int]
            &&& forall|c: int|
                0 <= c < SCAN_CODE_COUNT && c != k.code() ==> #[trigger] first.next.latched[c]
                    == s.latched[c]
            &&& second.next == s
        }),
{
    let first = step(s, layer_count, UIMessage::OneShot(k));
    let second = step(first.next, layer_count, UIMessage::OneShot(k));
    assert(second.next.latched =~= s.latched);
}

/// Activating a plain key releases every latch and forwards that key alone.
pub proof fn lemma_plain_key_consumes(s: KeyboardView, layer_count: nat, code: u8)
    requires
        view_ok(s, layer_count),
        !s.quit,
        (code as usize) < SCAN_CODE_COUNT,
    ensures
        ({
            let st = step(s, layer_count, UIMessage::OneShot(SupportedKeys::Key(code)));
            &&& st.next.latched.len() == SCAN_CODE_COUNT
            &&& forall|c: int| 0 <= c < SCAN_CODE_COUNT ==> !#[trigger] st.next.latched[c]
            &&& st.sent == seq![code]
            &&& st.next.layer == s.layer
        }),
{
}

/// A switch to an existing layer shows it and sends nothing; a switch to a
/// missing one fails with that index and leaves the state as it was.
pub proof fn lemma_set_layer(s: KeyboardView, layer_count: nat, n: u8)
    requires
        view_ok(s, layer_count),
        !s.quit,
    ensures
        ({
            let st = step(s, layer_count, UIMessage::Layer(n));
            &&& (n as nat) < layer_count ==> st.failed is None && st.sent.len() == 0
                && st.next == (KeyboardView { layer: n, ..s })
            &&& (n as nat) >= layer_count ==> st.failed == Some(n) && st.sent.len() == 0
                && st.next == s
        }),
{
}

/// Shutting down forwards each latched scan code once, in ascending order,
/// and afterwards no input changes the state or sends anything.
pub proof fn lemma_shutdown(s: KeyboardView, layer_count: nat)
    requires
        view_ok(s, layer_count),
        !s.quit,
    ensures
        ({
            let st = step(s, layer_count, UIMessage::AppQuit);
            &&& st.failed is None
            &&& st.next.quit
            &&& forall|i: int, j: int| 0 <= i < j < st.sent.len() ==> st.sent[i] < st.sent[j]
            &&& forall|c: u8|
                (c as usize) < SCAN_CODE_COUNT ==> (st.sent.contains(c) <==> s.latched[c as int])
            &&& forall|msg: UIMessage| #[trigger]
                step(st.next, layer_count, msg) == (crate::model::Step {
                    next: st.next,
                    sent: seq![],
                    failed: None,
                })
        }),
{
    lemma_latched_below(s.latched, SCAN_CODE_COUNT as nat);
}

} // verus!
