//! Framing of the messages that the server's sockets send.

use vstd::prelude::*;

verus! {

/// A copy of a byte slice.
pub fn copy_bytes(a: &[u8]) -> (r: Vec<u8>)
    ensures
        r@ == a@,
{
    let mut r: Vec<u8> = Vec::new();
    let mut i: usize = 0;
    while i < a.len()
        invariant
            i <= a@.len(),
            r@ == a@.take(i as int),
        decreases a@.len() - i,
    {
        r.push(a[i]);
        i = i + 1;
        assert(r@ =~= a@.take(i as int));
    }
    assert(a@.take(a@.len() as int) =~= a@);
    r
}

/// The contents of a list of frames.
pub open spec fn frame_contents(frames: Seq<Vec<u8>>) -> Seq<Seq<u8>> {
    frames.map_values(|f: Vec<u8>| f@)
}

/// The frames of a settings message, in sending order: the dealer's identity
/// frame when one is given (a router addresses its peer with it), then the
/// serialized settings packet. An empty identity means "no addressee".
pub fn settings_frames(dealer_id: &[u8], payload: Vec<u8>) -> (frames: Vec<Vec<u8>>)
    ensures
        frame_contents(frames@) == if dealer_id@.len() == 0 {
            seq![payload@]
        } else {
            seq![dealer_id@, payload@]
        },
{
    let ghost p = payload@;
    let mut frames: Vec<Vec<u8>> = Vec::new();
    if dealer_id.len() != 0 {
        frames.push(copy_bytes(dealer_id));
    }
    frames.push(payload);
    assert(frame_contents(frames@) =~= if dealer_id@.len() == 0 {
        seq![p]
    } else {
        seq![dealer_id@, p]
    });
    frames
}

} // verus!
