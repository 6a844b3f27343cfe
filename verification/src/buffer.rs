//! Non-owning views over byte ranges, and what a run of them spells.

use vstd::prelude::*;
use vstd::utf8::{decode_utf8, encode_utf8, valid_utf8};

verus! {

/// A view over a contiguous range of bytes that somebody else owns. It is what
/// crosses the boundary to the engine, and what a receive event lends out for
/// the length of one callback.
#[derive(Clone, Copy, Debug)]
pub struct BufferRef<'a> {
    bytes: &'a [u8],
}

impl<'a> View for BufferRef<'a> {
    type V = Seq<u8>;

    closed spec fn view(&self) -> Seq<u8> {
        self.bytes@
    }
}

impl<'a> BufferRef<'a> {
    /// A view over `bytes`.
    pub fn new(bytes: &'a [u8]) -> (buffer: Self)
        ensures
            buffer@ == bytes@,
    {
        BufferRef { bytes }
    }

    /// A view over the UTF-8 encoding of `text`.
    pub fn from_str(text: &'a str) -> (buffer: Self)
        ensures
            buffer@ == encode_utf8(text@),
    {
        BufferRef { bytes: text.as_bytes() }
    }

    /// The bytes in view.
    pub fn as_bytes(&self) -> (bytes: &'a [u8])
        ensures
            bytes@ == self@,
    {
        self.bytes
    }

    /// Number of bytes in view.
    pub fn len(&self) -> (n: usize)
        ensures
            n == self@.len(),
    {
        self.bytes.len()
    }

    /// Whether the view is empty.
    pub fn is_empty(&self) -> (b: bool)
        ensures
            b == (self@.len() == 0),
    {
        self.bytes.len() == 0
    }
}

/// The bytes of each part, one after the other.
pub open spec fn concat(parts: Seq<Seq<u8>>) -> Seq<u8>
    decreases parts.len(),
{
    if parts.len() == 0 {
        Seq::empty()
    } else {
        concat(parts.drop_last()) + parts.last()
    }
}

/// What each buffer of a run has in view.
pub open spec fn views(buffers: Seq<BufferRef<'_>>) -> Seq<Seq<u8>> {
    Seq::new(buffers.len(), |i: int| buffers[i]@)
}

/// The text that a lossy UTF-8 decoder makes of `bytes`.
pub uninterp spec fn utf8_lossy(bytes: Seq<u8>) -> Seq<char>;

/// `String::from_utf8_lossy`, made owned. The text is a function of the bytes
/// alone; on well-formed UTF-8 it is the decoded text, and elsewhere each
/// malformed run is replaced by U+FFFD, which is not spelled out here.
#[verifier::external_body]
fn lossy_string(bytes: &[u8]) -> (text: String)
    ensures
        text@ == utf8_lossy(bytes@),
        valid_utf8(bytes@) ==> text@ == decode_utf8(bytes@),
{
    String::from_utf8_lossy(bytes).into_owned()
}

/// Copies out everything that a run of buffers has in view, in order.
pub fn collect_bytes(buffers: &[BufferRef<'_>]) -> (bytes: Vec<u8>)
    ensures
        bytes@ == concat(views(buffers@)),
{
    let mut bytes: Vec<u8> = Vec::new();
    let mut i: usize = 0;
    while i < buffers.len()
        invariant
            i <= buffers.len(),
            bytes@ == concat(views(buffers@).take(i as int)),
        decreases buffers.len() - i,
    {
        let ghost before = bytes@;
        bytes.extend_from_slice(buffers[i].as_bytes());
        proof {
            let all = views(buffers@);
            assert(all.take(i + 1).drop_last() =~= all.take(i as int));
            assert(all.take(i + 1).last() == buffers@[i as int]@);
            assert(bytes@ =~= before + buffers@[i as int]@);
        }
        i += 1;
    }
    proof {
        assert(views(buffers@).take(i as int) =~= views(buffers@));
    }
    bytes
}

/// The text that a run of received buffers spells: their bytes joined in
/// order and decoded leniently.
pub fn buffers_to_string(buffers: &[BufferRef<'_>]) -> (text: String)
    ensures
        text@ == utf8_lossy(concat(views(buffers@))),
        valid_utf8(concat(views(buffers@))) ==> text@ == decode_utf8(concat(views(buffers@))),
{
    let bytes = collect_bytes(buffers);
    lossy_string(bytes.as_slice())
}

} // verus!
