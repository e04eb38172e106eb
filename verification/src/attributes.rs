//! The attribute list handed to the driver's extended pixel-format chooser:
//! key/value pairs of integers, ended by a zero key.

use vstd::prelude::*;

verus! {

pub const WGL_NUMBER_PIXEL_FORMATS_ARB: i32 = 0x2000;
pub const WGL_DRAW_TO_WINDOW_ARB: i32 = 0x2001;
pub const WGL_DRAW_TO_BITMAP_ARB: i32 = 0x2002;
pub const WGL_ACCELERATION_ARB: i32 = 0x2003;
pub const WGL_NEED_PALETTE_ARB: i32 = 0x2004;
pub const WGL_NEED_SYSTEM_PALETTE_ARB: i32 = 0x2005;
pub const WGL_SWAP_LAYER_BUFFERS_ARB: i32 = 0x2006;
pub const WGL_SWAP_METHOD_ARB: i32 = 0x2007;
pub const WGL_NUMBER_OVERLAYS_ARB: i32 = 0x2008;
pub const WGL_NUMBER_UNDERLAYS_ARB: i32 = 0x2009;
pub const WGL_TRANSPARENT_ARB: i32 = 0x200A;
pub const WGL_TRANSPARENT_RED_VALUE_ARB: i32 = 0x2037;
pub const WGL_TRANSPARENT_GREEN_VALUE_ARB: i32 = 0x2038;
pub const WGL_TRANSPARENT_BLUE_VALUE_ARB: i32 = 0x2039;
pub const WGL_TRANSPARENT_ALPHA_VALUE_ARB: i32 = 0x203A;
pub const WGL_TRANSPARENT_INDEX_VALUE_ARB: i32 = 0x203B;
pub const WGL_SHARE_DEPTH_ARB: i32 = 0x200C;
pub const WGL_SHARE_STENCIL_ARB: i32 = 0x200D;
pub const WGL_SHARE_ACCUM_ARB: i32 = 0x200E;
pub const WGL_SUPPORT_GDI_ARB: i32 = 0x200F;
pub const WGL_SUPPORT_OPENGL_ARB: i32 = 0x2010;
pub const WGL_DOUBLE_BUFFER_ARB: i32 = 0x2011;
pub const WGL_STEREO_ARB: i32 = 0x2012;
pub const WGL_PIXEL_TYPE_ARB: i32 = 0x2013;
pub const WGL_COLOR_BITS_ARB: i32 = 0x2014;
pub const WGL_RED_BITS_ARB: i32 = 0x2015;
pub const WGL_RED_SHIFT_ARB: i32 = 0x2016;
pub const WGL_GREEN_BITS_ARB: i32 = 0x2017;
pub const WGL_GREEN_SHIFT_ARB: i32 = 0x2018;
pub const WGL_BLUE_BITS_ARB: i32 = 0x2019;
pub const WGL_BLUE_SHIFT_ARB: i32 = 0x201A;
pub const WGL_ALPHA_BITS_ARB: i32 = 0x201B;
pub const WGL_ALPHA_SHIFT_ARB: i32 = 0x201C;
pub const WGL_ACCUM_BITS_ARB: i32 = 0x201D;
pub const WGL_ACCUM_RED_BITS_ARB: i32 = 0x201E;
pub const WGL_ACCUM_GREEN_BITS_ARB: i32 = 0x201F;
pub const WGL_ACCUM_BLUE_BITS_ARB: i32 = 0x2020;
pub const WGL_ACCUM_ALPHA_BITS_ARB: i32 = 0x2021;
pub const WGL_DEPTH_BITS_ARB: i32 = 0x2022;
pub const WGL_STENCIL_BITS_ARB: i32 = 0x2023;
pub const WGL_AUX_BUFFERS_ARB: i32 = 0x2024;
pub const WGL_FULL_ACCELERATION_ARB: i32 = 0x2027;
pub const WGL_TYPE_RGBA_ARB: i32 = 0x202B;
pub const WGL_SAMPLE_BUFFERS_ARB: i32 = 0x2041;
pub const WGL_SAMPLES_ARB: i32 = 0x2042;

/// The value that stands for "true" in an attribute list.
pub const GL_TRUE: i32 = 1;

/// The key that ends an attribute list.
pub const SENTINEL: i32 = 0;

/// How many formats the negotiation asks the driver for.
pub const REQUESTED_FORMATS: u32 = 1;

/// What is asked of a format that the driver's extended chooser is to
/// match. Every such format supports OpenGL with full acceleration, draws
/// to a window, is double buffered, has RGBA pixels and is multisampled;
/// the depths and the number of samples are the request's own.
#[derive(Clone, Copy, Debug, PartialEq, Eq, Structural)]
pub struct FormatRequest {
    pub color_bits: i32,
    pub depth_bits: i32,
    pub stencil_bits: i32,
    pub samples: i32,
}

impl FormatRequest {
    /// The request of the bootstrap: 24 color bits, 24 depth bits, 8
    /// stencil bits, 4 samples.
    pub open spec fn spec_negotiated() -> FormatRequest {
        FormatRequest { color_bits: 24, depth_bits: 24, stencil_bits: 8, samples: 4 }
    }

    /// The request as ordered key/value pairs.
    pub open spec fn pairs(self) -> Seq<(i32, i32)> {
        seq![
            (WGL_SUPPORT_OPENGL_ARB, GL_TRUE),
            (WGL_ACCELERATION_ARB, WGL_FULL_ACCELERATION_ARB),
            (WGL_DRAW_TO_WINDOW_ARB, GL_TRUE),
            (WGL_DOUBLE_BUFFER_ARB, GL_TRUE),
            (WGL_PIXEL_TYPE_ARB, WGL_TYPE_RGBA_ARB),
            (WGL_COLOR_BITS_ARB, self.color_bits),
            (WGL_DEPTH_BITS_ARB, self.depth_bits),
            (WGL_STENCIL_BITS_ARB, self.stencil_bits),
            (WGL_SAMPLE_BUFFERS_ARB, GL_TRUE),
            (WGL_SAMPLES_ARB, self.samples),
        ]
    }

    #[verifier::when_used_as_spec(spec_negotiated)]
    pub fn negotiated() -> (request: FormatRequest)
        ensures
            request == Self::spec_negotiated(),
    {
        FormatRequest { color_bits: 24, depth_bits: 24, stencil_bits: 8, samples: 4 }
    }

    /// The attribute list that carries the request to the chooser.
    pub fn attributes(&self) -> (list: [i32; 21])
        ensures
            encodes(list@, self.pairs()),
    {
        let list: [i32; 21] = [
            WGL_SUPPORT_OPENGL_ARB,
            GL_TRUE,
            WGL_ACCELERATION_ARB,
            WGL_FULL_ACCELERATION_ARB,
            WGL_DRAW_TO_WINDOW_ARB,
            GL_TRUE,
            WGL_DOUBLE_BUFFER_ARB,
            GL_TRUE,
            WGL_PIXEL_TYPE_ARB,
            WGL_TYPE_RGBA_ARB,
            WGL_COLOR_BITS_ARB,
            self.color_bits,
            WGL_DEPTH_BITS_ARB,
            self.depth_bits,
            WGL_STENCIL_BITS_ARB,
            self.stencil_bits,
            WGL_SAMPLE_BUFFERS_ARB,
            GL_TRUE,
            WGL_SAMPLES_ARB,
            self.samples,
            SENTINEL,
        ];
        list
    }
}

/// What the negotiated format must offer, as ordered key/value pairs.
pub open spec fn negotiated_pairs() -> Seq<(i32, i32)> {
    FormatRequest::spec_negotiated().pairs()
}

/// `list` is the wire form of `pairs`: each pair as key then value, in
/// order, no key zero, and one zero after the last pair.
pub open spec fn encodes(list: Seq<i32>, pairs: Seq<(i32, i32)>) -> bool {
    &&& list.len() == 2 * pairs.len() + 1
    &&& list[2 * (pairs.len() as int)] == SENTINEL
    &&& forall|k: int|
        0 <= k < pairs.len() ==> {
            &&& (#[trigger] pairs[k]).0 != SENTINEL
            &&& list[2 * k] == pairs[k].0
            &&& list[2 * k + 1] == pairs[k].1
        }
}

/// The value that a reader of `list` finds for `key` when it scans the
/// pairs from position `from` and stops at the first zero key.
pub open spec fn lookup_from(list: Seq<i32>, key: i32, from: int) -> Option<i32>
    decreases list.len() - from,
{
    if from < 0 || from + 1 >= list.len() || list[from] == SENTINEL {
        None
    } else if list[from] == key {
        Some(list[from + 1])
    } else {
        lookup_from(list, key, from + 2)
    }
}

/// The value that `list` requests for `key`, if it names the key at all.
pub open spec fn lookup(list: Seq<i32>, key: i32) -> Option<i32> {
    lookup_from(list, key, 0)
}

/// The attribute list of the negotiated format.
pub fn negotiated_attributes() -> (list: [i32; 21])
    ensures
        encodes(list@, negotiated_pairs()),
{
    FormatRequest::negotiated().attributes()
}

/// Reads `list` as the driver does: the value of the first pair whose key
/// is `key`, looking no further than the first zero key.
pub fn find_attribute(list: &[i32], key: i32) -> (found: Option<i32>)
    ensures
        found == lookup(list@, key),
{
    let mut at: usize = 0;
    while at < list.len() && list.len() - at >= 2 && list[at] != SENTINEL
        invariant
            at <= list.len(),
            lookup(list@, key) == lookup_from(list@, key, at as int),
        decreases list.len() - at,
    {
        if list[at] == key {
            return Some(list[at + 1]);
        }
        at = at + 2;
    }
    None
}

/// The negotiated attribute list is fixed: exactly twenty-one integers, ten
/// pairs with non-zero keys in the stated order, then the zero that ends
/// the list.
pub proof fn negotiated_list_is_fixed(list: Seq<i32>)
    requires
        encodes(list, negotiated_pairs()),
    ensures
        list.len() == 21,
        list.last() == SENTINEL,
        forall|i: int| 0 <= i < 20 && i % 2 == 0 ==> list[i] != SENTINEL,
        list =~= seq![
            0x2010i32, 1i32,
            0x2003i32, 0x2027i32,
            0x2001i32, 1i32,
            0x2011i32, 1i32,
            0x2013i32, 0x202Bi32,
            0x2014i32, 24i32,
            0x2022i32, 24i32,
            0x2023i32, 8i32,
            0x2041i32, 1i32,
            0x2042i32, 4i32,
            0i32,
        ],
{
    let pairs = negotiated_pairs();
    assert(pairs.len() == 10);
    assert(list[0] == pairs[0].0 && list[1] == pairs[0].1);
    assert(list[2] == pairs[1].0 && list[3] == pairs[1].1);
    assert(list[4] == pairs[2].0 && list[5] == pairs[2].1);
    assert(list[6] == pairs[3].0 && list[7] == pairs[3].1);
    assert(list[8] == pairs[4].0 && list[9] == pairs[4].1);
    assert(list[10] == pairs[5].0 && list[11] == pairs[5].1);
    assert(list[12] == pairs[6].0 && list[13] == pairs[6].1);
    assert(list[14] == pairs[7].0 && list[15] == pairs[7].1);
    assert(list[16] == pairs[8].0 && list[17] == pairs[8].1);
    assert(list[18] == pairs[9].0 && list[19] == pairs[9].1);
}

/// A reader that scans from pair `from` finds the value of pair `k` under
/// its key, provided no pair between the two carries the same key.
proof fn lookup_reaches_pair(list: Seq<i32>, pairs: Seq<(i32, i32)>, from: int, k: int)
    requires
        encodes(list, pairs),
        0 <= from <= k < pairs.len(),
        forall|j: int| from <= j < k ==> (#[trigger] pairs[j]).0 != pairs[k].0,
    ensures
        lookup_from(list, pairs[k].0, 2 * from) == Some(pairs[k].1),
    decreases k - from,
{
    assert(pairs[from].0 != SENTINEL);
    if from < k {
        assert(pairs[from].0 != pairs[k].0);
        lookup_reaches_pair(list, pairs, from + 1, k);
    }
}

/// A reader that scans from pair `from` finds nothing under a key that no
/// pair from there on carries.
proof fn lookup_misses_absent_key(list: Seq<i32>, pairs: Seq<(i32, i32)>, from: int, key: i32)
    requires
        encodes(list, pairs),
        0 <= from <= pairs.len(),
        forall|j: int| from <= j < pairs.len() ==> (#[trigger] pairs[j]).0 != key,
    ensures
        lookup_from(list, key, 2 * from) is None,
    decreases pairs.len() - from,
{
    if from < pairs.len() {
        assert(pairs[from].0 != key);
        assert(pairs[from].0 != SENTINEL);
        lookup_misses_absent_key(list, pairs, from + 1, key);
    }
}

/// Reading an encoded list gives back the pairs it was made from: the value
/// of the first pair that carries the key, and nothing for a key that no
/// pair carries.
pub proof fn lookup_reads_encoding(list: Seq<i32>, pairs: Seq<(i32, i32)>, key: i32)
    requires
        encodes(list, pairs),
    ensures
        forall|k: int|
            0 <= k < pairs.len() && (#[trigger] pairs[k]).0 == key && (forall|j: int|
                0 <= j < k ==> (#[trigger] pairs[j]).0 != key) ==> lookup(list, key) == Some(
                pairs[k].1,
            ),
        (forall|j: int| 0 <= j < pairs.len() ==> (#[trigger] pairs[j]).0 != key) ==> lookup(
            list,
            key,
        ) is None,
{
    assert forall|k: int|
        0 <= k < pairs.len() && (#[trigger] pairs[k]).0 == key && (forall|j: int|
            0 <= j < k ==> (#[trigger] pairs[j]).0 != key) implies lookup(list, key) == Some(
        pairs[k].1,
    ) by {
        lookup_reaches_pair(list, pairs, 0, k);
    }
    if forall|j: int| 0 <= j < pairs.len() ==> (#[trigger] pairs[j]).0 != key {
        lookup_misses_absent_key(list, pairs, 0, key);
    }
}

/// What the negotiated attribute list asks for, key by key.
pub proof fn negotiated_list_requests(list: Seq<i32>)
    requires
        encodes(list, negotiated_pairs()),
    ensures
        lookup(list, WGL_SUPPORT_OPENGL_ARB) == Some(GL_TRUE),
        lookup(list, WGL_ACCELERATION_ARB) == Some(WGL_FULL_ACCELERATION_ARB),
        lookup(list, WGL_DRAW_TO_WINDOW_ARB) == Some(GL_TRUE),
        lookup(list, WGL_DOUBLE_BUFFER_ARB) == Some(GL_TRUE),
        lookup(list, WGL_PIXEL_TYPE_ARB) == Some(WGL_TYPE_RGBA_ARB),
        lookup(list, WGL_COLOR_BITS_ARB) == Some(24i32),
        lookup(list, WGL_DEPTH_BITS_ARB) == Some(24i32),
        lookup(list, WGL_STENCIL_BITS_ARB) == Some(8i32),
        lookup(list, WGL_SAMPLE_BUFFERS_ARB) == Some(GL_TRUE),
        lookup(list, WGL_SAMPLES_ARB) == Some(4i32),
{
    let pairs = negotiated_pairs();
    lookup_reaches_pair(list, pairs, 0, 0);
    lookup_reaches_pair(list, pairs, 0, 1);
    lookup_reaches_pair(list, pairs, 0, 2);
    lookup_reaches_pair(list, pairs, 0, 3);
    lookup_reaches_pair(list, pairs, 0, 4);
    lookup_reaches_pair(list, pairs, 0, 5);
    lookup_reaches_pair(list, pairs, 0, 6);
    lookup_reaches_pair(list, pairs, 0, 7);
    lookup_reaches_pair(list, pairs, 0, 8);
    lookup_reaches_pair(list, pairs, 0, 9);
}

} // verus!
