//! Sprite pixel data and palette decoding.

use vstd::prelude::*;

verus! {

/// A rectangular block of RGBA pixel data with its dimensions.
#[derive(Clone, Debug)]
pub struct Sprite {
    pub width: usize,
    pub height: usize,
    pub pixels: Vec<u8>,
}

/// The four RGBA bytes a palette code decodes to: 0 is ground grey,
/// 1 is wall white, 2 is portal blue, 3 is hole black; any other code
/// contributes nothing.
pub open spec fn rgba_of_code(c: u8) -> Seq<u8> {
    if c == 0 {
        seq![128u8, 128u8, 128u8, 255u8]
    } else if c == 1 {
        seq![255u8, 255u8, 255u8, 255u8]
    } else if c == 2 {
        seq![73u8, 39u8, 245u8, 255u8]
    } else if c == 3 {
        seq![0u8, 0u8, 0u8, 255u8]
    } else {
        Seq::empty()
    }
}

/// The whole palette decoding of a code sequence.
pub open spec fn rgba_decoded(items: Seq<u8>) -> Seq<u8>
    decreases items.len(),
{
    if items.len() == 0 {
        Seq::empty()
    } else {
        rgba_decoded(items.drop_last()) + rgba_of_code(items.last())
    }
}

/// Decode palette codes into RGBA bytes, four per recognized code.
pub fn map_color_to_rgba(items: &[u8]) -> (r: Vec<u8>)
    ensures
        r@ == rgba_decoded(items@),
{
    let mut ret_vec: Vec<u8> = Vec::new();
    let mut i: usize = 0;
    proof {
        assert(items@.subrange(0, 0) =~= Seq::<u8>::empty());
    }
    while i < items.len()
        invariant
            i <= items@.len(),
            ret_vec@ == rgba_decoded(items@.subrange(0, i as int)),
        decreases items@.len() - i,
    {
        let item = items[i];
        if item == 0 {
            ret_vec.push(128);
            ret_vec.push(128);
            ret_vec.push(128);
            ret_vec.push(255);
        } else if item == 1 {
            ret_vec.push(255);
            ret_vec.push(255);
            ret_vec.push(255);
            ret_vec.push(255);
        } else if item == 2 {
            ret_vec.push(73);
            ret_vec.push(39);
            ret_vec.push(245);
            ret_vec.push(255);
        } else if item == 3 {
            ret_vec.push(0);
            ret_vec.push(0);
            ret_vec.push(0);
            ret_vec.push(255);
        }
        proof {
            let pre = items@.subrange(0, i as int);
            let post = items@.subrange(0, i + 1);
            assert(post.drop_last() =~= pre);
            assert(post.last() == items@[i as int]);
            assert(ret_vec@ =~= rgba_decoded(pre) + rgba_of_code(items@[i as int]));
        }
        i = i + 1;
    }
    proof {
        assert(items@.subrange(0, items@.len() as int) =~= items@);
    }
    ret_vec
}

/// The ball's 8-by-8 sprite as palette codes: 1 decodes to a white
/// pixel, 0 to the grey that a blitter can treat as background.
pub fn ball_asset() -> (a: Vec<u8>)
    ensures
        a@.len() == 64,
        forall|i: int| 0 <= i < 64 ==> a@[i] == 0 || a@[i] == 1,
{
    vec![
        0u8, 0, 0, 1, 1, 0, 0, 0, 0, 1, 1, 0, 0, 1, 1, 0, 0, 1, 1, 0, 0, 1, 1, 0, 1, 0, 0, 1, 1,
        0, 0, 1, 1, 0, 0, 1, 1, 0, 0, 1, 0, 1, 1, 0, 0, 1, 1, 0, 0, 1, 1, 0, 0, 1, 1, 0, 0, 0, 0,
        1, 1, 0, 0, 0,
    ]
}

} // verus!
