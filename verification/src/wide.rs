//! Strings in the UTF-16 form that the Windows API takes.
use vstd::prelude::*;

verus! {

/// The UTF-16 code units of one character: one unit below U+10000, a
/// surrogate pair above.
pub open spec fn utf16_units(c: char) -> Seq<u16> {
    let v = c as u32;
    if v < 0x10000 {
        seq![v as u16]
    } else {
        let w = (v - 0x10000) as u32;
        seq![(0xD800u32 + (w >> 10u32)) as u16, (0xDC00u32 + (w & 0x3FFu32)) as u16]
    }
}

/// The UTF-16 code units of a text.
pub open spec fn utf16(s: Seq<char>) -> Seq<u16>
    decreases s.len(),
{
    if s.len() == 0 {
        Seq::empty()
    } else {
        utf16(s.drop_last()) + utf16_units(s.last())
    }
}

/// The text as a NUL-terminated UTF-16 string.
pub fn to_wchar(s: &str) -> (r: Vec<u16>)
    ensures
        r@ == utf16(s@).push(0),
{
    let mut res: Vec<u16> = Vec::new();
    let ghost text = s@;
    for c in it: s.chars()
        invariant
            it.seq() == text,
            text == s@,
            res@ == utf16(text.take(it.index())),
    {
        assert(text.take(it.index() + 1).drop_last() =~= text.take(it.index()));
        assert(text.take(it.index() + 1).last() == c);
        let ghost before = res@;
        let v = c as u32;
        if v < 0x10000 {
            res.push(v as u16);
            assert(res@ =~= before + seq![v as u16]);
        } else {
            let w = v - 0x10000;
            assert(w >> 10u32 <= 0x3FFFFFu32 && w & 0x3FFu32 <= 0x3FFu32) by (bit_vector);
            let hi = (0xD800u32 + (w >> 10u32)) as u16;
            let lo = (0xDC00u32 + (w & 0x3FFu32)) as u16;
            res.push(hi);
            res.push(lo);
            assert(res@ =~= before + seq![hi, lo]);
        }
    }
    assert(text.take(text.len() as int) =~= text);
    res.push(0);
    res
}

} // verus!
