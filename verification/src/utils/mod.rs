//! Text that can be handed to the MLX C API, and conversions of optional arguments.

use vstd::prelude::*;
use vstd::utf8::{
    encode_scalar, encode_utf8, has_width_1_encoding, has_width_2_encoding, has_width_3_encoding,
    is_scalar,
};

pub mod optional;

verus! {

/// Whether the UTF-8 encoding of `text` is free of nul bytes, which is what a C string needs:
/// a nul byte inside the text would end it early.
pub open spec fn nul_free(text: Seq<char>) -> bool {
    !encode_utf8(text).contains(0u8)
}

/// The UTF-8 bytes of a text that contains no nul byte, ready to be passed to C once a
/// terminating nul is appended.
#[derive(Debug)]
pub struct CText {
    bytes: Vec<u8>,
}

impl View for CText {
    type V = Seq<u8>;

    closed spec fn view(&self) -> Seq<u8> {
        self.bytes@
    }
}

impl CText {
    #[verifier::type_invariant]
    spec fn no_interior_nul(&self) -> bool {
        !self.bytes@.contains(0u8)
    }

    /// The bytes of `s`, or `None` when `s` holds a nul byte.
    pub fn new(s: &str) -> (r: Option<CText>)
        ensures
            r is Some <==> nul_free(s@),
            r matches Some(t) ==> t@ == encode_utf8(s@),
    {
        let b = s.as_bytes();
        let mut out: Vec<u8> = Vec::new();
        let mut i: usize = 0;
        while i < b.len()
            invariant
                b@ == encode_utf8(s@),
                i <= b@.len(),
                out@ == b@.subrange(0, i as int),
                forall|j: int| 0 <= j < i ==> b@[j] != 0u8,
            decreases b@.len() - i,
        {
            if b[i] == 0u8 {
                assert(b@.contains(0u8)) by {
                    assert(b@[i as int] == 0u8);
                }
                return None;
            }
            out.push(b[i]);
            i = i + 1;
            assert(out@ =~= b@.subrange(0, i as int));
        }
        assert(out@ =~= b@);
        assert(!b@.contains(0u8)) by {
            if b@.contains(0u8) {
                let j = choose|j: int| 0 <= j < b@.len() && b@[j] == 0u8;
                assert(b@[j] != 0u8);
            }
        }
        Some(CText { bytes: out })
    }

    /// The bytes of this text, without a terminating nul.
    pub fn as_bytes(&self) -> (b: &[u8])
        ensures
            b@ == self@,
            !b@.contains(0u8),
    {
        proof {
            use_type_invariant(self);
        }
        self.bytes.as_slice()
    }
}

proof fn lemma_scalar_encoding_has_nul(v: u32)
    requires
        is_scalar(v),
    ensures
        encode_scalar(v).contains(0u8) <==> v == 0,
{
    let e = encode_scalar(v);
    if has_width_1_encoding(v) {
        assert(((v & 0x7f) as u8 == 0u8) <==> v == 0) by (bit_vector)
            requires
                v <= 0x7f,
        ;
        assert(e[0] == (v & 0x7f) as u8);
        if e.contains(0u8) {
            let i = choose|i: int| 0 <= i < e.len() && e[i] == 0u8;
            assert(i == 0);
        }
        if v == 0 {
            assert(e[0] == 0u8);
        }
    } else {
        assert(forall|x: u8| #![auto] (0xc0u8 | x) != 0u8) by (bit_vector);
        assert(forall|x: u8| #![auto] (0xe0u8 | x) != 0u8) by (bit_vector);
        assert(forall|x: u8| #![auto] (0xf0u8 | x) != 0u8) by (bit_vector);
        assert(forall|x: u8| #![auto] (0x80u8 | x) != 0u8) by (bit_vector);
        if e.contains(0u8) {
            let i = choose|i: int| 0 <= i < e.len() && e[i] == 0u8;
            if has_width_2_encoding(v) {
                assert(i == 0 || i == 1);
            } else if has_width_3_encoding(v) {
                assert(0 <= i < 3);
            } else {
                assert(0 <= i < 4);
            }
        }
    }
}

/// A text can be passed to C exactly when it contains no nul character: in UTF-8 only the
/// nul character is encoded with a zero byte.
pub proof fn law_nul_free_iff_no_nul_char(text: Seq<char>)
    ensures
        nul_free(text) <==> !text.contains('\0'),
    decreases text.len(),
{
    if text.len() > 0 {
        let head = encode_scalar(text[0] as u32);
        let rest = text.drop_first();
        law_nul_free_iff_no_nul_char(rest);
        vstd::utf8::char_is_scalar(text[0]);
        vstd::utf8::char_u32_cast(text[0], text[0] as u32);
        vstd::utf8::char_u32_cast('\0', '\0' as u32);
        lemma_scalar_encoding_has_nul(text[0] as u32);
        assert(((text[0] as u32) == 0) <==> text[0] == '\0');
        let all = encode_utf8(text);
        assert(all == head + encode_utf8(rest));
        if all.contains(0u8) {
            let i = choose|i: int| 0 <= i < all.len() && all[i] == 0u8;
            if i < head.len() {
                assert(head[i] == 0u8);
                assert(text[0] == '\0');
            } else {
                assert(encode_utf8(rest)[i - head.len()] == 0u8);
                let j = choose|j: int| 0 <= j < rest.len() && rest[j] == '\0';
                assert(text[j + 1] == '\0');
            }
        }
        if text.contains('\0') {
            let j = choose|j: int| 0 <= j < text.len() && text[j] == '\0';
            if j == 0 {
                let i = choose|i: int| 0 <= i < head.len() && head[i] == 0u8;
                assert(all[i] == 0u8);
            } else {
                assert(rest[j - 1] == '\0');
                let i = choose|i: int|
                    0 <= i < encode_utf8(rest).len() && encode_utf8(rest)[i] == 0u8;
                assert(all[i + head.len()] == 0u8);
            }
        }
    } else {
        assert(encode_utf8(text) =~= Seq::<u8>::empty());
    }
}

} // verus!
