//! Laws of the C-string views, stated over the models that the accessor
//! contracts use.

use vstd::prelude::*;
use vstd::utf8::{
    decode_utf8, decode_utf8_encode_utf8, encode_utf8, is_leading_byte_width_1, pop_first_scalar,
    valid_first_scalar, valid_utf8,
};
use crate::cstr::{CStringView, spec_cstring};
use crate::scan::{contains_nul, first_nul, lemma_first_nul, lemma_first_nul_at};
use crate::text::spec_text;

verus! {

/// A null reference yields an absent result from every derived operation:
/// the borrowed view is absent, and with it the strict, owned and platform
/// text, whose contracts all go through these two models.
pub proof fn lemma_null_yields_absent<T: CStringView>(p: &T)
    requires
        p.referenced() is None,
    ensures
        spec_cstring(p.referenced()) is None,
        spec_text(spec_cstring(p.referenced())) is None,
{
}

/// A reference whose first designated zero byte stands at `k` yields a
/// borrowed view of exactly the first `k` bytes.
pub proof fn lemma_terminated_view(cells: Seq<u8>, k: int)
    requires
        0 <= k < cells.len(),
        cells[k] == 0,
        forall|i: int| 0 <= i < k ==> cells[i] != 0,
    ensures
        spec_cstring(Some(cells)) == Some(cells.take(k)),
{
    lemma_first_nul_at(cells, k);
}

/// A buffer without any zero byte yields an absent borrowed view: nothing
/// is ever read past its bounds in search of a terminator.
pub proof fn lemma_unterminated_absent(cells: Seq<u8>)
    requires
        forall|i: int| 0 <= i < cells.len() ==> cells[i] != 0,
    ensures
        spec_cstring(Some(cells)) is None,
{
    assert(!contains_nul(cells));
}

/// A borrowed view, when present, never holds a zero byte: it ends before
/// the first terminator.
pub proof fn lemma_view_nul_free(m: Option<Seq<u8>>)
    requires
        spec_cstring(m) is Some,
    ensures
        !contains_nul(spec_cstring(m)->Some_0),
{
    lemma_first_nul(m->Some_0);
    assert forall|i: int|
        0 <= i < spec_cstring(m)->Some_0.len() implies spec_cstring(m)->Some_0[i] != 0 by {
        assert(spec_cstring(m)->Some_0[i] == m->Some_0[i]);
    }
}

/// Every accessor is a pure function of the reference's model: the
/// contracts pin each result's view to the model values below, so two calls
/// on the same unchanged reference yield equal results both times.
pub proof fn lemma_accessors_idempotent<T: CStringView>(
    p: &T,
    c1: Option<Seq<u8>>,
    c2: Option<Seq<u8>>,
    t1: Option<Seq<char>>,
    t2: Option<Seq<char>>,
)
    requires
        c1 == spec_cstring(p.referenced()),
        c2 == spec_cstring(p.referenced()),
        t1 == spec_text(spec_cstring(p.referenced())),
        t2 == spec_text(spec_cstring(p.referenced())),
    ensures
        c1 == c2,
        t1 == t2,
{
}

/// Bytes below 0x80 form valid UTF-8: each one is the 1-byte encoding of
/// its own scalar value.
proof fn lemma_ascii_valid_utf8(b: Seq<u8>)
    requires
        forall|i: int| 0 <= i < b.len() ==> b[i] < 0x80,
    ensures
        valid_utf8(b),
    decreases b.len(),
{
    if b.len() != 0 {
        let b0 = b[0];
        assert(is_leading_byte_width_1(b0));
        assert((b0 & 0x7f) < 0x80) by (bit_vector);
        assert(valid_first_scalar(b));
        assert(pop_first_scalar(b) =~= b.skip(1));
        assert(forall|i: int| 0 <= i < b.skip(1).len() ==> b.skip(1)[i] < 0x80);
        lemma_ascii_valid_utf8(b.skip(1));
    }
}

/// Round trip: for an ASCII byte sequence terminated by zero, the decoded
/// text re-encodes to exactly the bytes before the terminator, so appending
/// a zero byte reproduces the original sequence through its terminator.
pub proof fn lemma_ascii_round_trip(mem: Seq<u8>)
    requires
        contains_nul(mem),
        forall|i: int| 0 <= i < first_nul(mem) ==> mem[i] < 0x80,
    ensures
        spec_cstring(Some(mem)) == Some(mem.take(first_nul(mem))),
        spec_text(spec_cstring(Some(mem))) == Some(decode_utf8(mem.take(first_nul(mem)))),
        encode_utf8(decode_utf8(mem.take(first_nul(mem)))) == mem.take(first_nul(mem)),
        encode_utf8(decode_utf8(mem.take(first_nul(mem)))).push(0) == mem.take(
            first_nul(mem) + 1,
        ),
{
    lemma_first_nul(mem);
    let v = mem.take(first_nul(mem));
    assert(forall|i: int| 0 <= i < v.len() ==> v[i] < 0x80);
    lemma_ascii_valid_utf8(v);
    decode_utf8_encode_utf8(v);
    assert(v.push(0) =~= mem.take(first_nul(mem) + 1));
}

} // verus!
