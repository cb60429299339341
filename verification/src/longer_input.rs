//! Reads that succeed on an input read the same on any longer input that starts with it,
//! and end within the shorter one: nothing a reader decides looks past its own bytes.

use crate::attribute::annotation::{spec_read_annotation, spec_read_ev, spec_read_evs, spec_read_pair, spec_read_pairs};
use crate::attribute::class::{bootstrap_reader, inner_class_reader};
use crate::attribute::kind::AttributeKind;
use crate::attribute::method::code::{
    frame_reader, line_number_reader, local_variable_reader, local_variable_type_reader, verification_type_reader,
};
use crate::attribute::shared::{spec_read_attribute_header, spec_read_shared};
use crate::attribute::type_annotation::{spec_read_target_info, type_annotation_reader};
use crate::constant_pool::SpecConstantEntry;
use crate::attribute::method::{
    code_info_reader, exception_reader, method_parameter_reader, parameter_annotations_reader, spec_read_code,
    spec_read_method_payload,
};
use crate::class_file::{class_attribute_reader, field_reader, method_reader};
use crate::cursor::{be_u16, be_u32, spec_bytes};
use crate::member::field::field_attribute_reader;
use crate::member::method::method_attribute_reader;
use crate::attribute::shared::annotation_reader;
use crate::attribute::type_annotation::{local_var_reader, path_entry_reader};
use crate::error::SpecRead;
use crate::read::{spec_read_counted, spec_read_counted8, spec_read_seq, u16_reader};
use vstd::prelude::*;

verus! {

/// Whether `d2` starts with all of `d`.
pub open spec fn spec_prefix_of(d: Seq<u8>, d2: Seq<u8>) -> bool {
    &&& d.len() <= d2.len()
    &&& forall|j: int| 0 <= j < d.len() ==> #[trigger] d2[j] == d[j]
}

/// Whether a read `r` from `p` in an input of length `n`, if it succeeds, ends between `p`
/// and `n` and gives the same as the read `r2` from a longer input.
pub open spec fn read_repeats<T>(r: SpecRead<T>, r2: SpecRead<T>, p: int, n: int) -> bool {
    r matches Ok((_, q)) ==> p <= q <= n && r2 == r
}

/// Whether every read by `f` within `d` repeats on `d2`.
pub open spec fn reader_repeats<T>(f: spec_fn(Seq<u8>, int) -> SpecRead<T>, d: Seq<u8>, d2: Seq<u8>) -> bool {
    forall|p: int| 0 <= p <= d.len() ==> read_repeats(#[trigger] f(d, p), f(d2, p), p, d.len() as int)
}

/// Reading `n` items with a reader whose reads repeat repeats.
pub proof fn lemma_seq_repeats<T>(d: Seq<u8>, d2: Seq<u8>, p: int, n: nat, f: spec_fn(Seq<u8>, int) -> SpecRead<T>)
    requires
        spec_prefix_of(d, d2),
        0 <= p <= d.len(),
        reader_repeats(f, d, d2),
    ensures
        read_repeats(spec_read_seq(d, p, n, f), spec_read_seq(d2, p, n, f), p, d.len() as int),
    decreases n,
{
    if n > 0 {
        lemma_seq_repeats(d, d2, p, (n - 1) as nat, f);
        if let Ok((_, q)) = spec_read_seq(d, p, (n - 1) as nat, f) {
            assert(read_repeats(f(d, q), f(d2, q), q, d.len() as int));
        }
    }
}

/// A `u16` count, then that many items with a reader whose reads repeat, repeats.
pub proof fn lemma_counted_repeats<T>(d: Seq<u8>, d2: Seq<u8>, p: int, f: spec_fn(Seq<u8>, int) -> SpecRead<T>)
    requires
        spec_prefix_of(d, d2),
        0 <= p <= d.len(),
        reader_repeats(f, d, d2),
    ensures
        read_repeats(spec_read_counted(d, p, f), spec_read_counted(d2, p, f), p, d.len() as int),
{
    if p + 2 <= d.len() {
        assert(d2[p] == d[p] && d2[p + 1] == d[p + 1]);
        let n = crate::cursor::be_u16(d[p], d[p + 1]);
        lemma_seq_repeats(d, d2, p + 2, n as nat, f);
    }
}

/// A `u8` count, then that many items with a reader whose reads repeat, repeats.
pub proof fn lemma_counted8_repeats<T>(d: Seq<u8>, d2: Seq<u8>, p: int, f: spec_fn(Seq<u8>, int) -> SpecRead<T>)
    requires
        spec_prefix_of(d, d2),
        0 <= p <= d.len(),
        reader_repeats(f, d, d2),
    ensures
        read_repeats(spec_read_counted8(d, p, f), spec_read_counted8(d2, p, f), p, d.len() as int),
{
    if p + 1 <= d.len() {
        assert(d2[p] == d[p]);
        lemma_seq_repeats(d, d2, p + 1, d[p] as nat, f);
    }
}

/// The readers of fixed-size items repeat.
pub proof fn lemma_fixed_readers_repeat(d: Seq<u8>, d2: Seq<u8>)
    requires
        spec_prefix_of(d, d2),
    ensures
        reader_repeats(u16_reader(), d, d2),
        reader_repeats(exception_reader(), d, d2),
        reader_repeats(method_parameter_reader(), d, d2),
        reader_repeats(line_number_reader(), d, d2),
        reader_repeats(local_variable_reader(), d, d2),
        reader_repeats(local_variable_type_reader(), d, d2),
        reader_repeats(inner_class_reader(), d, d2),
        reader_repeats(local_var_reader(), d, d2),
        reader_repeats(path_entry_reader(), d, d2),
{
    assert forall|p: int| 0 <= p <= d.len() implies read_repeats(#[trigger] u16_reader()(d, p), u16_reader()(d2, p), p, d.len() as int) by {}
    assert forall|p: int| 0 <= p <= d.len() implies read_repeats(#[trigger] exception_reader()(d, p), exception_reader()(d2, p), p, d.len() as int) by {}
    assert forall|p: int| 0 <= p <= d.len() implies read_repeats(#[trigger] method_parameter_reader()(d, p), method_parameter_reader()(d2, p), p, d.len() as int) by {}
    assert forall|p: int| 0 <= p <= d.len() implies read_repeats(#[trigger] line_number_reader()(d, p), line_number_reader()(d2, p), p, d.len() as int) by {}
    assert forall|p: int| 0 <= p <= d.len() implies read_repeats(#[trigger] local_variable_reader()(d, p), local_variable_reader()(d2, p), p, d.len() as int) by {}
    assert forall|p: int| 0 <= p <= d.len() implies read_repeats(#[trigger] local_variable_type_reader()(d, p), local_variable_type_reader()(d2, p), p, d.len() as int) by {}
    assert forall|p: int| 0 <= p <= d.len() implies read_repeats(#[trigger] inner_class_reader()(d, p), inner_class_reader()(d2, p), p, d.len() as int) by {}
    assert forall|p: int| 0 <= p <= d.len() implies read_repeats(#[trigger] local_var_reader()(d, p), local_var_reader()(d2, p), p, d.len() as int) by {}
    assert forall|p: int| 0 <= p <= d.len() implies read_repeats(#[trigger] path_entry_reader()(d, p), path_entry_reader()(d2, p), p, d.len() as int) by {}
}

/// Element values, annotations and pairs read the same on a longer input.
pub proof fn lemma_ev_repeats(d: Seq<u8>, d2: Seq<u8>, p: int)
    requires
        spec_prefix_of(d, d2),
    ensures
        read_repeats(spec_read_ev(d, p), spec_read_ev(d2, p), p, d.len() as int),
    decreases d.len() - p, 0int,
{
    crate::attribute::annotation::lemma_ev_advances(d, p);
    if 0 <= p < d.len() {
        assert(d2[p] == d[p]);
        if p + 3 <= d.len() {
            assert(d2[p + 1] == d[p + 1] && d2[p + 2] == d[p + 2]);
            lemma_evs_repeats(d, d2, p + 3, crate::cursor::be_u16(d[p + 1], d[p + 2]) as nat);
        }
        if p + 5 <= d.len() {
            assert(d2[p + 3] == d[p + 3] && d2[p + 4] == d[p + 4]);
        }
        lemma_annotation_repeats(d, d2, p + 1);
    }
}

/// `n` element values in a row read the same on a longer input.
pub proof fn lemma_evs_repeats(d: Seq<u8>, d2: Seq<u8>, p: int, n: nat)
    requires
        spec_prefix_of(d, d2),
        0 <= p <= d.len(),
    ensures
        read_repeats(spec_read_evs(d, p, n), spec_read_evs(d2, p, n), p, d.len() as int),
    decreases d.len() - p, 1int,
{
    if n > 0 {
        lemma_ev_repeats(d, d2, p);
        if let Ok((_, q)) = spec_read_ev(d, p) {
            if p < q <= d.len() {
                lemma_evs_repeats(d, d2, q, (n - 1) as nat);
            }
        }
    }
}

/// An annotation reads the same on a longer input.
pub proof fn lemma_annotation_repeats(d: Seq<u8>, d2: Seq<u8>, p: int)
    requires
        spec_prefix_of(d, d2),
    ensures
        read_repeats(spec_read_annotation(d, p), spec_read_annotation(d2, p), p, d.len() as int),
    decreases d.len() - p, 0int,
{
    crate::attribute::annotation::lemma_annotation_advances(d, p);
    if 0 <= p && p + 4 <= d.len() {
        assert(d2[p] == d[p] && d2[p + 1] == d[p + 1] && d2[p + 2] == d[p + 2] && d2[p + 3] == d[p + 3]);
        lemma_pairs_repeats(d, d2, p + 4, crate::cursor::be_u16(d[p + 2], d[p + 3]) as nat);
    }
}

/// `n` element-value pairs in a row read the same on a longer input.
pub proof fn lemma_pairs_repeats(d: Seq<u8>, d2: Seq<u8>, p: int, n: nat)
    requires
        spec_prefix_of(d, d2),
        0 <= p <= d.len(),
    ensures
        read_repeats(spec_read_pairs(d, p, n), spec_read_pairs(d2, p, n), p, d.len() as int),
    decreases d.len() - p, 1int,
{
    if n > 0 {
        lemma_pair_repeats(d, d2, p);
        if let Ok((_, q)) = spec_read_pair(d, p) {
            if p < q <= d.len() {
                lemma_pairs_repeats(d, d2, q, (n - 1) as nat);
            }
        }
    }
}

/// An element-value pair reads the same on a longer input.
pub proof fn lemma_pair_repeats(d: Seq<u8>, d2: Seq<u8>, p: int)
    requires
        spec_prefix_of(d, d2),
    ensures
        read_repeats(spec_read_pair(d, p), spec_read_pair(d2, p), p, d.len() as int),
    decreases d.len() - p, 0int,
{
    crate::attribute::annotation::lemma_pair_advances(d, p);
    if 0 <= p && p + 2 <= d.len() {
        assert(d2[p] == d[p] && d2[p + 1] == d[p + 1]);
        lemma_ev_repeats(d, d2, p + 2);
    }
}

/// The reader of annotations repeats.
pub proof fn lemma_annotation_reader_repeats(d: Seq<u8>, d2: Seq<u8>)
    requires
        spec_prefix_of(d, d2),
    ensures
        reader_repeats(annotation_reader(), d, d2),
{
    assert forall|p: int| 0 <= p <= d.len() implies read_repeats(#[trigger] annotation_reader()(d, p), annotation_reader()(d2, p), p, d.len() as int) by {
        lemma_annotation_repeats(d, d2, p);
    }
}

/// The readers of verification types and of bootstrap methods repeat.
pub proof fn lemma_small_readers_repeat(d: Seq<u8>, d2: Seq<u8>)
    requires
        spec_prefix_of(d, d2),
    ensures
        reader_repeats(verification_type_reader(), d, d2),
        reader_repeats(bootstrap_reader(), d, d2),
{
    assert forall|p: int| 0 <= p <= d.len() implies read_repeats(#[trigger] verification_type_reader()(d, p), verification_type_reader()(d2, p), p, d.len() as int) by {
        if p < d.len() {
            assert(d2[p] == d[p]);
        }
    }
    lemma_fixed_readers_repeat(d, d2);
    assert forall|p: int| 0 <= p <= d.len() implies read_repeats(#[trigger] bootstrap_reader()(d, p), bootstrap_reader()(d2, p), p, d.len() as int) by {
        if p + 2 <= d.len() {
            lemma_counted_repeats(d, d2, p + 2, u16_reader());
        }
    }
}

/// Stack map frames read the same on a longer input.
pub proof fn lemma_frame_reader_repeats(d: Seq<u8>, d2: Seq<u8>)
    requires
        spec_prefix_of(d, d2),
    ensures
        reader_repeats(frame_reader(), d, d2),
{
    lemma_small_readers_repeat(d, d2);
    assert forall|p: int| 0 <= p <= d.len() implies read_repeats(#[trigger] frame_reader()(d, p), frame_reader()(d2, p), p, d.len() as int) by {
        if p < d.len() {
            assert(d2[p] == d[p]);
            let t = d[p];
            assert(read_repeats(verification_type_reader()(d, p + 1), verification_type_reader()(d2, p + 1), p + 1, d.len() as int));
            if p + 3 <= d.len() {
                assert(d2[p + 1] == d[p + 1] && d2[p + 2] == d[p + 2]);
                let r = p + 3;
                assert(read_repeats(verification_type_reader()(d, r), verification_type_reader()(d2, r), r, d.len() as int));
                if 252 <= t <= 254 {
                    lemma_seq_repeats(d, d2, r, (t - 251) as nat, verification_type_reader());
                }
                lemma_counted_repeats(d, d2, r, verification_type_reader());
                if let Ok((_, s)) = spec_read_counted(d, r, verification_type_reader()) {
                    lemma_counted_repeats(d, d2, s, verification_type_reader());
                }
            }
        }
    }
}

/// Type annotation targets and type annotations read the same on a longer input.
pub proof fn lemma_type_annotation_reader_repeats(d: Seq<u8>, d2: Seq<u8>)
    requires
        spec_prefix_of(d, d2),
    ensures
        reader_repeats(type_annotation_reader(), d, d2),
{
    lemma_fixed_readers_repeat(d, d2);
    assert forall|p: int| 0 <= p <= d.len() implies read_repeats(#[trigger] type_annotation_reader()(d, p), type_annotation_reader()(d2, p), p, d.len() as int) by {
        if p < d.len() {
            assert(d2[p] == d[p]);
            if p + 3 <= d.len() {
                assert(d2[p + 1] == d[p + 1] && d2[p + 2] == d[p + 2]);
            }
            if p + 4 <= d.len() {
                assert(d2[p + 3] == d[p + 3]);
            }
            lemma_counted_repeats(d, d2, p + 1, local_var_reader());
            assert(read_repeats(spec_read_target_info(d, p), spec_read_target_info(d2, p), p, d.len() as int));
            if let Ok((_, q)) = spec_read_target_info(d, p) {
                lemma_counted8_repeats(d, d2, q, path_entry_reader());
                if let Ok((_, r)) = spec_read_counted8(d, q, path_entry_reader()) {
                    if r + 4 <= d.len() {
                        assert(d2[r] == d[r] && d2[r + 1] == d[r + 1] && d2[r + 2] == d[r + 2] && d2[r + 3] == d[r + 3]);
                        lemma_pairs_repeats(d, d2, r + 4, crate::cursor::be_u16(d[r + 2], d[r + 3]) as nat);
                    }
                }
            }
        }
    }
}

/// Shared attribute payloads read the same on a longer input.
pub proof fn lemma_shared_repeats(kind: AttributeKind, d: Seq<u8>, d2: Seq<u8>, p: int)
    requires
        spec_prefix_of(d, d2),
        0 <= p <= d.len(),
    ensures
        read_repeats(spec_read_shared(kind, d, p), spec_read_shared(kind, d2, p), p, d.len() as int),
{
    if p + 2 <= d.len() {
        assert(d2[p] == d[p] && d2[p + 1] == d[p + 1]);
    }
    lemma_annotation_reader_repeats(d, d2);
    lemma_type_annotation_reader_repeats(d, d2);
    lemma_counted_repeats(d, d2, p, annotation_reader());
    lemma_counted_repeats(d, d2, p, type_annotation_reader());
}

/// Attribute headers read the same on a longer input.
pub proof fn lemma_header_repeats(pool: Seq<SpecConstantEntry>, d: Seq<u8>, d2: Seq<u8>, p: int)
    requires
        spec_prefix_of(d, d2),
        0 <= p <= d.len(),
    ensures
        read_repeats(spec_read_attribute_header(pool, d, p), spec_read_attribute_header(pool, d2, p), p, d.len() as int),
{
    if p + 2 <= d.len() {
        assert(d2[p] == d[p] && d2[p + 1] == d[p + 1]);
    }
}


/// Field attributes read the same on a longer input.
pub proof fn lemma_field_attribute_reader_repeats(pool: Seq<SpecConstantEntry>, d: Seq<u8>, d2: Seq<u8>)
    requires
        spec_prefix_of(d, d2),
    ensures
        reader_repeats(field_attribute_reader(pool), d, d2),
{
    assert forall|p: int| 0 <= p <= d.len() implies read_repeats(#[trigger] field_attribute_reader(pool)(d, p), field_attribute_reader(pool)(d2, p), p, d.len() as int) by {
        lemma_header_repeats(pool, d, d2, p);
        if let Ok((kind, q)) = spec_read_attribute_header(pool, d, p) {
            if q + 2 <= d.len() {
                assert(d2[q] == d[q] && d2[q + 1] == d[q + 1]);
            }
            lemma_shared_repeats(kind, d, d2, q);
        }
    }
}

/// Fields read the same on a longer input.
pub proof fn lemma_field_reader_repeats(pool: Seq<SpecConstantEntry>, d: Seq<u8>, d2: Seq<u8>)
    requires
        spec_prefix_of(d, d2),
    ensures
        reader_repeats(field_reader(pool), d, d2),
{
    lemma_field_attribute_reader_repeats(pool, d, d2);
    assert forall|p: int| 0 <= p <= d.len() implies read_repeats(#[trigger] field_reader(pool)(d, p), field_reader(pool)(d2, p), p, d.len() as int) by {
        if p + 8 <= d.len() {
            assert(d2[p] == d[p] && d2[p + 1] == d[p + 1] && d2[p + 2] == d[p + 2] && d2[p + 3] == d[p + 3]);
            assert(d2[p + 4] == d[p + 4] && d2[p + 5] == d[p + 5] && d2[p + 6] == d[p + 6] && d2[p + 7] == d[p + 7]);
            lemma_seq_repeats(d, d2, p + 8, be_u16(d[p + 6], d[p + 7]) as nat, field_attribute_reader(pool));
        }
    }
}

/// The attributes of a `Code` attribute read the same on a longer input.
pub proof fn lemma_code_info_reader_repeats(pool: Seq<SpecConstantEntry>, d: Seq<u8>, d2: Seq<u8>)
    requires
        spec_prefix_of(d, d2),
    ensures
        reader_repeats(code_info_reader(pool), d, d2),
{
    lemma_fixed_readers_repeat(d, d2);
    lemma_frame_reader_repeats(d, d2);
    assert forall|p: int| 0 <= p <= d.len() implies read_repeats(#[trigger] code_info_reader(pool)(d, p), code_info_reader(pool)(d2, p), p, d.len() as int) by {
        lemma_header_repeats(pool, d, d2, p);
        if let Ok((_, q)) = spec_read_attribute_header(pool, d, p) {
            lemma_counted_repeats(d, d2, q, line_number_reader());
            lemma_counted_repeats(d, d2, q, local_variable_reader());
            lemma_counted_repeats(d, d2, q, local_variable_type_reader());
            lemma_counted_repeats(d, d2, q, frame_reader());
        }
    }
}

/// `Code` attribute payloads read the same on a longer input.
pub proof fn lemma_code_repeats(pool: Seq<SpecConstantEntry>, d: Seq<u8>, d2: Seq<u8>, p: int)
    requires
        spec_prefix_of(d, d2),
        0 <= p <= d.len(),
    ensures
        read_repeats(spec_read_code(pool, d, p), spec_read_code(pool, d2, p), p, d.len() as int),
{
    if p + 8 <= d.len() {
        assert(d2[p] == d[p] && d2[p + 1] == d[p + 1] && d2[p + 2] == d[p + 2] && d2[p + 3] == d[p + 3]);
        assert(d2[p + 4] == d[p + 4] && d2[p + 5] == d[p + 5] && d2[p + 6] == d[p + 6] && d2[p + 7] == d[p + 7]);
        let n = be_u32(d[p + 4], d[p + 5], d[p + 6], d[p + 7]) as int;
        if let Some((_, q)) = spec_bytes(d, p + 8, n) {
            assert(d2.subrange(p + 8, q) =~= d.subrange(p + 8, q));
            lemma_fixed_readers_repeat(d, d2);
            lemma_counted_repeats(d, d2, q, exception_reader());
            if let Ok((_, r)) = spec_read_counted(d, q, exception_reader()) {
                lemma_code_info_reader_repeats(pool, d, d2);
                lemma_counted_repeats(d, d2, r, code_info_reader(pool));
            }
        }
    }
}

/// Method attribute payloads read the same on a longer input.
pub proof fn lemma_method_payload_repeats(pool: Seq<SpecConstantEntry>, kind: AttributeKind, d: Seq<u8>, d2: Seq<u8>, p: int)
    requires
        spec_prefix_of(d, d2),
        0 <= p <= d.len(),
    ensures
        read_repeats(spec_read_method_payload(pool, kind, d, p), spec_read_method_payload(pool, kind, d2, p), p, d.len() as int),
{
    lemma_code_repeats(pool, d, d2, p);
    lemma_fixed_readers_repeat(d, d2);
    lemma_counted_repeats(d, d2, p, u16_reader());
    lemma_annotation_reader_repeats(d, d2);
    assert forall|q: int| 0 <= q <= d.len() implies read_repeats(#[trigger] parameter_annotations_reader()(d, q), parameter_annotations_reader()(d2, q), q, d.len() as int) by {
        lemma_counted_repeats(d, d2, q, annotation_reader());
    }
    lemma_counted8_repeats(d, d2, p, parameter_annotations_reader());
    lemma_ev_repeats(d, d2, p);
    lemma_counted8_repeats(d, d2, p, method_parameter_reader());
    lemma_shared_repeats(kind, d, d2, p);
}

/// Method attributes read the same on a longer input.
pub proof fn lemma_method_attribute_reader_repeats(pool: Seq<SpecConstantEntry>, d: Seq<u8>, d2: Seq<u8>)
    requires
        spec_prefix_of(d, d2),
    ensures
        reader_repeats(method_attribute_reader(pool), d, d2),
{
    assert forall|p: int| 0 <= p <= d.len() implies read_repeats(#[trigger] method_attribute_reader(pool)(d, p), method_attribute_reader(pool)(d2, p), p, d.len() as int) by {
        lemma_header_repeats(pool, d, d2, p);
        if let Ok((kind, q)) = spec_read_attribute_header(pool, d, p) {
            lemma_method_payload_repeats(pool, kind, d, d2, q);
        }
    }
}

/// Methods read the same on a longer input.
pub proof fn lemma_method_reader_repeats(pool: Seq<SpecConstantEntry>, d: Seq<u8>, d2: Seq<u8>)
    requires
        spec_prefix_of(d, d2),
    ensures
        reader_repeats(method_reader(pool), d, d2),
{
    lemma_method_attribute_reader_repeats(pool, d, d2);
    assert forall|p: int| 0 <= p <= d.len() implies read_repeats(#[trigger] method_reader(pool)(d, p), method_reader(pool)(d2, p), p, d.len() as int) by {
        if p + 8 <= d.len() {
            assert(d2[p] == d[p] && d2[p + 1] == d[p + 1] && d2[p + 2] == d[p + 2] && d2[p + 3] == d[p + 3]);
            assert(d2[p + 4] == d[p + 4] && d2[p + 5] == d[p + 5] && d2[p + 6] == d[p + 6] && d2[p + 7] == d[p + 7]);
            lemma_seq_repeats(d, d2, p + 8, be_u16(d[p + 6], d[p + 7]) as nat, method_attribute_reader(pool));
        }
    }
}

/// Class attributes read the same on a longer input.
pub proof fn lemma_class_attribute_reader_repeats(pool: Seq<SpecConstantEntry>, d: Seq<u8>, d2: Seq<u8>)
    requires
        spec_prefix_of(d, d2),
    ensures
        reader_repeats(class_attribute_reader(pool), d, d2),
{
    lemma_fixed_readers_repeat(d, d2);
    lemma_small_readers_repeat(d, d2);
    assert forall|p: int| 0 <= p <= d.len() implies read_repeats(#[trigger] class_attribute_reader(pool)(d, p), class_attribute_reader(pool)(d2, p), p, d.len() as int) by {
        lemma_header_repeats(pool, d, d2, p);
        if let Ok((kind, q)) = spec_read_attribute_header(pool, d, p) {
            if q + 2 <= d.len() {
                assert(d2[q] == d[q] && d2[q + 1] == d[q + 1]);
            }
            if q + 4 <= d.len() {
                assert(d2[q + 2] == d[q + 2] && d2[q + 3] == d[q + 3]);
            }
            lemma_counted_repeats(d, d2, q, bootstrap_reader());
            lemma_counted_repeats(d, d2, q, inner_class_reader());
            lemma_counted_repeats(d, d2, q, u16_reader());
            lemma_shared_repeats(kind, d, d2, q);
        }
    }
}

} // verus!
