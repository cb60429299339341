//! Specification-level combinators shared by the readers.

use crate::error::{SpecRead, SpecReadError};
use vstd::prelude::*;

verus! {

/// The views of the items of a sequence.
pub open spec fn views<T: View>(s: Seq<T>) -> Seq<T::V> {
    s.map_values(|x: T| x@)
}

/// Reads `n` items one after the other with `f`, starting at `p`.
pub open spec fn spec_read_seq<T>(
    d: Seq<u8>,
    p: int,
    n: nat,
    f: spec_fn(Seq<u8>, int) -> SpecRead<T>,
) -> SpecRead<Seq<T>>
    decreases n,
{
    if n == 0 {
        Ok((seq![], p))
    } else {
        match spec_read_seq(d, p, (n - 1) as nat, f) {
            Err(e) => Err(e),
            Ok((xs, q)) => match f(d, q) {
                Err(e) => Err(e),
                Ok((x, r)) => Ok((xs.push(x), r)),
            },
        }
    }
}

/// Once reading the first `i` items fails, reading more fails the same way.
pub proof fn lemma_read_seq_err<T>(
    d: Seq<u8>,
    p: int,
    i: nat,
    n: nat,
    f: spec_fn(Seq<u8>, int) -> SpecRead<T>,
    e: SpecReadError,
)
    requires
        i <= n,
        spec_read_seq(d, p, i, f) == Err::<(Seq<T>, int), SpecReadError>(e),
    ensures
        spec_read_seq(d, p, n, f) == Err::<(Seq<T>, int), SpecReadError>(e),
    decreases n - i,
{
    if i < n {
        lemma_read_seq_err(d, p, i, (n - 1) as nat, f, e);
    }
}

/// After reading `i` items, reading item `i + 1` fails with `e`.
pub proof fn lemma_read_seq_step_err<T>(
    d: Seq<u8>,
    p: int,
    i: nat,
    n: nat,
    f: spec_fn(Seq<u8>, int) -> SpecRead<T>,
    xs: Seq<T>,
    q: int,
    e: SpecReadError,
)
    requires
        i < n,
        spec_read_seq(d, p, i, f) == Ok::<(Seq<T>, int), SpecReadError>((xs, q)),
        f(d, q) == Err::<(T, int), SpecReadError>(e),
    ensures
        spec_read_seq(d, p, n, f) == Err::<(Seq<T>, int), SpecReadError>(e),
{
    assert(spec_read_seq(d, p, i + 1, f) == Err::<(Seq<T>, int), SpecReadError>(e));
    lemma_read_seq_err(d, p, i + 1, n, f, e);
}

/// `xs` followed by what `r` read.
pub open spec fn prepend<T>(xs: Seq<T>, r: SpecRead<Seq<T>>) -> SpecRead<Seq<T>> {
    match r {
        Ok((ys, q)) => Ok((xs + ys, q)),
        Err(e) => Err(e),
    }
}

/// `r` with its value mapped by `f`.
pub open spec fn map_read<A, B>(r: SpecRead<A>, f: spec_fn(A) -> B) -> SpecRead<B> {
    match r {
        Ok((a, q)) => Ok((f(a), q)),
        Err(e) => Err(e),
    }
}

} // verus!

verus! {

use crate::cursor::{ByteCursor, lift, spec_u16, spec_u8};
use crate::error::ReadError;
use crate::constant_pool::entry::{ru16, ru8};

/// `r` is what a reader of a list whose specification is `s` returned, and the
/// cursor went from `old` to `new`.
pub open spec fn vec_matches<'a, T: View>(
    old: ByteCursor<'a>,
    new: ByteCursor<'a>,
    r: Result<Vec<T>, ReadError>,
    s: SpecRead<Seq<T::V>>,
) -> bool {
    &&& new.data@ == old.data@
    &&& new.inv()
    &&& match s {
        Ok((v, q)) => r matches Ok(x) && views(x@) == v && new.pos == q,
        Err(e) => r matches Err(x) && x@ == e,
    }
}

/// Reader of one big-endian `u16`.
pub open spec fn u16_reader() -> spec_fn(Seq<u8>, int) -> SpecRead<u16> {
    |d: Seq<u8>, p: int| lift(spec_u16(d, p))
}

/// Reads a `u16` count, then that many items with `f`.
pub open spec fn spec_read_counted<T>(
    d: Seq<u8>,
    p: int,
    f: spec_fn(Seq<u8>, int) -> SpecRead<T>,
) -> SpecRead<Seq<T>> {
    match spec_u16(d, p) {
        None => Err(crate::error::spec_eof()),
        Some((n, q)) => spec_read_seq(d, q, n as nat, f),
    }
}

/// Reads a `u8` count, then that many items with `f`.
pub open spec fn spec_read_counted8<T>(
    d: Seq<u8>,
    p: int,
    f: spec_fn(Seq<u8>, int) -> SpecRead<T>,
) -> SpecRead<Seq<T>> {
    match spec_u8(d, p) {
        None => Err(crate::error::spec_eof()),
        Some((n, q)) => spec_read_seq(d, q, n as nat, f),
    }
}

} // verus!

verus! {

/// Reads `n` items one after the other.
pub fn read_n_u16(cursor: &mut ByteCursor, n: usize) -> (r: Result<Vec<u16>, ReadError>)
    requires
        old(cursor).inv(),
    ensures
        vec_matches(*old(cursor), *final(cursor), r, spec_read_seq(old(cursor).data@, old(cursor).pos as int, n as nat, u16_reader())),
{
    let ghost d = cursor.data@;
    let ghost p0 = cursor.pos as int;
    let mut items: Vec<u16> = Vec::new();
    let mut i: usize = 0;
    proof {
        assert(views(items@) =~= Seq::<u16>::empty());
    }
    while i < n
        invariant
            cursor.inv(),
            cursor.data@ == d,
            d == old(cursor).data@,
            p0 == old(cursor).pos,
            i <= n,
            spec_read_seq(d, p0, i as nat, u16_reader()) == Ok::<(Seq<u16>, int), SpecReadError>((views(items@), cursor.pos as int)),
        decreases n - i,
    {
        let ghost q = cursor.pos as int;
        let x = match ru16(cursor) {
            Ok(x) => x,
            Err(e) => {
                proof {
                    lemma_read_seq_step_err(d, p0, i as nat, n as nat, u16_reader(), views(items@), q, e@);
                }
                return Err(e);
            },
        };
        let ghost old_items = items@;
        items.push(x);
        proof {
            assert(views(items@) =~= views(old_items).push(x@));
        }
        i = i + 1;
    }
    Ok(items)
}
/// Reads a `u16` count and that many `u16` values.
pub fn read_u16_list(cursor: &mut ByteCursor) -> (r: Result<Vec<u16>, ReadError>)
    requires
        old(cursor).inv(),
    ensures
        vec_matches(*old(cursor), *final(cursor), r, spec_read_counted(old(cursor).data@, old(cursor).pos as int, u16_reader())),
{
    let n = ru16(cursor)?;
    read_n_u16(cursor, n as usize)
}

} // verus!
