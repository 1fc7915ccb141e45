//! Wire primitives: little-endian integers, length-prefixed byte strings and
//! count-prefixed lists, each with its encoding, its parser (as spec
//! functions over byte sequences) and the executable reader and writer.
use vstd::bytes::*;
use vstd::prelude::*;
use vstd::slice::*;

verus! {

// ── Encodings ────────────────────────────────────
pub open spec fn enc_u64(v: u64) -> Seq<u8> {
    spec_u64_to_le_bytes(v)
}

pub open spec fn enc_u32(v: u32) -> Seq<u8> {
    spec_u32_to_le_bytes(v)
}

pub open spec fn enc_u8(v: u8) -> Seq<u8> {
    seq![v]
}

pub open spec fn enc_bool(b: bool) -> Seq<u8> {
    seq![if b { 1u8 } else { 0u8 }]
}

/// A length or count prefix: the low 32 bits of `n`.
pub open spec fn enc_len(n: nat) -> Seq<u8> {
    enc_u32(n as u32)
}

pub open spec fn enc_bytes(b: Seq<u8>) -> Seq<u8> {
    enc_len(b.len()) + b
}

/// The items of a list, each by `e`, in order, with no prefix.
pub open spec fn enc_items<T>(xs: Seq<T>, e: spec_fn(T) -> Seq<u8>) -> Seq<u8>
    decreases xs.len(),
{
    if xs.len() == 0 {
        Seq::empty()
    } else {
        enc_items(xs.drop_last(), e) + e(xs.last())
    }
}

pub open spec fn enc_list<T>(xs: Seq<T>, e: spec_fn(T) -> Seq<u8>) -> Seq<u8> {
    enc_len(xs.len()) + enc_items(xs, e)
}

pub open spec fn bytes_enc() -> spec_fn(Seq<u8>) -> Seq<u8> {
    |b: Seq<u8>| enc_bytes(b)
}

pub open spec fn u64_enc() -> spec_fn(u64) -> Seq<u8> {
    |v: u64| enc_u64(v)
}

pub open spec fn u8_enc() -> spec_fn(u8) -> Seq<u8> {
    |v: u8| enc_u8(v)
}

// ── Parsers ──────────────────────────────────────
// A parser reads `d` from offset `off` and yields the value and the offset
// after it, or `None` where `d` ends too early.
pub open spec fn parse_u64(d: Seq<u8>, off: nat) -> Option<(u64, nat)> {
    if off + 8 <= d.len() {
        Some((spec_u64_from_le_bytes(d.subrange(off as int, (off + 8) as int)), off + 8))
    } else {
        None
    }
}

pub open spec fn parse_u32(d: Seq<u8>, off: nat) -> Option<(u32, nat)> {
    if off + 4 <= d.len() {
        Some((spec_u32_from_le_bytes(d.subrange(off as int, (off + 4) as int)), off + 4))
    } else {
        None
    }
}

pub open spec fn parse_u8(d: Seq<u8>, off: nat) -> Option<(u8, nat)> {
    if off < d.len() {
        Some((d[off as int], off + 1))
    } else {
        None
    }
}

pub open spec fn parse_bool(d: Seq<u8>, off: nat) -> Option<(bool, nat)> {
    match parse_u8(d, off) {
        Some((b, o)) => Some((b != 0, o)),
        None => None,
    }
}

pub open spec fn parse_bytes(d: Seq<u8>, off: nat) -> Option<(Seq<u8>, nat)> {
    match parse_u32(d, off) {
        Some((n, o)) => if o + n <= d.len() {
            Some((d.subrange(o as int, (o + n) as int), (o + n) as nat))
        } else {
            None
        },
        None => None,
    }
}

/// `n` items, each by `p`, one after the other.
pub open spec fn parse_items<T>(
    d: Seq<u8>,
    off: nat,
    n: nat,
    p: spec_fn(Seq<u8>, nat) -> Option<(T, nat)>,
) -> Option<(Seq<T>, nat)>
    decreases n,
{
    if n == 0 {
        Some((Seq::empty(), off))
    } else {
        match parse_items(d, off, (n - 1) as nat, p) {
            Some((xs, o)) => match p(d, o) {
                Some((x, o2)) => Some((xs.push(x), o2)),
                None => None,
            },
            None => None,
        }
    }
}

/// A count, then that many items.
pub open spec fn parse_list<T>(
    d: Seq<u8>,
    off: nat,
    p: spec_fn(Seq<u8>, nat) -> Option<(T, nat)>,
) -> Option<(Seq<T>, nat)> {
    match parse_u32(d, off) {
        Some((n, o)) => parse_items(d, o, n as nat, p),
        None => None,
    }
}

pub open spec fn bytes_item() -> spec_fn(Seq<u8>, nat) -> Option<(Seq<u8>, nat)> {
    |d: Seq<u8>, o: nat| parse_bytes(d, o)
}

pub open spec fn u64_item() -> spec_fn(Seq<u8>, nat) -> Option<(u64, nat)> {
    |d: Seq<u8>, o: nat| parse_u64(d, o)
}

pub open spec fn u8_item() -> spec_fn(Seq<u8>, nat) -> Option<(u8, nat)> {
    |d: Seq<u8>, o: nat| parse_u8(d, o)
}

/// An executable reader's result `r` is the parser's result `s`, read through views.
pub open spec fn decoded<T: View>(r: Option<(T, usize)>, s: Option<(T::V, nat)>) -> bool {
    match r {
        Some((x, o)) => s == Some((x@, o as nat)),
        None => s is None,
    }
}

// ── Lemmas ───────────────────────────────────────
pub proof fn lemma_items_stop<T>(
    d: Seq<u8>,
    off: nat,
    k: nat,
    n: nat,
    p: spec_fn(Seq<u8>, nat) -> Option<(T, nat)>,
)
    requires
        k < n,
        parse_items(d, off, k, p) matches Some((_xs, o)) && p(d, o) is None,
    ensures
        parse_items(d, off, n, p) is None,
    decreases n,
{
    if n - 1 > k {
        lemma_items_stop(d, off, k, (n - 1) as nat, p);
    }
}

/// `d` holds `x` at offset `off`.
pub open spec fn holds(d: Seq<u8>, off: nat, x: Seq<u8>) -> bool {
    off + x.len() <= d.len() && d.subrange(off as int, (off + x.len()) as int) == x
}

/// Where `d` holds `a + b` at `off`, it holds `a` there and `b` right after.
pub proof fn lemma_split(d: Seq<u8>, off: nat, a: Seq<u8>, b: Seq<u8>)
    requires
        holds(d, off, a + b),
    ensures
        holds(d, off, a),
        holds(d, off + a.len(), b),
{
    let ab = a + b;
    assert(d.subrange(off as int, (off + a.len()) as int) =~= ab.subrange(0, a.len() as int));
    assert(d.subrange((off + a.len()) as int, (off + a.len() + b.len()) as int) =~= ab.subrange(
        a.len() as int,
        (a.len() + b.len()) as int,
    ));
    assert(ab.subrange(0, a.len() as int) =~= a);
    assert(ab.subrange(a.len() as int, (a.len() + b.len()) as int) =~= b);
}

pub proof fn lemma_u64_round_trip(d: Seq<u8>, off: nat, v: u64)
    requires
        holds(d, off, enc_u64(v)),
    ensures
        parse_u64(d, off) == Some((v, off + 8)),
{
    lemma_auto_spec_u64_to_from_le_bytes();
}

pub proof fn lemma_u32_round_trip(d: Seq<u8>, off: nat, v: u32)
    requires
        holds(d, off, enc_u32(v)),
    ensures
        parse_u32(d, off) == Some((v, off + 4)),
{
    lemma_auto_spec_u32_to_from_le_bytes();
}

pub proof fn lemma_enc_lens()
    ensures
        forall|v: u64| #[trigger] enc_u64(v).len() == 8,
        forall|v: u32| #[trigger] enc_u32(v).len() == 4,
{
    lemma_auto_spec_u64_to_from_le_bytes();
    lemma_auto_spec_u32_to_from_le_bytes();
}

pub proof fn lemma_u8_round_trip(d: Seq<u8>, off: nat, v: u8)
    requires
        holds(d, off, enc_u8(v)),
    ensures
        parse_u8(d, off) == Some((v, off + 1)),
{
    assert(d.subrange(off as int, (off + 1) as int)[0] == d[off as int]);
}

pub proof fn lemma_bool_round_trip(d: Seq<u8>, off: nat, v: bool)
    requires
        holds(d, off, enc_bool(v)),
    ensures
        parse_bool(d, off) == Some((v, off + 1)),
{
    assert(d.subrange(off as int, (off + 1) as int)[0] == d[off as int]);
}

pub proof fn lemma_bytes_round_trip(d: Seq<u8>, off: nat, b: Seq<u8>)
    requires
        b.len() < 0x1_0000_0000,
        holds(d, off, enc_bytes(b)),
    ensures
        enc_bytes(b).len() == 4 + b.len(),
        parse_bytes(d, off) == Some((b, off + enc_bytes(b).len())),
{
    lemma_enc_lens();
    lemma_split(d, off, enc_len(b.len()), b);
    lemma_u32_round_trip(d, off, b.len() as u32);
}

/// Encoding a list item by item and parsing it back gives the list.
pub proof fn lemma_items_round_trip<T>(
    d: Seq<u8>,
    off: nat,
    xs: Seq<T>,
    e: spec_fn(T) -> Seq<u8>,
    p: spec_fn(Seq<u8>, nat) -> Option<(T, nat)>,
)
    requires
        holds(d, off, enc_items(xs, e)),
        forall|i: int, o: nat|
            0 <= i < xs.len() && #[trigger] holds(d, o, e(xs[i])) ==> p(d, o) == Some(
                (xs[i], o + e(xs[i]).len()),
            ),
    ensures
        parse_items(d, off, xs.len(), p) == Some((xs, off + enc_items(xs, e).len())),
    decreases xs.len(),
{
    if xs.len() > 0 {
        let init = xs.drop_last();
        lemma_split(d, off, enc_items(init, e), e(xs.last()));
        assert forall|i: int, o: nat|
            0 <= i < init.len() && #[trigger] holds(d, o, e(init[i])) implies p(d, o) == Some(
                (init[i], o + e(init[i]).len()),
            ) by {
            assert(init[i] == xs[i]);
        }
        lemma_items_round_trip(d, off, init, e, p);
        let o = off + enc_items(init, e).len();
        assert(xs[xs.len() - 1] == xs.last());
        assert(p(d, o) == Some((xs.last(), o + e(xs.last()).len())));
        assert(init.push(xs.last()) =~= xs);
    } else {
        assert(xs =~= Seq::<T>::empty());
    }
}

/// A byte string whose length fits its 32-bit prefix.
pub open spec fn fits(b: Seq<u8>) -> bool {
    b.len() < 0x1_0000_0000
}

/// A list of byte strings whose count and lengths all fit their prefixes.
pub open spec fn all_fit(xs: Seq<Seq<u8>>) -> bool {
    xs.len() < 0x1_0000_0000 && forall|i: int| 0 <= i < xs.len() ==> fits(#[trigger] xs[i])
}

/// Encoding a list with its count and parsing it back gives the list.
pub proof fn lemma_list_round_trip<T>(
    d: Seq<u8>,
    off: nat,
    xs: Seq<T>,
    e: spec_fn(T) -> Seq<u8>,
    p: spec_fn(Seq<u8>, nat) -> Option<(T, nat)>,
)
    requires
        holds(d, off, enc_list(xs, e)),
        xs.len() < 0x1_0000_0000,
        forall|i: int, o: nat|
            0 <= i < xs.len() && #[trigger] holds(d, o, e(xs[i])) ==> p(d, o) == Some(
                (xs[i], o + e(xs[i]).len()),
            ),
    ensures
        parse_list(d, off, p) == Some((xs, off + enc_list(xs, e).len())),
{
    lemma_enc_lens();
    lemma_split(d, off, enc_len(xs.len()), enc_items(xs, e));
    lemma_u32_round_trip(d, off, xs.len() as u32);
    lemma_items_round_trip(d, off + 4, xs, e, p);
}

pub proof fn lemma_byte_list_round_trip(d: Seq<u8>, off: nat, xs: Seq<Seq<u8>>)
    requires
        holds(d, off, enc_list(xs, bytes_enc())),
        all_fit(xs),
    ensures
        parse_list(d, off, bytes_item()) == Some((xs, off + enc_list(xs, bytes_enc()).len())),
{
    assert forall|i: int, o: nat|
        0 <= i < xs.len() && #[trigger] holds(d, o, bytes_enc()(xs[i])) implies bytes_item()(
        d,
        o,
    ) == Some((xs[i], o + bytes_enc()(xs[i]).len())) by {
        lemma_bytes_round_trip(d, o, xs[i]);
    }
    lemma_list_round_trip(d, off, xs, bytes_enc(), bytes_item());
}

pub proof fn lemma_u64_list_round_trip(d: Seq<u8>, off: nat, xs: Seq<u64>)
    requires
        holds(d, off, enc_list(xs, u64_enc())),
        xs.len() < 0x1_0000_0000,
    ensures
        parse_list(d, off, u64_item()) == Some((xs, off + enc_list(xs, u64_enc()).len())),
{
    lemma_enc_lens();
    assert forall|i: int, o: nat|
        0 <= i < xs.len() && #[trigger] holds(d, o, u64_enc()(xs[i])) implies u64_item()(d, o)
        == Some((xs[i], o + u64_enc()(xs[i]).len())) by {
        lemma_u64_round_trip(d, o, xs[i]);
    }
    lemma_list_round_trip(d, off, xs, u64_enc(), u64_item());
}

pub proof fn lemma_u8_list_round_trip(d: Seq<u8>, off: nat, xs: Seq<u8>)
    requires
        holds(d, off, enc_list(xs, u8_enc())),
        xs.len() < 0x1_0000_0000,
    ensures
        parse_list(d, off, u8_item()) == Some((xs, off + enc_list(xs, u8_enc()).len())),
{
    assert forall|i: int, o: nat|
        0 <= i < xs.len() && #[trigger] holds(d, o, u8_enc()(xs[i])) implies u8_item()(d, o)
        == Some((xs[i], o + u8_enc()(xs[i]).len())) by {
        lemma_u8_round_trip(d, o, xs[i]);
    }
    lemma_list_round_trip(d, off, xs, u8_enc(), u8_item());
}

/// Items that all encode to `k` bytes take `k` bytes each.
pub proof fn lemma_enc_items_len<T>(xs: Seq<T>, e: spec_fn(T) -> Seq<u8>, k: nat)
    requires
        forall|i: int| 0 <= i < xs.len() ==> #[trigger] e(xs[i]).len() == k,
    ensures
        enc_items(xs, e).len() == k * xs.len(),
    decreases xs.len(),
{
    if xs.len() > 0 {
        let init = xs.drop_last();
        assert forall|i: int| 0 <= i < init.len() implies #[trigger] e(init[i]).len() == k by {
            assert(init[i] == xs[i]);
        }
        lemma_enc_items_len(init, e, k);
        assert(xs.last() == xs[xs.len() - 1]);
        assert(k * xs.len() == k * init.len() + k) by (nonlinear_arith)
            requires
                init.len() + 1 == xs.len(),
        ;
    }
}

// ── Readers ──────────────────────────────────────
pub fn read_u64(data: &[u8], off: usize) -> (r: Option<(u64, usize)>)
    ensures
        decoded(r, parse_u64(data@, off as nat)),
        r matches Some((_v, o)) ==> o <= data@.len(),
{
    if off > data.len() || data.len() - off < 8 {
        return None;
    }
    let v = u64_from_le_bytes(slice_subrange(data, off, off + 8));
    Some((v, off + 8))
}

pub fn read_u32(data: &[u8], off: usize) -> (r: Option<(u32, usize)>)
    ensures
        decoded(r, parse_u32(data@, off as nat)),
        r matches Some((_v, o)) ==> o <= data@.len(),
{
    if off > data.len() || data.len() - off < 4 {
        return None;
    }
    let v = u32_from_le_bytes(slice_subrange(data, off, off + 4));
    Some((v, off + 4))
}

pub fn read_u8(data: &[u8], off: usize) -> (r: Option<(u8, usize)>)
    ensures
        decoded(r, parse_u8(data@, off as nat)),
        r matches Some((_v, o)) ==> o <= data@.len(),
{
    if off >= data.len() {
        return None;
    }
    Some((data[off], off + 1))
}

pub fn read_bool(data: &[u8], off: usize) -> (r: Option<(bool, usize)>)
    ensures
        decoded(r, parse_bool(data@, off as nat)),
        r matches Some((_v, o)) ==> o <= data@.len(),
{
    let (b, off) = read_u8(data, off)?;
    Some((b != 0, off))
}

pub fn read_bytes(data: &[u8], off: usize) -> (r: Option<(Vec<u8>, usize)>)
    ensures
        decoded(r, parse_bytes(data@, off as nat)),
        r matches Some((_v, o)) ==> o <= data@.len(),
{
    let (len, off) = read_u32(data, off)?;
    let n = len as usize;
    if data.len() - off < n {
        return None;
    }
    Some((slice_to_vec(slice_subrange(data, off, off + n)), off + n))
}

pub fn read_byte_list(data: &[u8], off: usize) -> (r: Option<(Vec<Vec<u8>>, usize)>)
    ensures
        match r {
            Some((v, o)) => parse_list(data@, off as nat, bytes_item()) == Some(
                (crate::types::byte_lists(v@), o as nat),
            ) && o <= data@.len(),
            None => parse_list(data@, off as nat, bytes_item()) is None,
        },
{
    let (count, mut o) = read_u32(data, off)?;
    let ghost start = o as nat;
    let mut arr: Vec<Vec<u8>> = Vec::new();
    let mut i: u32 = 0;
    while i < count
        invariant
            o <= data@.len(),
            i <= count,
            parse_u32(data@, off as nat) == Some((count, start)),
            parse_items(data@, start, i as nat, bytes_item()) == Some(
                (crate::types::byte_lists(arr@), o as nat),
            ),
        decreases count - i,
    {
        match read_bytes(data, o) {
            Some((x, o2)) => {
                assert(crate::types::byte_lists(arr@.push(x)) =~= crate::types::byte_lists(
                    arr@,
                ).push(x@));
                arr.push(x);
                o = o2;
            },
            None => {
                proof {
                    lemma_items_stop(data@, start, i as nat, count as nat, bytes_item());
                }
                return None;
            },
        }
        i = i + 1;
    }
    Some((arr, o))
}

pub fn read_u64_list(data: &[u8], off: usize) -> (r: Option<(Vec<u64>, usize)>)
    ensures
        decoded(r, parse_list(data@, off as nat, u64_item())),
        r matches Some((_v, o)) ==> o <= data@.len(),
{
    let (count, mut o) = read_u32(data, off)?;
    let ghost start = o as nat;
    let mut arr: Vec<u64> = Vec::new();
    let mut i: u32 = 0;
    while i < count
        invariant
            o <= data@.len(),
            i <= count,
            parse_u32(data@, off as nat) == Some((count, start)),
            parse_items(data@, start, i as nat, u64_item()) == Some((arr@, o as nat)),
        decreases count - i,
    {
        match read_u64(data, o) {
            Some((x, o2)) => {
                arr.push(x);
                o = o2;
            },
            None => {
                proof {
                    lemma_items_stop(data@, start, i as nat, count as nat, u64_item());
                }
                return None;
            },
        }
        i = i + 1;
    }
    Some((arr, o))
}

pub fn read_u8_list(data: &[u8], off: usize) -> (r: Option<(Vec<u8>, usize)>)
    ensures
        decoded(r, parse_list(data@, off as nat, u8_item())),
        r matches Some((_v, o)) ==> o <= data@.len(),
{
    let (count, mut o) = read_u32(data, off)?;
    let ghost start = o as nat;
    let mut arr: Vec<u8> = Vec::new();
    let mut i: u32 = 0;
    while i < count
        invariant
            o <= data@.len(),
            i <= count,
            parse_u32(data@, off as nat) == Some((count, start)),
            parse_items(data@, start, i as nat, u8_item()) == Some((arr@, o as nat)),
        decreases count - i,
    {
        match read_u8(data, o) {
            Some((x, o2)) => {
                arr.push(x);
                o = o2;
            },
            None => {
                proof {
                    lemma_items_stop(data@, start, i as nat, count as nat, u8_item());
                }
                return None;
            },
        }
        i = i + 1;
    }
    Some((arr, o))
}

// ── Writers ──────────────────────────────────────
pub fn write_u64(buf: &mut Vec<u8>, v: u64)
    ensures
        final(buf)@ == old(buf)@ + enc_u64(v),
{
    let mut b = u64_to_le_bytes(v);
    buf.append(&mut b);
}

pub fn write_u32(buf: &mut Vec<u8>, v: u32)
    ensures
        final(buf)@ == old(buf)@ + enc_u32(v),
{
    let mut b = u32_to_le_bytes(v);
    buf.append(&mut b);
}

pub fn write_u8(buf: &mut Vec<u8>, v: u8)
    ensures
        final(buf)@ == old(buf)@ + enc_u8(v),
{
    buf.push(v);
    assert(final(buf)@ =~= old(buf)@ + enc_u8(v));
}

pub fn write_bool(buf: &mut Vec<u8>, v: bool)
    ensures
        final(buf)@ == old(buf)@ + enc_bool(v),
{
    buf.push(if v { 1 } else { 0 });
    assert(final(buf)@ =~= old(buf)@ + enc_bool(v));
}

pub fn write_bytes(buf: &mut Vec<u8>, v: &[u8])
    ensures
        final(buf)@ == old(buf)@ + enc_bytes(v@),
{
    write_u32(buf, v.len() as u32);
    let mut c = slice_to_vec(v);
    buf.append(&mut c);
    assert(final(buf)@ =~= old(buf)@ + enc_bytes(v@));
}

pub proof fn lemma_enc_items_step<T>(xs: Seq<T>, i: int, e: spec_fn(T) -> Seq<u8>)
    requires
        0 <= i < xs.len(),
    ensures
        enc_items(xs.take(i + 1), e) == enc_items(xs.take(i), e) + e(xs[i]),
{
    assert(xs.take(i + 1).drop_last() =~= xs.take(i));
}

pub fn write_byte_list(buf: &mut Vec<u8>, v: &Vec<Vec<u8>>)
    ensures
        final(buf)@ == old(buf)@ + enc_list(crate::types::byte_lists(v@), bytes_enc()),
{
    let ghost xs = crate::types::byte_lists(v@);
    write_u32(buf, v.len() as u32);
    let ghost pre = buf@;
    let mut i: usize = 0;
    while i < v.len()
        invariant
            i <= v.len(),
            xs == crate::types::byte_lists(v@),
            buf@ == pre + enc_items(xs.take(i as int), bytes_enc()),
        decreases v.len() - i,
    {
        proof {
            lemma_enc_items_step(xs, i as int, bytes_enc());
        }
        let ghost mid = buf@;
        write_bytes(buf, v[i].as_slice());
        assert(buf@ =~= pre + enc_items(xs.take(i + 1), bytes_enc()));
        i = i + 1;
    }
    assert(xs.take(v.len() as int) =~= xs);
    assert(buf@ =~= old(buf)@ + enc_list(xs, bytes_enc()));
}

pub fn write_u64_list(buf: &mut Vec<u8>, v: &Vec<u64>)
    ensures
        final(buf)@ == old(buf)@ + enc_list(v@, u64_enc()),
{
    write_u32(buf, v.len() as u32);
    let ghost pre = buf@;
    let mut i: usize = 0;
    while i < v.len()
        invariant
            i <= v.len(),
            buf@ == pre + enc_items(v@.take(i as int), u64_enc()),
        decreases v.len() - i,
    {
        proof {
            lemma_enc_items_step(v@, i as int, u64_enc());
        }
        write_u64(buf, v[i]);
        assert(buf@ =~= pre + enc_items(v@.take(i + 1), u64_enc()));
        i = i + 1;
    }
    assert(v@.take(v.len() as int) =~= v@);
    assert(buf@ =~= old(buf)@ + enc_list(v@, u64_enc()));
}

pub fn write_u8_list(buf: &mut Vec<u8>, v: &Vec<u8>)
    ensures
        final(buf)@ == old(buf)@ + enc_list(v@, u8_enc()),
{
    write_u32(buf, v.len() as u32);
    let ghost pre = buf@;
    let mut i: usize = 0;
    while i < v.len()
        invariant
            i <= v.len(),
            buf@ == pre + enc_items(v@.take(i as int), u8_enc()),
        decreases v.len() - i,
    {
        proof {
            lemma_enc_items_step(v@, i as int, u8_enc());
        }
        write_u8(buf, v[i]);
        assert(buf@ =~= pre + enc_items(v@.take(i + 1), u8_enc()));
        i = i + 1;
    }
    assert(v@.take(v.len() as int) =~= v@);
    assert(buf@ =~= old(buf)@ + enc_list(v@, u8_enc()));
}

} // verus!
