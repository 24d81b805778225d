//! The memory primitives a freestanding kernel has to provide: copy, move,
//! fill and compare, over byte slices.

use vstd::prelude::*;

verus! {

/// `new` is `old` with its first `n` bytes replaced by the first `n` of `src`.
pub open spec fn copied(old: Seq<u8>, src: Seq<u8>, n: int) -> Seq<u8> {
    src.subrange(0, n) + old.subrange(n, old.len() as int)
}

/// Copies `count` bytes from `src` to `dst`, one byte after the other.
pub fn rep_movsb(src: &[u8], dst: &mut [u8], count: usize)
    requires
        count <= src@.len(),
        count <= old(dst)@.len(),
    ensures
        final(dst)@ == copied(old(dst)@, src@, count as int),
{
    let mut i: usize = 0;
    while i < count
        invariant
            count <= src@.len(),
            count <= dst@.len(),
            i <= count,
            dst@.len() == old(dst)@.len(),
            forall|k: int| 0 <= k < i ==> dst@[k] == src@[k],
            forall|k: int| i <= k < dst@.len() ==> dst@[k] == old(dst)@[k],
        decreases count - i,
    {
        dst[i] = src[i];
        i = i + 1;
    }
    assert(dst@ =~= copied(old(dst)@, src@, count as int));
}

/// Sets the first `count` bytes of `dst` to `val`.
pub fn rep_stosb(dst: &mut [u8], val: u8, count: usize)
    requires
        count <= old(dst)@.len(),
    ensures
        final(dst)@ == Seq::new(count as nat, |k: int| val) + old(dst)@.subrange(
            count as int,
            old(dst)@.len() as int,
        ),
{
    let mut i: usize = 0;
    while i < count
        invariant
            count <= dst@.len(),
            i <= count,
            dst@.len() == old(dst)@.len(),
            forall|k: int| 0 <= k < i ==> dst@[k] == val,
            forall|k: int| i <= k < dst@.len() ==> dst@[k] == old(dst)@[k],
        decreases count - i,
    {
        dst[i] = val;
        i = i + 1;
    }
    assert(dst@ =~= Seq::new(count as nat, |k: int| val) + old(dst)@.subrange(
        count as int,
        old(dst)@.len() as int,
    ));
}

/// The first `n` bytes of `a` and `b` agree.
pub open spec fn prefix_equal(a: Seq<u8>, b: Seq<u8>, n: int) -> bool {
    forall|k: int| 0 <= k < n ==> a[k] == b[k]
}

/// The first pair that differs among the first `n`, if any.
pub open spec fn first_difference(a: Seq<u8>, b: Seq<u8>, n: int, k: int) -> bool {
    &&& 0 <= k < n
    &&& a[k] != b[k]
    &&& prefix_equal(a, b, k)
}

/// [`prefix_equal`] with `n` given as a `usize`.
pub open spec fn prefix_equal_within(a: Seq<u8>, b: Seq<u8>, n: usize) -> bool {
    prefix_equal(a, b, n as int)
}

/// [`first_difference`] within the first `n` bytes, `n` given as a `usize`.
pub open spec fn first_difference_within(a: Seq<u8>, b: Seq<u8>, n: usize, k: int) -> bool {
    first_difference(a, b, n as int, k)
}

/// Compares the first `n` bytes of `a` and `b` pair by pair and stops after
/// the first pair that differs. Returns the number of pairs compared and the
/// number left.
pub fn repe_cmpsb(a: &[u8], b: &[u8], n: usize) -> (r: (usize, usize))
    requires
        n <= a@.len(),
        n <= b@.len(),
    ensures
        r.0 + r.1 == n,
        prefix_equal(a@, b@, r.0 - 1),
        r.0 < n ==> first_difference_within(a@, b@, n, r.0 - 1),
        r.0 == n && n > 0 ==> prefix_equal(a@, b@, n - 1),
        n > 0 ==> r.0 > 0,
        n == 0 ==> r.0 == 0,
{
    let mut i: usize = 0;
    while i < n
        invariant
            n <= a@.len(),
            n <= b@.len(),
            i <= n,
            prefix_equal_within(a@, b@, i),
        decreases n - i,
    {
        if a[i] != b[i] {
            return (i + 1, n - (i + 1));
        }
        i = i + 1;
    }
    (n, 0)
}

/// The number of pairs a repeated compare looks at, for at least one pair.
fn pairs_compared(a: &[u8], b: &[u8], n: usize) -> (count: usize)
    requires
        0 < n <= a@.len(),
        n <= b@.len(),
    ensures
        0 < count <= n,
        prefix_equal(a@, b@, count - 1),
        count < n ==> first_difference_within(a@, b@, n, count - 1),
        count == n ==> prefix_equal(a@, b@, n - 1),
{
    let (count, _) = repe_cmpsb(a, b, n);
    count
}

/// The index of the first pair that differs from index `i` on, among the
/// first `n`; `n` where none does.
pub open spec fn first_difference_from(a: Seq<u8>, b: Seq<u8>, i: int, n: int) -> int
    decreases n - i,
{
    if i >= n {
        n
    } else if a[i] != b[i] {
        i
    } else {
        first_difference_from(a, b, i + 1, n)
    }
}

/// `x - y` modulo 256.
pub open spec fn wrapping_difference(x: u8, y: u8) -> u8 {
    if x >= y {
        (x - y) as u8
    } else {
        (x - y + 256) as u8
    }
}

/// How the first `n` bytes of `a` and `b` compare: zero where they agree,
/// else the difference modulo 256 of the first pair that differs, read as a
/// signed byte.
pub open spec fn byte_order(a: Seq<u8>, b: Seq<u8>, len: usize) -> i32 {
    let k = first_difference_from(a, b, 0, len as int);
    if k >= len {
        0
    } else {
        (wrapping_difference(a[k], b[k]) as i8) as i32
    }
}

/// Where the bytes before `k` agree and `k` is `n` or a difference, the
/// search from any index up to `k` stops at `k`.
proof fn lemma_first_difference_from(a: Seq<u8>, b: Seq<u8>, i: int, n: int, k: int)
    requires
        0 <= i <= k <= n,
        prefix_equal(a, b, k),
        k == n || a[k] != b[k],
    ensures
        first_difference_from(a, b, i, n) == k,
    decreases k - i,
{
    if i < k {
        lemma_first_difference_from(a, b, i + 1, n, k);
    }
}

/// Copies the first `n` bytes of `src` into `dst`.
pub fn memcpy(dst: &mut [u8], src: &[u8], n: usize)
    requires
        n <= src@.len(),
        n <= old(dst)@.len(),
    ensures
        final(dst)@ == copied(old(dst)@, src@, n as int),
{
    rep_movsb(src, dst, n);
}

/// Sets the first `n` bytes of `s` to the low byte of `c`.
pub fn memset(s: &mut [u8], c: i32, n: usize)
    requires
        n <= old(s)@.len(),
    ensures
        final(s)@ == Seq::new(n as nat, |k: int| c as u8) + old(s)@.subrange(
            n as int,
            old(s)@.len() as int,
        ),
{
    rep_stosb(s, c as u8, n);
}

/// Compares the first `n` bytes of `a` and `b`: zero where they agree, else
/// the difference modulo 256 of the first pair that differs, read as a
/// signed byte.
pub fn compare_bytes(a: &[u8], b: &[u8], n: usize) -> (r: i32)
    requires
        n <= a@.len(),
        n <= b@.len(),
    ensures
        r == byte_order(a@, b@, n),
{
    if n == 0 {
        return 0;
    }
    let count = pairs_compared(a, b, n);
    let k = count - 1;
    let r = a[k].wrapping_sub(b[k]) as i8 as i32;
    proof {
        if count < n {
            lemma_first_difference_from(a@, b@, 0, n as int, k as int);
        } else if a@[k as int] != b@[k as int] {
            lemma_first_difference_from(a@, b@, 0, n as int, k as int);
        } else {
            lemma_first_difference_from(a@, b@, 0, n as int, n as int);
        }
    }
    r
}

/// Compares the first `n` bytes of `a` and `b`: zero where they agree, else
/// the difference modulo 256 of the first pair that differs, read as a
/// signed byte.
pub fn memcmp(a: &[u8], b: &[u8], n: usize) -> (r: i32)
    requires
        n <= a@.len(),
        n <= b@.len(),
    ensures
        r == byte_order(a@, b@, n),
{
    compare_bytes(a, b, n)
}

/// The comparison answers zero exactly where the first `n` bytes agree.
pub proof fn lemma_byte_order_zero_iff_equal(a: Seq<u8>, b: Seq<u8>, len: usize)
    requires
        len <= a.len(),
        len <= b.len(),
    ensures
        (byte_order(a, b, len) == 0) == prefix_equal(a, b, len as int),
{
    let n = len as int;
    if prefix_equal(a, b, n) {
        lemma_first_difference_from(a, b, 0, n, n);
    } else {
        let j = choose|j: int| 0 <= j < n && a[j] != b[j];
        lemma_first_difference_exists(a, b, n, j);
        let k = choose|k: int| first_difference(a, b, n, k);
        lemma_first_difference_from(a, b, 0, n, k);
        let d = wrapping_difference(a[k], b[k]);
        assert(d != 0);
        assert(d != 0 ==> (d as i8) as i32 != 0) by (bit_vector);
    }
}

/// Where two byte strings differ within the first `n`, a first difference
/// exists.
proof fn lemma_first_difference_exists(a: Seq<u8>, b: Seq<u8>, n: int, j: int)
    requires
        0 <= j < n,
        a[j] != b[j],
    ensures
        exists|k: int| first_difference(a, b, n, k),
    decreases j,
{
    if prefix_equal(a, b, j) {
        assert(first_difference(a, b, n, j));
    } else {
        let i = choose|i: int| 0 <= i < j && a[i] != b[i];
        lemma_first_difference_exists(a, b, n, i);
    }
}

/// `buf` after its `count` bytes from `src` on have been copied to `dst`.
pub open spec fn moved(buf: Seq<u8>, dst: int, src: int, count: int) -> Seq<u8> {
    Seq::new(
        buf.len(),
        |k: int|
            if dst <= k < dst + count {
                buf[src + (k - dst)]
            } else {
                buf[k]
            },
    )
}

/// What [`memmove`] leaves in `buf`. Where the source lies after the
/// destination, or the ranges are apart, the `count` bytes from `src` on are
/// copied to `dst`. Where the source lies before the destination and the
/// ranges overlap, the copy runs from the last byte down and starts at `src`
/// and `dst` themselves, so it moves the `count` bytes that end at `src` to
/// the `count` bytes that end at `dst`.
pub open spec fn memmove_result(buf: Seq<u8>, dst: int, src: int, count: int) -> Seq<u8> {
    if dst == src {
        buf
    } else if src >= dst || src + count <= dst {
        moved(buf, dst, src, count)
    } else {
        moved(buf, dst + 1 - count, src + 1 - count, count)
    }
}

/// Moves bytes within `buf`, as [`memmove_result`] says.
pub fn memmove(buf: &mut [u8], dst: usize, src: usize, count: usize)
    requires
        dst != src && (src >= dst || src + count <= dst) ==> dst + count <= old(buf).len() && src
            + count <= old(buf).len(),
        src < dst < src + count ==> count <= src + 1 && dst < old(buf).len(),
    ensures
        final(buf)@ == memmove_result(old(buf)@, dst as int, src as int, count as int),
{
    let ghost before = buf@;
    if dst == src {
        return;
    }
    if src >= dst || count <= dst - src {
        let mut i: usize = 0;
        while i < count
            invariant
                before == old(buf)@,
                dst + count <= buf.len(),
                src + count <= buf.len(),
                src >= dst || src + count <= dst,
                buf@.len() == before.len(),
                i <= count,
                forall|k: int| dst <= k < dst + i ==> buf@[k] == before[src + (k - dst)],
                forall|k: int|
                    0 <= k < buf@.len() && !(dst <= k < dst + i) ==> buf@[k] == before[k],
            decreases count - i,
        {
            let b = buf[src + i];
            buf[dst + i] = b;
            i = i + 1;
        }
        assert(buf@ =~= moved(before, dst as int, src as int, count as int));
    } else {
        let mut i: usize = 0;
        while i < count
            invariant
                before == old(buf)@,
                dst < buf.len(),
                src < dst < src + count,
                count <= src + 1,
                buf@.len() == before.len(),
                i <= count,
                forall|k: int| dst - i < k <= dst ==> buf@[k] == before[k - (dst - src)],
                forall|k: int|
                    0 <= k < buf@.len() && !(dst - i < k <= dst) ==> buf@[k] == before[k],
            decreases count - i,
        {
            let b = buf[src - i];
            buf[dst - i] = b;
            i = i + 1;
        }
        assert(buf@ =~= moved(
            before,
            dst + 1 - count as int,
            src + 1 - count as int,
            count as int,
        ));
    }
}

/// Where the source does not lie before an overlapping destination,
/// [`memmove`] copies the `count` bytes from `src` on to `dst`.
pub proof fn lemma_memmove_copies(buf: Seq<u8>, dst: int, src: int, count: int)
    requires
        0 <= dst,
        0 <= src,
        0 <= count,
        dst + count <= buf.len(),
        src + count <= buf.len(),
        !(src < dst < src + count),
    ensures
        memmove_result(buf, dst, src, count) == moved(buf, dst, src, count),
{
    if dst == src {
        assert(moved(buf, dst, src, count) =~= buf);
    }
}

/// A byte read as a signed byte: values from 128 on stand for value - 256.
proof fn lemma_signed_byte(d: u8)
    ensures
        (d as i8) as i32 == if d < 128 {
            d as int
        } else {
            d - 256
        },
{
    assert(d < 128u8 ==> (d as i8) as i32 == d as i32) by (bit_vector);
    assert(d >= 128u8 ==> ((d as i8) as i32) + 256 == d as i32) by (bit_vector);
}

/// Where the first `n` bytes of `a` and `b` first differ at `k`, the
/// comparison is the difference `a[k] - b[k]` brought into -128..127 modulo
/// 256: it is negative exactly when that difference modulo 256 is 128 or
/// more.
pub proof fn lemma_byte_order_at_first_difference(
    a: Seq<u8>,
    b: Seq<u8>,
    len: usize,
    k: int,
)
    requires
        len <= a.len(),
        len <= b.len(),
        first_difference(a, b, len as int, k),
    ensures
        -128 <= byte_order(a, b, len) < 128,
        (byte_order(a, b, len) - (a[k] - b[k])) % 256 == 0,
        byte_order(a, b, len) < 0 <==> (a[k] - b[k] + 256) % 256 >= 128,
        byte_order(a, b, len) != 0,
{
    lemma_first_difference_from(a, b, 0, len as int, k);
    let d = wrapping_difference(a[k], b[k]);
    lemma_signed_byte(d);
    assert(d == (a[k] - b[k] + 256) % 256);
}

} // verus!
