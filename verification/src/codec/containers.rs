use vstd::prelude::*;

use crate::codec::buffer::Buffer;
use crate::codec::cursor::{holds_at, lemma_holds_at_split, parse_byte, Cursor};
use crate::codec::varint::{lemma_varint_cut, lemma_varint_i32_roundtrip, parse_varint, spec_varint, varint_stop, VarInt};
use crate::codec::varlong::{lemma_varlong_i64_roundtrip, parse_varlong, spec_varlong, VarLong};

verus! {

/// Reads `n` values of `T` one after another from `pos`.
pub open spec fn parse_seq<T: Buffer>(s: Seq<u8>, pos: int, n: nat) -> Option<
    (Seq<<T as DeepView>::V>, int),
>
    decreases n,
{
    if n == 0 {
        Some((Seq::empty(), pos))
    } else {
        match T::spec_parse(s, pos) {
            Some((x, p)) => match parse_seq::<T>(s, p, (n - 1) as nat) {
                Some((xs, q)) => Some((seq![x] + xs, q)),
                None => None,
            },
            None => None,
        }
    }
}

/// Where a failed read of `n` values from `pos` leaves the cursor: where the read of the
/// first value that fails stopped.
pub open spec fn seq_stop<T: Buffer>(s: Seq<u8>, pos: int, n: nat) -> int
    decreases n,
{
    if n == 0 {
        pos
    } else {
        match T::spec_parse(s, pos) {
            Some((_, p)) => seq_stop::<T>(s, p, (n - 1) as nat),
            None => T::spec_stop(s, pos),
        }
    }
}

/// The wire forms of the values of `vs`, one after another.
pub open spec fn serialize_seq<T: Buffer>(vs: Seq<<T as DeepView>::V>) -> Seq<u8>
    decreases vs.len(),
{
    if vs.len() == 0 {
        Seq::empty()
    } else {
        T::spec_serialize(vs[0]) + serialize_seq::<T>(vs.drop_first())
    }
}

/// Prefixes the values of a successful read with `pre`.
pub open spec fn prepend_values<V>(pre: Seq<V>, r: Option<(Seq<V>, int)>) -> Option<
    (Seq<V>, int),
> {
    match r {
        Some((xs, q)) => Some((pre + xs, q)),
        None => None,
    }
}

pub proof fn lemma_serialize_seq_push<T: Buffer>(vs: Seq<<T as DeepView>::V>, x: <T as DeepView>::V)
    ensures
        serialize_seq::<T>(vs.push(x)) == serialize_seq::<T>(vs) + T::spec_serialize(x),
    decreases vs.len(),
{
    if vs.len() == 0 {
        assert(vs.push(x).drop_first() =~= Seq::<<T as DeepView>::V>::empty());
        assert(vs.push(x)[0] == x);
        assert(serialize_seq::<T>(Seq::<<T as DeepView>::V>::empty()) == Seq::<u8>::empty());
        assert(serialize_seq::<T>(vs.push(x)) =~= T::spec_serialize(x));
    } else {
        assert(vs.push(x).drop_first() =~= vs.drop_first().push(x));
        lemma_serialize_seq_push::<T>(vs.drop_first(), x);
        assert(serialize_seq::<T>(vs.push(x)) =~= serialize_seq::<T>(vs) + T::spec_serialize(x));
    }
}

pub proof fn lemma_parse_seq_roundtrip<T: Buffer>(s: Seq<u8>, pos: int, vs: Seq<<T as DeepView>::V>)
    requires
        forall|i: int| 0 <= i < vs.len() ==> T::spec_wf(#[trigger] vs[i]),
        holds_at(s, pos, serialize_seq::<T>(vs)),
    ensures
        parse_seq::<T>(s, pos, vs.len()) == Some((vs, pos + serialize_seq::<T>(vs).len())),
    decreases vs.len(),
{
    if vs.len() > 0 {
        let x = vs[0];
        let rest = vs.drop_first();
        lemma_holds_at_split(s, pos, T::spec_serialize(x), serialize_seq::<T>(rest));
        T::lemma_roundtrip(s, pos, x);
        assert forall|i: int| 0 <= i < rest.len() implies T::spec_wf(#[trigger] rest[i]) by {
            assert(rest[i] == vs[i + 1]);
        }
        lemma_parse_seq_roundtrip::<T>(s, pos + T::spec_serialize(x).len(), rest);
        assert(seq![x] + rest =~= vs);
    }
}

/// The first `vs.len()` of `n` values read as `vs` when their wire forms stand at `pos`; the
/// rest are read after them.
pub proof fn lemma_parse_seq_prefix<T: Buffer>(s: Seq<u8>, pos: int, vs: Seq<<T as DeepView>::V>, n: nat)
    requires
        vs.len() <= n,
        forall|i: int| 0 <= i < vs.len() ==> T::spec_wf(#[trigger] vs[i]),
        holds_at(s, pos, serialize_seq::<T>(vs)),
    ensures
        parse_seq::<T>(s, pos, n) == prepend_values(
            vs,
            parse_seq::<T>(s, pos + serialize_seq::<T>(vs).len(), (n - vs.len()) as nat),
        ),
    decreases vs.len(),
{
    if vs.len() == 0 {
        let r = parse_seq::<T>(s, pos, n);
        match r {
            Some((xs, q)) => {
                assert(vs + xs =~= xs);
            },
            None => {},
        }
    } else {
        let x = vs[0];
        let rest = vs.drop_first();
        lemma_holds_at_split(s, pos, T::spec_serialize(x), serialize_seq::<T>(rest));
        T::lemma_roundtrip(s, pos, x);
        assert forall|i: int| 0 <= i < rest.len() implies T::spec_wf(#[trigger] rest[i]) by {
            assert(rest[i] == vs[i + 1]);
        }
        lemma_parse_seq_prefix::<T>(s, pos + T::spec_serialize(x).len(), rest, (n - 1) as nat);
        let r = parse_seq::<T>(s, pos + serialize_seq::<T>(vs).len(), (n - vs.len()) as nat);
        match r {
            Some((xs, q)) => {
                assert(seq![x] + (rest + xs) =~= vs + xs);
            },
            None => {},
        }
    }
}

/// The wire forms of a sequence are those of its first `i` values, then those of the rest.
pub proof fn lemma_serialize_seq_split<T: Buffer>(vs: Seq<<T as DeepView>::V>, i: int)
    requires
        0 <= i <= vs.len(),
    ensures
        serialize_seq::<T>(vs) == serialize_seq::<T>(vs.take(i)) + serialize_seq::<T>(vs.skip(i)),
    decreases i,
{
    if i == 0 {
        assert(vs.skip(0) =~= vs);
        assert(serialize_seq::<T>(vs.take(0)) == Seq::<u8>::empty()) by {
            assert(vs.take(0).len() == 0);
        }
        assert(serialize_seq::<T>(vs) =~= Seq::<u8>::empty() + serialize_seq::<T>(vs));
    } else {
        lemma_serialize_seq_split::<T>(vs.drop_first(), i - 1);
        assert(vs.drop_first().take(i - 1) =~= vs.take(i).drop_first());
        assert(vs.drop_first().skip(i - 1) =~= vs.skip(i));
        assert(vs.take(i)[0] == vs[0]);
        assert(serialize_seq::<T>(vs) =~= serialize_seq::<T>(vs.take(i)) + serialize_seq::<T>(vs.skip(i)));
    }
}

/// Bytes written one by one are the bytes themselves.
pub proof fn lemma_serialize_seq_u8(vs: Seq<u8>)
    ensures
        serialize_seq::<u8>(vs) == vs,
    decreases vs.len(),
{
    if vs.len() > 0 {
        lemma_serialize_seq_u8(vs.drop_first());
        assert(seq![vs[0]] + vs.drop_first() =~= vs);
    }
}

/// More bytes than the input holds do not read.
pub proof fn lemma_parse_seq_u8_short(s: Seq<u8>, pos: int, n: nat)
    requires
        0 <= pos <= s.len() < pos + n,
    ensures
        parse_seq::<u8>(s, pos, n) is None,
    decreases n,
{
    if pos < s.len() {
        lemma_parse_seq_u8_short(s, pos + 1, (n - 1) as nat);
        assert(parse_byte(s, pos) == Some((s[pos], pos + 1)));
    } else {
        assert(parse_byte(s, pos) is None);
    }
}

/// A byte vector cut short by the end of the input does not read.
pub proof fn lemma_byte_vec_cut(s: Seq<u8>, pos: int, vs: Seq<u8>)
    requires
        vs.len() <= i32::MAX,
        0 <= pos <= s.len() < pos + <Vec<u8> as Buffer>::spec_serialize(vs).len(),
        holds_at(s, pos, <Vec<u8> as Buffer>::spec_serialize(vs).take(s.len() - pos)),
    ensures
        <Vec<u8> as Buffer>::spec_parse(s, pos) is None,
{
    let n = vs.len() as i32;
    let vb = spec_varint(n);
    lemma_serialize_seq_u8(vs);
    let m = s.len() - pos;
    if m < vb.len() {
        assert(<Vec<u8> as Buffer>::spec_serialize(vs).take(m) =~= vb.take(m));
        lemma_varint_cut(s, pos, n);
    } else {
        assert(<Vec<u8> as Buffer>::spec_serialize(vs).take(m) =~= vb + vs.take(m - vb.len()));
        lemma_holds_at_split(s, pos, vb, vs.take(m - vb.len()));
        lemma_varint_i32_roundtrip(s, pos, n);
        assert(count_of(n) == vs.len());
        lemma_parse_seq_u8_short(s, pos + vb.len(), vs.len());
    }
}

/// The `VarInt` count as the reader takes it (`as usize`).
pub open spec fn count_of(n: i32) -> nat {
    (n as usize) as nat
}

impl<T: Buffer> Buffer for Vec<T> {
    /// A `VarInt` count, then that many values.
    open spec fn spec_parse(s: Seq<u8>, pos: int) -> Option<(Seq<<T as DeepView>::V>, int)> {
        match parse_varint(s, pos) {
            Some((n, p)) => parse_seq::<T>(s, p, count_of(n)),
            None => None,
        }
    }

    open spec fn spec_serialize(vs: Seq<<T as DeepView>::V>) -> Seq<u8> {
        spec_varint(vs.len() as i32) + serialize_seq::<T>(vs)
    }

    open spec fn spec_wf(vs: Seq<<T as DeepView>::V>) -> bool {
        &&& vs.len() <= i32::MAX
        &&& forall|i: int| 0 <= i < vs.len() ==> T::spec_wf(#[trigger] vs[i])
    }

    open spec fn spec_stop(s: Seq<u8>, pos: int) -> int {
        match parse_varint(s, pos) {
            Some((n, p)) => seq_stop::<T>(s, p, count_of(n)),
            None => varint_stop(s, pos),
        }
    }

    proof fn lemma_roundtrip(s: Seq<u8>, pos: int, vs: Seq<<T as DeepView>::V>) {
        let n = vs.len() as i32;
        lemma_holds_at_split(s, pos, spec_varint(n), serialize_seq::<T>(vs));
        lemma_varint_i32_roundtrip(s, pos, n);
        assert(count_of(n) == vs.len());
        lemma_parse_seq_roundtrip::<T>(s, pos + spec_varint(n).len(), vs);
    }

    fn read_buf(buffer: &mut Cursor) -> (res: Option<Vec<T>>) {
        let ghost s = buffer.data@;
        let n = match i32::read_varint(buffer) {
            Some(n) => n,
            None => {
                return None;
            },
        };
        let length = n as usize;
        let ghost p1 = buffer.position as int;
        let mut contents: Vec<T> = Vec::new();
        let mut i: usize = 0;
        while i < length
            invariant
                buffer.data@ == s,
                s == old(buffer).data@,
                i <= length,
                length as nat == count_of(n),
                parse_varint(s, old(buffer).position as int) == Some((n, p1)),
                buffer.position <= buffer.data@.len(),
                parse_seq::<T>(s, p1, length as nat) == prepend_values(
                    contents.deep_view(),
                    parse_seq::<T>(s, buffer.position as int, (length - i) as nat),
                ),
                seq_stop::<T>(s, p1, length as nat) == seq_stop::<T>(
                    s,
                    buffer.position as int,
                    (length - i) as nat,
                ),
            decreases length - i,
        {
            let ghost before = contents.deep_view();
            let ghost cur = buffer.position as int;
            match T::read_buf(buffer) {
                Some(x) => {
                    contents.push(x);
                    proof {
                        assert(contents.deep_view() =~= before.push(x.deep_view()));
                        let r = parse_seq::<T>(s, buffer.position as int, (length - i - 1) as nat);
                        match r {
                            Some((xs, q)) => {
                                assert(before + (seq![x.deep_view()] + xs) =~= before.push(
                                    x.deep_view(),
                                ) + xs);
                            },
                            None => {},
                        }
                    }
                },
                None => {
                    return None;
                },
            }
            i = i + 1;
        }
        assert(contents.deep_view() + Seq::<<T as DeepView>::V>::empty() =~= contents.deep_view());
        Some(contents)
    }

    fn write_buf(&self, buffer: &mut Vec<u8>) {
        let ghost start = buffer@;
        let ghost vs = self.deep_view();
        (self.len() as i32).write_varint(buffer);
        let ghost mid = buffer@;
        let mut i: usize = 0;
        while i < self.len()
            invariant
                vs == self.deep_view(),
                mid == start + spec_varint(self@.len() as i32),
                i <= self@.len(),
                buffer@ == mid + serialize_seq::<T>(vs.take(i as int)),
            decreases self@.len() - i,
        {
            let ghost before = buffer@;
            self[i].write_buf(buffer);
            proof {
                assert(vs.take(i + 1) =~= vs.take(i as int).push(vs[i as int]));
                lemma_serialize_seq_push::<T>(vs.take(i as int), vs[i as int]);
                assert(buffer@ =~= mid + serialize_seq::<T>(vs.take(i + 1)));
            }
            i = i + 1;
        }
        assert(vs.take(self@.len() as int) =~= vs);
    }
}

impl<T: Buffer> Buffer for Option<T> {
    /// A flag byte, then the value when the flag is set. A clear flag is refused, and a set
    /// flag whose value cannot be read gives `None`, with the cursor where that read stopped.
    open spec fn spec_parse(s: Seq<u8>, pos: int) -> Option<(Option<<T as DeepView>::V>, int)> {
        match bool::spec_parse(s, pos) {
            Some((true, p)) => match T::spec_parse(s, p) {
                Some((x, q)) => Some((Some(x), q)),
                None => Some((None, T::spec_stop(s, p))),
            },
            _ => None,
        }
    }

    open spec fn spec_serialize(v: Option<<T as DeepView>::V>) -> Seq<u8> {
        match v {
            Some(x) => seq![1u8] + T::spec_serialize(x),
            None => seq![0u8],
        }
    }

    /// Only a present value reads back: the flag of an absent one is refused on reading.
    open spec fn spec_wf(v: Option<<T as DeepView>::V>) -> bool {
        match v {
            Some(x) => T::spec_wf(x),
            None => false,
        }
    }

    open spec fn spec_stop(s: Seq<u8>, pos: int) -> int {
        match bool::spec_parse(s, pos) {
            Some((_, p)) => p,
            None => bool::spec_stop(s, pos),
        }
    }

    proof fn lemma_roundtrip(s: Seq<u8>, pos: int, v: Option<<T as DeepView>::V>) {
        let x = v.unwrap();
        lemma_holds_at_split(s, pos, seq![1u8], T::spec_serialize(x));
        bool::lemma_roundtrip(s, pos, true);
        T::lemma_roundtrip(s, pos + 1, x);
    }

    fn read_buf(buffer: &mut Cursor) -> (res: Option<Option<T>>) {
        let present = match bool::read_buf(buffer) {
            Some(b) => b,
            None => {
                return None;
            },
        };
        if !present {
            return None;
        }
        match T::read_buf(buffer) {
            Some(x) => Some(Some(x)),
            None => Some(None),
        }
    }

    fn write_buf(&self, buffer: &mut Vec<u8>) {
        match self {
            Some(x) => {
                true.write_buf(buffer);
                x.write_buf(buffer);
                assert(buffer@ =~= old(buffer)@ + Self::spec_serialize(self.deep_view()));
            },
            None => {
                false.write_buf(buffer);
            },
        }
    }
}

impl<A: Buffer, B: Buffer> Buffer for (A, B) {
    open spec fn spec_parse(s: Seq<u8>, pos: int) -> Option<
        ((<A as DeepView>::V, <B as DeepView>::V), int),
    > {
        match A::spec_parse(s, pos) {
            Some((a, p)) => match B::spec_parse(s, p) {
                Some((b, q)) => Some(((a, b), q)),
                None => None,
            },
            None => None,
        }
    }

    open spec fn spec_serialize(v: (<A as DeepView>::V, <B as DeepView>::V)) -> Seq<u8> {
        A::spec_serialize(v.0) + B::spec_serialize(v.1)
    }

    open spec fn spec_wf(v: (<A as DeepView>::V, <B as DeepView>::V)) -> bool {
        A::spec_wf(v.0) && B::spec_wf(v.1)
    }

    open spec fn spec_stop(s: Seq<u8>, pos: int) -> int {
        match A::spec_parse(s, pos) {
            Some((_, p)) => B::spec_stop(s, p),
            None => A::spec_stop(s, pos),
        }
    }

    proof fn lemma_roundtrip(s: Seq<u8>, pos: int, v: (<A as DeepView>::V, <B as DeepView>::V)) {
        lemma_holds_at_split(s, pos, A::spec_serialize(v.0), B::spec_serialize(v.1));
        A::lemma_roundtrip(s, pos, v.0);
        B::lemma_roundtrip(s, pos + A::spec_serialize(v.0).len(), v.1);
    }

    fn read_buf(buffer: &mut Cursor) -> (res: Option<(A, B)>) {
        let a = match A::read_buf(buffer) {
            Some(a) => a,
            None => {
                return None;
            },
        };
        let b = match B::read_buf(buffer) {
            Some(b) => b,
            None => {
                return None;
            },
        };
        Some((a, b))
    }

    fn write_buf(&self, buffer: &mut Vec<u8>) {
        self.0.write_buf(buffer);
        self.1.write_buf(buffer);
        assert(buffer@ =~= old(buffer)@ + Self::spec_serialize(self.deep_view()));
    }
}

impl<T: Buffer> Buffer for Box<T> {
    open spec fn spec_parse(s: Seq<u8>, pos: int) -> Option<(<T as DeepView>::V, int)> {
        T::spec_parse(s, pos)
    }

    open spec fn spec_serialize(v: <T as DeepView>::V) -> Seq<u8> {
        T::spec_serialize(v)
    }

    open spec fn spec_wf(v: <T as DeepView>::V) -> bool {
        T::spec_wf(v)
    }

    open spec fn spec_stop(s: Seq<u8>, pos: int) -> int {
        T::spec_stop(s, pos)
    }

    proof fn lemma_roundtrip(s: Seq<u8>, pos: int, v: <T as DeepView>::V) {
        T::lemma_roundtrip(s, pos, v);
    }

    fn read_buf(buffer: &mut Cursor) -> (res: Option<Box<T>>) {
        match T::read_buf(buffer) {
            Some(x) => Some(Box::new(x)),
            None => None,
        }
    }

    fn write_buf(&self, buffer: &mut Vec<u8>) {
        T::write_buf(&**self, buffer);
    }
}

/// Everything from `pos` to the end of the input (nothing, when `pos` is past the end).
pub open spec fn parse_rest(s: Seq<u8>, pos: int) -> Option<(Seq<u8>, int)> {
    if 0 <= pos <= s.len() {
        Some((s.subrange(pos, s.len() as int), s.len() as int))
    } else {
        Some((Seq::empty(), pos))
    }
}

/// Bytes that stand at `pos` and run to the end of the input read back whole.
pub proof fn lemma_rest_roundtrip(s: Seq<u8>, pos: int, v: Seq<u8>)
    requires
        holds_at(s, pos, v),
        s.len() == pos + v.len(),
    ensures
        parse_rest(s, pos) == Some((v, pos + v.len())),
{
}

/// Reads every byte that is left, one by one, until none is left.
pub fn read_rest(buffer: &mut Cursor) -> (res: Vec<u8>)
    ensures
        final(buffer).data@ == old(buffer).data@,
        parse_rest(old(buffer).data@, old(buffer).position as int) == Some(
            (res@, final(buffer).position as int),
        ),
        final(buffer).position <= final(buffer).data@.len() || final(buffer).position == old(
            buffer,
        ).position,
{
    let ghost s = buffer.data@;
    let ghost p0 = buffer.position as int;
    let mut data: Vec<u8> = Vec::new();
    if buffer.position > buffer.data.len() {
        assert(data@ =~= Seq::<u8>::empty());
        return data;
    }
    while buffer.position < buffer.data.len()
        invariant
            buffer.data@ == s,
            s == old(buffer).data@,
            p0 == old(buffer).position as int,
            p0 <= buffer.position <= buffer.data.len(),
            data@ == s.subrange(p0, buffer.position as int),
        decreases buffer.data.len() - buffer.position,
    {
        data.push(buffer.data[buffer.position]);
        buffer.position = buffer.position + 1;
        assert(data@ =~= s.subrange(p0, buffer.position as int));
    }
    data
}

/// Appends the bytes as they are.
pub fn write_bytes(data: &Vec<u8>, buffer: &mut Vec<u8>)
    ensures
        final(buffer)@ == old(buffer)@ + data@,
{
    let mut i: usize = 0;
    while i < data.len()
        invariant
            i <= data@.len(),
            buffer@ == old(buffer)@ + data@.subrange(0, i as int),
        decreases data@.len() - i,
    {
        buffer.push(data[i]);
        i = i + 1;
        assert(buffer@ =~= old(buffer)@ + data@.subrange(0, i as int));
    }
    assert(data@.subrange(0, data@.len() as int) =~= data@);
}

/// A flag byte, then the value when the flag is set; a clear flag gives `None`.
pub open spec fn parse_flagged<T: Buffer>(s: Seq<u8>, pos: int) -> Option<
    (Option<<T as DeepView>::V>, int),
> {
    match bool::spec_parse(s, pos) {
        Some((true, p)) => match T::spec_parse(s, p) {
            Some((x, q)) => Some((Some(x), q)),
            None => None,
        },
        Some((false, p)) => Some((None, p)),
        None => None,
    }
}

/// The flag byte of an optional value, then the value when there is one.
pub open spec fn serialize_flagged<T: Buffer>(v: Option<<T as DeepView>::V>) -> Seq<u8> {
    match v {
        Some(x) => seq![1u8] + T::spec_serialize(x),
        None => seq![0u8],
    }
}

pub open spec fn flagged_wf<T: Buffer>(v: Option<<T as DeepView>::V>) -> bool {
    match v {
        Some(x) => T::spec_wf(x),
        None => true,
    }
}

pub proof fn lemma_flagged_roundtrip<T: Buffer>(s: Seq<u8>, pos: int, v: Option<<T as DeepView>::V>)
    requires
        flagged_wf::<T>(v),
        holds_at(s, pos, serialize_flagged::<T>(v)),
    ensures
        parse_flagged::<T>(s, pos) == Some((v, pos + serialize_flagged::<T>(v).len())),
{
    match v {
        Some(x) => {
            lemma_holds_at_split(s, pos, seq![1u8], T::spec_serialize(x));
            bool::lemma_roundtrip(s, pos, true);
            T::lemma_roundtrip(s, pos + 1, x);
        },
        None => {
            bool::lemma_roundtrip(s, pos, false);
        },
    }
}

/// Where a failed read of a flagged value leaves the cursor: where the flag read stopped, or
/// where the read of the value stopped.
pub open spec fn flagged_stop<T: Buffer>(s: Seq<u8>, pos: int) -> int {
    match bool::spec_parse(s, pos) {
        Some((true, p)) => T::spec_stop(s, p),
        Some((false, p)) => p,
        None => bool::spec_stop(s, pos),
    }
}

/// Reads a flag byte, then the value when the flag is set.
pub fn read_flagged<T: Buffer>(buffer: &mut Cursor) -> (res: Option<Option<T>>)
    ensures
        final(buffer).data@ == old(buffer).data@,
        match res {
            Some(v) => parse_flagged::<T>(old(buffer).data@, old(buffer).position as int) == Some(
                (v.deep_view(), final(buffer).position as int),
            ) && final(buffer).position <= final(buffer).data@.len(),
            None => {
                &&& parse_flagged::<T>(old(buffer).data@, old(buffer).position as int) is None
                &&& final(buffer).position as int == flagged_stop::<T>(
                    old(buffer).data@,
                    old(buffer).position as int,
                )
                &&& old(buffer).position <= old(buffer).data@.len() ==> final(buffer).position
                    <= final(buffer).data@.len()
            },
        },
{
    let present = match bool::read_buf(buffer) {
        Some(b) => b,
        None => {
            return None;
        },
    };
    if present {
        match T::read_buf(buffer) {
            Some(x) => Some(Some(x)),
            None => None,
        }
    } else {
        Some(None)
    }
}

/// Appends the flag byte of an optional value, then the value when there is one.
pub fn write_flagged<T: Buffer>(v: &Option<T>, buffer: &mut Vec<u8>)
    ensures
        final(buffer)@ == old(buffer)@ + serialize_flagged::<T>(v.deep_view()),
{
    match v {
        Some(x) => {
            true.write_buf(buffer);
            x.write_buf(buffer);
            assert(buffer@ =~= old(buffer)@ + serialize_flagged::<T>(v.deep_view()));
        },
        None => {
            false.write_buf(buffer);
        },
    }
}

/// Reads `n` `VarInt`s one after another from `pos`.
pub open spec fn parse_varint_seq(s: Seq<u8>, pos: int, n: nat) -> Option<(Seq<i32>, int)>
    decreases n,
{
    if n == 0 {
        Some((Seq::empty(), pos))
    } else {
        match parse_varint(s, pos) {
            Some((x, p)) => match parse_varint_seq(s, p, (n - 1) as nat) {
                Some((xs, q)) => Some((seq![x] + xs, q)),
                None => None,
            },
            None => None,
        }
    }
}

/// The `VarInt` encodings of the values of `vs`, one after another.
pub open spec fn serialize_varint_seq(vs: Seq<i32>) -> Seq<u8>
    decreases vs.len(),
{
    if vs.len() == 0 {
        Seq::empty()
    } else {
        spec_varint(vs[0]) + serialize_varint_seq(vs.drop_first())
    }
}

/// A `VarInt` count, then that many `VarInt`s.
pub open spec fn parse_varint_list(s: Seq<u8>, pos: int) -> Option<(Seq<i32>, int)> {
    match parse_varint(s, pos) {
        Some((n, p)) => parse_varint_seq(s, p, count_of(n)),
        None => None,
    }
}

pub open spec fn serialize_varint_list(vs: Seq<i32>) -> Seq<u8> {
    spec_varint(vs.len() as i32) + serialize_varint_seq(vs)
}

pub open spec fn varint_list_wf(vs: Seq<i32>) -> bool {
    vs.len() <= i32::MAX
}

pub proof fn lemma_serialize_varint_seq_push(vs: Seq<i32>, x: i32)
    ensures
        serialize_varint_seq(vs.push(x)) == serialize_varint_seq(vs) + spec_varint(x),
    decreases vs.len(),
{
    if vs.len() == 0 {
        assert(vs.push(x).drop_first() =~= Seq::<i32>::empty());
        assert(vs.push(x)[0] == x);
        assert(serialize_varint_seq(Seq::<i32>::empty()) == Seq::<u8>::empty());
        assert(serialize_varint_seq(vs.push(x)) =~= spec_varint(x));
    } else {
        assert(vs.push(x).drop_first() =~= vs.drop_first().push(x));
        lemma_serialize_varint_seq_push(vs.drop_first(), x);
        assert(serialize_varint_seq(vs.push(x)) =~= serialize_varint_seq(vs) + spec_varint(x));
    }
}

pub proof fn lemma_varint_seq_roundtrip(s: Seq<u8>, pos: int, vs: Seq<i32>)
    requires
        holds_at(s, pos, serialize_varint_seq(vs)),
    ensures
        parse_varint_seq(s, pos, vs.len()) == Some((vs, pos + serialize_varint_seq(vs).len())),
    decreases vs.len(),
{
    if vs.len() > 0 {
        let x = vs[0];
        let rest = vs.drop_first();
        lemma_holds_at_split(s, pos, spec_varint(x), serialize_varint_seq(rest));
        lemma_varint_i32_roundtrip(s, pos, x);
        lemma_varint_seq_roundtrip(s, pos + spec_varint(x).len(), rest);
        assert(seq![x] + rest =~= vs);
    }
}

pub proof fn lemma_varint_list_roundtrip(s: Seq<u8>, pos: int, vs: Seq<i32>)
    requires
        varint_list_wf(vs),
        holds_at(s, pos, serialize_varint_list(vs)),
    ensures
        parse_varint_list(s, pos) == Some((vs, pos + serialize_varint_list(vs).len())),
{
    let n = vs.len() as i32;
    lemma_holds_at_split(s, pos, spec_varint(n), serialize_varint_seq(vs));
    lemma_varint_i32_roundtrip(s, pos, n);
    assert(count_of(n) == vs.len());
    lemma_varint_seq_roundtrip(s, pos + spec_varint(n).len(), vs);
}

/// Where a failed read of `n` `VarInt`s from `pos` leaves the cursor.
pub open spec fn varint_seq_stop(s: Seq<u8>, pos: int, n: nat) -> int
    decreases n,
{
    if n == 0 {
        pos
    } else {
        match parse_varint(s, pos) {
            Some((_, p)) => varint_seq_stop(s, p, (n - 1) as nat),
            None => varint_stop(s, pos),
        }
    }
}

/// Where a failed read of a `VarInt` list at `pos` leaves the cursor.
pub open spec fn varint_list_stop(s: Seq<u8>, pos: int) -> int {
    match parse_varint(s, pos) {
        Some((n, p)) => varint_seq_stop(s, p, count_of(n)),
        None => varint_stop(s, pos),
    }
}

/// Reads a `VarInt` count, then that many `VarInt`s.
pub fn read_varint_list(buffer: &mut Cursor) -> (res: Option<Vec<i32>>)
    ensures
        final(buffer).data@ == old(buffer).data@,
        match res {
            Some(v) => parse_varint_list(old(buffer).data@, old(buffer).position as int) == Some(
                (v@, final(buffer).position as int),
            ) && final(buffer).position <= final(buffer).data@.len(),
            None => {
                &&& parse_varint_list(old(buffer).data@, old(buffer).position as int) is None
                &&& final(buffer).position as int == varint_list_stop(
                    old(buffer).data@,
                    old(buffer).position as int,
                )
                &&& old(buffer).position <= old(buffer).data@.len() ==> final(buffer).position
                    <= final(buffer).data@.len()
            },
        },
{
    let ghost s = buffer.data@;
    let n = match i32::read_varint(buffer) {
        Some(n) => n,
        None => {
            return None;
        },
    };
    let length = n as usize;
    let ghost p1 = buffer.position as int;
    let mut contents: Vec<i32> = Vec::new();
    let mut i: usize = 0;
    while i < length
        invariant
            buffer.data@ == s,
            s == old(buffer).data@,
            i <= length,
            length as nat == count_of(n),
            parse_varint(s, old(buffer).position as int) == Some((n, p1)),
            buffer.position <= buffer.data@.len(),
            parse_varint_seq(s, p1, length as nat) == prepend_values(
                contents@,
                parse_varint_seq(s, buffer.position as int, (length - i) as nat),
            ),
            varint_seq_stop(s, p1, length as nat) == varint_seq_stop(
                s,
                buffer.position as int,
                (length - i) as nat,
            ),
        decreases length - i,
    {
        let ghost before = contents@;
        match i32::read_varint(buffer) {
            Some(x) => {
                contents.push(x);
                proof {
                    let r = parse_varint_seq(s, buffer.position as int, (length - i - 1) as nat);
                    match r {
                        Some((xs, q)) => {
                            assert(before + (seq![x] + xs) =~= before.push(x) + xs);
                        },
                        None => {},
                    }
                }
            },
            None => {
                return None;
            },
        }
        i = i + 1;
    }
    assert(contents@ + Seq::<i32>::empty() =~= contents@);
    Some(contents)
}

/// Appends a `VarInt` count, then the values as `VarInt`s.
pub fn write_varint_list(vs: &Vec<i32>, buffer: &mut Vec<u8>)
    ensures
        final(buffer)@ == old(buffer)@ + serialize_varint_list(vs@),
{
    let ghost start = buffer@;
    (vs.len() as i32).write_varint(buffer);
    let ghost mid = buffer@;
    let mut i: usize = 0;
    while i < vs.len()
        invariant
            mid == start + spec_varint(vs@.len() as i32),
            i <= vs@.len(),
            buffer@ == mid + serialize_varint_seq(vs@.take(i as int)),
        decreases vs@.len() - i,
    {
        vs[i].write_varint(buffer);
        proof {
            assert(vs@.take(i + 1) =~= vs@.take(i as int).push(vs@[i as int]));
            lemma_serialize_varint_seq_push(vs@.take(i as int), vs@[i as int]);
            assert(buffer@ =~= mid + serialize_varint_seq(vs@.take(i + 1)));
        }
        i = i + 1;
    }
    assert(vs@.take(vs@.len() as int) =~= vs@);
}

/// Reads `n` `VarLong`s one after another from `pos`.
pub open spec fn parse_varlong_seq(s: Seq<u8>, pos: int, n: nat) -> Option<(Seq<i64>, int)>
    decreases n,
{
    if n == 0 {
        Some((Seq::empty(), pos))
    } else {
        match parse_varlong(s, pos) {
            Some((x, p)) => match parse_varlong_seq(s, p, (n - 1) as nat) {
                Some((xs, q)) => Some((seq![x] + xs, q)),
                None => None,
            },
            None => None,
        }
    }
}

/// The `VarLong` encodings of the values of `vs`, one after another.
pub open spec fn serialize_varlong_seq(vs: Seq<i64>) -> Seq<u8>
    decreases vs.len(),
{
    if vs.len() == 0 {
        Seq::empty()
    } else {
        spec_varlong(vs[0]) + serialize_varlong_seq(vs.drop_first())
    }
}

/// A `VarInt` count, then that many `VarLong`s.
pub open spec fn parse_varlong_list(s: Seq<u8>, pos: int) -> Option<(Seq<i64>, int)> {
    match parse_varint(s, pos) {
        Some((n, p)) => parse_varlong_seq(s, p, count_of(n)),
        None => None,
    }
}

pub open spec fn serialize_varlong_list(vs: Seq<i64>) -> Seq<u8> {
    spec_varint(vs.len() as i32) + serialize_varlong_seq(vs)
}

pub open spec fn varlong_list_wf(vs: Seq<i64>) -> bool {
    vs.len() <= i32::MAX
}

pub proof fn lemma_serialize_varlong_seq_push(vs: Seq<i64>, x: i64)
    ensures
        serialize_varlong_seq(vs.push(x)) == serialize_varlong_seq(vs) + spec_varlong(x),
    decreases vs.len(),
{
    if vs.len() == 0 {
        assert(vs.push(x).drop_first() =~= Seq::<i64>::empty());
        assert(vs.push(x)[0] == x);
        assert(serialize_varlong_seq(Seq::<i64>::empty()) == Seq::<u8>::empty());
        assert(serialize_varlong_seq(vs.push(x)) =~= spec_varlong(x));
    } else {
        assert(vs.push(x).drop_first() =~= vs.drop_first().push(x));
        lemma_serialize_varlong_seq_push(vs.drop_first(), x);
        assert(serialize_varlong_seq(vs.push(x)) =~= serialize_varlong_seq(vs) + spec_varlong(x));
    }
}

pub proof fn lemma_varlong_seq_roundtrip(s: Seq<u8>, pos: int, vs: Seq<i64>)
    requires
        holds_at(s, pos, serialize_varlong_seq(vs)),
    ensures
        parse_varlong_seq(s, pos, vs.len()) == Some((vs, pos + serialize_varlong_seq(vs).len())),
    decreases vs.len(),
{
    if vs.len() > 0 {
        let x = vs[0];
        let rest = vs.drop_first();
        lemma_holds_at_split(s, pos, spec_varlong(x), serialize_varlong_seq(rest));
        lemma_varlong_i64_roundtrip(s, pos, x);
        lemma_varlong_seq_roundtrip(s, pos + spec_varlong(x).len(), rest);
        assert(seq![x] + rest =~= vs);
    }
}

pub proof fn lemma_varlong_list_roundtrip(s: Seq<u8>, pos: int, vs: Seq<i64>)
    requires
        varlong_list_wf(vs),
        holds_at(s, pos, serialize_varlong_list(vs)),
    ensures
        parse_varlong_list(s, pos) == Some((vs, pos + serialize_varlong_list(vs).len())),
{
    let n = vs.len() as i32;
    lemma_holds_at_split(s, pos, spec_varint(n), serialize_varlong_seq(vs));
    lemma_varint_i32_roundtrip(s, pos, n);
    assert(count_of(n) == vs.len());
    lemma_varlong_seq_roundtrip(s, pos + spec_varint(n).len(), vs);
}

/// Reads a `VarInt` count, then that many `VarLong`s.
pub fn read_varlong_list(buffer: &mut Cursor) -> (res: Option<Vec<i64>>)
    ensures
        final(buffer).data@ == old(buffer).data@,
        match res {
            Some(v) => parse_varlong_list(old(buffer).data@, old(buffer).position as int) == Some(
                (v@, final(buffer).position as int),
            ) && final(buffer).position <= final(buffer).data@.len(),
            None => parse_varlong_list(old(buffer).data@, old(buffer).position as int) is None,
        },
{
    let ghost s = buffer.data@;
    let n = match i32::read_varint(buffer) {
        Some(n) => n,
        None => {
            return None;
        },
    };
    let length = n as usize;
    let ghost p1 = buffer.position as int;
    let mut contents: Vec<i64> = Vec::new();
    let mut i: usize = 0;
    while i < length
        invariant
            buffer.data@ == s,
            s == old(buffer).data@,
            i <= length,
            length as nat == count_of(n),
            parse_varint(s, old(buffer).position as int) == Some((n, p1)),
            buffer.position <= buffer.data@.len(),
            parse_varlong_seq(s, p1, length as nat) == prepend_values(
                contents@,
                parse_varlong_seq(s, buffer.position as int, (length - i) as nat),
            ),
        decreases length - i,
    {
        let ghost before = contents@;
        match i64::read_varlong(buffer) {
            Some(x) => {
                contents.push(x);
                proof {
                    let r = parse_varlong_seq(s, buffer.position as int, (length - i - 1) as nat);
                    match r {
                        Some((xs, q)) => {
                            assert(before + (seq![x] + xs) =~= before.push(x) + xs);
                        },
                        None => {},
                    }
                }
            },
            None => {
                return None;
            },
        }
        i = i + 1;
    }
    assert(contents@ + Seq::<i64>::empty() =~= contents@);
    Some(contents)
}

/// Appends a `VarInt` count, then the values as `VarLong`s.
pub fn write_varlong_list(vs: &Vec<i64>, buffer: &mut Vec<u8>)
    ensures
        final(buffer)@ == old(buffer)@ + serialize_varlong_list(vs@),
{
    let ghost start = buffer@;
    (vs.len() as i32).write_varint(buffer);
    let ghost mid = buffer@;
    let mut i: usize = 0;
    while i < vs.len()
        invariant
            mid == start + spec_varint(vs@.len() as i32),
            i <= vs@.len(),
            buffer@ == mid + serialize_varlong_seq(vs@.take(i as int)),
        decreases vs@.len() - i,
    {
        vs[i].write_varlong(buffer);
        proof {
            assert(vs@.take(i + 1) =~= vs@.take(i as int).push(vs@[i as int]));
            lemma_serialize_varlong_seq_push(vs@.take(i as int), vs@[i as int]);
            assert(buffer@ =~= mid + serialize_varlong_seq(vs@.take(i + 1)));
        }
        i = i + 1;
    }
    assert(vs@.take(vs@.len() as int) =~= vs@);
}

/// The bytes of an optional byte vector, when there is one.
pub open spec fn bytes_view(v: &Option<Vec<u8>>) -> Option<Seq<u8>> {
    match v {
        Some(d) => Some(d@),
        None => None,
    }
}

/// A flag byte, then, when the flag is set, everything to the end of the input.
pub open spec fn parse_flagged_rest(s: Seq<u8>, pos: int) -> Option<(Option<Seq<u8>>, int)> {
    match bool::spec_parse(s, pos) {
        Some((true, p)) => match parse_rest(s, p) {
            Some((d, q)) => Some((Some(d), q)),
            None => None,
        },
        Some((false, p)) => Some((None, p)),
        None => None,
    }
}

pub open spec fn serialize_flagged_rest(v: Option<Seq<u8>>) -> Seq<u8> {
    match v {
        Some(d) => seq![1u8] + d,
        None => seq![0u8],
    }
}

pub proof fn lemma_flagged_rest_roundtrip(s: Seq<u8>, pos: int, v: Option<Seq<u8>>)
    requires
        holds_at(s, pos, serialize_flagged_rest(v)),
        v is Some ==> s.len() == pos + serialize_flagged_rest(v).len(),
    ensures
        parse_flagged_rest(s, pos) == Some((v, pos + serialize_flagged_rest(v).len())),
{
    match v {
        Some(d) => {
            lemma_holds_at_split(s, pos, seq![1u8], d);
            bool::lemma_roundtrip(s, pos, true);
            lemma_rest_roundtrip(s, pos + 1, d);
        },
        None => {
            bool::lemma_roundtrip(s, pos, false);
        },
    }
}

/// Reads a flag byte, then, when it is set, every byte that is left.
pub fn read_flagged_rest(buffer: &mut Cursor) -> (res: Option<Option<Vec<u8>>>)
    ensures
        final(buffer).data@ == old(buffer).data@,
        match res {
            Some(v) => parse_flagged_rest(old(buffer).data@, old(buffer).position as int) == Some(
                (bytes_view(&v), final(buffer).position as int),
            ),
            None => parse_flagged_rest(old(buffer).data@, old(buffer).position as int) is None,
        },
{
    let present = match bool::read_buf(buffer) {
        Some(b) => b,
        None => {
            return None;
        },
    };
    if present {
        Some(Some(read_rest(buffer)))
    } else {
        Some(None)
    }
}

/// Appends the flag byte, then the bytes when there are some.
pub fn write_flagged_rest(v: &Option<Vec<u8>>, buffer: &mut Vec<u8>)
    ensures
        final(buffer)@ == old(buffer)@ + serialize_flagged_rest(bytes_view(v)),
{
    match v {
        Some(d) => {
            true.write_buf(buffer);
            write_bytes(d, buffer);
            assert(buffer@ =~= old(buffer)@ + serialize_flagged_rest(bytes_view(v)));
        },
        None => {
            false.write_buf(buffer);
        },
    }
}

/// A copy of the bytes from `from` up to `to`.
pub fn copy_range(data: &[u8], from: usize, to: usize) -> (res: Vec<u8>)
    requires
        from <= to <= data@.len(),
    ensures
        res@ == data@.subrange(from as int, to as int),
{
    let mut out: Vec<u8> = Vec::with_capacity(to - from);
    let mut i: usize = from;
    while i < to
        invariant
            from <= i <= to,
            to <= data@.len(),
            out@ == data@.subrange(from as int, i as int),
        decreases to - i,
    {
        out.push(data[i]);
        i = i + 1;
        assert(out@ =~= data@.subrange(from as int, i as int));
    }
    out
}

impl<T: Buffer> Buffer for std::sync::Arc<T> {
    open spec fn spec_parse(s: Seq<u8>, pos: int) -> Option<(<T as DeepView>::V, int)> {
        T::spec_parse(s, pos)
    }

    open spec fn spec_serialize(v: <T as DeepView>::V) -> Seq<u8> {
        T::spec_serialize(v)
    }

    open spec fn spec_wf(v: <T as DeepView>::V) -> bool {
        T::spec_wf(v)
    }

    open spec fn spec_stop(s: Seq<u8>, pos: int) -> int {
        T::spec_stop(s, pos)
    }

    proof fn lemma_roundtrip(s: Seq<u8>, pos: int, v: <T as DeepView>::V) {
        T::lemma_roundtrip(s, pos, v);
    }

    fn read_buf(buffer: &mut Cursor) -> (res: Option<std::sync::Arc<T>>) {
        match T::read_buf(buffer) {
            Some(x) => Some(std::sync::Arc::new(x)),
            None => None,
        }
    }

    fn write_buf(&self, buffer: &mut Vec<u8>) {
        T::write_buf(&**self, buffer);
    }
}

} // verus!
