use vstd::prelude::*;

verus! {

/// A fixed-size element of a pixel buffer, laid out as bytes in
/// little-endian order.
pub trait Texel: Sized + Copy {
    /// Number of bytes an element takes.
    spec fn size() -> nat;

    /// The bytes of an element.
    spec fn bytes(self) -> Seq<u8>;

    /// The element that a run of `size()` bytes holds.
    spec fn from_bytes(b: Seq<u8>) -> Self;

    /// An element's bytes are `size()` long and read back to the element.
    proof fn lemma_bytes(x: Self)
        ensures
            x.bytes().len() == Self::size(),
            Self::from_bytes(x.bytes()) == x,
    ;

    /// Every element takes at least one byte.
    proof fn lemma_size()
        ensures
            Self::size() > 0,
    ;

    fn byte_size() -> (r: usize)
        ensures
            r as nat == Self::size(),
            r > 0,
    ;

    fn push_bytes(&self, out: &mut Vec<u8>)
        ensures
            final(out)@ == old(out)@ + self.bytes(),
    ;

    fn read(b: &[u8], at: usize) -> (r: Self)
        requires
            at + Self::size() <= b@.len(),
        ensures
            r == Self::from_bytes(b@.subrange(at as int, at + Self::size())),
    ;
}

impl Texel for u8 {
    open spec fn size() -> nat {
        1
    }

    open spec fn bytes(self) -> Seq<u8> {
        seq![self]
    }

    open spec fn from_bytes(b: Seq<u8>) -> u8 {
        b[0]
    }

    proof fn lemma_bytes(x: u8) {
    }

    proof fn lemma_size() {
    }

    fn byte_size() -> (r: usize) {
        1
    }

    fn push_bytes(&self, out: &mut Vec<u8>) {
        out.push(*self);
    }

    fn read(b: &[u8], at: usize) -> (r: u8) {
        b[at]
    }
}

impl Texel for u16 {
    open spec fn size() -> nat {
        2
    }

    open spec fn bytes(self) -> Seq<u8> {
        seq![(self & 0xff) as u8, (self >> 8u16) as u8]
    }

    open spec fn from_bytes(b: Seq<u8>) -> u16 {
        (b[0] as u16) | ((b[1] as u16) << 8u16)
    }

    proof fn lemma_bytes(x: u16) {
        let lo = (x & 0xff) as u8;
        let hi = (x >> 8u16) as u8;
        assert(((lo as u16) | ((hi as u16) << 8u16)) == x) by (bit_vector)
            requires
                lo == (x & 0xff) as u8,
                hi == (x >> 8u16) as u8,
        ;
    }

    proof fn lemma_size() {
    }

    fn byte_size() -> (r: usize) {
        2
    }

    fn push_bytes(&self, out: &mut Vec<u8>) {
        out.push((*self & 0xff) as u8);
        out.push((*self >> 8u16) as u8);
        assert(final(out)@ =~= old(out)@ + self.bytes());
    }

    fn read(b: &[u8], at: usize) -> (r: u16) {
        (b[at] as u16) | ((b[at + 1] as u16) << 8u16)
    }
}

impl Texel for u32 {
    open spec fn size() -> nat {
        4
    }

    open spec fn bytes(self) -> Seq<u8> {
        seq![
            (self & 0xff) as u8,
            ((self >> 8u32) & 0xff) as u8,
            ((self >> 16u32) & 0xff) as u8,
            (self >> 24u32) as u8,
        ]
    }

    open spec fn from_bytes(b: Seq<u8>) -> u32 {
        (b[0] as u32) | ((b[1] as u32) << 8u32) | ((b[2] as u32) << 16u32) | ((b[3] as u32)
            << 24u32)
    }

    proof fn lemma_bytes(x: u32) {
        let b0 = (x & 0xff) as u8;
        let b1 = ((x >> 8u32) & 0xff) as u8;
        let b2 = ((x >> 16u32) & 0xff) as u8;
        let b3 = (x >> 24u32) as u8;
        assert(((b0 as u32) | ((b1 as u32) << 8u32) | ((b2 as u32) << 16u32) | ((b3 as u32)
            << 24u32)) == x) by (bit_vector)
            requires
                b0 == (x & 0xff) as u8,
                b1 == ((x >> 8u32) & 0xff) as u8,
                b2 == ((x >> 16u32) & 0xff) as u8,
                b3 == (x >> 24u32) as u8,
        ;
    }

    proof fn lemma_size() {
    }

    fn byte_size() -> (r: usize) {
        4
    }

    fn push_bytes(&self, out: &mut Vec<u8>) {
        let x = *self;
        out.push((x & 0xff) as u8);
        out.push(((x >> 8u32) & 0xff) as u8);
        out.push(((x >> 16u32) & 0xff) as u8);
        out.push((x >> 24u32) as u8);
        assert(final(out)@ =~= old(out)@ + self.bytes());
    }

    fn read(b: &[u8], at: usize) -> (r: u32) {
        (b[at] as u32) | ((b[at + 1] as u32) << 8u32) | ((b[at + 2] as u32) << 16u32) | ((b[at
            + 3] as u32) << 24u32)
    }
}

impl Texel for u64 {
    open spec fn size() -> nat {
        8
    }

    open spec fn bytes(self) -> Seq<u8> {
        seq![
            (self & 0xff) as u8,
            ((self >> 8u64) & 0xff) as u8,
            ((self >> 16u64) & 0xff) as u8,
            ((self >> 24u64) & 0xff) as u8,
            ((self >> 32u64) & 0xff) as u8,
            ((self >> 40u64) & 0xff) as u8,
            ((self >> 48u64) & 0xff) as u8,
            ((self >> 56u64) & 0xff) as u8,
        ]
    }

    open spec fn from_bytes(b: Seq<u8>) -> u64 {
        (b[0] as u64) | ((b[1] as u64) << 8u64) | ((b[2] as u64) << 16u64) | ((b[3] as u64) << 24u64) | ((b[4] as u64) << 32u64) | ((b[5] as u64) << 40u64) | ((b[6] as u64) << 48u64) | ((b[7] as u64) << 56u64)
    }

    proof fn lemma_bytes(x: u64) {
        let b0 = (x & 0xff) as u8;
        let b1 = ((x >> 8u64) & 0xff) as u8;
        let b2 = ((x >> 16u64) & 0xff) as u8;
        let b3 = ((x >> 24u64) & 0xff) as u8;
        let b4 = ((x >> 32u64) & 0xff) as u8;
        let b5 = ((x >> 40u64) & 0xff) as u8;
        let b6 = ((x >> 48u64) & 0xff) as u8;
        let b7 = ((x >> 56u64) & 0xff) as u8;
        assert(((b0 as u64) | ((b1 as u64) << 8u64) | ((b2 as u64) << 16u64) | ((b3 as u64) << 24u64) | ((b4 as u64) << 32u64) | ((b5 as u64) << 40u64) | ((b6 as u64) << 48u64) | ((b7 as u64) << 56u64)) == x) by (bit_vector)
            requires
                b0 == (x & 0xff) as u8,
                b1 == ((x >> 8u64) & 0xff) as u8,
                b2 == ((x >> 16u64) & 0xff) as u8,
                b3 == ((x >> 24u64) & 0xff) as u8,
                b4 == ((x >> 32u64) & 0xff) as u8,
                b5 == ((x >> 40u64) & 0xff) as u8,
                b6 == ((x >> 48u64) & 0xff) as u8,
                b7 == ((x >> 56u64) & 0xff) as u8,
        ;
    }

    proof fn lemma_size() {
    }

    fn byte_size() -> (r: usize) {
        8
    }

    fn push_bytes(&self, out: &mut Vec<u8>) {
        let x = *self;
        out.push((x & 0xff) as u8);
        out.push(((x >> 8u64) & 0xff) as u8);
        out.push(((x >> 16u64) & 0xff) as u8);
        out.push(((x >> 24u64) & 0xff) as u8);
        out.push(((x >> 32u64) & 0xff) as u8);
        out.push(((x >> 40u64) & 0xff) as u8);
        out.push(((x >> 48u64) & 0xff) as u8);
        out.push(((x >> 56u64) & 0xff) as u8);
        assert(final(out)@ =~= old(out)@ + self.bytes());
    }

    fn read(b: &[u8], at: usize) -> (r: u64) {
        (b[at] as u64) | ((b[at + 1] as u64) << 8u64) | ((b[at + 2] as u64) << 16u64) | ((b[at + 3] as u64) << 24u64) | ((b[at + 4] as u64) << 32u64) | ((b[at + 5] as u64) << 40u64) | ((b[at + 6] as u64) << 48u64) | ((b[at + 7] as u64) << 56u64)
    }
}

/// The bytes of a sequence of elements, one element after the other.
pub open spec fn bytes_of<T: Texel>(s: Seq<T>) -> Seq<u8>
    decreases s.len(),
{
    if s.len() == 0 {
        Seq::empty()
    } else {
        bytes_of(s.drop_last()) + s.last().bytes()
    }
}

/// The elements that a byte sequence holds, `T::size()` bytes each; a
/// trailing run shorter than an element is not read.
pub open spec fn texels_of<T: Texel>(b: Seq<u8>) -> Seq<T> {
    Seq::new(
        b.len() / T::size(),
        |i: int| T::from_bytes(b.subrange(i * T::size(), (i + 1) * T::size())),
    )
}

/// A buffer of elements, either borrowed from the caller or owned.
pub enum TexelData<'a, T> {
    Borrowed(&'a [T]),
    Owned(Vec<T>),
}

impl<'a, T> TexelData<'a, T> {
    pub open spec fn view(&self) -> Seq<T> {
        match self {
            TexelData::Borrowed(s) => s@,
            TexelData::Owned(v) => v@,
        }
    }
}

/// The byte buffer holds `size()` bytes for each element.
pub proof fn lemma_bytes_of_len<T: Texel>(s: Seq<T>)
    ensures
        bytes_of(s).len() == s.len() * T::size(),
    decreases s.len(),
{
    if s.len() > 0 {
        lemma_bytes_of_len(s.drop_last());
        T::lemma_bytes(s.last());
        assert((s.len() - 1) * T::size() + T::size() == s.len() * T::size())
            by (nonlinear_arith);
    }
}

/// Bytes of the element at index `i` stand at `i * size()`.
proof fn lemma_bytes_of_at<T: Texel>(s: Seq<T>, i: int)
    requires
        0 <= i < s.len(),
    ensures
        bytes_of(s).subrange(i * T::size(), (i + 1) * T::size()) == s[i].bytes(),
    decreases s.len(),
{
    let k = T::size() as int;
    let init = s.drop_last();
    lemma_bytes_of_len(init);
    T::lemma_bytes(s.last());
    T::lemma_size();
    assert(bytes_of(s) == bytes_of(init) + s.last().bytes());
    if i == s.len() - 1 {
        assert(i * k == init.len() * k);
        assert((i + 1) * k == i * k + k) by (nonlinear_arith);
        assert(bytes_of(s).subrange(i * k, (i + 1) * k) =~= s.last().bytes());
    } else {
        lemma_bytes_of_at(init, i);
        assert(init[i] == s[i]);
        let a = bytes_of(init);
        let lo = i * k;
        let hi = (i + 1) * k;
        assert(0 <= lo <= hi <= a.len()) by (nonlinear_arith)
            requires
                0 <= i,
                i + 1 <= init.len(),
                k >= 0,
                lo == i * k,
                hi == (i + 1) * k,
                a.len() == init.len() * k,
        ;
        assert(bytes_of(s).subrange(lo, hi) =~= a.subrange(lo, hi));
    }
}

/// Reinterpreting elements as bytes and reading the bytes back as elements
/// gives back the same elements.
pub proof fn lemma_cast_round_trip<T: Texel>(s: Seq<T>)
    ensures
        texels_of::<T>(bytes_of(s)) == s,
{
    let k = T::size() as int;
    lemma_bytes_of_len(s);
    T::lemma_size();
    assert(s.len() * k / k == s.len()) by (nonlinear_arith)
        requires
            k > 0,
    ;
    assert forall|i: int| 0 <= i < s.len() implies texels_of::<T>(bytes_of(s))[i] == s[i] by {
        lemma_bytes_of_at(s, i);
        T::lemma_bytes(s[i]);
    }
    assert(texels_of::<T>(bytes_of(s)) =~= s);
}

/// Copies a slice of elements into a byte buffer.
pub fn cast_slice<T: Texel>(slice: &[T]) -> (r: Vec<u8>)
    ensures
        r@ == bytes_of(slice@),
        r@.len() == slice@.len() * T::size(),
{
    let mut out: Vec<u8> = Vec::new();
    let mut i: usize = 0;
    while i < slice.len()
        invariant
            i <= slice@.len(),
            out@ == bytes_of(slice@.take(i as int)),
        decreases slice@.len() - i,
    {
        let x = slice[i];
        x.push_bytes(&mut out);
        assert(slice@.take(i + 1).drop_last() =~= slice@.take(i as int));
        i = i + 1;
    }
    assert(slice@.take(i as int) =~= slice@);
    proof {
        lemma_bytes_of_len(slice@);
    }
    out
}

/// Turns an owned buffer of elements into a byte buffer.
pub fn cast_vec<T: Texel>(vec: Vec<T>) -> (r: Vec<u8>)
    ensures
        r@ == bytes_of(vec@),
        r@.len() == vec@.len() * T::size(),
{
    cast_slice(vec.as_slice())
}

/// Turns a borrowed or owned buffer of elements into a byte buffer.
pub fn cast_cow<T: Texel>(data: TexelData<'_, T>) -> (r: Vec<u8>)
    ensures
        r@ == bytes_of(data.view()),
        r@.len() == data.view().len() * T::size(),
{
    match data {
        TexelData::Borrowed(slice) => cast_slice(slice),
        TexelData::Owned(vec) => cast_vec(vec),
    }
}

/// Reads a byte buffer back as elements.
pub fn cast_back<T: Texel>(bytes: &[u8]) -> (r: Vec<T>)
    ensures
        r@ == texels_of::<T>(bytes@),
{
    let k = T::byte_size();
    let n = bytes.len() / k;
    let mut out: Vec<T> = Vec::new();
    let mut i: usize = 0;
    while i < n
        invariant
            k as nat == T::size(),
            k > 0,
            n == bytes@.len() / (k as nat),
            i <= n,
            out@ =~= texels_of::<T>(bytes@).take(i as int),
        decreases n - i,
    {
        assert((i + 1) * k <= n * k) by (nonlinear_arith)
            requires
                i < n,
                k > 0,
        ;
        assert(n * k <= bytes@.len()) by (nonlinear_arith)
            requires
                n == bytes@.len() / (k as nat),
                k > 0,
        ;
        assert(i * k + k <= bytes@.len()) by (nonlinear_arith)
            requires
                (i + 1) * k <= n * k,
                n * k <= bytes@.len(),
        ;
        assert(bytes@.len() == bytes.len());
        assert(i * k + k == (i + 1) * k) by (nonlinear_arith);
        let x = T::read(bytes, i * k);
        out.push(x);
        i = i + 1;
    }
    out
}

} // verus!
