//! Primitive byte-decoding layer.
//!
//! A [`ByteSource`] is a forward-only cursor over an owned byte buffer; its
//! view is the sequence of bytes not yet consumed.  Every primitive read
//! consumes exactly the bytes of one value, interpreted little-endian, and
//! is specified against the pure `take_*` parsing functions below, which map
//! a byte sequence to the decoded value and the remaining suffix.
//!
//! Floating-point fields of the container format are decoded as their raw
//! IEEE-754 little-endian bit patterns (`u32`/`u64`); this layer never does
//! floating-point arithmetic.

use vstd::prelude::*;

use crate::error::DecodeError;

verus! {

/// Little-endian value of a byte sequence: byte 0 is least significant.
pub open spec fn le_val(s: Seq<u8>) -> nat
    decreases s.len(),
{
    if s.len() == 0 {
        0
    } else {
        (s[0] + 256 * le_val(s.skip(1))) as nat
    }
}

/// `b` is a remainder of `a` after consuming a prefix.
pub open spec fn suffix_of(b: Seq<u8>, a: Seq<u8>) -> bool {
    b.len() <= a.len() && b == a.skip(a.len() - b.len())
}

/// Parse a fixed-width little-endian unsigned integer of `n` bytes.
pub open spec fn take_le(s: Seq<u8>, n: nat) -> Option<(nat, Seq<u8>)> {
    if s.len() >= n {
        Some((le_val(s.take(n as int)), s.skip(n as int)))
    } else {
        None
    }
}

pub open spec fn take_u8(s: Seq<u8>) -> Option<(u8, Seq<u8>)> {
    match take_le(s, 1) {
        Some((v, r)) => Some((v as u8, r)),
        None => None,
    }
}

pub open spec fn take_u16(s: Seq<u8>) -> Option<(u16, Seq<u8>)> {
    match take_le(s, 2) {
        Some((v, r)) => Some((v as u16, r)),
        None => None,
    }
}

pub open spec fn take_u32(s: Seq<u8>) -> Option<(u32, Seq<u8>)> {
    match take_le(s, 4) {
        Some((v, r)) => Some((v as u32, r)),
        None => None,
    }
}

pub open spec fn take_u64(s: Seq<u8>) -> Option<(u64, Seq<u8>)> {
    match take_le(s, 8) {
        Some((v, r)) => Some((v as u64, r)),
        None => None,
    }
}

/// Parse a cross-reference pointer: class (`u16`) then instance (`u32`).
pub open spec fn take_ptr(s: Seq<u8>) -> Option<((u16, u32), Seq<u8>)> {
    match take_u16(s) {
        Some((c, r)) => match take_u32(r) {
            Some((i, r2)) => Some(((c, i), r2)),
            None => None,
        },
        None => None,
    }
}

/// Parse `n` raw bytes.
pub open spec fn take_raw(s: Seq<u8>, n: nat) -> Option<(Seq<u8>, Seq<u8>)> {
    if s.len() >= n {
        Some((s.take(n as int), s.skip(n as int)))
    } else {
        None
    }
}

/// The little-endian value of `s` is below 2^(8 * len).
pub proof fn lemma_le_val_bound(s: Seq<u8>)
    ensures
        le_val(s) < vstd::arithmetic::power2::pow2(8 * s.len()),
    decreases s.len(),
{
    vstd::arithmetic::power2::lemma_pow2_pos(8 * s.len());
    if s.len() == 0 {
    } else {
        lemma_le_val_bound(s.skip(1));
        vstd::arithmetic::power2::lemma_pow2_adds(8, 8 * (s.len() - 1) as nat);
        vstd::arithmetic::power2::lemma2_to64();
        let p = vstd::arithmetic::power2::pow2(8 * (s.len() - 1) as nat);
        assert(le_val(s) == s[0] + 256 * le_val(s.skip(1)));
        assert(256 * le_val(s.skip(1)) <= 256 * (p - 1)) by (nonlinear_arith)
            requires
                le_val(s.skip(1)) <= p - 1,
                p >= 1,
        ;
        assert(s[0] + 256 * le_val(s.skip(1)) < 256 * p);
    }
}

/// A forward-only byte source: an owned buffer and a read position.
/// Its view is the sequence of bytes still to be consumed.
pub struct ByteSource {
    data: Vec<u8>,
    pos: usize,
}

impl View for ByteSource {
    type V = Seq<u8>;

    closed spec fn view(&self) -> Seq<u8> {
        self.data@.skip(self.pos as int)
    }
}

impl ByteSource {
    #[verifier::type_invariant]
    spec fn type_inv(self) -> bool {
        self.pos <= self.data.len()
    }

    /// Wrap an owned buffer; nothing has been consumed yet.
    pub fn new(data: Vec<u8>) -> (r: ByteSource)
        ensures
            r@ == data@,
    {
        let r = ByteSource { data, pos: 0 };
        proof {
            assert(r@ =~= r.data@);
        }
        r
    }

    /// How many bytes are left to read.
    pub fn remaining(&self) -> (r: usize)
        ensures
            r == self@.len(),
    {
        proof {
            use_type_invariant(self);
        }
        self.data.len() - self.pos
    }

    /// Consume one byte.
    pub fn read_one_byte(&mut self) -> (r: Result<u8, DecodeError>)
        ensures
            match r {
                Ok(v) => take_u8(old(self)@) == Some((v, final(self)@)),
                Err(e) => {
                    &&& e == DecodeError::TruncatedStream
                    &&& take_u8(old(self)@) is None
                    &&& final(self)@ == old(self)@
                },
            },
    {
        proof {
            use_type_invariant(&*self);
        }
        if self.pos < self.data.len() {
            let b = self.data[self.pos];
            self.pos = self.pos + 1;
            proof {
                assert(old(self)@.take(1) =~= seq![b]);
                assert(old(self)@.take(1).skip(1) =~= Seq::<u8>::empty());
                assert(le_val(Seq::<u8>::empty()) == 0);
                assert(le_val(old(self)@.take(1)) == b);
                assert(self@ =~= old(self)@.skip(1));
            }
            Ok(b)
        } else {
            Err(DecodeError::TruncatedStream)
        }
    }

    /// Consume `n` bytes (`n <= 8`) as one little-endian unsigned integer.
    fn read_le(&mut self, n: usize) -> (r: Result<u64, DecodeError>)
        requires
            1 <= n <= 8,
        ensures
            match r {
                Ok(v) => take_le(old(self)@, n as nat) == Some((v as nat, final(self)@)),
                Err(e) => {
                    &&& e == DecodeError::TruncatedStream
                    &&& old(self)@.len() < n
                    &&& final(self)@ == old(self)@
                },
            },
    {
        proof {
            use_type_invariant(&*self);
        }
        if self.data.len() - self.pos < n {
            return Err(DecodeError::TruncatedStream);
        }
        let ghost t = self@.take(n as int);
        let mut v: u64 = 0;
        let mut i: usize = n;
        proof {
            assert(t.skip(n as int) =~= Seq::<u8>::empty());
            vstd::arithmetic::power2::lemma2_to64();
        }
        while i > 0
            invariant
                i <= n <= 8,
                n <= self@.len(),
                t == self@.take(n as int),
                self.type_inv(),
                v == le_val(t.skip(i as int)),
                v < vstd::arithmetic::power2::pow2(8 * (n - i) as nat),
            decreases i,
        {
            proof {
                vstd::arithmetic::power2::lemma2_to64();
                vstd::arithmetic::power2::lemma_pow2_adds(8 * (n - i) as nat, 8);
                assert(v * 256 + 255 < vstd::arithmetic::power2::pow2(
                    8 * (n - i) as nat) * 256) by (nonlinear_arith)
                    requires
                        v < vstd::arithmetic::power2::pow2(8 * (n - i) as nat),
                ;
                assert(vstd::arithmetic::power2::pow2(8 * (n - i) as nat) * 256
                    <= vstd::arithmetic::power2::pow2(64)) by {
                    if n - i < 7 {
                        vstd::arithmetic::power2::lemma_pow2_strictly_increases(
                            (8 * (n - i) + 8) as nat, 64);
                    }
                };
            }
            i = i - 1;
            let b = self.data[self.pos + i];
            proof {
                assert(t[i as int] == b);
                assert(t.skip(i as int)[0] == t[i as int]);
                assert(t.skip(i as int).skip(1) =~= t.skip(i + 1));
                assert(le_val(t.skip(i as int)) == t[i as int] + 256 * le_val(t.skip(i + 1)));
            }
            v = v * 256 + (b as u64);
        }
        proof {
            assert(t.skip(0) =~= t);
        }
        self.pos = self.pos + n;
        proof {
            assert(self@ =~= old(self)@.skip(n as int));
        }
        Ok(v)
    }

    /// Consume 2 bytes as a little-endian `u16`.
    pub fn read_u16(&mut self) -> (r: Result<u16, DecodeError>)
        ensures
            match r {
                Ok(v) => take_u16(old(self)@) == Some((v, final(self)@)),
                Err(e) => {
                    &&& e == DecodeError::TruncatedStream
                    &&& take_u16(old(self)@) is None
                    &&& final(self)@ == old(self)@
                },
            },
    {
        proof {
            if old(self)@.len() >= 2 {
                lemma_le_val_bound(old(self)@.take(2));
                vstd::arithmetic::power2::lemma2_to64();
            }
        }
        match self.read_le(2) {
            Ok(v) => Ok(v as u16),
            Err(e) => Err(e),
        }
    }

    /// Consume 4 bytes as a little-endian `u32`.
    pub fn read_u32(&mut self) -> (r: Result<u32, DecodeError>)
        ensures
            match r {
                Ok(v) => take_u32(old(self)@) == Some((v, final(self)@)),
                Err(e) => {
                    &&& e == DecodeError::TruncatedStream
                    &&& take_u32(old(self)@) is None
                    &&& final(self)@ == old(self)@
                },
            },
    {
        proof {
            if old(self)@.len() >= 4 {
                lemma_le_val_bound(old(self)@.take(4));
                vstd::arithmetic::power2::lemma2_to64();
            }
        }
        match self.read_le(4) {
            Ok(v) => Ok(v as u32),
            Err(e) => Err(e),
        }
    }

    /// Consume 8 bytes as a little-endian `u64`.
    pub fn read_u64(&mut self) -> (r: Result<u64, DecodeError>)
        ensures
            match r {
                Ok(v) => take_u64(old(self)@) == Some((v, final(self)@)),
                Err(e) => {
                    &&& e == DecodeError::TruncatedStream
                    &&& take_u64(old(self)@) is None
                    &&& final(self)@ == old(self)@
                },
            },
    {
        proof {
            if old(self)@.len() >= 8 {
                lemma_le_val_bound(old(self)@.take(8));
                vstd::arithmetic::power2::lemma2_to64();
            }
        }
        match self.read_le(8) {
            Ok(v) => Ok(v as u64),
            Err(e) => Err(e),
        }
    }

    /// Consume 4 bytes as the little-endian bit pattern of an IEEE-754
    /// binary32 value; the bits are handed back uninterpreted.
    pub fn read_f32(&mut self) -> (r: Result<u32, DecodeError>)
        ensures
            match r {
                Ok(v) => take_u32(old(self)@) == Some((v, final(self)@)),
                Err(e) => {
                    &&& e == DecodeError::TruncatedStream
                    &&& take_u32(old(self)@) is None
                    &&& final(self)@ == old(self)@
                },
            },
    {
        self.read_u32()
    }

    /// Consume 8 bytes as the little-endian bit pattern of an IEEE-754
    /// binary64 value; the bits are handed back uninterpreted.
    pub fn read_f64(&mut self) -> (r: Result<u64, DecodeError>)
        ensures
            match r {
                Ok(v) => take_u64(old(self)@) == Some((v, final(self)@)),
                Err(e) => {
                    &&& e == DecodeError::TruncatedStream
                    &&& take_u64(old(self)@) is None
                    &&& final(self)@ == old(self)@
                },
            },
    {
        self.read_u64()
    }

    /// Consume a cross-reference pointer: class (`u16`) then instance (`u32`).
    pub fn read_ptr(&mut self) -> (r: Result<(u16, u32), DecodeError>)
        ensures
            match r {
                Ok(p) => take_ptr(old(self)@) == Some((p, final(self)@)),
                Err(e) => {
                    &&& e == DecodeError::TruncatedStream
                    &&& take_ptr(old(self)@) is None
                    &&& final(self)@ == old(self)@
                },
            },
    {
        if self.remaining() < 6 {
            proof {
                if old(self)@.len() >= 2 {
                    assert(old(self)@.skip(2).len() < 4);
                }
            }
            return Err(DecodeError::TruncatedStream);
        }
        let c = match self.read_u16() {
            Ok(c) => c,
            Err(e) => {
                return Err(e);
            },
        };
        let i = match self.read_u32() {
            Ok(i) => i,
            Err(e) => {
                return Err(e);
            },
        };
        Ok((c, i))
    }

    /// Consume `n` raw bytes and hand them back uninterpreted.
    pub fn read_raw(&mut self, n: usize) -> (r: Result<Vec<u8>, DecodeError>)
        ensures
            match r {
                Ok(v) => take_raw(old(self)@, n as nat) == Some((v@, final(self)@)),
                Err(e) => {
                    &&& e == DecodeError::TruncatedStream
                    &&& take_raw(old(self)@, n as nat) is None
                    &&& final(self)@ == old(self)@
                },
            },
    {
        proof {
            use_type_invariant(&*self);
        }
        if self.data.len() - self.pos < n {
            return Err(DecodeError::TruncatedStream);
        }
        let mut out: Vec<u8> = Vec::new();
        let mut i: usize = 0;
        while i < n
            invariant
                i <= n,
                n <= self@.len(),
                self.type_inv(),
                out@ =~= self@.take(n as int).take(i as int),
            decreases n - i,
        {
            out.push(self.data[self.pos + i]);
            i = i + 1;
        }
        proof {
            assert(self@.take(n as int).take(n as int) =~= self@.take(n as int));
        }
        self.pos = self.pos + n;
        proof {
            assert(self@ =~= old(self)@.skip(n as int));
        }
        Ok(out)
    }

    /// Consume `n` bytes without interpreting them.
    pub fn skip_raw(&mut self, n: usize) -> (r: Result<(), DecodeError>)
        ensures
            match r {
                Ok(()) => {
                    &&& old(self)@.len() >= n
                    &&& final(self)@ == old(self)@.skip(n as int)
                },
                Err(e) => {
                    &&& e == DecodeError::TruncatedStream
                    &&& old(self)@.len() < n
                    &&& final(self)@ == old(self)@
                },
            },
    {
        proof {
            use_type_invariant(&*self);
        }
        if self.data.len() - self.pos < n {
            return Err(DecodeError::TruncatedStream);
        }
        self.pos = self.pos + n;
        proof {
            assert(self@ =~= old(self)@.skip(n as int));
        }
        Ok(())
    }

    /// Consume a length-prefixed text field: a `u16` byte count followed by
    /// that many bytes, which must be valid UTF-8.  On any failure the
    /// source is left where it stood.
    pub fn read_one_string(&mut self) -> (r: Result<Vec<u8>, DecodeError>)
        ensures
            match r {
                Ok(v) => take_text(old(self)@) == Some((v@, final(self)@)),
                Err(e) => {
                    &&& take_text(old(self)@) is None
                    &&& final(self)@ == old(self)@
                    &&& (e == DecodeError::TruncatedStream || e == DecodeError::MalformedText)
                    &&& (e == DecodeError::TruncatedStream <==> (old(self)@.len() < 2
                        || old(self)@.len() < 2 + le_val(old(self)@.take(2))))
                },
            },
    {
        proof {
            use_type_invariant(&*self);
        }
        if self.data.len() - self.pos < 2 {
            return Err(DecodeError::TruncatedStream);
        }
        let b0 = self.data[self.pos];
        let b1 = self.data[self.pos + 1];
        let n: usize = (b0 as usize) + 256 * (b1 as usize);
        proof {
            let t = self@.take(2);
            assert(t[0] == b0 && t[1] == b1);
            assert(t.skip(1) =~= seq![b1]);
            assert(t.skip(1).skip(1) =~= Seq::<u8>::empty());
            assert(le_val(Seq::<u8>::empty()) == 0);
            assert(le_val(t.skip(1)) == b1);
            assert(le_val(t) == n);
        }
        if self.data.len() - self.pos - 2 < n {
            return Err(DecodeError::TruncatedStream);
        }
        let mut out: Vec<u8> = Vec::new();
        let mut i: usize = 0;
        let ghost body = self@.skip(2).take(n as int);
        while i < n
            invariant
                i <= n,
                2 + n <= self@.len(),
                self.type_inv(),
                body == self@.skip(2).take(n as int),
                out@ =~= body.take(i as int),
            decreases n - i,
        {
            out.push(self.data[self.pos + 2 + i]);
            proof {
                assert(body[i as int] == self@[2 + i]);
            }
            i = i + 1;
        }
        proof {
            assert(out@ =~= body);
        }
        if !utf8_ok(&out) {
            return Err(DecodeError::MalformedText);
        }
        self.pos = self.pos + 2 + n;
        proof {
            assert(self@ =~= old(self)@.skip(2 + n));
        }
        Ok(out)
    }

    /// Consume `n` little-endian `u16` values.
    pub fn read_n_u16(&mut self, n: usize) -> (r: Result<Vec<u16>, DecodeError>)
        ensures
            match r {
                Ok(v) => take_rep(old(self)@, n as nat, u16_p()) == Some((v@, final(self)@))
                    && suffix_of(final(self)@, old(self)@),
                Err(e) => {
                    &&& e == DecodeError::TruncatedStream
                    &&& take_rep(old(self)@, n as nat, u16_p()) is None
                    &&& suffix_of(final(self)@, old(self)@)
                },
            },
    {
        let ghost s0 = self@;
        let ghost f = u16_p();
        let mut out: Vec<u16> = Vec::new();
        let mut i: usize = 0;
        proof {
            assert(out@ =~= Seq::<u16>::empty());
            lemma_skip_suffix(s0, 0);
            assert(s0.skip(0) =~= s0);
        }
        while i < n
            invariant
                i <= n,
                out@.len() == i,
                s0 == old(self)@,
                take_rep(s0, i as nat, f) == Some((out@, self@)),
                f == u16_p(),
                suffix_of(self@, s0),
            decreases n - i,
        {
            let ghost cur = self@;
            match self.read_u16() {
                Ok(x) => {
                    proof {
                        assert(f(cur) == take_u16(cur));
                        assert(suffix_of(self@, cur)) by {
                            lemma_skip_suffix(cur, 2);
                        }
                        lemma_suffix_trans(self@, cur, s0);
                    }
                    out.push(x);
                },
                Err(e) => {
                    proof {
                        assert(f(cur) == take_u16(cur));
                        assert(take_rep(s0, (i + 1) as nat, f) is None);
                        lemma_take_rep_none(s0, (i + 1) as nat, n as nat, f);
                    }
                    return Err(e);
                },
            }
            i = i + 1;
        }
        Ok(out)
    }

    /// Consume `n` little-endian `u32` values.
    pub fn read_n_u32(&mut self, n: usize) -> (r: Result<Vec<u32>, DecodeError>)
        ensures
            match r {
                Ok(v) => take_rep(old(self)@, n as nat, u32_p()) == Some((v@, final(self)@))
                    && suffix_of(final(self)@, old(self)@),
                Err(e) => {
                    &&& e == DecodeError::TruncatedStream
                    &&& take_rep(old(self)@, n as nat, u32_p()) is None
                    &&& suffix_of(final(self)@, old(self)@)
                },
            },
    {
        let ghost s0 = self@;
        let ghost f = u32_p();
        let mut out: Vec<u32> = Vec::new();
        let mut i: usize = 0;
        proof {
            assert(out@ =~= Seq::<u32>::empty());
            lemma_skip_suffix(s0, 0);
            assert(s0.skip(0) =~= s0);
        }
        while i < n
            invariant
                i <= n,
                out@.len() == i,
                s0 == old(self)@,
                take_rep(s0, i as nat, f) == Some((out@, self@)),
                f == u32_p(),
                suffix_of(self@, s0),
            decreases n - i,
        {
            let ghost cur = self@;
            match self.read_u32() {
                Ok(x) => {
                    proof {
                        assert(f(cur) == take_u32(cur));
                        assert(suffix_of(self@, cur)) by {
                            lemma_skip_suffix(cur, 4);
                        }
                        lemma_suffix_trans(self@, cur, s0);
                    }
                    out.push(x);
                },
                Err(e) => {
                    proof {
                        assert(f(cur) == take_u32(cur));
                        assert(take_rep(s0, (i + 1) as nat, f) is None);
                        lemma_take_rep_none(s0, (i + 1) as nat, n as nat, f);
                    }
                    return Err(e);
                },
            }
            i = i + 1;
        }
        Ok(out)
    }

    /// Consume `n` little-endian `u64` values.
    pub fn read_n_u64(&mut self, n: usize) -> (r: Result<Vec<u64>, DecodeError>)
        ensures
            match r {
                Ok(v) => take_rep(old(self)@, n as nat, u64_p()) == Some((v@, final(self)@))
                    && suffix_of(final(self)@, old(self)@),
                Err(e) => {
                    &&& e == DecodeError::TruncatedStream
                    &&& take_rep(old(self)@, n as nat, u64_p()) is None
                    &&& suffix_of(final(self)@, old(self)@)
                },
            },
    {
        let ghost s0 = self@;
        let ghost f = u64_p();
        let mut out: Vec<u64> = Vec::new();
        let mut i: usize = 0;
        proof {
            assert(out@ =~= Seq::<u64>::empty());
            lemma_skip_suffix(s0, 0);
            assert(s0.skip(0) =~= s0);
        }
        while i < n
            invariant
                i <= n,
                out@.len() == i,
                s0 == old(self)@,
                take_rep(s0, i as nat, f) == Some((out@, self@)),
                f == u64_p(),
                suffix_of(self@, s0),
            decreases n - i,
        {
            let ghost cur = self@;
            match self.read_u64() {
                Ok(x) => {
                    proof {
                        assert(f(cur) == take_u64(cur));
                        assert(suffix_of(self@, cur)) by {
                            lemma_skip_suffix(cur, 8);
                        }
                        lemma_suffix_trans(self@, cur, s0);
                    }
                    out.push(x);
                },
                Err(e) => {
                    proof {
                        assert(f(cur) == take_u64(cur));
                        assert(take_rep(s0, (i + 1) as nat, f) is None);
                        lemma_take_rep_none(s0, (i + 1) as nat, n as nat, f);
                    }
                    return Err(e);
                },
            }
            i = i + 1;
        }
        Ok(out)
    }

    /// Consume `n` length-prefixed text fields.
    pub fn read_n_text(&mut self, n: usize) -> (r: Result<Vec<Vec<u8>>, DecodeError>)
        ensures
            match r {
                Ok(v) => take_rep(old(self)@, n as nat, text_p())
                    == Some((v.deep_view(), final(self)@)) && suffix_of(
                    final(self)@,
                    old(self)@,
                ),
                Err(e) => {
                    &&& (e == DecodeError::TruncatedStream || e == DecodeError::MalformedText)
                    &&& take_rep(old(self)@, n as nat, text_p()) is None
                    &&& suffix_of(final(self)@, old(self)@)
                },
            },
    {
        let ghost s0 = self@;
        let ghost f = text_p();
        let mut out: Vec<Vec<u8>> = Vec::new();
        let mut i: usize = 0;
        proof {
            assert(out.deep_view() =~= Seq::<Seq<u8>>::empty());
            lemma_skip_suffix(s0, 0);
            assert(s0.skip(0) =~= s0);
        }
        while i < n
            invariant
                i <= n,
                out@.len() == i,
                s0 == old(self)@,
                take_rep(s0, i as nat, f) == Some((out.deep_view(), self@)),
                f == text_p(),
                suffix_of(self@, s0),
            decreases n - i,
        {
            let ghost cur = self@;
            match self.read_one_string() {
                Ok(x) => {
                    proof {
                        assert(f(cur) == take_text(cur));
                        assert(suffix_of(self@, cur)) by {
                            lemma_skip_suffix(cur, cur.len() - self@.len());
                            assert(cur.skip(cur.len() - self@.len()) == self@);
                        }
                        lemma_suffix_trans(self@, cur, s0);
                    }
                    let ghost prev = out;
                    out.push(x);
                    proof {
                        lemma_deep_view_push(out, prev, x);
                    }
                },
                Err(e) => {
                    proof {
                        assert(f(cur) == take_text(cur));
                        assert(take_rep(s0, (i + 1) as nat, f) is None);
                        lemma_take_rep_none(s0, (i + 1) as nat, n as nat, f);
                    }
                    return Err(e);
                },
            }
            i = i + 1;
        }
        Ok(out)
    }

    /// Consume `n` cross-reference pointers.
    pub fn read_n_ptr(&mut self, n: usize) -> (r: Result<Vec<(u16, u32)>, DecodeError>)
        ensures
            match r {
                Ok(v) => take_rep(old(self)@, n as nat, ptr_p()) == Some((v@, final(self)@))
                    && suffix_of(final(self)@, old(self)@),
                Err(e) => {
                    &&& e == DecodeError::TruncatedStream
                    &&& take_rep(old(self)@, n as nat, ptr_p()) is None
                    &&& suffix_of(final(self)@, old(self)@)
                },
            },
    {
        let ghost s0 = self@;
        let ghost f = ptr_p();
        let mut out: Vec<(u16, u32)> = Vec::new();
        let mut i: usize = 0;
        proof {
            assert(out@ =~= Seq::<(u16, u32)>::empty());
            lemma_skip_suffix(s0, 0);
            assert(s0.skip(0) =~= s0);
        }
        while i < n
            invariant
                i <= n,
                out@.len() == i,
                s0 == old(self)@,
                take_rep(s0, i as nat, f) == Some((out@, self@)),
                f == ptr_p(),
                suffix_of(self@, s0),
            decreases n - i,
        {
            let ghost cur = self@;
            match self.read_ptr() {
                Ok(x) => {
                    proof {
                        assert(f(cur) == take_ptr(cur));
                        assert(suffix_of(self@, cur)) by {
                            lemma_skip_suffix(cur, 6);
                            assert(cur.skip(2).skip(4) =~= cur.skip(6));
                        }
                        lemma_suffix_trans(self@, cur, s0);
                    }
                    out.push(x);
                },
                Err(e) => {
                    proof {
                        assert(f(cur) == take_ptr(cur));
                        assert(take_rep(s0, (i + 1) as nat, f) is None);
                        lemma_take_rep_none(s0, (i + 1) as nat, n as nat, f);
                    }
                    return Err(e);
                },
            }
            i = i + 1;
        }
        Ok(out)
    }

    /// Consume `n` rows of `k` little-endian `u64` values each.
    pub fn read_n_u64_rows(&mut self, n: usize, k: usize) -> (r: Result<
        Vec<Vec<u64>>,
        DecodeError,
    >)
        ensures
            match r {
                Ok(v) => take_rep(old(self)@, n as nat, u64_row_p(k as nat))
                    == Some((v.deep_view(), final(self)@)) && suffix_of(
                    final(self)@,
                    old(self)@,
                ),
                Err(e) => {
                    &&& e == DecodeError::TruncatedStream
                    &&& take_rep(old(self)@, n as nat, u64_row_p(k as nat)) is None
                    &&& suffix_of(final(self)@, old(self)@)
                },
            },
    {
        let ghost s0 = self@;
        let ghost f = u64_row_p(k as nat);
        let mut out: Vec<Vec<u64>> = Vec::new();
        let mut i: usize = 0;
        proof {
            assert(out.deep_view() =~= Seq::<Seq<u64>>::empty());
            lemma_skip_suffix(s0, 0);
            assert(s0.skip(0) =~= s0);
        }
        while i < n
            invariant
                i <= n,
                out@.len() == i,
                s0 == old(self)@,
                take_rep(s0, i as nat, f) == Some((out.deep_view(), self@)),
                f == u64_row_p(k as nat),
                suffix_of(self@, s0),
            decreases n - i,
        {
            let ghost cur = self@;
            match self.read_n_u64(k) {
                Ok(x) => {
                    proof {
                        assert(f(cur) == take_rep(cur, k as nat, u64_p()));
                        lemma_take_rep_suffix_u64(cur, k as nat, x@, self@);
                        lemma_suffix_trans(self@, cur, s0);
                    }
                    let ghost prev = out;
                    out.push(x);
                    proof {
                        lemma_deep_view_push_u64(out, prev, x);
                    }
                },
                Err(e) => {
                    proof {
                        assert(f(cur) == take_rep(cur, k as nat, u64_p()));
                        assert(take_rep(s0, (i + 1) as nat, f) is None);
                        lemma_take_rep_none(s0, (i + 1) as nat, n as nat, f);
                        lemma_suffix_trans(self@, cur, s0);
                    }
                    return Err(e);
                },
            }
            i = i + 1;
        }
        Ok(out)
    }
}

/// The remainder of a successful `u64` repetition is a suffix of its input.
proof fn lemma_take_rep_suffix_u64(s: Seq<u8>, n: nat, v: Seq<u64>, r: Seq<u8>)
    requires
        take_rep(s, n, u64_p()) == Some((v, r)),
    ensures
        suffix_of(r, s),
    decreases n,
{
    if n == 0 {
        lemma_skip_suffix(s, 0);
        assert(s.skip(0) =~= s);
    } else {
        let prev = take_rep(s, (n - 1) as nat, u64_p());
        let (v1, r1) = prev.unwrap();
        lemma_take_rep_suffix_u64(s, (n - 1) as nat, v1, r1);
        assert(u64_p()(r1) == take_u64(r1));
        lemma_skip_suffix(r1, 8);
        lemma_suffix_trans(r, r1, s);
    }
}

/// A UTF-8 continuation byte.
pub open spec fn utf8_cont(b: u8) -> bool {
    0x80 <= b <= 0xBF
}

/// The byte sequence is well-formed UTF-8 (RFC 3629: surrogate code points
/// and values above U+10FFFF excluded, no overlong forms).
pub open spec fn is_utf8(s: Seq<u8>) -> bool
    decreases s.len(),
{
    if s.len() == 0 {
        true
    } else {
        let b0 = s[0];
        if b0 < 0x80 {
            is_utf8(s.skip(1))
        } else if 0xC2 <= b0 && b0 <= 0xDF {
            s.len() >= 2 && utf8_cont(s[1]) && is_utf8(s.skip(2))
        } else if b0 == 0xE0 {
            s.len() >= 3 && 0xA0 <= s[1] <= 0xBF && utf8_cont(s[2]) && is_utf8(s.skip(3))
        } else if 0xE1 <= b0 && b0 <= 0xEC {
            s.len() >= 3 && utf8_cont(s[1]) && utf8_cont(s[2]) && is_utf8(s.skip(3))
        } else if b0 == 0xED {
            s.len() >= 3 && 0x80 <= s[1] <= 0x9F && utf8_cont(s[2]) && is_utf8(s.skip(3))
        } else if 0xEE <= b0 && b0 <= 0xEF {
            s.len() >= 3 && utf8_cont(s[1]) && utf8_cont(s[2]) && is_utf8(s.skip(3))
        } else if b0 == 0xF0 {
            s.len() >= 4 && 0x90 <= s[1] <= 0xBF && utf8_cont(s[2]) && utf8_cont(s[3])
                && is_utf8(s.skip(4))
        } else if 0xF1 <= b0 && b0 <= 0xF3 {
            s.len() >= 4 && utf8_cont(s[1]) && utf8_cont(s[2]) && utf8_cont(s[3])
                && is_utf8(s.skip(4))
        } else if b0 == 0xF4 {
            s.len() >= 4 && 0x80 <= s[1] <= 0x8F && utf8_cont(s[2]) && utf8_cont(s[3])
                && is_utf8(s.skip(4))
        } else {
            false
        }
    }
}

/// Parse a length-prefixed text field: `u16` byte count, then that many
/// bytes of well-formed UTF-8.
pub open spec fn take_text(s: Seq<u8>) -> Option<(Seq<u8>, Seq<u8>)> {
    if s.len() < 2 {
        None
    } else {
        let n = le_val(s.take(2));
        if s.len() < 2 + n {
            None
        } else {
            let body = s.skip(2).take(n as int);
            if is_utf8(body) {
                Some((body, s.skip(2 + n as int)))
            } else {
                None
            }
        }
    }
}

/// Decide well-formedness of UTF-8 by a single forward scan.
pub fn utf8_ok(v: &Vec<u8>) -> (r: bool)
    ensures
        r == is_utf8(v@),
{
    let n = v.len();
    let mut i: usize = 0;
    proof {
        assert(v@.skip(0) =~= v@);
    }
    while i < n
        invariant
            i <= n == v@.len(),
            is_utf8(v@) == is_utf8(v@.skip(i as int)),
        decreases n - i,
    {
        let ghost t = v@.skip(i as int);
        let b0 = v[i];
        proof {
            assert(t[0] == b0);
        }
        let width: usize = if b0 < 0x80 {
            1
        } else if 0xC2 <= b0 && b0 <= 0xDF {
            if !(n - i > 1 && 0x80 <= v[i + 1] && v[i + 1] <= 0xBF) {
                return false;
            }
            2
        } else if b0 == 0xE0 {
            if !(n - i > 2 && 0xA0 <= v[i + 1] && v[i + 1] <= 0xBF
                && 0x80 <= v[i + 2] && v[i + 2] <= 0xBF) {
                return false;
            }
            3
        } else if 0xE1 <= b0 && b0 <= 0xEC {
            if !(n - i > 2 && 0x80 <= v[i + 1] && v[i + 1] <= 0xBF
                && 0x80 <= v[i + 2] && v[i + 2] <= 0xBF) {
                return false;
            }
            3
        } else if b0 == 0xED {
            if !(n - i > 2 && 0x80 <= v[i + 1] && v[i + 1] <= 0x9F
                && 0x80 <= v[i + 2] && v[i + 2] <= 0xBF) {
                return false;
            }
            3
        } else if 0xEE <= b0 && b0 <= 0xEF {
            if !(n - i > 2 && 0x80 <= v[i + 1] && v[i + 1] <= 0xBF
                && 0x80 <= v[i + 2] && v[i + 2] <= 0xBF) {
                return false;
            }
            3
        } else if b0 == 0xF0 {
            if !(n - i > 3 && 0x90 <= v[i + 1] && v[i + 1] <= 0xBF
                && 0x80 <= v[i + 2] && v[i + 2] <= 0xBF
                && 0x80 <= v[i + 3] && v[i + 3] <= 0xBF) {
                return false;
            }
            4
        } else if 0xF1 <= b0 && b0 <= 0xF3 {
            if !(n - i > 3 && 0x80 <= v[i + 1] && v[i + 1] <= 0xBF
                && 0x80 <= v[i + 2] && v[i + 2] <= 0xBF
                && 0x80 <= v[i + 3] && v[i + 3] <= 0xBF) {
                return false;
            }
            4
        } else if b0 == 0xF4 {
            if !(n - i > 3 && 0x80 <= v[i + 1] && v[i + 1] <= 0x8F
                && 0x80 <= v[i + 2] && v[i + 2] <= 0xBF
                && 0x80 <= v[i + 3] && v[i + 3] <= 0xBF) {
                return false;
            }
            4
        } else {
            return false;
        };
        proof {
            assert(forall|k: int| 0 <= k < t.len() ==> t[k] == v@[i + k]);
            assert(t.skip(width as int) =~= v@.skip(i + width));
        }
        i = i + width;
    }
    proof {
        assert(v@.skip(n as int) =~= Seq::<u8>::empty());
    }
    true
}


/// Any remainder produced by skipping is a suffix.
pub proof fn lemma_skip_suffix(s: Seq<u8>, k: int)
    requires
        0 <= k <= s.len(),
    ensures
        suffix_of(s.skip(k), s),
{
    assert(s.skip(k) =~= s.skip(s.len() - s.skip(k).len()));
}

/// Being a suffix is transitive.
pub proof fn lemma_suffix_trans(c: Seq<u8>, b: Seq<u8>, a: Seq<u8>)
    requires
        suffix_of(c, b),
        suffix_of(b, a),
    ensures
        suffix_of(c, a),
{
    assert(c =~= a.skip(a.len() - c.len()));
}

/// `deep_view` of a vector of `u64` rows commutes with `push`.
proof fn lemma_deep_view_push_u64(v: Vec<Vec<u64>>, prev: Vec<Vec<u64>>, x: Vec<u64>)
    requires
        v@ == prev@.push(x),
    ensures
        v.deep_view() == prev.deep_view().push(x@),
{
    let a = v.deep_view();
    let b = prev.deep_view().push(x@);
    assert forall|i: int| 0 <= i < a.len() implies a[i] == b[i] by {
        assert(a[i] == v@[i].deep_view());
        if i < prev@.len() {
            assert(v@[i] == prev@[i]);
            assert(b[i] == prev@[i].deep_view());
        } else {
            assert(v@[i] == x);
            assert(x.deep_view() =~= x@);
        }
    }
    assert(a =~= b);
}

/// `deep_view` of a vector of byte vectors commutes with `push`.
proof fn lemma_deep_view_push(v: Vec<Vec<u8>>, prev: Vec<Vec<u8>>, x: Vec<u8>)
    requires
        v@ == prev@.push(x),
    ensures
        v.deep_view() == prev.deep_view().push(x@),
{
    let a = v.deep_view();
    let b = prev.deep_view().push(x@);
    assert(x.deep_view() =~= x@);
    assert forall|i: int| 0 <= i < a.len() implies a[i] == b[i] by {
        assert(a[i] == v@[i].deep_view());
        if i < prev@.len() {
            assert(v@[i] == prev@[i]);
            assert(b[i] == prev@[i].deep_view());
        } else {
            assert(v@[i] == x);
            assert(x.deep_view() =~= x@);
        }
    }
    assert(a =~= b);
}

/// Parse `n` repetitions of the element parser `f`, in order.
pub open spec fn take_rep<T>(
    s: Seq<u8>,
    n: nat,
    f: spec_fn(Seq<u8>) -> Option<(T, Seq<u8>)>,
) -> Option<(Seq<T>, Seq<u8>)>
    decreases n,
{
    if n == 0 {
        Some((Seq::empty(), s))
    } else {
        match take_rep(s, (n - 1) as nat, f) {
            Some((v, r)) => match f(r) {
                Some((x, r2)) => Some((v.push(x), r2)),
                None => None,
            },
            None => None,
        }
    }
}

/// Once a repetition fails at some count, it fails at every larger count.
pub proof fn lemma_take_rep_none<T>(
    s: Seq<u8>,
    m: nat,
    n: nat,
    f: spec_fn(Seq<u8>) -> Option<(T, Seq<u8>)>,
)
    requires
        take_rep(s, m, f) is None,
        m <= n,
    ensures
        take_rep(s, n, f) is None,
    decreases n,
{
    if n > m {
        lemma_take_rep_none(s, m, (n - 1) as nat, f);
    }
}

/// A successful repetition yields exactly `n` elements.
pub proof fn lemma_take_rep_len<T>(
    s: Seq<u8>,
    n: nat,
    f: spec_fn(Seq<u8>) -> Option<(T, Seq<u8>)>,
)
    requires
        take_rep(s, n, f) is Some,
    ensures
        take_rep(s, n, f).unwrap().0.len() == n,
    decreases n,
{
    if n > 0 {
        assert(take_rep(s, (n - 1) as nat, f) is Some);
        lemma_take_rep_len(s, (n - 1) as nat, f);
    }
}

pub open spec fn u16_p() -> spec_fn(Seq<u8>) -> Option<(u16, Seq<u8>)> {
    |s: Seq<u8>| take_u16(s)
}

pub open spec fn u32_p() -> spec_fn(Seq<u8>) -> Option<(u32, Seq<u8>)> {
    |s: Seq<u8>| take_u32(s)
}

pub open spec fn u64_p() -> spec_fn(Seq<u8>) -> Option<(u64, Seq<u8>)> {
    |s: Seq<u8>| take_u64(s)
}


pub open spec fn u64_row_p(k: nat) -> spec_fn(Seq<u8>) -> Option<(Seq<u64>, Seq<u8>)> {
    |s: Seq<u8>| take_rep(s, k, u64_p())
}

pub open spec fn text_p() -> spec_fn(Seq<u8>) -> Option<(Seq<u8>, Seq<u8>)> {
    |s: Seq<u8>| take_text(s)
}

pub open spec fn ptr_p() -> spec_fn(Seq<u8>) -> Option<((u16, u32), Seq<u8>)> {
    |s: Seq<u8>| take_ptr(s)
}

/// The two little-endian bytes of a `u16`.
pub open spec fn u16_le(v: u16) -> Seq<u8> {
    seq![(v & 0xFF) as u8, ((v >> 8) & 0xFF) as u8]
}

/// The four little-endian bytes of a `u32`.
pub open spec fn u32_le(v: u32) -> Seq<u8> {
    seq![
        (v & 0xFF) as u8,
        ((v >> 8) & 0xFF) as u8,
        ((v >> 16) & 0xFF) as u8,
        ((v >> 24) & 0xFF) as u8,
    ]
}

/// The eight little-endian bytes of a `u64`.
pub open spec fn u64_le(v: u64) -> Seq<u8> {
    seq![
        (v & 0xFF) as u8,
        ((v >> 8) & 0xFF) as u8,
        ((v >> 16) & 0xFF) as u8,
        ((v >> 24) & 0xFF) as u8,
        ((v >> 32) & 0xFF) as u8,
        ((v >> 40) & 0xFF) as u8,
        ((v >> 48) & 0xFF) as u8,
        ((v >> 56) & 0xFF) as u8,
    ]
}

pub proof fn lemma_le_val_u16(v: u16)
    ensures
        le_val(u16_le(v)) == v,
{
    reveal_with_fuel(le_val, 10);
    let e = u16_le(v);
    assert(e.skip(1) =~= seq![e[1]]);
    assert(e.skip(1).skip(1) =~= Seq::<u8>::empty());
    assert(le_val(Seq::<u8>::empty()) == 0);
    assert(le_val(e) == e[0] + 256 * (e[1] + 256 * 0));
    assert(v == (v & 0xFF) + 256 * ((v >> 8) & 0xFF) && (v & 0xFF) < 256 && ((v >> 8) & 0xFF)
        < 256) by (bit_vector);
}

pub proof fn lemma_le_val_u32(v: u32)
    ensures
        le_val(u32_le(v)) == v,
{
    reveal_with_fuel(le_val, 10);
    let e = u32_le(v);
    assert(e.skip(1) =~= seq![e[1], e[2], e[3]]);
    assert(e.skip(1).skip(1) =~= seq![e[2], e[3]]);
    assert(e.skip(1).skip(1).skip(1) =~= seq![e[3]]);
    assert(e.skip(1).skip(1).skip(1).skip(1) =~= Seq::<u8>::empty());
    assert(le_val(Seq::<u8>::empty()) == 0);
    assert(le_val(e) == e[0] + 256 * (e[1] + 256 * (e[2] + 256 * (e[3] + 256 * 0))));
    assert(v == (v & 0xFF) + 256 * (((v >> 8) & 0xFF) + 256 * (((v >> 16) & 0xFF) + 256 * ((v
        >> 24) & 0xFF))) && (v & 0xFF) < 256 && ((v >> 8) & 0xFF) < 256 && ((v >> 16) & 0xFF)
        < 256 && ((v >> 24) & 0xFF) < 256) by (bit_vector);
}

pub proof fn lemma_le_val_u64(v: u64)
    ensures
        le_val(u64_le(v)) == v,
{
    reveal_with_fuel(le_val, 10);
    let e = u64_le(v);
    assert(e.skip(1) =~= seq![e[1], e[2], e[3], e[4], e[5], e[6], e[7]]);
    assert(e.skip(1).skip(1) =~= seq![e[2], e[3], e[4], e[5], e[6], e[7]]);
    assert(e.skip(1).skip(1).skip(1) =~= seq![e[3], e[4], e[5], e[6], e[7]]);
    assert(e.skip(1).skip(1).skip(1).skip(1) =~= seq![e[4], e[5], e[6], e[7]]);
    assert(e.skip(1).skip(1).skip(1).skip(1).skip(1) =~= seq![e[5], e[6], e[7]]);
    assert(e.skip(1).skip(1).skip(1).skip(1).skip(1).skip(1) =~= seq![e[6], e[7]]);
    assert(e.skip(1).skip(1).skip(1).skip(1).skip(1).skip(1).skip(1) =~= seq![e[7]]);
    assert(e.skip(1).skip(1).skip(1).skip(1).skip(1).skip(1).skip(1).skip(1)
        =~= Seq::<u8>::empty());
    assert(le_val(Seq::<u8>::empty()) == 0);
    assert(le_val(e) == e[0] + 256 * (e[1] + 256 * (e[2] + 256 * (e[3] + 256 * (e[4] + 256 * (
        e[5] + 256 * (e[6] + 256 * (e[7] + 256 * 0))))))));
    assert(v == (v & 0xFF) + 256 * (((v >> 8) & 0xFF) + 256 * (((v >> 16) & 0xFF) + 256 * (((v
        >> 24) & 0xFF) + 256 * (((v >> 32) & 0xFF) + 256 * (((v >> 40) & 0xFF) + 256 * (((v
        >> 48) & 0xFF) + 256 * ((v >> 56) & 0xFF))))))) && (v & 0xFF) < 256 && ((v >> 8) & 0xFF)
        < 256 && ((v >> 16) & 0xFF) < 256 && ((v >> 24) & 0xFF) < 256 && ((v >> 32) & 0xFF)
        < 256 && ((v >> 40) & 0xFF) < 256 && ((v >> 48) & 0xFF) < 256 && ((v >> 56) & 0xFF)
        < 256) by (bit_vector);
}

/// Round trip of a `u16`: its encoding, before any suffix, decodes to the
/// value itself and leaves exactly that suffix.
pub proof fn lemma_u16_round_trip(v: u16, rest: Seq<u8>)
    ensures
        take_u16(u16_le(v) + rest) == Some((v, rest)),
{
    let w = u16_le(v) + rest;
    assert(w.take(2) =~= u16_le(v));
    assert(w.skip(2) =~= rest);
    lemma_le_val_u16(v);
}

/// Round trip of a `u32`; an IEEE-754 binary32 value travels through this
/// layer as its bit pattern, so this is also the binary32 round trip.
pub proof fn lemma_u32_round_trip(v: u32, rest: Seq<u8>)
    ensures
        take_u32(u32_le(v) + rest) == Some((v, rest)),
{
    let w = u32_le(v) + rest;
    assert(w.take(4) =~= u32_le(v));
    assert(w.skip(4) =~= rest);
    lemma_le_val_u32(v);
}

/// Round trip of a `u64`; an IEEE-754 binary64 value travels through this
/// layer as its bit pattern, so this is also the binary64 round trip.
pub proof fn lemma_u64_round_trip(v: u64, rest: Seq<u8>)
    ensures
        take_u64(u64_le(v) + rest) == Some((v, rest)),
{
    let w = u64_le(v) + rest;
    assert(w.take(8) =~= u64_le(v));
    assert(w.skip(8) =~= rest);
    lemma_le_val_u64(v);
}

/// Round trip of a length-prefixed text field: encoding a UTF-8 byte string
/// of at most 65535 bytes and decoding it yields the identical string.
pub proof fn lemma_text_round_trip(s: Seq<u8>, rest: Seq<u8>)
    requires
        s.len() <= 65535,
        is_utf8(s),
    ensures
        take_text(u16_le(s.len() as u16) + s + rest) == Some((s, rest)),
{
    let n = s.len() as u16;
    let w = u16_le(n) + s + rest;
    assert(w.take(2) =~= u16_le(n));
    lemma_le_val_u16(n);
    assert(le_val(w.take(2)) == s.len());
    assert(w.skip(2) =~= s + rest);
    assert((s + rest).take(s.len() as int) =~= s);
    assert(w.skip(2 + s.len() as int) =~= rest);
}

/// Encode a `u16` as its two little-endian bytes.
pub fn encode_u16(v: u16) -> (r: Vec<u8>)
    ensures
        r@ == u16_le(v),
{
    let mut out: Vec<u8> = Vec::new();
    out.push((v & 0xFF) as u8);
    out.push(((v >> 8) & 0xFF) as u8);
    proof {
        assert(out@ =~= u16_le(v));
    }
    out
}

/// Encode a `u32` as its four little-endian bytes.
pub fn encode_u32(v: u32) -> (r: Vec<u8>)
    ensures
        r@ == u32_le(v),
{
    let mut out: Vec<u8> = Vec::new();
    out.push((v & 0xFF) as u8);
    out.push(((v >> 8) & 0xFF) as u8);
    out.push(((v >> 16) & 0xFF) as u8);
    out.push(((v >> 24) & 0xFF) as u8);
    proof {
        assert(out@ =~= u32_le(v));
    }
    out
}

/// Encode a `u64` as its eight little-endian bytes.
pub fn encode_u64(v: u64) -> (r: Vec<u8>)
    ensures
        r@ == u64_le(v),
{
    let mut out: Vec<u8> = Vec::new();
    out.push((v & 0xFF) as u8);
    out.push(((v >> 8) & 0xFF) as u8);
    out.push(((v >> 16) & 0xFF) as u8);
    out.push(((v >> 24) & 0xFF) as u8);
    out.push(((v >> 32) & 0xFF) as u8);
    out.push(((v >> 40) & 0xFF) as u8);
    out.push(((v >> 48) & 0xFF) as u8);
    out.push(((v >> 56) & 0xFF) as u8);
    proof {
        assert(out@ =~= u64_le(v));
    }
    out
}

/// Encode a byte string as a length-prefixed text field.  A string longer
/// than 65535 bytes cannot be represented and is rejected.
pub fn encode_text(s: &Vec<u8>) -> (r: Option<Vec<u8>>)
    ensures
        match r {
            Some(v) => s@.len() <= 65535 && v@ == u16_le(s@.len() as u16) + s@,
            None => s@.len() > 65535,
        },
{
    let n = s.len();
    if n > 65535 {
        return None;
    }
    let mut out = encode_u16(n as u16);
    out.extend_from_slice(s.as_slice());
    proof {
        assert(out@ =~= u16_le(s@.len() as u16) + s@);
    }
    Some(out)
}

} // verus!
