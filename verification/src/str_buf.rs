//! A fixed-capacity string buffer of N bytes, filled by appending string slices.
use vstd::prelude::*;
use vstd::slice::slice_subrange;
use vstd::string::StringSliceAdditionalSpecFns;
use vstd::utf8::valid_utf8;
use crate::text::str_from_utf8;

verus! {

/// Appending would overflow the buffer's capacity
#[derive(Copy, Clone, PartialEq, Eq, Structural, Debug)]
pub struct StrBufFull;

/// StrBuf holds a string buffer of N bytes; `write_str` appends to it
pub struct StrBuf<const N: usize> {
    buf: [u8; N],
    length: usize,
}

impl<const N: usize> StrBuf<N> {
    /// The buffered bytes
    pub closed spec fn contents(&self) -> Seq<u8> {
        self.buf@.subrange(0, self.length as int)
    }

    /// The buffer's bookkeeping is consistent
    pub closed spec fn wf(&self) -> bool {
        self.length <= N
    }

    /// Return a new buffer full of nulls
    pub fn new() -> (r: Self)
        ensures
            r.wf(),
            r.contents() == Seq::<u8>::empty(),
    {
        let r = Self { buf: [0u8; N], length: 0 };
        assert(r.contents() =~= Seq::<u8>::empty());
        r
    }

    /// Return length of the buffered string as bytes
    pub fn len(&self) -> (r: usize)
        requires
            self.wf(),
        ensures
            r == self.contents().len(),
    {
        self.length
    }

    /// Return the buffered string as bytes
    pub fn bytes(&self) -> (r: &[u8])
        requires
            self.wf(),
        ensures
            r@ == self.contents(),
    {
        slice_subrange(self.buf.as_slice(), 0, self.length)
    }

    /// Return the buffered string as a string slice; Err if the bytes are not UTF-8
    pub fn as_str(&self) -> (r: Result<&str, core::str::Utf8Error>)
        requires
            self.wf(),
        ensures
            r is Ok <==> valid_utf8(self.contents()),
            r matches Ok(s) ==> s.spec_bytes() == self.contents(),
    {
        str_from_utf8(self.bytes())
    }

    /// Append a string slice to the buffer; Err, and nothing appended, if it does not fit
    pub fn write_str(&mut self, s: &str) -> (r: Result<(), StrBufFull>)
        requires
            old(self).wf(),
        ensures
            final(self).wf(),
            r is Ok <==> old(self).contents().len() + s.spec_bytes().len() <= N,
            r is Ok ==> final(self).contents() == old(self).contents() + s.spec_bytes(),
            r is Err ==> final(self).contents() == old(self).contents(),
    {
        let src = s.as_bytes();
        let src_len = src.len();
        let dst_start = self.length;
        if src_len > N - dst_start {
            return Err(StrBufFull);
        }
        let ghost old_buf = self.buf@;
        let mut i: usize = 0;
        while i < src_len
            invariant
                i <= src_len,
                src_len == src@.len(),
                src@ == s.spec_bytes(),
                old_buf == old(self).buf@,
                old_buf.len() == N,
                dst_start == old(self).length,
                dst_start == self.length,
                dst_start + src_len <= N,
                self.length <= N,
                self.buf@.len() == N,
                forall|k: int| 0 <= k < dst_start ==> #[trigger] self.buf@[k] == old_buf[k],
                forall|k: int| 0 <= k < i ==> #[trigger] self.buf@[dst_start + k] == src@[k],
            decreases src_len - i,
        {
            self.buf[dst_start + i] = src[i];
            i = i + 1;
        }
        self.length = dst_start + src_len;
        assert forall|k: int| 0 <= k < self.length implies #[trigger] self.contents()[k] == (old(
            self,
        ).contents() + s.spec_bytes())[k] by {
            if k >= dst_start {
                assert(self.buf@[dst_start + (k - dst_start)] == src@[k - dst_start]);
            }
        }
        assert(self.contents() =~= old(self).contents() + s.spec_bytes());
        Ok(())
    }
}

/// A buffer that only ever receives whole string slices always reads back as a string:
/// the empty buffer is valid UTF-8, and appending a string slice to valid UTF-8 keeps
/// it valid, so `as_str` succeeds after any sequence of `new` and `write_str`.
pub proof fn lemma_written_strings_stay_utf8(contents: Seq<u8>, s: &str)
    requires
        valid_utf8(contents),
    ensures
        valid_utf8(Seq::<u8>::empty()),
        valid_utf8(contents + s.spec_bytes()),
{
    vstd::utf8::encode_utf8_valid_utf8(Seq::<char>::empty());
    assert(vstd::utf8::encode_utf8(Seq::<char>::empty()) =~= Seq::<u8>::empty());
    vstd::utf8::encode_utf8_valid_utf8(s@);
    vstd::utf8::valid_utf8_concat(contents, s.spec_bytes());
}

/// What a buffer of capacity `n` holding `c` holds after `write_str` of a string with
/// bytes `p`: appended when it fits, else unchanged
pub open spec fn write_result(c: Seq<u8>, p: Seq<u8>, n: int) -> Seq<u8> {
    if c.len() + p.len() <= n { c + p } else { c }
}

/// What a new buffer of capacity `n` holds after `write_str` of strings with bytes
/// `parts`, in order
pub open spec fn written(n: int, parts: Seq<Seq<u8>>) -> Seq<u8>
    decreases parts.len(),
{
    if parts.len() == 0 {
        Seq::empty()
    } else {
        write_result(written(n, parts.drop_last()), parts.last(), n)
    }
}

/// The concatenation of `parts`, in order
pub open spec fn concat_all(parts: Seq<Seq<u8>>) -> Seq<u8>
    decreases parts.len(),
{
    if parts.len() == 0 {
        Seq::empty()
    } else {
        concat_all(parts.drop_last()) + parts.last()
    }
}

/// After a new buffer receives a sequence of string slices, its contents read back as a
/// string (`as_str` succeeds); and when every write fit, the buffer holds exactly the
/// concatenation of the strings in order, with that length.
pub proof fn lemma_writes_concatenate(n: int, parts: Seq<Seq<u8>>)
    requires
        forall|i: int| 0 <= i < parts.len() ==> valid_utf8(#[trigger] parts[i]),
    ensures
        valid_utf8(written(n, parts)),
        concat_all(parts).len() <= n ==> written(n, parts) == concat_all(parts),
    decreases parts.len(),
{
    if parts.len() == 0 {
        vstd::utf8::encode_utf8_valid_utf8(Seq::<char>::empty());
        assert(vstd::utf8::encode_utf8(Seq::<char>::empty()) =~= Seq::<u8>::empty());
    } else {
        let front = parts.drop_last();
        assert forall|i: int| 0 <= i < front.len() implies valid_utf8(#[trigger] front[i]) by {
            assert(front[i] == parts[i]);
        }
        lemma_writes_concatenate(n, front);
        assert(valid_utf8(parts.last())) by {
            assert(parts.last() == parts[parts.len() - 1]);
        }
        vstd::utf8::valid_utf8_concat(written(n, front), parts.last());
    }
}

} // verus!
