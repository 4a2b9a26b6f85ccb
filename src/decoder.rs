use vstd::prelude::*;

verus! {

/// Largest slice handed to the UTF-8 decoder in one call; bounds the output
/// buffer that each call reserves.
pub const CHUNK_LEN: usize = 4096;

#[verifier::external_type_specification]
#[verifier::external_body]
pub struct ExDecoder(encoding_rs::Decoder);

/// The bytes that an `encoding_rs` decoder has been fed since it was made, in order.
pub uninterp spec fn decoder_input(d: encoding_rs::Decoder) -> Seq<u8>;

/// The text that `encoding_rs`'s streaming UTF-8 decoder has written after
/// being fed `b` with `last == false`: a leading byte order mark is dropped,
/// malformed sequences become U+FFFD, and a trailing incomplete sequence is
/// held back until more bytes arrive.
pub uninterp spec fn utf8_stream_text(b: Seq<u8>) -> Seq<char>;

/// Relies on `encoding_rs::UTF_8.new_decoder`: a fresh decoder that has seen
/// no bytes and written no text.
#[verifier::external_body]
fn new_utf8_decoder() -> (d: encoding_rs::Decoder)
    ensures
        decoder_input(d) == Seq::<u8>::empty(),
        utf8_stream_text(decoder_input(d)) == Seq::<char>::empty(),
{
    encoding_rs::UTF_8.new_decoder()
}

/// Relies on `Decoder::max_utf8_buffer_length` and `Decoder::decode_to_string`
/// with `last == false`: given an output buffer of the length that the first
/// returns, the second consumes all of `src` and appends to the text already
/// written exactly what the longer input adds, the decoder carrying an
/// incomplete trailing sequence over to the next call.
#[verifier::external_body]
fn decode_chunk(d: &mut encoding_rs::Decoder, src: &[u8]) -> (s: String)
    requires
        src@.len() <= CHUNK_LEN,
    ensures
        decoder_input(*final(d)) == decoder_input(*old(d)) + src@,
        utf8_stream_text(decoder_input(*final(d))) == utf8_stream_text(decoder_input(*old(d)))
            + s@,
{
    let cap = d.max_utf8_buffer_length(src.len()).unwrap();
    let mut s = String::with_capacity(cap);
    let _ = d.decode_to_string(src, &mut s, false);
    s
}

/// Reassembles text from the raw byte output of successive tokens, holding
/// back a code point that is split across tokens until it is complete.
pub struct IncrementalTextDecoder {
    decoder: encoding_rs::Decoder,
    /// All text handed out so far, in order.
    emitted: Ghost<Seq<char>>,
}

impl IncrementalTextDecoder {
    /// The bytes fed so far, in order.
    pub closed spec fn input(&self) -> Seq<u8> {
        decoder_input(self.decoder)
    }

    /// The concatenation of every fragment handed out so far.
    pub closed spec fn emitted(&self) -> Seq<char> {
        self.emitted@
    }

    /// The fragments handed out so far, put together, are the decoding of all
    /// bytes fed so far taken at once.
    pub closed spec fn wf(&self) -> bool {
        self.emitted@ == utf8_stream_text(decoder_input(self.decoder))
    }

    /// What a well-formed decoder has handed out is the decoding of its input.
    pub proof fn lemma_emitted_is_decoding(&self)
        requires
            self.wf(),
        ensures
            self.emitted() == utf8_stream_text(self.input()),
    {
    }

    pub fn new() -> (r: Self)
        ensures
            r.wf(),
            r.input() == Seq::<u8>::empty(),
            r.emitted() == Seq::<char>::empty(),
    {
        IncrementalTextDecoder { decoder: new_utf8_decoder(), emitted: Ghost(Seq::empty()) }
    }

    /// Feeds the bytes of one token and returns the text that they complete.
    /// Chained over any sequence of byte outputs, the fragments put together
    /// equal the decoding of all the bytes at once.
    pub fn push(&mut self, raw: &[u8]) -> (r: String)
        requires
            old(self).wf(),
        ensures
            final(self).wf(),
            final(self).input() == old(self).input() + raw@,
            final(self).emitted() == old(self).emitted() + r@,
            final(self).emitted() == utf8_stream_text(final(self).input()),
    {
        let n = raw.len();
        let mut out = String::new();
        let mut start: usize = 0;
        while start < n
            invariant
                n == raw@.len(),
                start <= n,
                self.wf(),
                self.input() == old(self).input() + raw@.take(start as int),
                self.emitted() == old(self).emitted() + out@,
            decreases n - start,
        {
            let end: usize = if n - start > CHUNK_LEN { start + CHUNK_LEN } else { n };
            let piece = vstd::slice::slice_subrange(raw, start, end);
            let s = decode_chunk(&mut self.decoder, piece);
            proof {
                assert(raw@.take(start as int) + raw@.subrange(start as int, end as int)
                    =~= raw@.take(end as int));
                assert(old(self).input() + raw@.take(end as int) =~= old(self).input()
                    + raw@.take(start as int) + raw@.subrange(start as int, end as int));
                self.emitted@ = self.emitted@ + s@;
                assert(old(self).emitted() + out@ + s@ =~= old(self).emitted() + (out@ + s@));
            }
            out = out.concat(s.as_str());
            start = end;
        }
        assert(raw@.take(n as int) =~= raw@);
        out
    }
}

} // verus!
