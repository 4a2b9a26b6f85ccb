use vstd::prelude::*;
use crate::batch::{prefill_batch, prefill_spec, step_entry, BatchEntry, BATCH_CAPACITY, SEQ_SLOT};
use crate::decoder::{utf8_stream_text, IncrementalTextDecoder};
use crate::error::GenError;

verus! {

/// Where a generation session stands.
#[derive(Clone, Copy, Debug, PartialEq, Eq, Structural)]
pub enum Phase {
    /// Nothing submitted yet.
    Init,
    /// The prompt batch is submitted; its decode step is awaited.
    Tokenized,
    /// The prompt is decoded; the first token is to be sampled.
    Prefilled,
    /// A sampled token was fed back; with `awaiting_decode` its decode step is
    /// awaited, else the next token is to be sampled.
    Decoding,
    /// The end-of-sequence token was sampled.
    Done,
    /// The session ended on an error.
    Failed,
}

/// Threads a session's inference context runs its decode steps on.
pub const SESSION_THREADS: i32 = 4;

/// The per-session override of the model's default context settings.
#[derive(Clone, Copy, Debug, PartialEq, Eq, Structural)]
pub struct ContextConfig {
    /// Context window, in tokens.
    pub n_ctx: u32,
    /// Threads for decode steps.
    pub n_threads: i32,
}

/// The context settings of every session: a window as large as one batch,
/// and a fixed thread count.
pub fn session_context_config() -> (c: ContextConfig)
    ensures
        c.n_ctx == BATCH_CAPACITY,
        c.n_threads == SESSION_THREADS,
{
    ContextConfig { n_ctx: BATCH_CAPACITY as u32, n_threads: SESSION_THREADS }
}

/// What the caller does after handing a sampled token to the session.
#[derive(Debug)]
pub enum Step {
    /// Emit `text`, then submit the single entry `next` for the next decode step.
    Continue { text: String, next: BatchEntry },
    /// Emit `text`; the session has ended.
    Finish { text: String },
    /// The session had already ended: nothing is emitted.
    Stop,
}

/// The decision state of a session, apart from its text decoder.
pub struct SessionState {
    pub phase: Phase,
    pub awaiting_decode: bool,
    pub error: Option<GenError>,
    pub eos: i32,
    /// Position of the next token fed back; starts at the prompt length.
    pub n_cur: int,
    /// Length of the prompt.
    pub prompt_len: int,
}

/// Whether the session waits for a token to be sampled.
pub open spec fn wants_sample(s: SessionState) -> bool {
    (s.phase == Phase::Prefilled || s.phase == Phase::Decoding) && !s.awaiting_decode
}

/// Whether the session has ended.
pub open spec fn is_terminal(p: Phase) -> bool {
    p == Phase::Done || p == Phase::Failed
}

/// The state after a sampled `token` is handed over.
pub open spec fn after_sample(s: SessionState, token: i32) -> SessionState {
    if !wants_sample(s) {
        s
    } else if token == s.eos {
        SessionState { phase: Phase::Done, ..s }
    } else if s.n_cur >= BATCH_CAPACITY {
        SessionState { phase: Phase::Failed, error: Some(GenError::Decode), ..s }
    } else {
        SessionState { phase: Phase::Decoding, awaiting_decode: true, n_cur: s.n_cur + 1, ..s }
    }
}

/// The state after the outcome of a submitted decode step arrives.
pub open spec fn after_decode(s: SessionState, ok: bool) -> SessionState {
    if !(s.awaiting_decode && (s.phase == Phase::Tokenized || s.phase == Phase::Decoding)) {
        s
    } else if !ok {
        SessionState { phase: Phase::Failed, awaiting_decode: false, error: Some(GenError::Decode), ..s }
    } else if s.phase == Phase::Tokenized {
        SessionState { phase: Phase::Prefilled, awaiting_decode: false, ..s }
    } else {
        SessionState { awaiting_decode: false, ..s }
    }
}

/// The state after sampling each of `tokens` in turn, each decode step in
/// between succeeding.
pub open spec fn run_tokens(s: SessionState, tokens: Seq<i32>) -> SessionState
    decreases tokens.len(),
{
    if tokens.len() == 0 {
        s
    } else {
        run_tokens(after_decode(after_sample(s, tokens[0]), true), tokens.drop_first())
    }
}

/// One per-request generation session: it builds the prompt batch, decides
/// each decode step from the sampled token, and reassembles the text.
pub struct GenerationSession {
    phase: Phase,
    awaiting_decode: bool,
    error: Option<GenError>,
    eos: i32,
    n_cur: i32,
    prompt_len: i32,
    decoder: IncrementalTextDecoder,
    /// The tokens sampled so far, in order.
    sampled: Ghost<Seq<i32>>,
    /// The raw bytes of the sampled tokens, in order.
    token_bytes: Ghost<Seq<Seq<u8>>>,
}

impl GenerationSession {
    pub closed spec fn state(&self) -> SessionState {
        SessionState {
            phase: self.phase,
            awaiting_decode: self.awaiting_decode,
            error: self.error,
            eos: self.eos,
            n_cur: self.n_cur as int,
            prompt_len: self.prompt_len as int,
        }
    }

    /// All text emitted so far, put together.
    pub closed spec fn emitted(&self) -> Seq<char> {
        self.decoder.emitted()
    }

    /// The tokens sampled so far.
    pub closed spec fn sampled(&self) -> Seq<i32> {
        self.sampled@
    }

    /// The raw bytes of each sampled token, in order.
    pub closed spec fn token_bytes(&self) -> Seq<Seq<u8>> {
        self.token_bytes@
    }

    pub closed spec fn wf(&self) -> bool {
        &&& self.decoder.wf()
        &&& self.decoder.input() == self.token_bytes@.flatten()
        &&& self.sampled@.len() == self.token_bytes@.len()
        &&& 0 <= self.prompt_len <= self.n_cur <= BATCH_CAPACITY
        &&& self.phase == Phase::Init ==> self.sampled@.len() == 0
        &&& (self.phase == Phase::Tokenized || self.phase == Phase::Prefilled) ==> (
            self.sampled@.len() == 0 && self.n_cur == self.prompt_len)
        &&& self.error is Some <==> self.phase == Phase::Failed
        &&& self.awaiting_decode ==> (self.phase == Phase::Tokenized || self.phase
            == Phase::Decoding)
        &&& self.phase == Phase::Tokenized ==> self.awaiting_decode
    }

    /// The text streamed so far is the decoding of the bytes of all sampled
    /// tokens taken at once.
    pub proof fn lemma_stream_is_decoding(&self)
        requires
            self.wf(),
        ensures
            self.emitted() == utf8_stream_text(self.token_bytes().flatten()),
    {
        self.decoder.lemma_emitted_is_decoding();
    }

    /// A session that has not started, for a model whose end-of-sequence token is `eos`.
    pub fn new(eos: i32) -> (r: Self)
        ensures
            r.wf(),
            r.state() == (SessionState {
                phase: Phase::Init,
                awaiting_decode: false,
                error: None,
                eos,
                n_cur: 0,
                prompt_len: 0,
            }),
            r.emitted() == Seq::<char>::empty(),
            r.sampled() == Seq::<i32>::empty(),
    {
        GenerationSession {
            phase: Phase::Init,
            awaiting_decode: false,
            error: None,
            eos,
            n_cur: 0,
            prompt_len: 0,
            decoder: IncrementalTextDecoder::new(),
            sampled: Ghost(Seq::empty()),
            token_bytes: Ghost(Seq::empty()),
        }
    }

    pub fn phase(&self) -> (r: Phase)
        ensures
            r == self.state().phase,
    {
        self.phase
    }

    pub fn error(&self) -> (r: Option<GenError>)
        ensures
            r == self.state().error,
    {
        self.error
    }

    /// Ends the session on an error that arose outside it (tokenizing, the
    /// context, a closed sink); an ended session is left as it is.
    pub fn fail(&mut self, e: GenError)
        requires
            old(self).wf(),
        ensures
            final(self).wf(),
            is_terminal(old(self).state().phase) ==> final(self).state() == old(self).state(),
            !is_terminal(old(self).state().phase) ==> final(self).state() == (SessionState {
                phase: Phase::Failed,
                awaiting_decode: false,
                error: Some(e),
                ..old(self).state()
            }),
            final(self).emitted() == old(self).emitted(),
            final(self).sampled() == old(self).sampled(),
    {
        if self.phase != Phase::Done && self.phase != Phase::Failed {
            self.phase = Phase::Failed;
            self.awaiting_decode = false;
            self.error = Some(e);
        }
    }

    /// Builds the prompt batch from the prompt's tokens and submits it: the
    /// session then waits for the prefill decode step. A prompt that cannot
    /// be batched ends the session with the error of `prefill_batch`.
    pub fn start(&mut self, tokens: &Vec<i32>) -> (r: Result<Vec<BatchEntry>, GenError>)
        requires
            old(self).wf(),
            old(self).state().phase == Phase::Init,
        ensures
            final(self).wf(),
            tokens@.len() == 0 ==> r == Err::<Vec<BatchEntry>, GenError>(GenError::Tokenize),
            tokens@.len() > BATCH_CAPACITY ==> r == Err::<Vec<BatchEntry>, GenError>(
                GenError::ContextCreate,
            ),
            0 < tokens@.len() <= BATCH_CAPACITY ==> r is Ok,
            match r {
                Ok(b) => b@ == prefill_spec(tokens@) && final(self).state() == (SessionState {
                    phase: Phase::Tokenized,
                    awaiting_decode: true,
                    n_cur: tokens@.len() as int,
                    prompt_len: tokens@.len() as int,
                    ..old(self).state()
                }),
                Err(e) => final(self).state() == (SessionState {
                    phase: Phase::Failed,
                    error: Some(e),
                    ..old(self).state()
                }),
            },
            final(self).emitted() == old(self).emitted(),
            final(self).sampled() == old(self).sampled(),
    {
        let r = prefill_batch(tokens);
        match &r {
            Ok(_) => {
                let n = tokens.len() as i32;
                self.phase = Phase::Tokenized;
                self.awaiting_decode = true;
                self.n_cur = n;
                self.prompt_len = n;
            },
            Err(e) => {
                self.phase = Phase::Failed;
                self.error = Some(*e);
            },
        }
        r
    }

    /// Takes the outcome of the decode step last submitted: a failure ends
    /// the session with `Decode`; it is never retried.
    pub fn on_decode(&mut self, ok: bool)
        requires
            old(self).wf(),
        ensures
            final(self).wf(),
            final(self).state() == after_decode(old(self).state(), ok),
            final(self).emitted() == old(self).emitted(),
            final(self).sampled() == old(self).sampled(),
    {
        if self.awaiting_decode && (self.phase == Phase::Tokenized || self.phase
            == Phase::Decoding) {
            if !ok {
                self.phase = Phase::Failed;
                self.awaiting_decode = false;
                self.error = Some(GenError::Decode);
            } else if self.phase == Phase::Tokenized {
                self.phase = Phase::Prefilled;
                self.awaiting_decode = false;
            } else {
                self.awaiting_decode = false;
            }
        }
    }

    /// Index, within the batch last decoded, of the entry whose logits the
    /// next token is sampled from: the last prompt token after the prefill,
    /// the single entry after that.
    pub fn sample_index(&self) -> (r: i32)
        requires
            self.wf(),
            wants_sample(self.state()),
        ensures
            self.state().phase == Phase::Prefilled ==> r == self.state().prompt_len - 1,
            self.state().phase == Phase::Decoding ==> r == 0,
    {
        if self.phase == Phase::Prefilled {
            self.prompt_len - 1
        } else {
            0
        }
    }

    /// Hands over the sampled `token` and its raw bytes. While a token is
    /// awaited the bytes are decoded and their text returned for emission;
    /// the end-of-sequence token finishes the session, any other is fed back
    /// at the next position. At any other time nothing is emitted.
    pub fn on_sampled(&mut self, token: i32, raw: &[u8]) -> (r: Step)
        requires
            old(self).wf(),
        ensures
            final(self).wf(),
            final(self).state() == after_sample(old(self).state(), token),
            !wants_sample(old(self).state()) ==> r is Stop && final(self).emitted() == old(
                self,
            ).emitted() && final(self).sampled() == old(self).sampled(),
            wants_sample(old(self).state()) ==> {
                &&& final(self).sampled() == old(self).sampled().push(token)
                &&& final(self).token_bytes() == old(self).token_bytes().push(raw@)
                &&& match r {
                    Step::Continue { text, next } => {
                        &&& token != old(self).state().eos
                        &&& final(self).emitted() == old(self).emitted() + text@
                        &&& next == (BatchEntry {
                            token,
                            pos: old(self).state().n_cur as i32,
                            seq: SEQ_SLOT,
                            logits: true,
                        })
                    },
                    Step::Finish { text } => {
                        &&& (token == old(self).state().eos || old(self).state().n_cur
                            >= BATCH_CAPACITY)
                        &&& final(self).emitted() == old(self).emitted() + text@
                    },
                    Step::Stop => false,
                }
            },
            final(self).emitted() == utf8_stream_text(final(self).token_bytes().flatten()),
    {
        proof {
            self.decoder.lemma_emitted_is_decoding();
        }
        if !((self.phase == Phase::Prefilled || self.phase == Phase::Decoding)
            && !self.awaiting_decode) {
            return Step::Stop;
        }
        let text = self.decoder.push(raw);
        proof {
            let old_bytes = self.token_bytes@;
            self.sampled@ = self.sampled@.push(token);
            self.token_bytes@ = self.token_bytes@.push(raw@);
            old_bytes.lemma_flatten_push(raw@);
        }
        if token == self.eos {
            self.phase = Phase::Done;
            Step::Finish { text }
        } else if self.n_cur as usize >= BATCH_CAPACITY {
            self.phase = Phase::Failed;
            self.error = Some(GenError::Decode);
            Step::Finish { text }
        } else {
            let next = step_entry(token, self.n_cur);
            self.phase = Phase::Decoding;
            self.awaiting_decode = true;
            self.n_cur = self.n_cur + 1;
            Step::Continue { text, next }
        }
    }
}

/// An ended session stays as it is, whatever tokens come after.
pub proof fn lemma_terminal_stays(s: SessionState, tokens: Seq<i32>)
    requires
        is_terminal(s.phase),
    ensures
        run_tokens(s, tokens) == s,
    decreases tokens.len(),
{
    if tokens.len() > 0 {
        lemma_terminal_stays(s, tokens.drop_first());
    }
}

/// A session waiting for a token, whose model samples the end-of-sequence
/// token at index `k` and not before, has ended once `k + 1` tokens are
/// sampled; it is `Done` if the context window holds those tokens. After
/// that nothing more changes, so no fragment follows the end-of-sequence token.
pub proof fn lemma_decode_terminates(s: SessionState, tokens: Seq<i32>, k: int)
    requires
        wants_sample(s),
        0 <= k < tokens.len(),
        tokens[k] == s.eos,
        forall|j: int| 0 <= j < k ==> tokens[j] != s.eos,
    ensures
        is_terminal(run_tokens(s, tokens.take(k + 1)).phase),
        s.n_cur + k <= BATCH_CAPACITY ==> run_tokens(s, tokens.take(k + 1)).phase == Phase::Done,
        forall|rest: Seq<i32>|
            #[trigger] run_tokens(run_tokens(s, tokens.take(k + 1)), rest) == run_tokens(
                s,
                tokens.take(k + 1),
            ),
        !wants_sample(run_tokens(s, tokens.take(k + 1))),
    decreases k,
{
    let t = tokens.take(k + 1);
    let s1 = after_decode(after_sample(s, tokens[0]), true);
    assert(t[0] == tokens[0]);
    assert(t.drop_first() =~= tokens.drop_first().take(k));
    if k == 0 {
        assert(s1.phase == Phase::Done);
        assert(t.drop_first().len() == 0);
    } else if s.n_cur >= BATCH_CAPACITY {
        assert(s1.phase == Phase::Failed);
        lemma_terminal_stays(s1, t.drop_first());
    } else {
        let u = tokens.drop_first();
        assert forall|j: int| 0 <= j < k - 1 implies u[j] != s1.eos by {
            assert(u[j] == tokens[j + 1]);
        }
        lemma_decode_terminates(s1, u, k - 1);
        assert(u.take(k) =~= t.drop_first());
    }
    let e = run_tokens(s, t);
    assert forall|rest: Seq<i32>| #[trigger] run_tokens(e, rest) == e by {
        lemma_terminal_stays(e, rest);
    }
}

/// Two sessions that were handed the same token bytes have streamed the
/// same text: the stream is the decoding of those bytes taken at once.
pub proof fn lemma_stream_determined(a: GenerationSession, b: GenerationSession)
    requires
        a.wf(),
        b.wf(),
        a.token_bytes() == b.token_bytes(),
    ensures
        a.emitted() == b.emitted(),
        a.emitted() == utf8_stream_text(a.token_bytes().flatten()),
{
    a.lemma_stream_is_decoding();
    b.lemma_stream_is_decoding();
}

} // verus!
