use llama_stream::batch::{prefill_batch, step_entry, BatchEntry, BATCH_CAPACITY, SEQ_SLOT};
use llama_stream::decoder::IncrementalTextDecoder;
use llama_stream::error::GenError;
use llama_stream::manager::ModelManager;
use llama_stream::prompt::chat_prompt;
use llama_stream::session::{session_context_config, GenerationSession, Phase, Step};

fn feed_all(chunks: &[&[u8]]) -> String {
    let mut d = IncrementalTextDecoder::new();
    let mut out = String::new();
    for c in chunks {
        out.push_str(&d.push(c));
    }
    out
}

fn text_of(step: &Step) -> String {
    match step {
        Step::Continue { text, .. } => text.clone(),
        Step::Finish { text } => text.clone(),
        Step::Stop => panic!("no text after the session ended"),
    }
}

#[test]
fn chat_prompt_wraps_input_in_template() {
    assert_eq!(
        chat_prompt("hello"),
        "<|im_start|>user\nhello<|im_end|>\n<|im_start|>assistant\n"
    );
    assert_eq!(chat_prompt(""), "<|im_start|>user\n<|im_end|>\n<|im_start|>assistant\n");
}

#[test]
fn prefill_batch_for_three_token_prompt() {
    let bos = 1;
    let b = prefill_batch(&vec![bos, 15043, 29991]).unwrap();
    assert_eq!(
        b,
        vec![
            BatchEntry { token: bos, pos: 0, seq: 0, logits: false },
            BatchEntry { token: 15043, pos: 1, seq: 0, logits: false },
            BatchEntry { token: 29991, pos: 2, seq: 0, logits: true },
        ]
    );
}

#[test]
fn first_sample_reads_last_prompt_position() {
    let mut s = GenerationSession::new(2);
    let b = s.start(&vec![1, 15043, 29991]).unwrap();
    assert_eq!(b.len(), 3);
    assert_eq!(s.phase(), Phase::Tokenized);
    s.on_decode(true);
    assert_eq!(s.phase(), Phase::Prefilled);
    assert_eq!(s.sample_index(), 2);
    match s.on_sampled(500, b"Hi") {
        Step::Continue { text, next } => {
            assert_eq!(text, "Hi");
            assert_eq!(next, BatchEntry { token: 500, pos: 3, seq: SEQ_SLOT, logits: true });
        }
        other => panic!("unexpected step {:?}", other),
    }
    s.on_decode(true);
    assert_eq!(s.sample_index(), 0);
}

#[test]
fn prefill_rejects_empty_and_oversized_prompts() {
    assert_eq!(prefill_batch(&vec![]), Err(GenError::Tokenize));
    assert_eq!(prefill_batch(&vec![7; BATCH_CAPACITY + 1]), Err(GenError::ContextCreate));
    let full = prefill_batch(&vec![7; BATCH_CAPACITY]).unwrap();
    assert_eq!(full.len(), BATCH_CAPACITY);
    assert!(full[BATCH_CAPACITY - 1].logits);
    assert!(full[..BATCH_CAPACITY - 1].iter().all(|e| !e.logits));
    assert_eq!(full[4095].pos, 4095);
}

#[test]
fn step_entry_asks_for_logits() {
    assert_eq!(step_entry(42, 9), BatchEntry { token: 42, pos: 9, seq: 0, logits: true });
}

#[test]
fn context_config_is_fixed() {
    let c = session_context_config();
    assert_eq!(c.n_ctx, 4096);
    assert_eq!(c.n_threads, 4);
}

#[test]
fn decoder_holds_back_split_code_point() {
    let mut d = IncrementalTextDecoder::new();
    assert_eq!(d.push(&[0xE2, 0x82]), "");
    assert_eq!(d.push(&[0xAC, b'!']), "\u{20AC}!");
    assert_eq!(d.push(b"ok"), "ok");
}

#[test]
fn decoder_reassembles_any_split() {
    let text = "h\u{e9}llo w\u{f6}rld \u{20AC} \u{1D11E}!";
    let bytes = text.as_bytes();
    for cut in 0..=bytes.len() {
        assert_eq!(feed_all(&[&bytes[..cut], &bytes[cut..]]), text);
    }
    let singles: Vec<&[u8]> = bytes.chunks(1).collect();
    assert_eq!(feed_all(&singles), text);
}

#[test]
fn decoder_replaces_invalid_bytes() {
    assert_eq!(feed_all(&[&[b'a', 0xFF, b'b']]), "a\u{FFFD}b");
    assert_eq!(feed_all(&[&[0xE2, 0x82], &[b'x']]), "\u{FFFD}x");
}

#[test]
fn decoder_drops_leading_byte_order_mark() {
    assert_eq!(feed_all(&[&[0xEF, 0xBB], &[0xBF, b'a']]), "a");
}

#[test]
fn decoder_handles_input_longer_than_a_chunk() {
    let text = "\u{20AC}".repeat(5000);
    let mut d = IncrementalTextDecoder::new();
    assert_eq!(d.push(text.as_bytes()), text);
}

fn run_session(tokens: &[(i32, &[u8])]) -> (Vec<String>, GenerationSession) {
    let mut s = GenerationSession::new(2);
    s.start(&vec![1, 10, 11]).unwrap();
    s.on_decode(true);
    let mut out = Vec::new();
    for (t, raw) in tokens {
        let step = s.on_sampled(*t, raw);
        if let Step::Stop = step {
            break;
        }
        out.push(text_of(&step));
        s.on_decode(true);
    }
    (out, s)
}

#[test]
fn same_tokens_give_identical_stream() {
    let toks: Vec<(i32, &[u8])> = vec![(5, b"Hel"), (6, &[b'l', 0xC3]), (7, &[0xB6]), (2, b"")];
    let (a, _) = run_session(&toks);
    let (b, _) = run_session(&toks);
    assert_eq!(a, b);
    assert_eq!(a, vec!["Hel", "l", "\u{f6}", ""]);
}

#[test]
fn session_ends_at_end_of_sequence() {
    let toks: Vec<(i32, &[u8])> = vec![(5, b"a"), (2, b"</s>"), (6, b"late")];
    let (out, mut s) = run_session(&toks);
    assert_eq!(out, vec!["a", "</s>"]);
    assert_eq!(s.phase(), Phase::Done);
    assert!(matches!(s.on_sampled(6, b"more"), Step::Stop));
    assert_eq!(s.error(), None);
}

#[test]
fn decode_failure_ends_session() {
    let mut s = GenerationSession::new(2);
    s.start(&vec![1]).unwrap();
    s.on_decode(false);
    assert_eq!(s.phase(), Phase::Failed);
    assert_eq!(s.error(), Some(GenError::Decode));
    assert!(matches!(s.on_sampled(5, b"x"), Step::Stop));
}

#[test]
fn start_failure_ends_session() {
    let mut s = GenerationSession::new(2);
    assert_eq!(s.start(&vec![]), Err(GenError::Tokenize));
    assert_eq!(s.phase(), Phase::Failed);
    assert_eq!(s.error(), Some(GenError::Tokenize));
}

#[test]
fn closed_sink_stops_session() {
    let mut s = GenerationSession::new(2);
    s.start(&vec![1, 2, 3]).unwrap();
    s.on_decode(true);
    assert!(matches!(s.on_sampled(9, b"x"), Step::Continue { .. }));
    s.fail(GenError::SinkClosed);
    assert_eq!(s.error(), Some(GenError::SinkClosed));
    s.on_decode(true);
    assert_eq!(s.phase(), Phase::Failed);
    s.fail(GenError::Decode);
    assert_eq!(s.error(), Some(GenError::SinkClosed));
}

#[test]
fn full_context_fails_with_decode_error() {
    let mut s = GenerationSession::new(2);
    s.start(&vec![3; BATCH_CAPACITY - 1]).unwrap();
    s.on_decode(true);
    assert!(matches!(s.on_sampled(9, b"x"), Step::Continue { .. }));
    s.on_decode(true);
    match s.on_sampled(9, b"y") {
        Step::Finish { text } => assert_eq!(text, "y"),
        other => panic!("unexpected step {:?}", other),
    }
    assert_eq!(s.error(), Some(GenError::Decode));
}

#[test]
fn second_load_replaces_first() {
    let mut m: ModelManager<&str> = ModelManager::new();
    assert!(!m.is_loaded());
    assert_eq!(m.current(), Err(GenError::NotLoaded));
    assert_eq!(m.finish_load(Ok("first.gguf")), Ok(()));
    assert_eq!(m.finish_load(Ok("second.gguf")), Ok(()));
    assert_eq!(m.current(), Ok(&"second.gguf"));
}

#[test]
fn failed_load_keeps_previous_model() {
    let mut m: ModelManager<&str> = ModelManager::new();
    assert_eq!(m.finish_load(Err(GenError::ModelLoad)), Err(GenError::ModelLoad));
    assert!(!m.is_loaded());
    m.install("a.gguf");
    assert_eq!(m.finish_load(Err(GenError::BackendInit)), Err(GenError::BackendInit));
    assert_eq!(m.finish_load(Err(GenError::ResourceExhausted)), Err(GenError::ResourceExhausted));
    assert_eq!(m.current(), Ok(&"a.gguf"));
}
