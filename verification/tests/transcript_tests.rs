use corner::text::NoisePatterns;
use corner::transcript::{
    chunk_fragment, final_fragment, stop_fragments, transcript_from_segments, ChunkOutcome,
    EngineError, StopOutcome, TranscriptionPayload,
};

fn patterns() -> NoisePatterns {
    NoisePatterns::compile().expect("the noise patterns compile")
}

fn partial(text: &str) -> TranscriptionPayload {
    TranscriptionPayload { text: text.to_string(), is_final: false }
}

fn terminal() -> TranscriptionPayload {
    TranscriptionPayload { text: String::new(), is_final: true }
}

fn stopped(fragments: Vec<TranscriptionPayload>) -> StopOutcome {
    StopOutcome { fragments, error: None }
}

#[test]
fn final_fragment_is_empty_and_final() {
    assert_eq!(final_fragment(), terminal());
}

#[test]
fn transcript_joins_surviving_segments_with_single_blanks() {
    let p = patterns();
    let segments = vec![
        Some(" Hello".to_string()),
        None,
        Some("[music]".to_string()),
        Some("world (laughs) ".to_string()),
    ];
    assert_eq!(transcript_from_segments(&p, &segments), Some(partial("Hello world")));
}

#[test]
fn transcript_of_one_segment_is_its_cleaned_text() {
    let p = patterns();
    let segments = vec![Some("[music] Hello  world (laughs)".to_string())];
    assert_eq!(transcript_from_segments(&p, &segments), Some(partial("Hello world")));
}

#[test]
fn transcript_of_noise_is_nothing() {
    let p = patterns();
    assert_eq!(transcript_from_segments(&p, &vec![Some("[BLANK_AUDIO]".to_string()), None]), None);
    assert_eq!(transcript_from_segments(&p, &vec![None, None]), None);
    assert_eq!(transcript_from_segments(&p, &Vec::new()), None);
}

#[test]
fn pass_over_an_empty_buffer_emits_nothing() {
    let p = patterns();
    assert_eq!(chunk_fragment(&p, ChunkOutcome::Skipped), Ok(None));
}

#[test]
fn pass_with_speech_emits_one_partial_fragment() {
    let p = patterns();
    let outcome = ChunkOutcome::Segments(vec![Some(" so".to_string()), Some("it goes ".to_string())]);
    assert_eq!(chunk_fragment(&p, outcome), Ok(Some(partial("so it goes"))));
}

#[test]
fn pass_without_speech_emits_nothing() {
    let p = patterns();
    assert_eq!(chunk_fragment(&p, ChunkOutcome::Segments(Vec::new())), Ok(None));
    let noise = ChunkOutcome::Segments(vec![Some("(static)".to_string())]);
    assert_eq!(chunk_fragment(&p, noise), Ok(None));
}

#[test]
fn failed_pass_hands_its_error_on() {
    let p = patterns();
    let load = EngineError::ModelLoad("no such file".to_string());
    assert_eq!(chunk_fragment(&p, ChunkOutcome::Failed(load.clone())), Err(load));
    let run = EngineError::Inference("out of memory".to_string());
    assert_eq!(chunk_fragment(&p, ChunkOutcome::Failed(run.clone())), Err(run));
}

#[test]
fn engine_errors_have_their_texts() {
    assert_eq!(
        EngineError::ModelLoad("no such file".to_string()).message(),
        "Failed to load Whisper model: no such file"
    );
    assert_eq!(EngineError::Inference("out of memory".to_string()).message(), "out of memory");
}

#[test]
fn stop_with_nothing_buffered_emits_the_final_fragment_alone() {
    let p = patterns();
    assert_eq!(stop_fragments(&p, ChunkOutcome::Skipped), stopped(vec![terminal()]));
}

#[test]
fn stop_after_silence_emits_the_final_fragment_alone() {
    let p = patterns();
    let silence = ChunkOutcome::Segments(vec![Some("[BLANK_AUDIO]".to_string())]);
    assert_eq!(stop_fragments(&p, silence), stopped(vec![terminal()]));
    assert_eq!(
        stop_fragments(&p, ChunkOutcome::Segments(Vec::new())),
        stopped(vec![terminal()])
    );
}

#[test]
fn stop_after_speech_emits_the_text_and_then_the_final_fragment() {
    let p = patterns();
    let speech = ChunkOutcome::Segments(vec![Some("Good night.".to_string())]);
    assert_eq!(stop_fragments(&p, speech), stopped(vec![partial("Good night."), terminal()]));
}

#[test]
fn stop_after_a_failed_pass_still_emits_the_final_fragment() {
    let p = patterns();
    let load = EngineError::ModelLoad("no such file".to_string());
    assert_eq!(
        stop_fragments(&p, ChunkOutcome::Failed(load.clone())),
        StopOutcome { fragments: vec![terminal()], error: Some(load) }
    );
    let run = EngineError::Inference("out of memory".to_string());
    assert_eq!(
        stop_fragments(&p, ChunkOutcome::Failed(run.clone())),
        StopOutcome { fragments: vec![terminal()], error: Some(run) }
    );
}

#[test]
fn stop_hands_an_error_on_only_for_a_failed_pass() {
    let p = patterns();
    assert_eq!(stop_fragments(&p, ChunkOutcome::Skipped).error, None);
    assert_eq!(stop_fragments(&p, ChunkOutcome::Segments(vec![None])).error, None);
    let speech = ChunkOutcome::Segments(vec![Some("one".to_string())]);
    assert_eq!(stop_fragments(&p, speech).error, None);
}

#[test]
fn stop_emits_exactly_one_final_fragment_and_emits_it_last() {
    let p = patterns();
    let outcomes = vec![
        ChunkOutcome::Skipped,
        ChunkOutcome::Segments(Vec::new()),
        ChunkOutcome::Segments(vec![None]),
        ChunkOutcome::Segments(vec![Some("(sighs)".to_string())]),
        ChunkOutcome::Segments(vec![Some("one".to_string()), Some("two".to_string())]),
        ChunkOutcome::Failed(EngineError::ModelLoad("no such file".to_string())),
        ChunkOutcome::Failed(EngineError::Inference("out of memory".to_string())),
    ];
    for outcome in outcomes {
        let fragments = stop_fragments(&p, outcome).fragments;
        let finals = fragments.iter().filter(|f| f.is_final).count();
        assert_eq!(finals, 1);
        assert_eq!(fragments.last(), Some(&terminal()));
    }
}
