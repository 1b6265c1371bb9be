//! From recognised segments to transcript fragments.

use crate::strings::{has_clean_ends, lemma_trimmed_of_clean_ends, trimmed};
use crate::text::{clean_segment_text, cleaned_text, lemma_cleaned_text_has_clean_ends, NoisePatterns};
use vstd::prelude::*;

verus! {

/// One unit of transcript output as the consumer receives it.
#[derive(Clone, Debug, PartialEq, Eq)]
pub struct TranscriptionPayload {
    pub text: String,
    pub is_final: bool,
}

/// A transcript fragment as a value: its text and whether it ends the
/// utterance.
pub struct TranscriptFragment {
    pub text: Seq<char>,
    pub is_final: bool,
}

impl View for TranscriptionPayload {
    type V = TranscriptFragment;

    open spec fn view(&self) -> TranscriptFragment {
        TranscriptFragment { text: self.text@, is_final: self.is_final }
    }
}

/// The fragment that ends an utterance: no text, marked final.
pub open spec fn terminal_fragment() -> TranscriptFragment {
    TranscriptFragment { text: Seq::empty(), is_final: true }
}

/// The segments that survive cleanup, cleaned, in their order. A segment whose
/// text could not be read (`None`) or whose cleaned text is empty is dropped.
pub open spec fn surviving(segments: Seq<Option<Seq<char>>>) -> Seq<Seq<char>>
    decreases segments.len(),
{
    if segments.len() == 0 {
        Seq::empty()
    } else {
        let before = surviving(segments.drop_last());
        match segments.last() {
            Some(text) => if cleaned_text(text).len() > 0 {
                before.push(cleaned_text(text))
            } else {
                before
            },
            None => before,
        }
    }
}

/// `parts` laid end to end with one blank between neighbours.
pub open spec fn joined(parts: Seq<Seq<char>>) -> Seq<char>
    decreases parts.len(),
{
    if parts.len() == 0 {
        Seq::empty()
    } else if parts.len() == 1 {
        parts.last()
    } else {
        joined(parts.drop_last()) + seq![' '] + parts.last()
    }
}

/// The fragment that a pass over the given segments emits, if any: the
/// surviving segments joined by single blanks, not final. Nothing is emitted
/// where no segment survives.
pub open spec fn emitted_fragment(segments: Seq<Option<Seq<char>>>) -> Option<TranscriptFragment> {
    if surviving(segments).len() == 0 {
        None
    } else {
        Some(TranscriptFragment { text: joined(surviving(segments)), is_final: false })
    }
}

/// Every part is non-empty and has clean ends.
pub open spec fn all_clean(parts: Seq<Seq<char>>) -> bool {
    forall|i: int| 0 <= i < parts.len() ==> (#[trigger] parts[i]).len() > 0 && has_clean_ends(parts[i])
}

/// What survives cleanup is non-empty and has clean ends.
pub proof fn lemma_surviving_all_clean(segments: Seq<Option<Seq<char>>>)
    ensures
        all_clean(surviving(segments)),
    decreases segments.len(),
{
    if segments.len() > 0 {
        lemma_surviving_all_clean(segments.drop_last());
        match segments.last() {
            Some(text) => {
                lemma_cleaned_text_has_clean_ends(text);
            },
            None => {},
        }
    }
}

/// Clean, non-empty parts joined by blanks give a non-empty text with clean
/// ends, which trimming leaves as it is.
pub proof fn lemma_joined_has_clean_ends(parts: Seq<Seq<char>>)
    requires
        all_clean(parts),
        parts.len() > 0,
    ensures
        joined(parts).len() > 0,
        has_clean_ends(joined(parts)),
        joined(parts).first() == parts.first().first(),
        joined(parts).last() == parts.last().last(),
        trimmed(joined(parts)) == joined(parts),
    decreases parts.len(),
{
    if parts.len() > 1 {
        lemma_joined_has_clean_ends(parts.drop_last());
    }
    lemma_trimmed_of_clean_ends(joined(parts));
}

/// The fragment that ends an utterance.
pub fn final_fragment() -> (fragment: TranscriptionPayload)
    ensures
        fragment@ == terminal_fragment(),
{
    TranscriptionPayload { text: String::new(), is_final: true }
}

/// Turns the segments of one inference pass into the fragment to emit.
///
/// Each segment is cleaned; segments that could not be read or that come out
/// empty are dropped; the rest is joined with single blanks and trimmed. The
/// result is `None` where nothing is left to say.
pub fn transcript_from_segments(patterns: &NoisePatterns, segments: &Vec<Option<String>>) -> (fragment:
    Option<TranscriptionPayload>)
    ensures
        match fragment {
            Some(payload) => emitted_fragment(segments.deep_view()) == Some(payload@),
            None => emitted_fragment(segments.deep_view()) is None,
        },
{
    let ghost all = segments.deep_view();
    let mut result: String = String::new();
    let mut i: usize = 0;
    proof {
        reveal_strlit(" ");
    }
    while i < segments.len()
        invariant
            i <= segments@.len(),
            all == segments.deep_view(),
            all.len() == segments@.len(),
            " "@ == seq![' '],
            all_clean(surviving(all.take(i as int))),
            surviving(all.take(i as int)).len() == 0 ==> result@.len() == 0,
            surviving(all.take(i as int)).len() > 0 ==> result@ == joined(
                surviving(all.take(i as int)),
            ) + seq![' '],
        decreases segments@.len() - i,
    {
        let ghost before = surviving(all.take(i as int));
        proof {
            assert(all.take(i + 1).drop_last() =~= all.take(i as int));
            lemma_surviving_all_clean(all.take(i + 1));
        }
        match &segments[i] {
            Some(raw) => {
                let text: String = clean_segment_text(patterns, raw.as_str());
                if !text.as_str().is_empty() {
                    result.append(text.as_str());
                    result.append(" ");
                    proof {
                        // The segment survives: it is one more part of the text.
                        assert(before.push(text@).drop_last() =~= before);
                    }
                }
            },
            None => {},
        }
        i = i + 1;
    }
    proof {
        assert(all.take(segments@.len() as int) =~= all);
    }
    if !result.as_str().is_empty() {
        let text: String = result.as_str().trim().to_owned();
        proof {
            // Trimming takes the blank behind the last part and nothing else.
            lemma_joined_has_clean_ends(surviving(all));
            assert(result@.drop_last() =~= joined(surviving(all)));
        }
        Some(TranscriptionPayload { text, is_final: false })
    } else {
        None
    }
}

/// Why a pass over a chunk produced no segments.
#[derive(Clone, Debug, PartialEq, Eq)]
pub enum EngineError {
    /// The acoustic model could not be loaded; the text says why.
    ModelLoad(String),
    /// Inference failed; the text is the inference engine's own.
    Inference(String),
}

/// An engine error as a value.
pub enum EngineFault {
    ModelLoad(Seq<char>),
    Inference(Seq<char>),
}

impl View for EngineError {
    type V = EngineFault;

    open spec fn view(&self) -> EngineFault {
        match self {
            EngineError::ModelLoad(text) => EngineFault::ModelLoad(text@),
            EngineError::Inference(text) => EngineFault::Inference(text@),
        }
    }
}

impl EngineError {
    /// The text of this error.
    pub open spec fn spec_message(&self) -> Seq<char> {
        match self {
            EngineError::ModelLoad(text) => "Failed to load Whisper model: "@ + text@,
            EngineError::Inference(text) => text@,
        }
    }

    /// The text of this error, as it is reported to the caller.
    pub fn message(&self) -> (text: String)
        ensures
            text@ == self.spec_message(),
    {
        match self {
            EngineError::ModelLoad(text) => {
                let mut message: String = "Failed to load Whisper model: ".to_owned();
                message.append(text.as_str());
                message
            },
            EngineError::Inference(text) => text.clone(),
        }
    }
}

/// How one pass over the buffer went.
#[derive(Clone, Debug, PartialEq, Eq)]
pub enum ChunkOutcome {
    /// Nothing was buffered, so no inference ran.
    Skipped,
    /// The model could not be loaded or inference failed.
    Failed(EngineError),
    /// Inference ran and returned these segments; `None` stands for a segment
    /// whose text could not be read.
    Segments(Vec<Option<String>>),
}

/// The outcome of a pass as a value.
pub enum PassView {
    Skipped,
    Failed(EngineFault),
    Segments(Seq<Option<Seq<char>>>),
}

impl View for ChunkOutcome {
    type V = PassView;

    open spec fn view(&self) -> PassView {
        match self {
            ChunkOutcome::Skipped => PassView::Skipped,
            ChunkOutcome::Failed(error) => PassView::Failed(error@),
            ChunkOutcome::Segments(segments) => PassView::Segments(segments.deep_view()),
        }
    }
}

/// What one pass produces: the fragment to emit, if there is one. A pass that
/// found nothing buffered emits nothing; a pass whose inference ran emits the
/// transcript of its segments, if any text is left; a failed pass emits
/// nothing and reports its error.
pub open spec fn pass_fragment(pass: PassView) -> Result<Option<TranscriptFragment>, EngineFault> {
    match pass {
        PassView::Skipped => Ok(None),
        PassView::Failed(fault) => Err(fault),
        PassView::Segments(segments) => Ok(emitted_fragment(segments)),
    }
}

/// What stopping comes to, as a value: the fragments to emit, in order, and
/// the error of the last pass, if it failed.
pub struct StopView {
    pub fragments: Seq<TranscriptFragment>,
    pub error: Option<EngineFault>,
}

/// What stopping comes to, given how the last pass over the buffer went: what
/// that pass emits, then the terminal fragment. The terminal fragment is
/// emitted whatever the pass came to; the error of a failed pass is handed on
/// beside it.
pub open spec fn stop_emission(pass: PassView) -> StopView {
    match pass_fragment(pass) {
        Ok(Some(fragment)) => StopView {
            fragments: seq![fragment, terminal_fragment()],
            error: None,
        },
        Ok(None) => StopView { fragments: seq![terminal_fragment()], error: None },
        Err(fault) => StopView { fragments: seq![terminal_fragment()], error: Some(fault) },
    }
}

/// What stopping comes to: the fragments to emit, in order, and the error to
/// report once they are emitted, if the last pass failed.
#[derive(Clone, Debug, PartialEq, Eq)]
pub struct StopOutcome {
    pub fragments: Vec<TranscriptionPayload>,
    pub error: Option<EngineError>,
}

impl View for StopOutcome {
    type V = StopView;

    open spec fn view(&self) -> StopView {
        StopView {
            fragments: Seq::new(self.fragments@.len(), |i: int| self.fragments@[i]@),
            error: match self.error {
                Some(error) => Some(error@),
                None => None,
            },
        }
    }
}

/// Decides what a periodic pass emits.
///
/// A pass that found the buffer empty emits nothing. A pass whose inference
/// ran emits the cleaned transcript of its segments, if any text is left. A
/// failed pass hands its error on.
pub fn chunk_fragment(patterns: &NoisePatterns, outcome: ChunkOutcome) -> (result: Result<
    Option<TranscriptionPayload>,
    EngineError,
>)
    ensures
        match result {
            Ok(Some(payload)) => pass_fragment(outcome@) == Ok::<_, EngineFault>(Some(payload@)),
            Ok(None) => pass_fragment(outcome@) == Ok::<Option<TranscriptFragment>, EngineFault>(
                None,
            ),
            Err(error) => pass_fragment(outcome@) == Err::<Option<TranscriptFragment>, _>(error@),
        },
{
    match outcome {
        ChunkOutcome::Skipped => Ok(None),
        ChunkOutcome::Failed(error) => Err(error),
        ChunkOutcome::Segments(segments) => Ok(transcript_from_segments(patterns, &segments)),
    }
}

/// Decides what stopping emits, given how the last pass over the buffer went.
///
/// Whatever the pass came to, text, none or a failure, the list ends with the
/// terminal fragment, which is the only final one in it. The error of a
/// failed pass comes beside the list, to be reported once the list is
/// emitted.
pub fn stop_fragments(patterns: &NoisePatterns, outcome: ChunkOutcome) -> (stop: StopOutcome)
    ensures
        stop@ == stop_emission(outcome@),
{
    let mut fragments: Vec<TranscriptionPayload> = Vec::new();
    let error: Option<EngineError> = match chunk_fragment(patterns, outcome) {
        Ok(Some(payload)) => {
            fragments.push(payload);
            None
        },
        Ok(None) => None,
        Err(error) => Some(error),
    };
    fragments.push(final_fragment());
    let stop = StopOutcome { fragments, error };
    assert(stop@.fragments =~= stop_emission(outcome@).fragments);
    stop
}

/// A periodic pass never emits a final fragment.
pub proof fn lemma_pass_emits_no_final_fragment(pass: PassView)
    ensures
        pass_fragment(pass) matches Ok(Some(fragment)) ==> !fragment.is_final,
        pass_fragment(pass) is Err <==> pass is Failed,
{
}

/// A pass over an empty buffer emits no fragment.
pub proof fn lemma_skipped_pass_emits_nothing()
    ensures
        pass_fragment(PassView::Skipped) == Ok::<Option<TranscriptFragment>, EngineFault>(None),
{
}

/// A fragment that a pass emits has text: it is not empty and neither starts
/// nor ends with white space.
pub proof fn lemma_emitted_text_is_not_empty(segments: Seq<Option<Seq<char>>>)
    ensures
        emitted_fragment(segments) matches Some(fragment) ==> fragment.text.len() > 0
            && has_clean_ends(fragment.text),
{
    lemma_surviving_all_clean(segments);
    if surviving(segments).len() > 0 {
        lemma_joined_has_clean_ends(surviving(segments));
    }
}

/// Stopping always emits exactly one final fragment, and emits it last:
/// whether the last pass produced text, produced none or failed, the list is
/// not empty, ends with the terminal fragment, and holds no other final
/// fragment. An error is handed on exactly if the last pass failed.
pub proof fn lemma_stop_emits_one_final_fragment_last(pass: PassView)
    ensures
        stop_emission(pass).fragments.len() >= 1,
        stop_emission(pass).fragments.last() == terminal_fragment(),
        forall|i: int|
            0 <= i < stop_emission(pass).fragments.len() - 1 ==> !(#[trigger] stop_emission(
                pass,
            ).fragments[i]).is_final,
        stop_emission(pass).error is Some <==> pass is Failed,
        pass matches PassView::Failed(fault) ==> stop_emission(pass).error == Some(fault),
{
    lemma_pass_emits_no_final_fragment(pass);
}

} // verus!
