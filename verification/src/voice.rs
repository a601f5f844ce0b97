use vstd::prelude::*;
use vstd::string::StringExecFns;

use crate::error::Qwen3TtsInferenceError;

verus! {

/// How a voice clone prompt conditions generation.
#[derive(Debug, Clone, Copy, PartialEq, Eq, Structural)]
pub enum Qwen3TtsVoiceClonePromptMode {
    /// Speaker embedding only.
    XVectorOnly,
    /// Speaker embedding plus the reference transcript and its codec tokens (in-context learning).
    Icl,
}

/// Unicode's White_Space characters (PropList.txt): U+0009 to U+000D, U+0020, U+0085,
/// U+00A0, U+1680, U+2000 to U+200A, U+2028, U+2029, U+202F, U+205F and U+3000.
pub open spec fn is_unicode_white_space(c: char) -> bool {
    let v = c as int;
    ||| 0x9 <= v <= 0xD
    ||| v == 0x20
    ||| v == 0x85
    ||| v == 0xA0
    ||| v == 0x1680
    ||| 0x2000 <= v <= 0x200A
    ||| v == 0x2028
    ||| v == 0x2029
    ||| v == 0x202F
    ||| v == 0x205F
    ||| v == 0x3000
}

/// `s` without its leading white space.
pub open spec fn trim_start_spec(s: Seq<char>) -> Seq<char>
    decreases s.len(),
{
    if s.len() > 0 && is_unicode_white_space(s[0]) {
        trim_start_spec(s.drop_first())
    } else {
        s
    }
}

/// `s` without its trailing white space.
pub open spec fn trim_end_spec(s: Seq<char>) -> Seq<char>
    decreases s.len(),
{
    if s.len() > 0 && is_unicode_white_space(s.last()) {
        trim_end_spec(s.drop_last())
    } else {
        s
    }
}

/// `s` without its leading and trailing white space.
pub open spec fn trim_spec(s: Seq<char>) -> Seq<char> {
    trim_end_spec(trim_start_spec(s))
}

/// Calls `str::trim`, whose documentation says it returns the string with leading and
/// trailing white space removed, white space being the characters with Unicode's
/// White_Space property.
#[verifier::external_body]
fn trim_str(s: &str) -> (t: &str)
    ensures
        t@ == trim_spec(s@),
{
    s.trim()
}

pub open spec fn missing_transcript_message() -> Seq<char> {
    "ref_text is required when x_vector_only is false"@
}

pub open spec fn option_view(s: Option<&str>) -> Option<Seq<char>> {
    match s {
        Some(t) => Some(t@),
        None => None,
    }
}

/// A transcript counts when it is given and not empty.
pub open spec fn nonempty_text(text: Option<Seq<char>>) -> Option<Seq<char>> {
    match text {
        Some(t) => if t.len() > 0 { Some(t) } else { None },
        None => None,
    }
}

/// The mode a prompt is built in.
pub open spec fn prompt_mode(x_vector_only: bool) -> Qwen3TtsVoiceClonePromptMode {
    if x_vector_only {
        Qwen3TtsVoiceClonePromptMode::XVectorOnly
    } else {
        Qwen3TtsVoiceClonePromptMode::Icl
    }
}

/// The outcome of planning a prompt, given the transcript after trimming.
pub open spec fn prompt_plan_holds(
    trimmed: Option<Seq<char>>,
    x_vector_only: bool,
    r: Result<(Option<String>, Qwen3TtsVoiceClonePromptMode), Qwen3TtsInferenceError>,
) -> bool {
    &&& r is Err <==> (!x_vector_only && nonempty_text(trimmed) is None)
    &&& r matches Err(e) ==> e.is_invalid_input_with(missing_transcript_message())
    &&& r matches Ok((text, mode)) ==> {
        &&& mode == prompt_mode(x_vector_only)
        &&& match nonempty_text(trimmed) {
            Some(kept) => text matches Some(t) && t@ == kept,
            None => text is None,
        }
    }
}

/// Prompt law: a plan that succeeds is in x-vector-only mode exactly when x-vector-only
/// cloning was asked for, whatever the transcript; only in-context cloning can fail,
/// and it fails exactly when no non-empty transcript is left; a kept transcript is the
/// trimmed one and is not empty.
pub proof fn lemma_prompt_plan_mode(trimmed: Option<Seq<char>>, x_vector_only: bool)
    ensures
        forall|r: Result<(Option<String>, Qwen3TtsVoiceClonePromptMode), Qwen3TtsInferenceError>|
            #[trigger] prompt_plan_holds(trimmed, x_vector_only, r) ==> {
                &&& r matches Ok((_, mode)) ==> (mode == Qwen3TtsVoiceClonePromptMode::XVectorOnly
                    <==> x_vector_only)
                &&& r matches Ok((_, mode)) ==> (mode == Qwen3TtsVoiceClonePromptMode::Icl <==> !x_vector_only)
                &&& x_vector_only ==> r is Ok
                &&& r matches Ok((Some(t), _)) ==> trimmed == Some(t@) && t@.len() > 0
                &&& r matches Ok((None, _)) ==> (trimmed matches Some(k) ==> k.len() == 0)
                &&& r is Err <==> !x_vector_only && (trimmed matches Some(k) ==> k.len() == 0)
            },
{
}

/// The trimmed transcript, when one is given.
pub open spec fn trimmed_transcript(transcript: Option<Seq<char>>) -> Option<Seq<char>> {
    match transcript {
        Some(t) => Some(trim_spec(t)),
        None => None,
    }
}

/// Decides the transcript and mode of a voice clone prompt. The reference text is
/// trimmed of surrounding white space and kept when something is left. In-context
/// cloning needs such a transcript; x-vector-only cloning keeps it when there is one
/// but does not need it.
pub fn voice_clone_prompt_plan(transcript: Option<&str>, x_vector_only: bool) -> (r: Result<
    (Option<String>, Qwen3TtsVoiceClonePromptMode),
    Qwen3TtsInferenceError,
>)
    ensures
        prompt_plan_holds(trimmed_transcript(option_view(transcript)), x_vector_only, r),
        r matches Ok((_, mode)) ==> (mode == Qwen3TtsVoiceClonePromptMode::XVectorOnly <==> x_vector_only),
        r matches Ok((_, mode)) ==> (mode == Qwen3TtsVoiceClonePromptMode::Icl <==> !x_vector_only),
        x_vector_only ==> r is Ok,
        r matches Ok((Some(t), _)) ==> transcript matches Some(given) && t@ == trim_spec(given@) && t@.len() > 0,
        r matches Ok((None, _)) ==> (transcript matches Some(given) ==> trim_spec(given@).len() == 0),
        r is Err <==> !x_vector_only && (transcript matches Some(given) ==> trim_spec(given@).len() == 0),
{
    proof {
        lemma_prompt_plan_mode(trimmed_transcript(option_view(transcript)), x_vector_only);
    }
    let kept: Option<String> = match transcript {
        Some(text) => {
            let trimmed = trim_str(text);
            if !trimmed.is_empty() {
                Some(trimmed.to_owned())
            } else {
                None
            }
        },
        None => None,
    };
    if !x_vector_only && kept.is_none() {
        return Err(Qwen3TtsInferenceError::InvalidInput {
            message: String::from_str("ref_text is required when x_vector_only is false"),
        });
    }
    let mode = if x_vector_only {
        Qwen3TtsVoiceClonePromptMode::XVectorOnly
    } else {
        Qwen3TtsVoiceClonePromptMode::Icl
    };
    Ok((kept, mode))
}

pub open spec fn no_speaker_embedding_message(audio: Seq<char>) -> Seq<char> {
    "reference audio "@ + audio + " produced no speaker embedding"@
}

/// A voice clone prompt needs a speaker embedding: the reference audio (shown as
/// `audio`) must have produced at least one embedding value.
pub fn require_speaker_embedding(embedding_len: usize, audio: &str) -> (r: Result<(), Qwen3TtsInferenceError>)
    ensures
        r is Ok <==> embedding_len > 0,
        r matches Err(e) ==> e.is_invalid_input_with(no_speaker_embedding_message(audio@)),
{
    if embedding_len == 0 {
        let mut message = String::from_str("reference audio ");
        message.append(audio);
        message.append(" produced no speaker embedding");
        return Err(Qwen3TtsInferenceError::InvalidInput { message });
    }
    Ok(())
}

} // verus!
