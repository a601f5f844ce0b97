use vstd::prelude::*;
use vstd::string::StringExecFns;

use crate::cache::KeyValueCache;
use crate::error::{decimal, push_decimal, Qwen3TtsInferenceError};

verus! {

/// What one talker generation step reported.
#[derive(Debug, Clone, Copy, PartialEq, Eq, Structural)]
pub struct TalkerStep {
    pub finished: bool,
}

/// What a session step reports to its driver.
#[derive(Debug, Clone, Copy, PartialEq, Eq, Structural)]
pub enum SessionStep {
    Advanced,
    Finished,
}

/// A session advances while the talker produced a step that is not the last one;
/// it is finished when the talker finished or had nothing left to do.
pub fn session_step_from_talker(step: Option<TalkerStep>) -> (s: SessionStep)
    ensures
        s == (match step {
            Some(t) => if t.finished { SessionStep::Finished } else { SessionStep::Advanced },
            None => SessionStep::Finished,
        }),
{
    match step {
        Some(step) if step.finished => SessionStep::Finished,
        Some(_) => SessionStep::Advanced,
        None => SessionStep::Finished,
    }
}

/// Whether the sampled token is the end-of-speech token, when one is configured.
pub fn token_is_eos(token_id: i64, eos_token_id: Option<i64>) -> (b: bool)
    ensures
        b == (eos_token_id == Some(token_id)),
{
    match eos_token_id {
        Some(id) => token_id == id,
        None => false,
    }
}

/// The number of new tokens to generate: the run option when given, the package default otherwise.
pub fn effective_max_new_tokens(requested: Option<usize>, package_default: usize) -> (n: usize)
    ensures
        n == match requested {
            Some(r) => r,
            None => package_default,
        },
{
    match requested {
        Some(r) => r,
        None => package_default,
    }
}

/// The trailing text position added to generation step `generation_step`, or `None`
/// when the text is exhausted and the padding embedding is added instead.
pub fn trailing_text_position(generation_step: usize, trailing_text_len: usize) -> (p: Option<usize>)
    ensures
        p == if generation_step < trailing_text_len { Some(generation_step) } else { None::<usize> },
{
    if generation_step < trailing_text_len {
        Some(generation_step)
    } else {
        None
    }
}

pub open spec fn zero_budget_message() -> Seq<char> {
    "talker max_new_tokens must be greater than zero"@
}

pub open spec fn batch_not_one_message(batch: nat) -> Seq<char> {
    "only batch size 1 is supported, got "@ + decimal(batch)
}

pub open spec fn side_batch_message(batch: nat, trailing: nat, pad: nat) -> Seq<char> {
    "generation side input batch mismatch: expected "@ + decimal(batch) + ", got trailing="@
        + decimal(trailing) + ", pad="@ + decimal(pad)
}

pub open spec fn side_length_message(trailing: nat, pad: nat) -> Seq<char> {
    "generation side input length mismatch: trailing length must be > 0 and pad length must be 1, got trailing="@
        + decimal(trailing) + ", pad="@ + decimal(pad)
}

pub open spec fn side_hidden_message(hidden: nat, trailing: nat, pad: nat) -> Seq<char> {
    "generation side input hidden mismatch: expected "@ + decimal(hidden) + ", got trailing="@
        + decimal(trailing) + ", pad="@ + decimal(pad)
}

/// The first problem, in the order the generator checks them, with the inputs of a
/// generation start; `None` when they are acceptable.
pub open spec fn generator_start_problem(
    max_new_tokens: nat,
    batch_size: nat,
    trailing: [usize; 3],
    pad: [usize; 3],
    hidden_size: nat,
) -> Option<Seq<char>> {
    if max_new_tokens == 0 {
        Some(zero_budget_message())
    } else if batch_size != 1 {
        Some(batch_not_one_message(batch_size))
    } else if trailing[0] != batch_size || pad[0] != batch_size {
        Some(side_batch_message(batch_size, trailing[0] as nat, pad[0] as nat))
    } else if trailing[1] == 0 || pad[1] != 1 {
        Some(side_length_message(trailing[1] as nat, pad[1] as nat))
    } else if trailing[2] != hidden_size || pad[2] != hidden_size {
        Some(side_hidden_message(hidden_size, trailing[2] as nat, pad[2] as nat))
    } else {
        None
    }
}

/// Start law: a generation start is accepted exactly when the budget is positive, the
/// batch is one, the trailing text has a positive length, the padding embedding one
/// position, and both side inputs have batch one and the talker's width. A refused
/// start names the first problem, beginning with the budget.
pub proof fn lemma_generator_start_accepts_exactly(
    max_new_tokens: nat,
    batch_size: nat,
    trailing: [usize; 3],
    pad: [usize; 3],
    hidden_size: nat,
)
    ensures
        generator_start_problem(max_new_tokens, batch_size, trailing, pad, hidden_size) is None <==> (max_new_tokens > 0
            && batch_size == 1 && trailing[0] == 1 && pad[0] == 1 && trailing[1] > 0 && pad[1] == 1
            && trailing[2] == hidden_size && pad[2] == hidden_size),
        max_new_tokens == 0 ==> generator_start_problem(max_new_tokens, batch_size, trailing, pad, hidden_size)
            == Some(zero_budget_message()),
        (max_new_tokens > 0 && batch_size == 1 && trailing[0] == 1 && pad[0] == 1 && trailing[1] > 0 && pad[1] == 1
            && trailing[2] != hidden_size) ==> generator_start_problem(
            max_new_tokens,
            batch_size,
            trailing,
            pad,
            hidden_size,
        ) == Some(side_hidden_message(hidden_size, trailing[2] as nat, pad[2] as nat)),
{
}

fn message_with_two(prefix: &str, a: usize, middle: &str, b: usize) -> (s: String)
    ensures
        s@ == prefix@ + decimal(a as nat) + middle@ + decimal(b as nat),
{
    let mut s = String::from_str(prefix);
    push_decimal(&mut s, a as u64);
    s.append(middle);
    push_decimal(&mut s, b as u64);
    s
}

fn message_with_three(prefix: &str, a: usize, first: &str, b: usize, second: &str, c: usize) -> (s: String)
    ensures
        s@ == prefix@ + decimal(a as nat) + first@ + decimal(b as nat) + second@ + decimal(c as nat),
{
    let mut s = message_with_two(prefix, a, first, b);
    s.append(second);
    push_decimal(&mut s, c as u64);
    s
}

/// Checks the shapes handed to a talker generation start: a positive token budget,
/// batch size one, and trailing text / padding embeddings of shapes
/// `[batch, len > 0, hidden]` and `[batch, 1, hidden]`.
pub fn validate_generator_start(
    max_new_tokens: usize,
    batch_size: usize,
    trailing: [usize; 3],
    pad: [usize; 3],
    hidden_size: usize,
) -> (r: Result<(), Qwen3TtsInferenceError>)
    ensures
        match generator_start_problem(max_new_tokens as nat, batch_size as nat, trailing, pad, hidden_size as nat) {
            None => r is Ok,
            Some(text) => r matches Err(e) && e.is_invalid_input_with(text),
        },
        r is Ok <==> (max_new_tokens > 0 && batch_size == 1 && trailing[0] == 1 && pad[0] == 1 && trailing[1] > 0
            && pad[1] == 1 && trailing[2] == hidden_size && pad[2] == hidden_size),
        r is Err ==> (r matches Err(e) && e is InvalidInput),
{
    proof {
        lemma_generator_start_accepts_exactly(max_new_tokens as nat, batch_size as nat, trailing, pad, hidden_size as nat);
    }
    if max_new_tokens == 0 {
        return Err(Qwen3TtsInferenceError::InvalidInput {
            message: String::from_str("talker max_new_tokens must be greater than zero"),
        });
    }
    if batch_size != 1 {
        let mut message = String::from_str("only batch size 1 is supported, got ");
        push_decimal(&mut message, batch_size as u64);
        return Err(Qwen3TtsInferenceError::InvalidInput { message });
    }
    if trailing[0] != batch_size || pad[0] != batch_size {
        let message = message_with_three(
            "generation side input batch mismatch: expected ",
            batch_size,
            ", got trailing=",
            trailing[0],
            ", pad=",
            pad[0],
        );
        return Err(Qwen3TtsInferenceError::InvalidInput { message });
    }
    if trailing[1] == 0 || pad[1] != 1 {
        let message = message_with_two(
            "generation side input length mismatch: trailing length must be > 0 and pad length must be 1, got trailing=",
            trailing[1],
            ", pad=",
            pad[1],
        );
        return Err(Qwen3TtsInferenceError::InvalidInput { message });
    }
    if trailing[2] != hidden_size || pad[2] != hidden_size {
        let message = message_with_three(
            "generation side input hidden mismatch: expected ",
            hidden_size,
            ", got trailing=",
            trailing[2],
            ", pad=",
            pad[2],
        );
        return Err(Qwen3TtsInferenceError::InvalidInput { message });
    }
    Ok(())
}

pub open spec fn early_eos_message() -> Seq<char> {
    "talker emitted EOS before any audio codec token"@
}

pub open spec fn nothing_generated_message() -> Seq<char> {
    "no codec tokens were generated"@
}

/// The decision state of a talker generation run: how many codec steps were
/// produced, within which budget, whether the end-of-speech token was sampled,
/// and whether the run is over.
///
/// A step runs in up to three phases: `begin_step` decides whether to generate,
/// `record_codec_step` counts the codec group that was generated and decides
/// whether the budget is spent, and `record_next_token` takes the next sampled
/// token's end-of-speech flag.
#[derive(Debug, Clone, Copy)]
pub struct GenerationProgress {
    max_new_tokens: usize,
    step_idx: usize,
    eos_seen: bool,
    finished: bool,
}

impl GenerationProgress {
    pub closed spec fn budget(&self) -> nat {
        self.max_new_tokens as nat
    }

    /// The number of codec steps produced so far.
    pub closed spec fn steps(&self) -> nat {
        self.step_idx as nat
    }

    pub closed spec fn eos(&self) -> bool {
        self.eos_seen
    }

    pub closed spec fn is_finished(&self) -> bool {
        self.finished
    }

    /// The budget is positive, never overrun, and an unfinished run has room for one more step.
    pub closed spec fn wf(&self) -> bool {
        &&& 0 < self.max_new_tokens
        &&& self.step_idx <= self.max_new_tokens
        &&& !self.finished ==> self.step_idx < self.max_new_tokens
    }

    /// A run that has not finished and has not sampled end-of-speech generates on its next step.
    pub open spec fn can_generate(&self) -> bool {
        !self.is_finished() && !self.eos()
    }

    /// Starts a run after the prefill sampled its first token.
    pub fn new(max_new_tokens: usize, first_token_is_eos: bool) -> (p: Self)
        requires
            max_new_tokens > 0,
        ensures
            p.wf(),
            p.budget() == max_new_tokens,
            p.steps() < p.budget(),
            p.steps() == 0,
            p.eos() == first_token_is_eos,
            !p.is_finished(),
    {
        GenerationProgress { max_new_tokens, step_idx: 0, eos_seen: first_token_is_eos, finished: false }
    }

    /// Decides the start of a step: `Ok(true)` to generate a codec group, `Ok(false)` when
    /// the run is over (a run that sampled end-of-speech is finished here), and an error
    /// when end-of-speech came before any codec step.
    pub fn begin_step(&mut self) -> (r: Result<bool, Qwen3TtsInferenceError>)
        requires
            old(self).wf(),
        ensures
            final(self).wf(),
            !final(self).is_finished() ==> final(self).steps() < final(self).budget(),
            final(self).steps() <= final(self).budget(),
            final(self).budget() == old(self).budget(),
            final(self).steps() == old(self).steps(),
            final(self).eos() == old(self).eos(),
            old(self).is_finished() ==> r == Ok::<bool, Qwen3TtsInferenceError>(false) && final(self).is_finished(),
            old(self).can_generate() ==> r == Ok::<bool, Qwen3TtsInferenceError>(true) && !final(self).is_finished(),
            !old(self).is_finished() && old(self).eos() && old(self).steps() == 0 ==> (r matches Err(e)
                && e.is_invalid_input_with(early_eos_message())) && !final(self).is_finished(),
            !old(self).is_finished() && old(self).eos() && old(self).steps() > 0 ==> r
                == Ok::<bool, Qwen3TtsInferenceError>(false) && final(self).is_finished(),
    {
        if self.finished {
            return Ok(false);
        }
        if self.eos_seen {
            if self.step_idx == 0 {
                return Err(Qwen3TtsInferenceError::InvalidInput {
                    message: String::from_str("talker emitted EOS before any audio codec token"),
                });
            }
            self.finished = true;
            return Ok(false);
        }
        Ok(true)
    }

    /// Counts a generated codec step. When the budget is spent the run finishes and
    /// the finished step is returned; otherwise `None` asks for the next token.
    pub fn record_codec_step(&mut self) -> (r: Option<TalkerStep>)
        requires
            old(self).wf(),
            old(self).can_generate(),
        ensures
            final(self).wf(),
            !final(self).is_finished() ==> final(self).steps() < final(self).budget(),
            final(self).steps() <= final(self).budget(),
            final(self).budget() == old(self).budget(),
            final(self).steps() == old(self).steps() + 1,
            final(self).eos() == old(self).eos(),
            final(self).steps() == final(self).budget() ==> r == Some(TalkerStep { finished: true })
                && final(self).is_finished(),
            final(self).steps() < final(self).budget() ==> r == None::<TalkerStep>
                && !final(self).is_finished(),
    {
        self.step_idx = self.step_idx + 1;
        if self.step_idx >= self.max_new_tokens {
            self.finished = true;
            return Some(TalkerStep { finished: true });
        }
        None
    }

    /// Takes the end-of-speech flag of the next sampled token and reports the step.
    pub fn record_next_token(&mut self, is_eos: bool) -> (step: TalkerStep)
        requires
            old(self).wf(),
            !old(self).is_finished(),
        ensures
            final(self).wf(),
            !final(self).is_finished() ==> final(self).steps() < final(self).budget(),
            final(self).steps() <= final(self).budget(),
            final(self).budget() == old(self).budget(),
            final(self).steps() == old(self).steps(),
            final(self).eos() == (old(self).eos() || is_eos),
            final(self).is_finished() == final(self).eos(),
            step == (TalkerStep { finished: final(self).is_finished() }),
    {
        self.eos_seen = self.eos_seen || is_eos;
        if self.eos_seen {
            self.finished = true;
        }
        TalkerStep { finished: self.finished }
    }

    /// The number of codec steps produced so far.
    pub fn steps_generated(&self) -> (n: usize)
        ensures
            n == self.steps(),
    {
        self.step_idx
    }

    pub fn is_done(&self) -> (b: bool)
        ensures
            b == self.is_finished(),
    {
        self.finished
    }

    /// Finalizing a run needs at least one generated codec step.
    pub fn check_finalize(&self) -> (r: Result<(), Qwen3TtsInferenceError>)
        ensures
            r is Ok <==> self.steps() > 0,
            r matches Err(e) ==> e.is_invalid_input_with(nothing_generated_message()),
    {
        if self.step_idx == 0 {
            return Err(Qwen3TtsInferenceError::InvalidInput {
                message: String::from_str("no codec tokens were generated"),
            });
        }
        Ok(())
    }
}

/// What one whole talker step reports: an error for end-of-speech before any codec
/// step, nothing when the run is over, or a produced codec step.
#[derive(Debug, Clone, Copy, PartialEq, Eq, Structural)]
pub enum TalkerStepOutcome {
    EarlyEos,
    Idle,
    Produced { finished: bool },
}

/// One whole talker step as its three phases compose it (`begin_step`, then
/// `record_codec_step`, then, when the budget is not spent, `record_next_token` with the
/// end-of-speech flag `next_eos` of the token sampled after the step).
pub closed spec fn talker_step_spec(p: GenerationProgress, next_eos: bool) -> (GenerationProgress, TalkerStepOutcome) {
    if p.finished {
        (p, TalkerStepOutcome::Idle)
    } else if p.eos_seen {
        if p.step_idx == 0 {
            (p, TalkerStepOutcome::EarlyEos)
        } else {
            (
                GenerationProgress {
                    max_new_tokens: p.max_new_tokens,
                    step_idx: p.step_idx,
                    eos_seen: p.eos_seen,
                    finished: true,
                },
                TalkerStepOutcome::Idle,
            )
        }
    } else {
        let steps = (p.step_idx + 1) as usize;
        if steps >= p.max_new_tokens {
            (
                GenerationProgress { max_new_tokens: p.max_new_tokens, step_idx: steps, eos_seen: false, finished: true },
                TalkerStepOutcome::Produced { finished: true },
            )
        } else {
            (
                GenerationProgress {
                    max_new_tokens: p.max_new_tokens,
                    step_idx: steps,
                    eos_seen: next_eos,
                    finished: next_eos,
                },
                TalkerStepOutcome::Produced { finished: next_eos },
            )
        }
    }
}

/// A whole step does what its phases' contracts say: it reads the same views as
/// `begin_step`, `record_codec_step` and `record_next_token` and changes them the same way.
pub proof fn lemma_talker_step_follows_phases(p: GenerationProgress, next_eos: bool)
    requires
        p.wf(),
    ensures
        ({
            let (q, o) = talker_step_spec(p, next_eos);
            &&& q.wf()
            &&& q.budget() == p.budget()
            &&& p.is_finished() ==> o == TalkerStepOutcome::Idle && q == p
            &&& (!p.is_finished() && p.eos() && p.steps() == 0) ==> o == TalkerStepOutcome::EarlyEos && q == p
            &&& (!p.is_finished() && p.eos() && p.steps() > 0) ==> o == TalkerStepOutcome::Idle
                && q.is_finished() && q.steps() == p.steps() && q.eos()
            &&& p.can_generate() ==> {
                &&& q.steps() == p.steps() + 1
                &&& q.steps() == q.budget() ==> o == (TalkerStepOutcome::Produced { finished: true })
                    && q.is_finished() && !q.eos()
                &&& q.steps() < q.budget() ==> o == (TalkerStepOutcome::Produced { finished: next_eos })
                    && q.eos() == next_eos && q.is_finished() == next_eos
            }
        }),
{
}

/// Budget facts of every well-formed run: the budget is positive, never overrun, and a
/// run that is not finished has room for one more codec step.
pub proof fn lemma_progress_within_budget(p: GenerationProgress)
    requires
        p.wf(),
    ensures
        p.budget() > 0,
        p.steps() <= p.budget(),
        !p.is_finished() ==> p.steps() < p.budget(),
{
}

/// A finished talker stays finished: a step that reports nothing or a finished codec
/// step leaves the run finished, and from a finished run every later step reports
/// nothing and changes no state, so the collected codec steps stay as they are.
pub proof fn lemma_finished_talker_stays_idle(p: GenerationProgress, next_eos: bool, later: Seq<bool>)
    requires
        p.wf(),
    ensures
        ({
            let (q, o) = talker_step_spec(p, next_eos);
            (o == TalkerStepOutcome::Idle || o == (TalkerStepOutcome::Produced { finished: true }))
                ==> q.is_finished()
        }),
        p.is_finished() ==> talker_run(p, later).0 == p,
        p.is_finished() ==> talker_run(p, later).1 == Seq::new(later.len(), |i: int| TalkerStepOutcome::Idle),
    decreases later.len(),
{
    if later.len() > 0 {
        lemma_finished_talker_stays_idle(p, next_eos, later.drop_last());
        if p.is_finished() {
            let (q, outs) = talker_run(p, later.drop_last());
            assert(talker_run(p, later).1 =~= outs.push(TalkerStepOutcome::Idle));
            assert(talker_run(p, later).1 =~= Seq::new(later.len(), |i: int| TalkerStepOutcome::Idle));
        }
    } else {
        assert(talker_run(p, later).1 =~= Seq::new(0, |i: int| TalkerStepOutcome::Idle));
    }
}

/// The state and the outcomes after a run of whole steps, one per end-of-speech flag
/// of the token sampled after it.
pub closed spec fn talker_run(p: GenerationProgress, next_eos: Seq<bool>) -> (GenerationProgress, Seq<TalkerStepOutcome>)
    decreases next_eos.len(),
{
    if next_eos.len() == 0 {
        (p, Seq::empty())
    } else {
        let (q, outs) = talker_run(p, next_eos.drop_last());
        let (r, o) = talker_step_spec(q, next_eos.last());
        (r, outs.push(o))
    }
}

/// The number of steps that produced a codec step.
pub open spec fn produced_count(outs: Seq<TalkerStepOutcome>) -> nat
    decreases outs.len(),
{
    if outs.len() == 0 {
        0
    } else {
        produced_count(outs.drop_last()) + if outs.last() is Produced { 1nat } else { 0nat }
    }
}

/// Budget law over a whole run: a run started with a budget of `n` produces at most `n`
/// codec steps and counts each of them; the step that spends the budget is reported
/// finished; after a step reported finished every later step reports nothing; and
/// finalizing fails exactly when no codec step was produced.
pub proof fn lemma_talker_run_within_budget(p: GenerationProgress, next_eos: Seq<bool>)
    requires
        p.wf(),
        p.steps() == 0,
        !p.is_finished(),
    ensures
        ({
            let (q, outs) = talker_run(p, next_eos);
            &&& q.wf()
            &&& q.budget() == p.budget()
            &&& outs.len() == next_eos.len()
            &&& q.steps() == produced_count(outs)
            &&& produced_count(outs) <= p.budget()
            &&& forall|i: int|
                0 <= i < outs.len() && outs[i] is Produced && produced_count(outs.take(i + 1)) == p.budget()
                    ==> outs[i] == (TalkerStepOutcome::Produced { finished: true })
            &&& forall|i: int, j: int|
                0 <= i < j < outs.len() && outs[i] == (TalkerStepOutcome::Produced { finished: true })
                    ==> outs[j] == TalkerStepOutcome::Idle
            &&& (q.steps() > 0 <==> exists|i: int| 0 <= i < outs.len() && outs[i] is Produced)
        }),
    decreases next_eos.len(),
{
    let (q, outs) = talker_run(p, next_eos);
    if next_eos.len() == 0 {
        assert(outs =~= Seq::<TalkerStepOutcome>::empty());
    } else {
        let prefix = next_eos.drop_last();
        lemma_talker_run_within_budget(p, prefix);
        let (q0, outs0) = talker_run(p, prefix);
        let (r, o) = talker_step_spec(q0, next_eos.last());
        assert(outs == outs0.push(o));
        assert(outs.drop_last() =~= outs0);
        lemma_talker_run_finished_after_final(p, prefix);
        assert forall|i: int|
            0 <= i < outs.len() && outs[i] is Produced && produced_count(outs.take(i + 1)) == p.budget()
                implies outs[i] == (TalkerStepOutcome::Produced { finished: true }) by {
            if i < outs0.len() {
                assert(outs.take(i + 1) =~= outs0.take(i + 1));
            } else {
                assert(outs.take(i + 1) =~= outs);
            }
        }
        assert forall|i: int, j: int|
            0 <= i < j < outs.len() && outs[i] == (TalkerStepOutcome::Produced { finished: true })
                implies outs[j] == TalkerStepOutcome::Idle by {
            if j == outs.len() - 1 {
                assert(outs0[i] == outs[i]);
            } else {
                assert(outs0[i] == outs[i] && outs0[j] == outs[j]);
            }
        }
        if r.step_idx > 0 {
            if q0.step_idx > 0 {
                let k = choose|k: int| 0 <= k < outs0.len() && outs0[k] is Produced;
                assert(outs[k] == outs0[k]);
            } else {
                assert(outs[outs.len() - 1] is Produced);
            }
        }
        if exists|i: int| 0 <= i < outs.len() && outs[i] is Produced {
            let i = choose|i: int| 0 <= i < outs.len() && outs[i] is Produced;
            if i < outs0.len() {
                assert(outs0[i] == outs[i]);
            }
        }
    }
}

/// A run that reported a finished codec step is over: its state is finished.
proof fn lemma_talker_run_finished_after_final(p: GenerationProgress, next_eos: Seq<bool>)
    requires
        p.wf(),
        !p.is_finished(),
    ensures
        ({
            let (q, outs) = talker_run(p, next_eos);
            (exists|i: int| 0 <= i < outs.len() && outs[i] == (TalkerStepOutcome::Produced { finished: true }))
                ==> q.finished
        }),
    decreases next_eos.len(),
{
    if next_eos.len() > 0 {
        let prefix = next_eos.drop_last();
        lemma_talker_run_finished_after_final(p, prefix);
        lemma_talker_run_keeps_wf(p, prefix);
        let (q0, outs0) = talker_run(p, prefix);
        let (q, outs) = talker_run(p, next_eos);
        if exists|i: int| 0 <= i < outs.len() && outs[i] == (TalkerStepOutcome::Produced { finished: true }) {
            let i = choose|i: int| 0 <= i < outs.len() && outs[i] == (TalkerStepOutcome::Produced { finished: true });
            if i < outs0.len() {
                assert(outs0[i] == outs[i]);
            }
        }
    }
}

/// Whole steps keep the run well formed and its budget.
proof fn lemma_talker_run_keeps_wf(p: GenerationProgress, next_eos: Seq<bool>)
    requires
        p.wf(),
    ensures
        talker_run(p, next_eos).0.wf(),
        talker_run(p, next_eos).0.max_new_tokens == p.max_new_tokens,
    decreases next_eos.len(),
{
    if next_eos.len() > 0 {
        lemma_talker_run_keeps_wf(p, next_eos.drop_last());
    }
}

pub open spec fn too_few_groups_message() -> Seq<char> {
    "code predictor generation requires at least two code groups"@
}

pub open spec fn base_token_shape_message(batch: nat, rows: nat, cols: nat) -> Seq<char> {
    "code predictor base token shape mismatch: expected ["@ + decimal(batch) + ", 1], got ["@ + decimal(rows)
        + ", "@ + decimal(cols) + "]"@
}

pub open spec fn predictor_hidden_message(expected: nat, found: nat) -> Seq<char> {
    "code predictor hidden size mismatch: expected "@ + decimal(expected) + ", got "@ + decimal(found)
}

/// The first problem with the inputs of one code predictor run, in checking order.
pub open spec fn code_predictor_problem(
    num_code_groups: nat,
    hidden_dims: [usize; 2],
    base_token_dims: [usize; 2],
    expected_hidden: nat,
) -> Option<Seq<char>> {
    if num_code_groups < 2 {
        Some(too_few_groups_message())
    } else if base_token_dims[0] != hidden_dims[0] || base_token_dims[1] != 1 {
        Some(base_token_shape_message(hidden_dims[0] as nat, base_token_dims[0] as nat, base_token_dims[1] as nat))
    } else if hidden_dims[1] != expected_hidden {
        Some(predictor_hidden_message(expected_hidden, hidden_dims[1] as nat))
    } else {
        None
    }
}

/// Code predictor law: a run is accepted exactly when there are at least two code
/// groups, one base token per batch row, and talker states of the talker's width.
pub proof fn lemma_code_predictor_accepts_exactly(
    num_code_groups: nat,
    hidden_dims: [usize; 2],
    base_token_dims: [usize; 2],
    expected_hidden: nat,
)
    ensures
        code_predictor_problem(num_code_groups, hidden_dims, base_token_dims, expected_hidden) is None <==> (
        num_code_groups >= 2 && base_token_dims[0] == hidden_dims[0] && base_token_dims[1] == 1 && hidden_dims[1]
            == expected_hidden),
{
}

/// Checks one code predictor run: at least two code groups, a talker state of shape
/// `[batch, hidden]` with the talker's width, and one base token per batch row.
pub fn validate_code_predictor_inputs(
    num_code_groups: usize,
    hidden_dims: [usize; 2],
    base_token_dims: [usize; 2],
    expected_hidden: usize,
) -> (r: Result<(), Qwen3TtsInferenceError>)
    ensures
        match code_predictor_problem(num_code_groups as nat, hidden_dims, base_token_dims, expected_hidden as nat) {
            None => r is Ok,
            Some(text) => r matches Err(e) && e.is_invalid_input_with(text),
        },
        r is Ok <==> (num_code_groups >= 2 && base_token_dims[0] == hidden_dims[0] && base_token_dims[1] == 1
            && hidden_dims[1] == expected_hidden),
{
    proof {
        lemma_code_predictor_accepts_exactly(num_code_groups as nat, hidden_dims, base_token_dims, expected_hidden as nat);
    }
    if num_code_groups < 2 {
        return Err(Qwen3TtsInferenceError::InvalidInput {
            message: String::from_str("code predictor generation requires at least two code groups"),
        });
    }
    if base_token_dims[0] != hidden_dims[0] || base_token_dims[1] != 1 {
        let mut message = String::from_str("code predictor base token shape mismatch: expected [");
        push_decimal(&mut message, hidden_dims[0] as u64);
        message.append(", 1], got [");
        push_decimal(&mut message, base_token_dims[0] as u64);
        message.append(", ");
        push_decimal(&mut message, base_token_dims[1] as u64);
        message.append("]");
        return Err(Qwen3TtsInferenceError::InvalidInput { message });
    }
    if hidden_dims[1] != expected_hidden {
        let message = message_with_two(
            "code predictor hidden size mismatch: expected ",
            expected_hidden,
            ", got ",
            hidden_dims[1],
        );
        return Err(Qwen3TtsInferenceError::InvalidInput { message });
    }
    Ok(())
}

pub open spec fn empty_decode_cache_message() -> Seq<char> {
    "decode cache must contain at least one layer"@
}

pub open spec fn wide_cache_message(len: nat) -> Seq<char> {
    "decode cache length "@ + decimal(len) + " does not fit the model int tensor"@
}

/// The position id of the next decoded token: the number of positions cached by the
/// first layer. Fails without layers or when the count does not fit `i64`.
pub fn decode_position_id(decode_cache: &[KeyValueCache]) -> (r: Result<i64, Qwen3TtsInferenceError>)
    ensures
        decode_cache@.len() == 0 ==> (r matches Err(e) && e.is_invalid_input_with(empty_decode_cache_message())),
        decode_cache@.len() > 0 && decode_cache@[0].key.cur_len() <= i64::MAX ==> r == Ok::<
            i64,
            Qwen3TtsInferenceError,
        >(decode_cache@[0].key.cur_len() as i64),
        decode_cache@.len() > 0 && decode_cache@[0].key.cur_len() > i64::MAX ==> (r matches Err(e)
            && e.is_invalid_input_with(wide_cache_message(decode_cache@[0].key.cur_len()))),
{
    if decode_cache.len() == 0 {
        return Err(Qwen3TtsInferenceError::InvalidInput {
            message: String::from_str("decode cache must contain at least one layer"),
        });
    }
    let cache_len = decode_cache[0].len();
    if (cache_len as u64) > 9223372036854775807u64 {
        let mut message = String::from_str("decode cache length ");
        push_decimal(&mut message, cache_len as u64);
        message.append(" does not fit the model int tensor");
        return Err(Qwen3TtsInferenceError::InvalidInput { message });
    }
    Ok(cache_len as i64)
}

/// The caches of a talker generation run: one per talker layer with a window of 4096
/// positions, and one per code predictor layer with a window of `num_code_groups + 1`,
/// all for a batch of one.
pub fn new_talker_caches(
    num_hidden_layers: usize,
    num_key_value_heads: usize,
    head_dim: usize,
    predictor_layers: usize,
    predictor_key_value_heads: usize,
    predictor_head_dim: usize,
    num_code_groups: usize,
) -> (caches: (Vec<KeyValueCache>, Vec<KeyValueCache>))
    requires
        num_code_groups < usize::MAX,
    ensures
        caches.0@.len() == num_hidden_layers,
        caches.1@.len() == predictor_layers,
        forall|i: int| 0 <= i < num_hidden_layers ==> {
            let c = #[trigger] caches.0@[i];
            &&& c.wf()
            &&& c.key.cur_len() == 0 && c.value.cur_len() == 0
            &&& c.key.window_len() == 4096 && c.value.window_len() == 4096
            &&& c.key.heads() == num_key_value_heads && c.value.heads() == num_key_value_heads
            &&& c.key.dim() == head_dim && c.value.dim() == head_dim
            &&& c.key.batch_limit() == 1 && c.value.batch_limit() == 1
        },
        forall|i: int| 0 <= i < predictor_layers ==> {
            let c = #[trigger] caches.1@[i];
            &&& c.wf()
            &&& c.key.cur_len() == 0 && c.value.cur_len() == 0
            &&& c.key.window_len() == num_code_groups + 1 && c.value.window_len() == num_code_groups + 1
            &&& c.key.heads() == predictor_key_value_heads && c.value.heads() == predictor_key_value_heads
            &&& c.key.dim() == predictor_head_dim && c.value.dim() == predictor_head_dim
            &&& c.key.batch_limit() == 1 && c.value.batch_limit() == 1
        },
{
    let mut decode: Vec<KeyValueCache> = Vec::new();
    let mut i: usize = 0;
    while i < num_hidden_layers
        invariant
            i <= num_hidden_layers,
            decode@.len() == i,
            forall|k: int| 0 <= k < i ==> {
                let c = #[trigger] decode@[k];
                &&& c.wf()
                &&& c.key.cur_len() == 0 && c.value.cur_len() == 0
                &&& c.key.window_len() == 4096 && c.value.window_len() == 4096
                &&& c.key.heads() == num_key_value_heads && c.value.heads() == num_key_value_heads
                &&& c.key.dim() == head_dim && c.value.dim() == head_dim
                &&& c.key.batch_limit() == 1 && c.value.batch_limit() == 1
            },
        decreases num_hidden_layers - i,
    {
        let mut cache = KeyValueCache::new(1, num_key_value_heads, 4096, head_dim);
        cache.reset();
        decode.push(cache);
        i += 1;
    }
    let mut predictor: Vec<KeyValueCache> = Vec::new();
    let mut j: usize = 0;
    while j < predictor_layers
        invariant
            num_code_groups < usize::MAX,
            j <= predictor_layers,
            predictor@.len() == j,
            forall|k: int| 0 <= k < j ==> {
                let c = #[trigger] predictor@[k];
                &&& c.wf()
                &&& c.key.cur_len() == 0 && c.value.cur_len() == 0
                &&& c.key.window_len() == num_code_groups + 1 && c.value.window_len() == num_code_groups + 1
                &&& c.key.heads() == predictor_key_value_heads && c.value.heads() == predictor_key_value_heads
                &&& c.key.dim() == predictor_head_dim && c.value.dim() == predictor_head_dim
                &&& c.key.batch_limit() == 1 && c.value.batch_limit() == 1
            },
        decreases predictor_layers - j,
    {
        predictor.push(KeyValueCache::new(1, predictor_key_value_heads, num_code_groups + 1, predictor_head_dim));
        j += 1;
    }
    (decode, predictor)
}

} // verus!
