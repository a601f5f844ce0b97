use vstd::prelude::*;

verus! {

/// The components of the synthesis engine.
#[derive(Debug, Clone, Copy, PartialEq, Eq, Structural)]
pub enum ComponentKind {
    AcousticGenerator,
    AudioDecoder,
}

/// Design policies the engine follows.
#[derive(Debug, Clone, Copy, PartialEq, Eq, Structural)]
pub enum EnginePolicy {
    PrepareFirst,
    SequenceBoundary,
    AssemblyOverRegistry,
    EdgeDeviceResourcePriority,
}

/// What a component takes, what it runs on and what it hands on.
#[derive(Debug, Clone, Copy, PartialEq, Eq)]
pub struct ExecutionBoundary {
    pub accepts: &'static str,
    pub executes_on: &'static str,
    pub produces: &'static str,
}

#[derive(Debug, Clone, Copy, PartialEq, Eq)]
pub struct ComponentSpec {
    pub kind: ComponentKind,
    pub execution_boundary: ExecutionBoundary,
}

/// The engine's dataflow: its nodes in order and the protocols passed between them.
#[derive(Debug, Clone, PartialEq, Eq)]
pub struct EngineFacts {
    pub dag_nodes: Vec<&'static str>,
    pub protocols: Vec<&'static str>,
}

#[derive(Debug, Clone, Copy, PartialEq, Eq)]
pub struct ResourceContract {
    pub workspace: &'static str,
}

/// The description of the Qwen3-TTS engine.
#[derive(Debug, Clone, PartialEq, Eq)]
pub struct EngineSpec {
    pub facts: EngineFacts,
    pub policies: Vec<EnginePolicy>,
    pub resource_contract: ResourceContract,
    pub components: Vec<ComponentSpec>,
}

pub open spec fn boundary_is(b: ExecutionBoundary, accepts: Seq<char>, executes_on: Seq<char>, produces: Seq<char>) -> bool {
    &&& b.accepts@ == accepts
    &&& b.executes_on@ == executes_on
    &&& b.produces@ == produces
}

/// The acoustic generator turns a session seed into codec tokens on the talker generator.
pub open spec fn is_generator_spec(c: ComponentSpec) -> bool {
    &&& c.kind == ComponentKind::AcousticGenerator
    &&& boundary_is(c.execution_boundary, "SessionSeed"@, "TalkerGenerator"@, "CodecTokenTensor"@)
}

/// The audio decoder turns codec tokens into a waveform on its decoder execution form.
pub open spec fn is_decoder_spec(c: ComponentSpec) -> bool {
    &&& c.kind == ComponentKind::AudioDecoder
    &&& boundary_is(c.execution_boundary, "CodecTokenTensor"@, "DecoderExecutionForm"@, "Waveform"@)
}

pub open spec fn is_qwen_engine_spec(spec: EngineSpec) -> bool {
    &&& spec.facts.dag_nodes@.len() == 2
    &&& spec.facts.dag_nodes@[0]@ == "acoustic_generator"@
    &&& spec.facts.dag_nodes@[1]@ == "audio_decoder"@
    &&& spec.facts.protocols@.len() == 3
    &&& spec.facts.protocols@[0]@ == "SessionSeed"@
    &&& spec.facts.protocols@[1]@ == "CodecTokenTensor"@
    &&& spec.facts.protocols@[2]@ == "Waveform"@
    &&& spec.policies@ == seq![
        EnginePolicy::PrepareFirst,
        EnginePolicy::SequenceBoundary,
        EnginePolicy::AssemblyOverRegistry,
        EnginePolicy::EdgeDeviceResourcePriority,
    ]
    &&& spec.resource_contract.workspace@ == "fixed_capacity"@
    &&& spec.components@.len() == 2
    &&& is_generator_spec(spec.components@[0])
    &&& is_decoder_spec(spec.components@[1])
}

impl EngineSpec {
    /// The first component of the given kind.
    pub fn component(&self, kind: ComponentKind) -> (c: Option<&ComponentSpec>)
        ensures
            match c {
                Some(found) => exists|i: int|
                    0 <= i < self.components@.len() && self.components@[i] == *found && found.kind == kind
                        && forall|j: int| 0 <= j < i ==> #[trigger] self.components@[j].kind != kind,
                None => forall|j: int| 0 <= j < self.components@.len() ==> #[trigger] self.components@[j].kind != kind,
            },
    {
        let mut i: usize = 0;
        while i < self.components.len()
            invariant
                i <= self.components@.len(),
                forall|j: int| 0 <= j < i ==> #[trigger] self.components@[j].kind != kind,
            decreases self.components@.len() - i,
        {
            if self.components[i].kind == kind {
                return Some(&self.components[i]);
            }
            i += 1;
        }
        None
    }
}

fn generator_boundary() -> (c: ComponentSpec)
    ensures
        is_generator_spec(c),
{
    ComponentSpec {
        kind: ComponentKind::AcousticGenerator,
        execution_boundary: ExecutionBoundary {
            accepts: "SessionSeed",
            executes_on: "TalkerGenerator",
            produces: "CodecTokenTensor",
        },
    }
}

fn decoder_boundary() -> (c: ComponentSpec)
    ensures
        is_decoder_spec(c),
{
    ComponentSpec {
        kind: ComponentKind::AudioDecoder,
        execution_boundary: ExecutionBoundary {
            accepts: "CodecTokenTensor",
            executes_on: "DecoderExecutionForm",
            produces: "Waveform",
        },
    }
}

/// The engine: a session seed goes through the acoustic generator to codec tokens and
/// through the audio decoder to a waveform, in a fixed-capacity workspace.
pub fn qwen_engine_spec() -> (spec: EngineSpec)
    ensures
        is_qwen_engine_spec(spec),
{
    EngineSpec {
        facts: EngineFacts {
            dag_nodes: vec!["acoustic_generator", "audio_decoder"],
            protocols: vec!["SessionSeed", "CodecTokenTensor", "Waveform"],
        },
        policies: vec![
            EnginePolicy::PrepareFirst,
            EnginePolicy::SequenceBoundary,
            EnginePolicy::AssemblyOverRegistry,
            EnginePolicy::EdgeDeviceResourcePriority,
        ],
        resource_contract: ResourceContract { workspace: "fixed_capacity" },
        components: vec![generator_boundary(), decoder_boundary()],
    }
}

/// The engine's acoustic generator component.
pub fn generator_component_spec() -> (c: ComponentSpec)
    ensures
        is_generator_spec(c),
{
    let spec = qwen_engine_spec();
    match spec.component(ComponentKind::AcousticGenerator) {
        Some(c) => {
            assert(c.kind == ComponentKind::AcousticGenerator);
            assert(spec.components@[0].kind == ComponentKind::AcousticGenerator);
            *c
        },
        None => {
            assert(spec.components@[0].kind == ComponentKind::AcousticGenerator);
            vstd::pervasive::unreached()
        },
    }
}

/// The engine's audio decoder component.
pub fn decoder_component_spec() -> (c: ComponentSpec)
    ensures
        is_decoder_spec(c),
{
    let spec = qwen_engine_spec();
    match spec.component(ComponentKind::AudioDecoder) {
        Some(c) => {
            assert(spec.components@[0].kind != ComponentKind::AudioDecoder);
            *c
        },
        None => {
            assert(spec.components@[1].kind == ComponentKind::AudioDecoder);
            vstd::pervasive::unreached()
        },
    }
}

} // verus!
