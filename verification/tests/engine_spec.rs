use tts_qwen3_tts::engine::{
    decoder_component_spec, generator_component_spec, qwen_engine_spec, ComponentKind, EnginePolicy,
};

#[test]
fn engine_spec_expresses_session_seed_generator_decoder_contracts() {
    let spec = qwen_engine_spec();
    assert_eq!(spec.facts.dag_nodes, ["acoustic_generator", "audio_decoder"]);
    assert_eq!(spec.facts.protocols, ["SessionSeed", "CodecTokenTensor", "Waveform"]);
    assert!(spec.policies.contains(&EnginePolicy::PrepareFirst));
    assert!(spec.policies.contains(&EnginePolicy::SequenceBoundary));
    assert!(spec.policies.contains(&EnginePolicy::AssemblyOverRegistry));
    assert!(spec.policies.contains(&EnginePolicy::EdgeDeviceResourcePriority));
    assert_eq!(spec.resource_contract.workspace, "fixed_capacity");
}

#[test]
fn component_specs_capture_seed_and_tensor_boundaries() {
    let spec = qwen_engine_spec();
    let generator = generator_component_spec();
    assert_eq!(generator.execution_boundary.accepts, "SessionSeed");
    assert_eq!(generator.execution_boundary.executes_on, "TalkerGenerator");
    assert_eq!(generator.execution_boundary.produces, "CodecTokenTensor");
    assert_eq!(generator.kind, ComponentKind::AcousticGenerator);
    assert_eq!(generator, *spec.component(ComponentKind::AcousticGenerator).unwrap());

    let decoder = decoder_component_spec();
    assert_eq!(decoder.execution_boundary.accepts, "CodecTokenTensor");
    assert_eq!(decoder.execution_boundary.executes_on, "DecoderExecutionForm");
    assert_eq!(decoder.execution_boundary.produces, "Waveform");
    assert_eq!(decoder.kind, ComponentKind::AudioDecoder);
    assert_eq!(decoder, *spec.component(ComponentKind::AudioDecoder).unwrap());
}

#[test]
fn engine_components_are_listed_in_dataflow_order() {
    let spec = qwen_engine_spec();
    assert_eq!(spec.components.len(), 2);
    assert_eq!(spec.components[0].kind, ComponentKind::AcousticGenerator);
    assert_eq!(spec.components[1].kind, ComponentKind::AudioDecoder);
    assert_eq!(
        spec.components[0].execution_boundary.produces,
        spec.components[1].execution_boundary.accepts
    );
}
