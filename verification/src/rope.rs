use vstd::prelude::*;
use vstd::string::StringExecFns;
use vstd::arithmetic::div_mod::lemma_mod_pos_bound;

verus! {

/// Multimodal rotary position settings of the talker.
#[derive(Debug, Clone)]
pub struct Qwen3TtsTalkerRopeScalingConfig {
    pub interleaved: bool,
    pub mrope_section: Vec<usize>,
    pub rope_type: String,
}

/// The rope type assumed when a configuration names none.
pub fn default_rope_type() -> (s: String)
    ensures
        s@ == "default"@,
{
    String::from_str("default")
}

impl Default for Qwen3TtsTalkerRopeScalingConfig {
    /// Interleaved sections of 24, 20 and 20 half-dimensions for the three position modalities.
    fn default() -> (c: Self)
        ensures
            c.interleaved,
            c.mrope_section@ == seq![24usize, 20, 20],
            c.rope_type@ == "default"@,
    {
        let mut mrope_section: Vec<usize> = Vec::new();
        mrope_section.push(24);
        mrope_section.push(20);
        mrope_section.push(20);
        Qwen3TtsTalkerRopeScalingConfig { interleaved: true, mrope_section, rope_type: default_rope_type() }
    }
}

/// The position modality whose angle half-dimension `pos` uses: modality `pos % M`
/// (of `M` modalities) for the first `mrope_section[pos % M]` positions of that
/// modality, modality 0 otherwise.
pub open spec fn mrope_source(mrope_section: Seq<usize>, pos: int) -> int {
    let modalities = mrope_section.len() as int;
    let modality = pos % modalities;
    if modality > 0 && pos / modalities < mrope_section[modality] {
        modality
    } else {
        0
    }
}

/// For each rotary half-dimension, the position modality that supplies its angle
/// (interleaved multimodal rope).
pub fn interleaved_mrope_source_indices(mrope_section: &[usize], half_dim: usize) -> (indices: Vec<i64>)
    requires
        half_dim == 0 || mrope_section@.len() > 0,
        mrope_section@.len() <= i64::MAX,
    ensures
        indices@.len() == half_dim,
        forall|pos: int| 0 <= pos < half_dim ==> indices@[pos] == mrope_source(mrope_section@, pos),
        forall|pos: int| 0 <= pos < half_dim ==> 0 <= #[trigger] indices@[pos] < mrope_section@.len(),
{
    let modalities = mrope_section.len();
    let mut indices: Vec<i64> = Vec::new();
    let mut pos: usize = 0;
    while pos < half_dim
        invariant
            half_dim == 0 || modalities > 0,
            modalities == mrope_section@.len(),
            modalities <= i64::MAX,
            pos <= half_dim,
            indices@.len() == pos,
            forall|p: int| 0 <= p < pos ==> indices@[p] == mrope_source(mrope_section@, p),
            forall|p: int| 0 <= p < pos ==> 0 <= #[trigger] indices@[p] < modalities,
        decreases half_dim - pos,
    {
        let modality = pos % modalities;
        proof {
            lemma_mod_pos_bound(pos as int, modalities as int);
        }
        if modality > 0 && pos / modalities < mrope_section[modality] {
            indices.push(modality as i64);
        } else {
            indices.push(0);
        }
        pos += 1;
    }
    indices
}

} // verus!
