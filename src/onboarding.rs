use vstd::prelude::*;

verus! {

/// What the first-run screen shows of the machine.
#[derive(Debug, Clone)]
pub struct SystemInfo {
    pub gpu_name: String,
    pub gpu_vram_mb: u64,
    pub gpu_detected: bool,
    pub cpu_name: String,
    pub cpu_cores: usize,
    pub ram_total_mb: u64,
    pub ram_available_mb: u64,
    pub docker_available: bool,
    pub ollama_running: bool,
    pub os: String,
}

/// A model suggested for the machine. Its download size is given in tenths
/// of a gigabyte.
#[derive(Debug, Clone)]
pub struct ModelRecommendation {
    pub model_name: String,
    pub display_name: String,
    pub description: String,
    pub size_tenths_gb: u32,
    pub recommended: bool,
    pub reason: String,
}

/// A recommendation as plain values.
pub type RecommendationView = (Seq<char>, Seq<char>, Seq<char>, u32, bool, Seq<char>);

impl View for ModelRecommendation {
    type V = RecommendationView;

    open spec fn view(&self) -> RecommendationView {
        (
            self.model_name@,
            self.display_name@,
            self.description@,
            self.size_tenths_gb,
            self.recommended,
            self.reason@,
        )
    }
}

/// The class of a card by its memory in MB: 3 from 24000, 2 from 8000,
/// 1 from 4000, 0 below (or without a card).
pub open spec fn vram_tier(vram_mb: u64) -> int {
    if vram_mb >= 24000 {
        3
    } else if vram_mb >= 8000 {
        2
    } else if vram_mb >= 4000 {
        1
    } else {
        0
    }
}

/// The two suggestions for a class of card, the recommended one first.
pub open spec fn suggestions(tier: int) -> Seq<RecommendationView> {
    if tier == 3 {
        seq![
            ("qwen2.5:32b"@, "Qwen 2.5 32B"@, "Powerful reasoning model, excellent for complex tasks"@, 190u32, true, "Your GPU has enough VRAM for large models"@),
            ("deepseek-r1:14b"@, "DeepSeek R1 14B"@, "Strong reasoning with chain-of-thought"@, 90u32, false, "Great alternative with reasoning capabilities"@),
        ]
    } else if tier == 2 {
        seq![
            ("qwen2.5:14b"@, "Qwen 2.5 14B"@, "Balanced performance and quality"@, 90u32, true, "Optimal for your GPU VRAM"@),
            ("llama3.1:8b"@, "Llama 3.1 8B"@, "Fast and efficient general-purpose model"@, 47u32, false, "Lighter alternative with good performance"@),
        ]
    } else if tier == 1 {
        seq![
            ("qwen2.5:7b"@, "Qwen 2.5 7B"@, "Good balance of speed and capability"@, 44u32, true, "Best fit for your VRAM capacity"@),
            ("phi3:mini"@, "Phi-3 Mini"@, "Compact but capable model from Microsoft"@, 23u32, false, "Lightweight option for limited VRAM"@),
        ]
    } else {
        seq![
            ("qwen2.5:3b"@, "Qwen 2.5 3B"@, "Lightweight model that runs on CPU"@, 19u32, true, "Runs well on CPU with limited GPU resources"@),
            ("tinyllama"@, "TinyLlama"@, "Extremely lightweight for basic tasks"@, 6u32, false, "Minimal resource requirements"@),
        ]
    }
}

fn suggestion(
    model_name: &str,
    display_name: &str,
    description: &str,
    size_tenths_gb: u32,
    recommended: bool,
    reason: &str,
) -> (r: ModelRecommendation)
    ensures
        r@ == (model_name@, display_name@, description@, size_tenths_gb, recommended, reason@),
{
    ModelRecommendation {
        model_name: model_name.to_owned(),
        display_name: display_name.to_owned(),
        description: description.to_owned(),
        size_tenths_gb,
        recommended,
        reason: reason.to_owned(),
    }
}

/// The models suggested for a card with `gpu_vram` MB of memory: two, the
/// recommended one first, chosen by the card's class.
pub fn get_recommended_model(gpu_vram: u64) -> (r: Vec<ModelRecommendation>)
    ensures
        r@.map_values(|m: ModelRecommendation| m@) == suggestions(vram_tier(gpu_vram)),
{
    let mut r: Vec<ModelRecommendation> = Vec::new();
    if gpu_vram >= 24000 {
        r.push(suggestion("qwen2.5:32b", "Qwen 2.5 32B", "Powerful reasoning model, excellent for complex tasks", 190, true, "Your GPU has enough VRAM for large models"));
        r.push(suggestion("deepseek-r1:14b", "DeepSeek R1 14B", "Strong reasoning with chain-of-thought", 90, false, "Great alternative with reasoning capabilities"));
    } else if gpu_vram >= 8000 {
        r.push(suggestion("qwen2.5:14b", "Qwen 2.5 14B", "Balanced performance and quality", 90, true, "Optimal for your GPU VRAM"));
        r.push(suggestion("llama3.1:8b", "Llama 3.1 8B", "Fast and efficient general-purpose model", 47, false, "Lighter alternative with good performance"));
    } else if gpu_vram >= 4000 {
        r.push(suggestion("qwen2.5:7b", "Qwen 2.5 7B", "Good balance of speed and capability", 44, true, "Best fit for your VRAM capacity"));
        r.push(suggestion("phi3:mini", "Phi-3 Mini", "Compact but capable model from Microsoft", 23, false, "Lightweight option for limited VRAM"));
    } else {
        r.push(suggestion("qwen2.5:3b", "Qwen 2.5 3B", "Lightweight model that runs on CPU", 19, true, "Runs well on CPU with limited GPU resources"));
        r.push(suggestion("tinyllama", "TinyLlama", "Extremely lightweight for basic tasks", 6, false, "Minimal resource requirements"));
    }
    assert(r@.map_values(|m: ModelRecommendation| m@) =~= suggestions(vram_tier(gpu_vram)));
    r
}

} // verus!
