//! The decisions of the LLM runtime: how the inference configuration is
//! tuned to the hardware, the parameters a model is loaded with, and what
//! loading, unloading, offloading and reloading do to the runtime's state.
//! The model itself (a llama.cpp handle) is held by the caller, which
//! loads it with the parameters decided here.

use vstd::prelude::*;
use crate::schemas::InferenceConfig;

verus! {

/// The VRAM (in MB) kept free for other uses when budgeting for a model.
pub const VRAM_RESERVE_MB: u64 = 1024;

/// The parameters a model is loaded with.
#[derive(Clone, Copy, Debug, PartialEq, Eq, Structural)]
pub struct ModelLoadParams {
    /// Number of layers offloaded to the GPU.
    pub n_gpu_layers: u32,
    /// Whether the model file is memory-mapped.
    pub use_mmap: bool,
}

/// The GPU layer count that asks for every layer of a model.
pub const ALL_GPU_LAYERS: u32 = 0xFFFF_FFFF;

/// The load parameters that a configuration calls for: a negative GPU
/// layer count (`-1`) puts every layer on the GPU (`ALL_GPU_LAYERS`),
/// another count that many layers; and memory mapping unless the
/// configuration forbids it.
pub open spec fn load_params_of(config: InferenceConfig) -> ModelLoadParams {
    ModelLoadParams {
        n_gpu_layers: if config.n_gpu_layers < 0 { ALL_GPU_LAYERS } else { config.n_gpu_layers as u32 },
        use_mmap: !config.no_mmap,
    }
}

/// `config` with its GPU layer count set to `n`.
pub open spec fn with_gpu_layers(config: InferenceConfig, n: i32) -> InferenceConfig {
    InferenceConfig { n_gpu_layers: n, ..config }
}

/// The load parameters that `config` calls for.
pub fn model_load_params(config: &InferenceConfig) -> (p: ModelLoadParams)
    ensures
        p == load_params_of(*config),
{
    let layers: u32 = if config.n_gpu_layers < 0 {
        ALL_GPU_LAYERS
    } else {
        config.n_gpu_layers as u32
    };
    ModelLoadParams { n_gpu_layers: layers, use_mmap: !config.no_mmap }
}

/// `after` is `before` tuned to the hardware: where a GPU reports free VRAM,
/// the VRAM budget is that less `VRAM_RESERVE_MB` (not below zero) and every
/// layer goes to the GPU; an unset batch thread count takes the thread
/// count. Nothing else changes.
pub open spec fn tuned(before: InferenceConfig, available_vram_mb: Option<u64>, after: InferenceConfig) -> bool {
    &&& after.vram_budget_mb == (match available_vram_mb {
        Some(v) => if v >= VRAM_RESERVE_MB { (v - VRAM_RESERVE_MB) as u64 } else { 0 },
        None => before.vram_budget_mb,
    })
    &&& after.n_gpu_layers == (if available_vram_mb is Some { -1i32 } else { before.n_gpu_layers })
    &&& after.n_threads_batch == (if before.n_threads_batch == 0 { before.n_threads } else { before.n_threads_batch })
    &&& after.use_gpu == before.use_gpu
    &&& after.context_size == before.context_size
    &&& after.seed == before.seed
    &&& after.n_threads == before.n_threads
    &&& after.memory_pressure_threshold == before.memory_pressure_threshold
    &&& after.cache_type_k == before.cache_type_k
    &&& after.cache_type_v == before.cache_type_v
    &&& after.flash_attn == before.flash_attn
    &&& after.no_mmap == before.no_mmap
}

/// Tunes a configuration to the hardware, given the free VRAM (MB) of the
/// first GPU, or `None` where no GPU reports it.
pub fn optimize_config_in_place(config: &mut InferenceConfig, available_vram_mb: Option<u64>)
    ensures
        tuned(*old(config), available_vram_mb, *final(config)),
        old(config).n_threads_batch == 0 ==> final(config).n_threads_batch == old(config).n_threads,
        old(config).n_threads_batch != 0 ==> final(config).n_threads_batch == old(config).n_threads_batch,
        available_vram_mb matches Some(v) ==> final(config).n_gpu_layers == -1 && final(config).vram_budget_mb
            == (if v >= 1024 { v - 1024 } else { 0 }),
        available_vram_mb is None ==> final(config).n_gpu_layers == old(config).n_gpu_layers
            && final(config).vram_budget_mb == old(config).vram_budget_mb,
{
    if let Some(vram_mb) = available_vram_mb {
        config.vram_budget_mb = vram_mb.saturating_sub(VRAM_RESERVE_MB);
        config.n_gpu_layers = -1;
    }
    if config.n_threads_batch == 0 {
        config.n_threads_batch = config.n_threads;
    }
}

/// The state of the LLM runtime: its configuration, the path of the model
/// last loaded, and whether a model is loaded now.
pub struct LlamaRuntimeState {
    pub config: InferenceConfig,
    pub current_model_path: Option<String>,
    pub model_loaded: bool,
}

impl LlamaRuntimeState {
    /// A runtime with no model, whose configuration is the default one tuned
    /// to the hardware.
    pub fn new(available_parallelism: Option<usize>, available_vram_mb: Option<u64>) -> (s: Self)
        ensures
            exists|d: InferenceConfig| d.is_default_for(available_parallelism) && tuned(d, available_vram_mb, s.config),
            s.config.n_threads_batch == s.config.n_threads,
            available_parallelism matches Some(n) ==> s.config.n_threads == n,
            s.current_model_path is None,
            !s.model_loaded,
    {
        let mut config = InferenceConfig::default_with_parallelism(available_parallelism);
        let ghost d = config;
        optimize_config_in_place(&mut config, available_vram_mb);
        assert(d.is_default_for(available_parallelism) && tuned(d, available_vram_mb, config));
        LlamaRuntimeState { config, current_model_path: None, model_loaded: false }
    }

    /// Unloads the current model, releasing its memory; says whether a
    /// model was loaded.
    pub fn unload_model(&mut self) -> (released: bool)
        ensures
            released == old(self).model_loaded,
            !final(self).model_loaded,
            final(self).config == old(self).config,
            final(self).current_model_path == old(self).current_model_path,
    {
        let released = self.model_loaded;
        self.model_loaded = false;
        released
    }

    /// Prepares to load (or hot-swap) a model: the current model is
    /// unloaded first; the parameters to load the new one with are returned.
    pub fn begin_load(&mut self) -> (p: ModelLoadParams)
        ensures
            p == load_params_of(old(self).config),
            !final(self).model_loaded,
            final(self).config == old(self).config,
            final(self).current_model_path == old(self).current_model_path,
    {
        self.unload_model();
        model_load_params(&self.config)
    }

    /// Records that the model at `path` was loaded.
    pub fn finish_load(&mut self, path: String)
        ensures
            final(self).model_loaded,
            final(self).current_model_path == Some(path),
            final(self).config == old(self).config,
    {
        self.model_loaded = true;
        self.current_model_path = Some(path);
    }

    /// Moves the current model to system RAM: with a model path, the GPU
    /// layer count becomes zero and the model is to be reloaded with the
    /// parameters returned; without one, nothing changes.
    pub fn offload_to_system_ram(&mut self) -> (reload: Option<ModelLoadParams>)
        ensures
            old(self).current_model_path is None ==> reload is None && *final(self) == *old(self),
            old(self).current_model_path is Some ==> {
                &&& final(self).config == with_gpu_layers(old(self).config, 0)
                &&& reload == Some(load_params_of(final(self).config))
                &&& final(self).current_model_path == old(self).current_model_path
                &&& final(self).model_loaded == old(self).model_loaded
            },
    {
        if self.current_model_path.is_some() {
            self.config.n_gpu_layers = 0;
            Some(model_load_params(&self.config))
        } else {
            None
        }
    }

    /// Moves the current model back to VRAM: with a model path, the GPU
    /// layer count becomes `-1` (every layer) and the model is to be
    /// reloaded with the parameters returned; without one, nothing changes.
    pub fn reload_to_vram(&mut self) -> (reload: Option<ModelLoadParams>)
        ensures
            old(self).current_model_path is None ==> reload is None && *final(self) == *old(self),
            old(self).current_model_path is Some ==> {
                &&& final(self).config == with_gpu_layers(old(self).config, -1i32)
                &&& reload == Some(load_params_of(final(self).config))
                &&& final(self).current_model_path == old(self).current_model_path
                &&& final(self).model_loaded == old(self).model_loaded
            },
    {
        if self.current_model_path.is_some() {
            self.config.n_gpu_layers = -1;
            Some(model_load_params(&self.config))
        } else {
            None
        }
    }

    /// Records that the current model was reloaded with the new parameters.
    pub fn finish_reload(&mut self)
        ensures
            final(self).model_loaded,
            final(self).config == old(self).config,
            final(self).current_model_path == old(self).current_model_path,
    {
        self.model_loaded = true;
    }

    /// The current configuration.
    pub fn config(&self) -> (c: &InferenceConfig)
        ensures
            *c == self.config,
    {
        &self.config
    }
}

/// Offloading to system RAM reloads the model with no layer on the GPU;
/// reloading to VRAM reloads it with every layer on the GPU; the
/// configuration after the pair differs from the one before only in its
/// GPU layer count, which is then `-1`.
pub proof fn lemma_offload_then_reload(c: InferenceConfig)
    ensures
        load_params_of(with_gpu_layers(c, 0i32)).n_gpu_layers == 0,
        load_params_of(with_gpu_layers(c, -1i32)).n_gpu_layers == ALL_GPU_LAYERS,
        with_gpu_layers(with_gpu_layers(c, 0i32), -1i32) == with_gpu_layers(c, -1i32),
{
}


/// The batch thread count does not depend on the GPU report: tuning one
/// configuration against any two reports (`None` among them) gives the
/// same batch thread count, which is the thread count where it was unset
/// (zero) and is kept otherwise.
pub proof fn lemma_batch_threads_ignore_gpu(
    before: InferenceConfig,
    report_a: Option<u64>,
    after_a: InferenceConfig,
    report_b: Option<u64>,
    after_b: InferenceConfig,
)
    requires
        tuned(before, report_a, after_a),
        tuned(before, report_b, after_b),
    ensures
        after_a.n_threads_batch == after_b.n_threads_batch,
        before.n_threads_batch == 0 ==> after_a.n_threads_batch == before.n_threads,
        before.n_threads_batch != 0 ==> after_a.n_threads_batch == before.n_threads_batch,
        after_a.n_threads == before.n_threads,
{
}

/// A default configuration tuned to any GPU report, or to none, runs its
/// batches on as many threads as the machine offers.
pub proof fn lemma_tuned_default_batches_on_all_threads(
    d: InferenceConfig,
    available_parallelism: Option<usize>,
    report: Option<u64>,
    after: InferenceConfig,
)
    requires
        d.is_default_for(available_parallelism),
        tuned(d, report, after),
    ensures
        after.n_threads_batch == after.n_threads,
        available_parallelism matches Some(n) ==> after.n_threads_batch == n,
{
}

} // verus!
