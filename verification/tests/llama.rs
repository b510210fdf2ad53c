use merix::llama::{model_load_params, optimize_config_in_place, LlamaRuntimeState, ModelLoadParams, ALL_GPU_LAYERS};
use merix::resources::available_vram_mb;
use merix::schemas::InferenceConfig;

#[test]
fn test_llama_runtime_load_unload_hotswap() {
    let mut runtime = LlamaRuntimeState::new(Some(8), None);
    assert!(runtime.config().context_size > 0);

    // unload on a fresh runtime does nothing
    assert!(!runtime.unload_model());

    // offload / reload with no model loaded change nothing
    assert!(runtime.offload_to_system_ram().is_none());
    assert!(runtime.reload_to_vram().is_none());
}

#[test]
fn optimize_with_gpu() {
    let mut c = InferenceConfig::default_with_parallelism(Some(6));
    c.n_gpu_layers = 10;
    optimize_config_in_place(&mut c, Some(8192));
    assert_eq!(c.vram_budget_mb, 7168);
    assert_eq!(c.n_gpu_layers, -1);
    assert_eq!(c.n_threads_batch, 6);
}

#[test]
fn optimize_small_vram_saturates() {
    let mut c = InferenceConfig::default_with_parallelism(Some(6));
    optimize_config_in_place(&mut c, Some(512));
    assert_eq!(c.vram_budget_mb, 0);
}

#[test]
fn optimize_without_gpu_keeps_layers() {
    let mut c = InferenceConfig::default_with_parallelism(Some(6));
    c.n_gpu_layers = 10;
    c.vram_budget_mb = 77;
    c.n_threads_batch = 3;
    optimize_config_in_place(&mut c, None);
    assert_eq!(c.n_gpu_layers, 10);
    assert_eq!(c.vram_budget_mb, 77);
    assert_eq!(c.n_threads_batch, 3);
}

#[test]
fn load_params_negative_means_all_layers() {
    let mut c = InferenceConfig::default_with_parallelism(None);
    assert_eq!(model_load_params(&c), ModelLoadParams { n_gpu_layers: ALL_GPU_LAYERS, use_mmap: false });
    c.n_gpu_layers = 33;
    c.no_mmap = false;
    assert_eq!(model_load_params(&c), ModelLoadParams { n_gpu_layers: 33, use_mmap: true });
}

#[test]
fn load_offload_reload_cycle() {
    let mut runtime = LlamaRuntimeState::new(Some(4), Some(4096));
    assert_eq!(runtime.config.vram_budget_mb, 3072);
    let params = runtime.begin_load();
    assert_eq!(params.n_gpu_layers, ALL_GPU_LAYERS);
    runtime.finish_load("model.gguf".to_string());
    assert!(runtime.model_loaded);
    let off = runtime.offload_to_system_ram().unwrap();
    assert_eq!(off.n_gpu_layers, 0);
    assert_eq!(runtime.config.n_gpu_layers, 0);
    runtime.finish_reload();
    let on = runtime.reload_to_vram().unwrap();
    assert_eq!(runtime.config.n_gpu_layers, -1);
    assert_eq!(on.n_gpu_layers, ALL_GPU_LAYERS);
    assert_eq!(on.n_gpu_layers, u32::MAX);
    assert!(runtime.unload_model());
    assert!(!runtime.model_loaded);
    assert_eq!(runtime.current_model_path.as_deref(), Some("model.gguf"));
}

#[test]
fn vram_from_probe() {
    assert_eq!(available_vram_mb(None), None);
    assert_eq!(available_vram_mb(Some(None)), None);
    assert_eq!(available_vram_mb(Some(Some(3 * 1024 * 1024 + 5))), Some(3));
    assert_eq!(available_vram_mb(Some(Some(1024 * 1024))), Some(1));
    assert_eq!(available_vram_mb(Some(Some(1024 * 1024 - 1))), None);
    assert_eq!(available_vram_mb(Some(Some(0))), None);
}
