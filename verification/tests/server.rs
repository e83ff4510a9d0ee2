use llama_mini::models::{Backend, GhAsset, GhRelease};
use llama_mini::server::{
    backend_for, find_server_bin, gpu_layers, guess_backend, has, pick_asset_url,
    server_bin_names, want_asset_name, BinCandidate, TargetOs,
};

fn release(names: &[&str]) -> GhRelease {
    GhRelease {
        assets: names
            .iter()
            .map(|n| GhAsset {
                name: n.to_string(),
                browser_download_url: format!("https://example.org/{n}"),
            })
            .collect(),
    }
}

#[test]
fn backends_by_system_and_probes() {
    assert!(backend_for(TargetOs::Macos, true, true) == Backend::Metal);
    assert!(backend_for(TargetOs::Windows, true, true) == Backend::Cuda);
    assert!(backend_for(TargetOs::Windows, false, true) == Backend::Cpu);
    assert!(backend_for(TargetOs::Linux, true, false) == Backend::Cuda);
    assert!(backend_for(TargetOs::Linux, false, true) == Backend::Hip);
    assert!(backend_for(TargetOs::Linux, false, false) == Backend::Vulkan);
}

#[test]
fn a_guess_is_a_backend_of_the_system() {
    assert!(guess_backend(TargetOs::Macos) == Backend::Metal);
    let w = guess_backend(TargetOs::Windows);
    assert!(w == Backend::Cuda || w == Backend::Cpu);
    let l = guess_backend(TargetOs::Linux);
    assert!(l == Backend::Cuda || l == Backend::Hip || l == Backend::Vulkan);
}

#[test]
fn a_program_that_is_not_there_is_not_found() {
    assert!(!has("surely-no-program-of-this-name-3f9a1c"));
}

#[test]
fn asset_patterns() {
    assert_eq!(want_asset_name(TargetOs::Windows, Backend::Cuda), vec!["win-cuda", "cudart-llama"]);
    assert_eq!(want_asset_name(TargetOs::Windows, Backend::Hip), vec!["win-hip-radeon"]);
    assert_eq!(want_asset_name(TargetOs::Windows, Backend::Vulkan), vec!["win-cpu-x64"]);
    assert_eq!(want_asset_name(TargetOs::Macos, Backend::Cuda), vec!["macos-arm64", "macos-x64"]);
    assert_eq!(want_asset_name(TargetOs::Linux, Backend::Vulkan), vec!["ubuntu-vulkan-x64"]);
    assert_eq!(
        want_asset_name(TargetOs::Linux, Backend::Cuda),
        vec!["cuda-ubuntu", "ubuntu-cuda", "cuda"]
    );
    assert_eq!(want_asset_name(TargetOs::Linux, Backend::Hip), vec!["ubuntu-x64"]);
    assert_eq!(want_asset_name(TargetOs::Linux, Backend::Cpu), vec!["ubuntu-x64"]);
    assert_eq!(want_asset_name(TargetOs::Linux, Backend::Auto), vec!["ubuntu-x64"]);
}

#[test]
fn the_first_pattern_that_matches_wins() {
    let rel = release(&[
        "llama-b1-bin-ubuntu-x64.zip",
        "llama-b1-bin-cuda-12.zip",
        "llama-b1-bin-ubuntu-cuda.zip",
        "llama-b1-bin-ubuntu-vulkan-x64.zip",
    ]);
    assert_eq!(
        pick_asset_url(&rel, &["cuda-ubuntu", "ubuntu-cuda", "cuda"]),
        Some("https://example.org/llama-b1-bin-ubuntu-cuda.zip".to_string())
    );
    assert_eq!(
        pick_asset_url(&rel, &["cuda"]),
        Some("https://example.org/llama-b1-bin-cuda-12.zip".to_string())
    );
    assert_eq!(
        pick_asset_url(&rel, &["ubuntu"]),
        Some("https://example.org/llama-b1-bin-ubuntu-x64.zip".to_string())
    );
    assert_eq!(pick_asset_url(&rel, &["macos-arm64", "macos-x64"]), None);
    assert_eq!(pick_asset_url(&rel, &[]), None);
    assert_eq!(pick_asset_url(&release(&[]), &["cuda"]), None);
    assert_eq!(
        pick_asset_url(&rel, &[""]),
        Some("https://example.org/llama-b1-bin-ubuntu-x64.zip".to_string())
    );
}

#[test]
fn the_first_binary_that_exists_is_taken() {
    assert_eq!(server_bin_names(), vec!["llama-server", "server", "llama-server.exe", "server.exe"]);
    let candidates: Vec<BinCandidate> = [false, true, false, true]
        .iter()
        .zip(server_bin_names())
        .map(|(e, n)| BinCandidate { path: format!("/rt/{n}"), exists: *e })
        .collect();
    assert_eq!(find_server_bin(&candidates), Some("/rt/server".to_string()));
    let none: Vec<BinCandidate> = server_bin_names()
        .iter()
        .map(|n| BinCandidate { path: n.to_string(), exists: false })
        .collect();
    assert_eq!(find_server_bin(&none), None);
    assert_eq!(find_server_bin(&Vec::new()), None);
}

#[test]
fn offload_hints() {
    assert_eq!(gpu_layers(Backend::Cpu), "0");
    assert_eq!(gpu_layers(Backend::Auto), "99");
    assert_eq!(gpu_layers(Backend::Metal), "99");
}
