use alfred_desktop::config::{
    default_gateway_port, default_theme, default_true, default_version, AlfredConfig,
};
use alfred_desktop::docker::parse_container_list;
use alfred_desktop::hardware::{no_gpu, parse_gpu_query};
use alfred_desktop::onboarding::get_recommended_model;
use alfred_desktop::privacy::disconnected_privacy_score;
use alfred_desktop::text::{
    chars_of, concat_str, contains_chars, parse_u32, parse_u64, split_ranges, trimmed,
};
use alfred_desktop::updater::{
    find_platform_asset, is_newer_version, platform_keyword, tag_version, unknown_update,
    update_from_release, GitHubAsset, GitHubRelease,
};

fn asset(name: &str, url: &str) -> GitHubAsset {
    GitHubAsset { name: name.to_string(), browser_download_url: url.to_string() }
}

#[test]
fn newer_versions() {
    assert!(is_newer_version("3.0.0", "3.0.1"));
    assert!(is_newer_version("3.0.0", "3.1"));
    assert!(is_newer_version("2.9.9", "10.0.0"));
    assert!(!is_newer_version("3.0.0", "3.0.0"));
    assert!(!is_newer_version("3.0.0", "3"));
    assert!(!is_newer_version("3.1.0", "3.0.9"));
    assert!(!is_newer_version("3.0.0", "3.0.0.1"));
    assert!(is_newer_version("", "0.0.1"));
    assert!(is_newer_version("3.x.0", "3.1"));
}

#[test]
fn tag_without_leading_v() {
    assert_eq!(tag_version("v3.1.0"), "3.1.0");
    assert_eq!(tag_version("vv2"), "2");
    assert_eq!(tag_version("3.1.0v"), "3.1.0v");
    assert_eq!(tag_version(""), "");
}

#[test]
fn platform_keywords() {
    assert_eq!(platform_keyword("windows"), "windows");
    assert_eq!(platform_keyword("macos"), "darwin");
    assert_eq!(platform_keyword("linux"), "linux");
    assert_eq!(platform_keyword("freebsd"), "linux");
}

#[test]
fn platform_asset_matches_lowercased_name() {
    let assets = vec![
        asset("Alfred-Windows.msi", "https://x/win"),
        asset("Alfred-LINUX.AppImage", "https://x/linux"),
        asset("alfred-linux.deb", "https://x/deb"),
    ];
    assert_eq!(find_platform_asset(&assets, "linux"), Some("https://x/linux".to_string()));
    assert_eq!(find_platform_asset(&assets, "windows"), Some("https://x/win".to_string()));
    assert_eq!(find_platform_asset(&assets, "darwin"), None);
    assert_eq!(find_platform_asset(&[], "linux"), None);
    let accented = vec![asset("ÀLFRED-DARWIN.dmg", "https://x/mac")];
    assert_eq!(find_platform_asset(&accented, "àlfred-darwin"), Some("https://x/mac".to_string()));
}

#[test]
fn update_from_a_newer_release() {
    let release = GitHubRelease {
        tag_name: "v3.2.0".to_string(),
        body: Some("notes".to_string()),
        published_at: Some("2024-01-01T00:00:00Z".to_string()),
        html_url: "https://x/release".to_string(),
        assets: vec![asset("alfred_darwin.dmg", "https://x/mac")],
    };
    let info = update_from_release("3.0.0".to_string(), release, "darwin");
    assert!(info.available);
    assert_eq!(info.current_version, "3.0.0");
    assert_eq!(info.latest_version, "3.2.0");
    assert_eq!(info.download_url, Some("https://x/mac".to_string()));
    assert_eq!(info.release_notes, Some("notes".to_string()));
    assert_eq!(info.published_at, Some("2024-01-01T00:00:00Z".to_string()));
}

#[test]
fn update_from_an_older_release() {
    let release = GitHubRelease {
        tag_name: "v2.0.0".to_string(),
        body: None,
        published_at: None,
        html_url: String::new(),
        assets: Vec::new(),
    };
    let info = update_from_release("3.0.0".to_string(), release, "linux");
    assert!(!info.available);
    assert_eq!(info.latest_version, "2.0.0");
    assert_eq!(info.download_url, None);
}

#[test]
fn unknown_update_when_feed_fails() {
    let info = unknown_update("3.0.0".to_string());
    assert!(!info.available);
    assert_eq!(info.latest_version, "unknown");
    assert_eq!(info.current_version, "3.0.0");
    assert!(info.download_url.is_none() && info.release_notes.is_none());
}

#[test]
fn gpu_query_with_a_card() {
    let g = parse_gpu_query("NVIDIA GeForce RTX 4090, 24564, 550.54.14\n");
    assert!(g.detected);
    assert_eq!(g.name, "NVIDIA GeForce RTX 4090");
    assert_eq!(g.vram_mb, 24564);
    assert_eq!(g.driver_version, "550.54.14");
}

#[test]
fn gpu_query_with_bad_memory_field() {
    let g = parse_gpu_query("Card, [N/A], 1.0");
    assert!(g.detected);
    assert_eq!(g.vram_mb, 0);
    assert_eq!(g.driver_version, "1.0");
}

#[test]
fn gpu_query_without_a_card() {
    let g = parse_gpu_query("");
    assert!(!g.detected);
    assert_eq!(g.name, "No NVIDIA GPU detected");
    let g = parse_gpu_query("NVIDIA-SMI has failed, driver missing");
    assert!(!g.detected);
    let n = no_gpu();
    assert_eq!(n.vram_mb, 0);
    assert_eq!(n.driver_version, "N/A");
}

#[test]
fn container_listing() {
    let out = "abc123|alfred-searxng|searxng/searxng:latest|Up 5 minutes|0.0.0.0:8888->8080/tcp\r\n\n\
               def456|alfred-signal-cli|bbernhard/signal-cli-rest-api:latest|Exited (1) 2 days ago|\n";
    let c = parse_container_list(out);
    assert_eq!(c.len(), 2);
    assert_eq!(c[0].id, "abc123");
    assert_eq!(c[0].name, "alfred-searxng");
    assert_eq!(c[0].image, "searxng/searxng:latest");
    assert_eq!(c[0].status, "Up 5 minutes");
    assert_eq!(c[0].ports, "0.0.0.0:8888->8080/tcp");
    assert!(c[0].running);
    assert_eq!(c[1].name, "alfred-signal-cli");
    assert_eq!(c[1].ports, "");
    assert!(!c[1].running);
}

#[test]
fn container_listing_short_and_empty() {
    assert!(parse_container_list("").is_empty());
    assert!(parse_container_list("  \n \n").is_empty());
    let c = parse_container_list("only-id");
    assert_eq!(c.len(), 1);
    assert_eq!(c[0].id, "only-id");
    assert_eq!(c[0].name, "");
    assert_eq!(c[0].status, "");
    assert!(!c[0].running);
}

#[test]
fn config_defaults() {
    assert_eq!(default_version(), "3.0.0");
    assert_eq!(default_gateway_port(), 18789);
    assert!(default_true());
    assert_eq!(default_theme(), "dark");
    let c = AlfredConfig::default();
    assert_eq!(c.version, "3.0.0");
    assert_eq!(c.gateway.port, 0);
    assert!(!c.gateway.auto_start);
    assert!(!c.privacy.local_only);
    assert!(c.channels.signal.is_none() && c.channels.discord.is_none());
    assert_eq!(c.ui.theme, "");
    assert_eq!(c.models.default_model, "");
}

#[test]
fn recommendations_by_memory() {
    let r = get_recommended_model(24000);
    assert_eq!(r.len(), 2);
    assert_eq!(r[0].model_name, "qwen2.5:32b");
    assert_eq!(r[0].size_tenths_gb, 190);
    assert!(r[0].recommended && !r[1].recommended);
    assert_eq!(r[1].model_name, "deepseek-r1:14b");
    assert_eq!(get_recommended_model(23999)[0].model_name, "qwen2.5:14b");
    assert_eq!(get_recommended_model(8000)[1].size_tenths_gb, 47);
    assert_eq!(get_recommended_model(4000)[1].model_name, "phi3:mini");
    assert_eq!(get_recommended_model(3999)[0].model_name, "qwen2.5:3b");
    assert_eq!(get_recommended_model(0)[1].model_name, "tinyllama");
    assert_eq!(get_recommended_model(0)[1].size_tenths_gb, 6);
}

#[test]
fn privacy_score_without_gateway() {
    let s = disconnected_privacy_score();
    assert_eq!(s.score, 100);
    assert_eq!(s.total_messages, 0);
    assert_eq!(
        s.recommendations,
        vec!["Gateway not connected - all data stays local by default".to_string()]
    );
}

#[test]
fn text_helpers() {
    assert_eq!(parse_u32(&chars_of("+42")), Some(42));
    assert_eq!(parse_u32(&chars_of("4294967295")), Some(4294967295));
    assert_eq!(parse_u32(&chars_of("4294967296")), None);
    assert_eq!(parse_u32(&chars_of("")), None);
    assert_eq!(parse_u32(&chars_of("+")), None);
    assert_eq!(parse_u32(&chars_of("-1")), None);
    assert_eq!(parse_u64(&chars_of("18446744073709551615")), Some(u64::MAX));
    assert_eq!(parse_u64(&chars_of("99999999999999999999999")), None);
    assert_eq!(trimmed(&chars_of(" \t a b \u{3000}")), vec!['a', ' ', 'b']);
    assert_eq!(split_ranges(&chars_of("a, b,c, "), &chars_of(", ")), vec![(0, 1), (3, 6), (8, 8)]);
    assert!(contains_chars(&chars_of("Up 2s"), &chars_of("Up")));
    assert!(!contains_chars(&chars_of("U p"), &chars_of("Up")));
    assert_eq!(concat_str("ab", "cd"), "abcd");
}
