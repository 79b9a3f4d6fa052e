use theseus::config_file::{choose_config_file, ConfigFileLocation};
use theseus::java_recommendations::{
    resolve_effective_jvm_args, resolve_effective_memory, JavaRecommendationConfig,
    JAVA_SETTINGS_CONFIG_NAME,
};
use theseus::jvm_args::{deduplicate_jvm_args, extract_arg_key};
use theseus::system_memory::{clamp_recommended_memory, clamp_to_total_memory, MemorySettings};
use theseus::ads::{get_ads_personalization, should_show_ads_consent_popup};

fn strings(args: &[&str]) -> Vec<String> {
    args.iter().map(|s| s.to_string()).collect()
}

const MB: u64 = 1024 * 1024;

#[test]
fn test_deduplicate_jvm_args() {
    let base = vec!["-XX:+UseG1GC".to_string(), "-XX:G1ReservePercent=15".to_string()];
    let extra = vec![
        "-XX:+UseG1GC".to_string(),
        "-XX:G1ReservePercent=20".to_string(),
        "-XX:MaxGCPauseMillis=50".to_string(),
    ];

    let combined = deduplicate_jvm_args(&base, &extra);
    assert_eq!(
        combined,
        vec![
            "-XX:+UseG1GC".to_string(),
            "-XX:G1ReservePercent=15".to_string(),
            "-XX:MaxGCPauseMillis=50".to_string(),
        ]
    );
}

#[test]
fn test_resolve_priority() {
    let global = MemorySettings { maximum: 4096 };
    let override_mem = MemorySettings { maximum: 8192 };
    let rec = JavaRecommendationConfig {
        recommended_memory_mb: Some(6144),
        recommended_jvm_args: vec!["-XX:+UseZGC".to_string()],
    };

    // Priority 1: Manual Override
    let res1 = resolve_effective_memory(Some(override_mem), global, Some(&rec));
    assert_eq!(res1.maximum, 8192);

    // Priority 2: Recommendation
    let res2 = resolve_effective_memory(None, global, Some(&rec));
    assert!(res2.maximum > 0);

    // Priority 3: Global Default
    let res3 = resolve_effective_memory(None, global, None);
    assert_eq!(res3.maximum, 4096);
}

#[test]
fn arg_key_up_to_first_equals() {
    assert_eq!(extract_arg_key("-Dfoo=bar=baz"), "-Dfoo");
    assert_eq!(extract_arg_key("-XX:G1ReservePercent=15"), "-XX:G1ReservePercent");
    assert_eq!(extract_arg_key("=x"), "");
}

#[test]
fn arg_key_of_boolean_xx_options() {
    assert_eq!(extract_arg_key("-XX:+UseG1GC"), "-XX:UseG1GC");
    assert_eq!(extract_arg_key("-XX:-UseG1GC"), "-XX:UseG1GC");
    assert_eq!(extract_arg_key("-XX:+"), "-XX:");
}

#[test]
fn arg_key_of_heap_sizes() {
    assert_eq!(extract_arg_key("-Xmx4G"), "-Xmx");
    assert_eq!(extract_arg_key("-Xms512M"), "-Xms");
    assert_eq!(extract_arg_key("-Xmn256M"), "-Xmn");
    assert_eq!(extract_arg_key("-Xmx"), "-Xmx");
}

#[test]
fn arg_key_of_other_arguments() {
    assert_eq!(extract_arg_key("-server"), "-server");
    assert_eq!(extract_arg_key("-Xss1M"), "-Xss1M");
    assert_eq!(extract_arg_key(""), "");
    assert_eq!(extract_arg_key("-Dnäme=wert"), "-Dnäme");
    assert_eq!(extract_arg_key("-XX:+Ünïcode"), "-XX:Ünïcode");
}

#[test]
fn dedup_later_heap_size_loses() {
    let combined = deduplicate_jvm_args(&strings(&["-Xmx2G"]), &strings(&["-Xmx4G", "-Xms1G"]));
    assert_eq!(combined, strings(&["-Xmx2G", "-Xms1G"]));
}

#[test]
fn dedup_toggle_conflicts_with_its_opposite() {
    let combined =
        deduplicate_jvm_args(&strings(&["-XX:-UseZGC"]), &strings(&["-XX:+UseZGC", "-XX:+UseG1GC"]));
    assert_eq!(combined, strings(&["-XX:-UseZGC", "-XX:+UseG1GC"]));
}

#[test]
fn dedup_within_base_and_empty_inputs() {
    let combined = deduplicate_jvm_args(&strings(&["-a", "-a", "-b=1", "-b=2"]), &[]);
    assert_eq!(combined, strings(&["-a", "-b=1"]));
    assert_eq!(deduplicate_jvm_args(&[], &[]), Vec::<String>::new());
    assert_eq!(deduplicate_jvm_args(&[], &strings(&["-x", "-x"])), strings(&["-x"]));
}

#[test]
fn dedup_is_idempotent() {
    let once = deduplicate_jvm_args(
        &strings(&["-Xmx1G", "-XX:+A", "-k=1"]),
        &strings(&["-XX:-A", "-k=2", "-Xmx2G", "-z"]),
    );
    let twice = deduplicate_jvm_args(&once, &[]);
    assert_eq!(once, twice);
    assert_eq!(once, strings(&["-Xmx1G", "-XX:+A", "-k=1", "-z"]));
}

#[test]
fn dedup_keeps_distinct_base_as_prefix() {
    let base = strings(&["-Xmx1G", "-XX:+A", "-k=1"]);
    let merged = deduplicate_jvm_args(&base, &strings(&["-new", "-k=9", "-XX:-A", "-other"]));
    assert_eq!(&merged[..base.len()], &base[..]);
    assert_eq!(merged, strings(&["-Xmx1G", "-XX:+A", "-k=1", "-new", "-other"]));
}

#[test]
fn dedup_keys_distinct_and_complete() {
    let base = strings(&["-a=1", "-XX:+B", "-Xms1G"]);
    let extra = strings(&["-a=2", "-XX:-B", "-Xms2G", "-c"]);
    let merged = deduplicate_jvm_args(&base, &extra);
    let keys: Vec<String> = merged.iter().map(|a| extract_arg_key(a)).collect();
    for i in 0..keys.len() {
        for j in (i + 1)..keys.len() {
            assert_ne!(keys[i], keys[j]);
        }
    }
    for a in base.iter().chain(extra.iter()) {
        assert!(keys.contains(&extract_arg_key(a)));
    }
}

#[test]
fn jvm_args_override_wins() {
    let rec = JavaRecommendationConfig {
        recommended_memory_mb: None,
        recommended_jvm_args: strings(&["-XX:+UseZGC"]),
    };
    let res = resolve_effective_jvm_args(Some(strings(&["-o"])), strings(&["-g"]), Some(&rec));
    assert_eq!(res, strings(&["-o"]));
    let res = resolve_effective_jvm_args(Some(Vec::new()), strings(&["-g"]), Some(&rec));
    assert_eq!(res, Vec::<String>::new());
}

#[test]
fn jvm_args_recommendation_merged_after_global() {
    let rec = JavaRecommendationConfig {
        recommended_memory_mb: None,
        recommended_jvm_args: strings(&["-XX:+UseZGC", "-Xmx8G", "-XX:+AlwaysPreTouch"]),
    };
    let res = resolve_effective_jvm_args(None, strings(&["-Xmx2G", "-XX:-UseZGC"]), Some(&rec));
    assert_eq!(res, strings(&["-Xmx2G", "-XX:-UseZGC", "-XX:+AlwaysPreTouch"]));
}

#[test]
fn jvm_args_fall_back_to_global() {
    let empty = JavaRecommendationConfig::default();
    assert_eq!(resolve_effective_jvm_args(None, strings(&["-g", "-g"]), Some(&empty)), strings(&["-g", "-g"]));
    assert_eq!(resolve_effective_jvm_args(None, strings(&["-g"]), None), strings(&["-g"]));
}

#[test]
fn memory_override_wins_even_without_recommendation() {
    let res = resolve_effective_memory(Some(MemorySettings { maximum: 1 }), MemorySettings { maximum: 2 }, None);
    assert_eq!(res, MemorySettings { maximum: 1 });
}

#[test]
fn memory_recommendation_without_size_falls_back_to_global() {
    let rec = JavaRecommendationConfig { recommended_memory_mb: None, recommended_jvm_args: strings(&["-x"]) };
    let res = resolve_effective_memory(None, MemorySettings { maximum: 3000 }, Some(&rec));
    assert_eq!(res.maximum, 3000);
}

#[test]
fn memory_recommendation_is_clamped() {
    let rec = JavaRecommendationConfig { recommended_memory_mb: Some(100), recommended_jvm_args: Vec::new() };
    let res = resolve_effective_memory(None, MemorySettings { maximum: 3000 }, Some(&rec));
    assert!(res.maximum >= 1 && res.maximum <= 512);
    let rec = JavaRecommendationConfig { recommended_memory_mb: Some(u32::MAX), recommended_jvm_args: Vec::new() };
    let res = resolve_effective_memory(None, MemorySettings { maximum: 3000 }, Some(&rec));
    assert!(res.maximum >= 1);
}

#[test]
fn clamp_on_a_large_machine() {
    assert_eq!(clamp_to_total_memory(6144, 8192 * MB), 6144);
    assert_eq!(clamp_to_total_memory(8192, 8192 * MB), 6144);
    assert_eq!(clamp_to_total_memory(100, 8192 * MB), 100);
    assert_eq!(clamp_to_total_memory(100, 16384 * MB), 100);
    assert_eq!(clamp_to_total_memory(0, 16384 * MB), 0);
    assert_eq!(clamp_to_total_memory(4000, 8192 * MB + MB - 1), 4000);
}

#[test]
fn clamp_just_above_reserve_leaves_the_reserve() {
    assert_eq!(clamp_to_total_memory(4096, 2100 * MB), 52);
    assert_eq!(clamp_to_total_memory(4096, 2048 * MB), 2048);
    assert_eq!(clamp_to_total_memory(1000, 2049 * MB), 1);
}

#[test]
fn clamp_on_a_medium_machine() {
    assert_eq!(clamp_to_total_memory(4096, 1024 * MB), 1024);
    assert_eq!(clamp_to_total_memory(700, 1024 * MB), 700);
    assert_eq!(clamp_to_total_memory(100, 1024 * MB), 512);
}

#[test]
fn clamp_on_a_small_machine() {
    assert_eq!(clamp_to_total_memory(100, 256 * MB), 512);
    assert_eq!(clamp_to_total_memory(4096, 512 * MB), 4096);
    assert_eq!(clamp_to_total_memory(4096, 0), 4096);
}

#[test]
fn clamp_truncates_megabytes_to_32_bits() {
    // 2^52 bytes is 2^32 MB, which a 32-bit count holds as 0.
    assert_eq!(clamp_to_total_memory(4096, 1u64 << 52), 4096);
    // 2^32 + 4096 MB is 4096 MB once truncated.
    assert_eq!(clamp_to_total_memory(8192, ((1u64 << 32) + 4096) * MB), 2048);
}

#[test]
fn clamp_against_this_machine_is_positive() {
    let c = clamp_recommended_memory(0);
    assert!(c == 0 || c == 512);
    let c = clamp_recommended_memory(600);
    assert!(c >= 1 && c <= 600);
}

#[test]
fn config_file_prefers_instance_root() {
    assert_eq!(choose_config_file(true, true), Some(ConfigFileLocation::InstanceRoot));
    assert_eq!(choose_config_file(true, false), Some(ConfigFileLocation::InstanceRoot));
    assert_eq!(choose_config_file(false, true), Some(ConfigFileLocation::ConfigDirectory));
    assert_eq!(choose_config_file(false, false), None);
    assert_eq!(JAVA_SETTINGS_CONFIG_NAME, "java-settings.json");
}

#[test]
fn default_recommendation_is_empty() {
    let d = JavaRecommendationConfig::default();
    assert_eq!(d.recommended_memory_mb, None);
    assert!(d.recommended_jvm_args.is_empty());
}

#[test]
fn ads_are_disabled() {
    assert!(!should_show_ads_consent_popup());
    assert!(!get_ads_personalization());
}

#[test]
fn larger_recommendation_never_gets_less() {
    for total in [0u64, 300 * MB, 1024 * MB, 2048 * MB, 2600 * MB, 16384 * MB] {
        let mut last = 0;
        for rec in [0u32, 100, 512, 600, 1000, 4096, 20000] {
            let c = clamp_to_total_memory(rec, total);
            assert!(c >= last);
            last = c;
        }
    }
}
