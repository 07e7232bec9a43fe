use gpa_monitor::counters::{build_counter_cache, classify_counter, CounterCategory};

#[test]
fn test_counter_scan_classifies_all_categories() {
    let names = vec![
        "GpuBusyPercentage".to_owned(),
        "MemUsedBytes".to_owned(),
        "MemTotalBytes".to_owned(),
        "GpuTemperatureC".to_owned(),
    ];
    let cache = build_counter_cache(&names);
    assert_eq!(cache.utilization_counter, Some(0));
    assert_eq!(cache.memory_used_counter, Some(1));
    assert_eq!(cache.memory_total_counter, Some(2));
    assert_eq!(cache.temperature_counter, Some(3));
}

#[test]
fn test_first_counter_per_category_wins() {
    let names = vec![
        "GpuBusy".to_owned(),
        "GPUUtilization".to_owned(),
        "MemUsed".to_owned(),
    ];
    let cache = build_counter_cache(&names);
    assert_eq!(cache.utilization_counter, Some(0));
    assert_eq!(cache.memory_used_counter, Some(2));
}

#[test]
fn test_unmatched_categories_stay_empty() {
    let names = vec!["Wavefronts".to_owned(), "CacheHits".to_owned()];
    let cache = build_counter_cache(&names);
    assert_eq!(cache.utilization_counter, None);
    assert_eq!(cache.memory_used_counter, None);
    assert_eq!(cache.memory_total_counter, None);
    assert_eq!(cache.temperature_counter, None);
}

#[test]
fn test_classification_is_first_category_match() {
    assert_eq!(classify_counter("GpuLoadAvg"), Some(CounterCategory::Utilization));
    assert_eq!(classify_counter("MemoryUsagePercent"), Some(CounterCategory::MemoryUsed));
    assert_eq!(classify_counter("MemorySizeBytes"), Some(CounterCategory::MemoryTotal));
    assert_eq!(classify_counter("ThermalMargin"), Some(CounterCategory::Temperature));
    assert_eq!(classify_counter("PrimitiveCount"), None);
    // Matching is case-sensitive, as the vendor counter names are fixed.
    assert_eq!(classify_counter("gpubusy"), None);
}

#[test]
fn test_empty_scan() {
    let cache = build_counter_cache(&vec![]);
    assert_eq!(cache.utilization_counter, None);
    assert_eq!(cache.temperature_counter, None);
}
