use system_benchmark::benchmark::benchmark_cpu;
use system_benchmark::benchmark::benchmark_gpu;
use system_benchmark::benchmark::ComputeMeasurement;
use system_benchmark::benchmark::ComputePath;
use system_benchmark::info::cpu::CpuInfo;
use system_benchmark::info::gpu::DeviceKind;
use system_benchmark::info::gpu::GpuInfo;
use system_benchmark::info::network::NetworkInfo;
use system_benchmark::info::power::BatteryInfo;
use system_benchmark::decimal::Decimal;
use system_benchmark::decimal::Figure;
use system_benchmark::number::Quotient;
use system_benchmark::options::OutputFormat;
use system_benchmark::orchestrator::Event;
use system_benchmark::orchestrator::FeatureSet;
use system_benchmark::orchestrator::Orchestrator;
use system_benchmark::info::cpu::SystemCounters;
use system_benchmark::render::json::battery_json;
use system_benchmark::render::json::cpu_json;
use system_benchmark::render::json::generate_json_output;
use system_benchmark::render::json::gpu_json;
use system_benchmark::render::json::gpu_list_json;
use system_benchmark::render::json::network_json;
use system_benchmark::render::json::JsonDocument;
use system_benchmark::render::json::JsonEntry;
use system_benchmark::render::json::JsonField;
use system_benchmark::render::json::JsonObject;
use system_benchmark::render::json::JsonScalar;
use system_benchmark::render::json::JsonSection;
use system_benchmark::render::text::format_battery_info;
use system_benchmark::render::text::format_cpu_info;
use system_benchmark::render::text::format_cuda_gpu_info;
use system_benchmark::render::text::format_gpu_entries;
use system_benchmark::render::text::format_gpu_info;
use system_benchmark::render::text::format_mps_gpu_info;
use system_benchmark::render::text::format_network_info;
use system_benchmark::render::text::generate_plain_output;
use system_benchmark::render::text::cpu_section;
use system_benchmark::number::push_decimal;
use system_benchmark::number::push_quotient;
use system_benchmark::report::BenchmarkReport;
use system_benchmark::report::CpuResult;
use system_benchmark::report::GpuResult;

fn cpu_info() -> CpuInfo {
    CpuInfo {
        total_memory: 16_384,
        used_memory: 8_192,
        total_swap: 2_048,
        used_swap: 0,
        arch: Some("x86_64".to_string()),
        os: "ubuntu".to_string(),
        os_version: None,
        cpu_count: 8,
    }
}

fn cpu_result() -> CpuResult {
    CpuResult { info: cpu_info(), measurement: benchmark_cpu(5, 1_000_000_000).unwrap() }
}

fn discrete_result(index: usize, elapsed_nanos: u64) -> GpuResult {
    GpuResult {
        info: DeviceKind::DiscreteIndexed(index).describe(),
        measurement: benchmark_gpu(1000, elapsed_nanos).unwrap(),
    }
}

fn unified_result(elapsed_nanos: u64) -> GpuResult {
    GpuResult {
        info: DeviceKind::IntegratedUnified.describe(),
        measurement: benchmark_gpu(1000, elapsed_nanos).unwrap(),
    }
}

fn battery_info() -> BatteryInfo {
    BatteryInfo {
        has_battery: true,
        charge_percent: Figure::parse("87.5"),
        is_charging: Some(true),
        wh_capacity: Figure::parse("57.25"),
    }
}

fn network_info() -> NetworkInfo {
    NetworkInfo {
        ping_ms: 23,
        public_ip: "203.0.113.7".to_string(),
        download_mbps: Quotient::new(800_000_000_000, 8_000_000_000),
        upload_mbps: Quotient::new(80_000_000_000, 3_000_000_000),
    }
}

fn empty_report() -> BenchmarkReport {
    BenchmarkReport { cpu: None, gpu: None, battery: None, network: None }
}

fn field(key: &str, value: JsonScalar) -> JsonField {
    JsonField { key: key.to_string(), value }
}

fn text(value: &str) -> JsonScalar {
    JsonScalar::Text(value.to_string())
}

fn scalar_value(scalar: &JsonScalar) -> serde_json::Value {
    match scalar {
        JsonScalar::Null => serde_json::Value::Null,
        JsonScalar::Bool(flag) => serde_json::Value::Bool(*flag),
        JsonScalar::Unsigned(number) => serde_json::Value::from(*number),
        JsonScalar::Number(q) => serde_json::Value::from(q.numerator as f64 / q.denominator as f64),
        JsonScalar::Decimal(d) => serde_json::Value::from(d.to_text().parse::<f32>().unwrap()),
        JsonScalar::Text(value) => serde_json::Value::String(value.clone()),
    }
}

fn object_value(object: &JsonObject) -> serde_json::Value {
    let mut map = serde_json::Map::new();
    for field in &object.fields {
        map.insert(field.key.clone(), scalar_value(&field.value));
    }
    serde_json::Value::Object(map)
}

fn document_value(document: &JsonDocument) -> serde_json::Value {
    let mut map = serde_json::Map::new();
    for entry in &document.entries {
        let value = match &entry.value {
            JsonSection::Object(object) => object_value(object),
            JsonSection::List(objects) => {
                serde_json::Value::Array(objects.iter().map(object_value).collect())
            }
        };
        map.insert(entry.key.clone(), value);
    }
    serde_json::Value::Object(map)
}

fn json_text(report: &BenchmarkReport) -> String {
    serde_json::to_string_pretty(&document_value(&generate_json_output(report))).unwrap()
}

fn pushed_decimal(n: u128) -> String {
    let mut out = String::new();
    push_decimal(&mut out, n);
    out
}

fn pushed_quotient(numerator: u128, denominator: u128) -> String {
    let mut out = String::new();
    push_quotient(&mut out, Quotient::new(numerator, denominator));
    out
}

#[test]
fn numbers_are_written_in_decimal() {
    assert_eq!(pushed_decimal(0), "0");
    assert_eq!(pushed_decimal(7), "7");
    assert_eq!(pushed_decimal(10), "10");
    assert_eq!(pushed_decimal(1_234_567_890), "1234567890");
    assert_eq!(pushed_decimal(u128::MAX), u128::MAX.to_string());
    let mut out = "n = ".to_string();
    push_decimal(&mut out, 42);
    assert_eq!(out, "n = 42");
}

#[test]
fn quotients_are_written_with_two_places() {
    assert_eq!(pushed_quotient(10_737_418_240, 1_000_000_000), "10.74");
    assert_eq!(pushed_quotient(1, 3), "0.33");
    assert_eq!(pushed_quotient(5, 1), "5.00");
    assert_eq!(pushed_quotient(1, 100), "0.01");
    assert_eq!(pushed_quotient(109, 100), "1.09");
    assert_eq!(pushed_quotient(999, 1000), "1.00");
    assert_eq!(pushed_quotient(0, 9), "0.00");
}

#[test]
fn quotients_that_are_not_finite_are_named() {
    assert_eq!(pushed_quotient(1, 0), "inf");
    assert_eq!(pushed_quotient(0, 0), "NaN");
}

#[test]
fn two_place_text_agrees_with_the_formatter() {
    let mut state: u64 = 0x0F0F_1234_ABCD_9876;
    for _ in 0..5_000 {
        state ^= state << 13;
        state ^= state >> 7;
        state ^= state << 17;
        let numerator = (state >> 40) as u128;
        let denominator = 1u128 << (state % 12);
        let expected = format!("{:.2}", numerator as f64 / denominator as f64);
        let got = pushed_quotient(numerator, denominator);
        assert_eq!(got, expected, "{} / {}", numerator, denominator);
    }
}

#[test]
fn hundredths_keep_their_leading_zero() {
    assert_eq!(pushed_quotient(305, 100), "3.05");
    assert_eq!(pushed_quotient(7, 100), "0.07");
}

#[test]
fn devices_are_called_by_kind_and_index() {
    assert_eq!(DeviceKind::IntegratedUnified.label(), "integrated");
    assert_eq!(DeviceKind::DiscreteIndexed(0).label(), "Cuda(0)");
    assert_eq!(DeviceKind::DiscreteIndexed(12).label(), "Cuda(12)");
    assert_eq!(
        DeviceKind::DiscreteIndexed(usize::MAX).label(),
        format!("Cuda({})", usize::MAX)
    );
}

#[test]
fn the_debug_form_quotes_and_escapes() {
    let mut result = cpu_result();
    result.info.os = "a\"b\\c\n".to_string();
    result.info.arch = None;
    let text = format_cpu_info(&result);
    assert!(text.starts_with("=> CPU:\nOS          : \"a\\\"b\\\\c\\n\"\nOS version"));
    assert!(text.contains(&format!("OS          : {:?}\n", "a\"b\\c\n")));
    assert!(text.contains("CPU architecture: \"Not available\"\n"));
}

#[test]
fn the_cpu_section_takes_the_quoted_names_as_they_are() {
    let expected = "=> CPU:\n\
        OS          : <os>\n\
        OS version  : Not available\n\
        Memory Total: 16384 mb\n\
        Memory Used: 8192 mb\n\
        Swap Total : 2048 mb\n\
        Swap Used  : 0 mb\n\
        CPU architecture: <arch>\n\
        CPU count   : 8\n\
        CPU FLOPS   : 10.74 GFLOPS\n\
        CPU benchmark duration: 1.00 seconds\n\n";
    assert_eq!(cpu_section(&cpu_result(), "<os>", "<arch>"), expected);
}

#[test]
fn the_cpu_section_has_its_lines() {
    let expected = "=> CPU:\n\
        OS          : \"ubuntu\"\n\
        OS version  : Not available\n\
        Memory Total: 16384 mb\n\
        Memory Used: 8192 mb\n\
        Swap Total : 2048 mb\n\
        Swap Used  : 0 mb\n\
        CPU architecture: \"x86_64\"\n\
        CPU count   : 8\n\
        CPU FLOPS   : 10.74 GFLOPS\n\
        CPU benchmark duration: 1.00 seconds\n\n";
    assert_eq!(format_cpu_info(&cpu_result()), expected);
}

#[test]
fn the_cpu_section_agrees_with_the_formatter() {
    let info = cpu_info();
    let gflops = 2.0 * 1024f64.powi(3) * 5.0 / (1.5 * 1e9);
    let expected = format!(
        "=> CPU:\n\
        OS          : {:?}\n\
        OS version  : {}\n\
        Memory Total: {} mb\n\
        Memory Used: {} mb\n\
        Swap Total : {} mb\n\
        Swap Used  : {} mb\n\
        CPU architecture: {:?}\n\
        CPU count   : {}\n\
        CPU FLOPS   : {:.2} GFLOPS\n\
        CPU benchmark duration: {:.2} seconds\n\n",
        info.os,
        info.os_version.as_deref().unwrap_or("Not available"),
        info.total_memory,
        info.used_memory,
        info.total_swap,
        info.used_swap,
        info.arch.as_deref().unwrap_or("Not available"),
        info.cpu_count,
        gflops,
        1.5
    );
    let result = CpuResult { info, measurement: benchmark_cpu(5, 1_500_000_000).unwrap() };
    assert_eq!(format_cpu_info(&result), expected);
}

#[test]
fn a_missing_architecture_is_shown_as_not_available() {
    let mut result = cpu_result();
    result.info.arch = None;
    result.info.os_version = Some("22.04".to_string());
    let text = format_cpu_info(&result);
    assert!(text.contains("CPU architecture: \"Not available\"\n"));
    assert!(text.contains("OS version  : 22.04\n"));
}

#[test]
fn the_integrated_accelerator_has_its_lines() {
    let expected = "GPU: integrated (MPS)\n\
        GPU FLOPS: 4.29 TFLOPS\n\
        GPU benchmark duration: 0.50 seconds\n";
    assert_eq!(format_mps_gpu_info(&benchmark_gpu(1000, 500_000_000).unwrap()), expected);
}

#[test]
fn a_discrete_accelerator_has_its_lines() {
    let expected = "CUDA Device 1 Information:\n\
        Device: Cuda(1)\n\
        Name: Not available\n\
        Total Memory: 0\n\
        Free Memory: 0\n\
        Used Memory: 0\n\
        GPU Estimated FLOPS: 1.07 TFLOPS\n\
        GPU benchmark duration: 2.00 seconds\n";
    assert_eq!(format_cuda_gpu_info(&discrete_result(1, 2_000_000_000)), expected);
}

#[test]
fn device_metadata_is_shown_where_it_is_set() {
    let result = GpuResult {
        info: GpuInfo {
            device_id: 0,
            device: DeviceKind::DiscreteIndexed(0),
            name: Some("Accelerator X".to_string()),
            total_memory: Some(8_589_934_592),
            free_memory: Some(8_000_000_000),
            used_memory: Some(589_934_592),
        },
        measurement: benchmark_gpu(1000, 1_000_000_000).unwrap(),
    };
    let text = format_cuda_gpu_info(&result);
    assert!(text.contains("Name: Accelerator X\n"));
    assert!(text.contains("Total Memory: 8589934592\n"));
    assert!(text.contains("Free Memory: 8000000000\n"));
    assert!(text.contains("Used Memory: 589934592\n"));
}

#[test]
fn accelerators_are_listed_one_after_the_other() {
    let entries = vec![discrete_result(0, 1_000_000_000), discrete_result(1, 2_000_000_000)];
    let expected = format!(
        "{}{}",
        format_cuda_gpu_info(&entries[0]),
        format_cuda_gpu_info(&entries[1])
    );
    assert_eq!(format_gpu_entries(&entries), expected);
    assert_eq!(format_gpu_entries(&Vec::new()), "");
    assert_eq!(
        format_gpu_entries(&vec![unified_result(500_000_000)]),
        format_mps_gpu_info(&benchmark_gpu(1000, 500_000_000).unwrap())
    );
}

#[test]
fn the_gpu_section_has_a_heading_and_a_blank_line() {
    let entries = vec![discrete_result(0, 1_000_000_000)];
    let expected = format!("=> GPU:\n{}\n", format_cuda_gpu_info(&entries[0]));
    assert_eq!(format_gpu_info(&entries), expected);
}

#[test]
fn no_accelerator_is_said_in_words() {
    assert_eq!(format_gpu_info(&Vec::new()), "=> GPU:\nNo accelerator found\n\n");
}

#[test]
fn the_battery_section_has_its_lines() {
    let expected = "=> Power:\n\
        Battery         : true\n\
        State of charge : 87.5%\n\
        Charging        : true\n\
        Capacity        : 57.25 Wh\n\n";
    assert_eq!(format_battery_info(&battery_info()), expected);
}

#[test]
fn battery_figures_are_written_as_the_float_shows_them() {
    let shown = |value: f32| Figure::parse(&value.to_string());
    let info = BatteryInfo {
        has_battery: true,
        charge_percent: shown(50.0),
        is_charging: Some(true),
        wh_capacity: shown(60.0),
    };
    let expected = "=> Power:\n\
        Battery         : true\n\
        State of charge : 50%\n\
        Charging        : true\n\
        Capacity        : 60 Wh\n\n";
    assert_eq!(format_battery_info(&info), expected);
    for (charge, capacity) in [(87.5f32, 57.25f32), (99.99, 0.1), (0.0, 1e-3), (33.333332, 4.2e9)] {
        let info = BatteryInfo {
            has_battery: true,
            charge_percent: shown(charge),
            is_charging: None,
            wh_capacity: shown(capacity),
        };
        let expected = format!(
            "=> Power:\n\
            Battery         : {:?}\n\
            State of charge : {}\n\
            Charging        : {:?}\n\
            Capacity        : {}\n\n",
            true,
            format!("{}%", charge.to_string()),
            false,
            format!("{} Wh", capacity.to_string())
        );
        assert_eq!(format_battery_info(&info), expected);
    }
}

#[test]
fn battery_figures_that_are_no_numbers_are_written_as_null() {
    let info = BatteryInfo {
        has_battery: true,
        charge_percent: Figure::parse(&f32::NAN.to_string()),
        is_charging: Some(false),
        wh_capacity: Figure::parse(&f32::INFINITY.to_string()),
    };
    assert_eq!(info.charge_percent, Some(Figure::NotANumber));
    assert_eq!(info.wh_capacity, Some(Figure::Infinite { negative: false }));
    let text = format_battery_info(&info);
    assert!(text.contains("State of charge : NaN%\n"));
    assert!(text.contains("Capacity        : inf Wh\n"));
    assert_eq!(
        battery_json(&info).fields,
        vec![
            field("has_battery", JsonScalar::Bool(true)),
            field("charge_percent", JsonScalar::Null),
            field("is_charging", JsonScalar::Bool(false)),
            field("wh_capacity", JsonScalar::Null),
        ]
    );
}

#[test]
fn battery_figures_are_json_numbers_of_the_same_digits() {
    let report = BenchmarkReport { battery: Some(battery_info()), ..empty_report() };
    let written = json_text(&report);
    assert!(written.contains("\"charge_percent\": 87.5"));
    assert!(written.contains("\"wh_capacity\": 57.25"));
}

#[test]
fn a_loop_of_an_eighth_of_a_second_is_shown_as_the_formatter_shows_it() {
    let result = CpuResult { info: cpu_info(), measurement: benchmark_cpu(5, 125_000_000).unwrap() };
    let text = format_cpu_info(&result);
    assert!(text.contains("CPU benchmark duration: 0.12 seconds\n"));
    assert!(text.contains(&format!("CPU benchmark duration: {:.2} seconds\n", 0.125f64)));
}

#[test]
fn a_host_without_battery_shows_none() {
    let info = BatteryInfo {
        has_battery: false,
        charge_percent: None,
        is_charging: None,
        wh_capacity: None,
    };
    let expected = "=> Power:\n\
        Battery         : false\n\
        State of charge : None\n\
        Charging        : false\n\
        Capacity        : None\n\n";
    assert_eq!(format_battery_info(&info), expected);
}

#[test]
fn the_network_section_has_its_lines() {
    let expected = "=> Network:\n\
        Ping        : 23 ms\n\
        Public IP   : 203.0.113.7\n\
        Download    : 100.00 Mbps\n\
        Upload      : 26.67 Mbps\n\n";
    assert_eq!(format_network_info(&network_info()), expected);
}

#[test]
fn the_plain_text_holds_the_sections_in_order() {
    let report = BenchmarkReport {
        cpu: Some(cpu_result()),
        gpu: Some(vec![discrete_result(0, 1_000_000_000)]),
        battery: Some(battery_info()),
        network: Some(network_info()),
    };
    let expected = format!(
        "{}{}{}{}",
        format_cpu_info(&cpu_result()),
        format_gpu_info(&vec![discrete_result(0, 1_000_000_000)]),
        format_battery_info(&battery_info()),
        format_network_info(&network_info())
    );
    assert_eq!(generate_plain_output(&report), expected);
}

#[test]
fn the_plain_text_leaves_missing_sections_out() {
    assert_eq!(generate_plain_output(&empty_report()), "");
    let report = BenchmarkReport { battery: Some(battery_info()), ..empty_report() };
    assert_eq!(generate_plain_output(&report), format_battery_info(&battery_info()));
    let report = BenchmarkReport { gpu: Some(Vec::new()), ..empty_report() };
    assert_eq!(generate_plain_output(&report), "=> GPU:\nNo accelerator found\n\n");
}

#[test]
fn the_cpu_object_has_its_fields() {
    let object = cpu_json(&cpu_result());
    assert_eq!(
        object.fields,
        vec![
            field("os", text("ubuntu")),
            field("os_version", text("Not available")),
            field("total_memory_mb", JsonScalar::Unsigned(16_384)),
            field("used_memory_mb", JsonScalar::Unsigned(8_192)),
            field("total_swap_mb", JsonScalar::Unsigned(2_048)),
            field("used_swap_mb", JsonScalar::Unsigned(0)),
            field("arch", text("x86_64")),
            field("cpu_count", JsonScalar::Unsigned(8)),
            field("gflops", JsonScalar::Number(Quotient::new(10_737_418_240, 1_000_000_000))),
            field(
                "benchmark_duration_seconds",
                JsonScalar::Number(Quotient::new(1_000_000_000, 1_000_000_000))
            ),
        ]
    );
}

#[test]
fn a_discrete_accelerator_object_has_its_fields() {
    let object = gpu_json(&discrete_result(3, 2_000_000_000));
    assert_eq!(
        object.fields,
        vec![
            field("device_id", JsonScalar::Unsigned(3)),
            field("device", text("Cuda(3)")),
            field("name", text("Not available")),
            field("total_memory", JsonScalar::Unsigned(0)),
            field("free_memory", JsonScalar::Unsigned(0)),
            field("used_memory", JsonScalar::Unsigned(0)),
            field(
                "tflops",
                JsonScalar::Number(Quotient::new(2_147_483_648_000, 2_000_000_000_000))
            ),
            field("duration", JsonScalar::Number(Quotient::new(2_000_000_000, 1_000_000_000))),
        ]
    );
}

#[test]
fn the_integrated_accelerator_object_has_three_fields() {
    let object = gpu_json(&unified_result(500_000_000));
    assert_eq!(
        object.fields,
        vec![
            field("device", text("integrated")),
            field(
                "tflops",
                JsonScalar::Number(Quotient::new(2_147_483_648_000, 500_000_000_000))
            ),
            field("duration", JsonScalar::Number(Quotient::new(500_000_000, 1_000_000_000))),
        ]
    );
}

#[test]
fn the_accelerator_list_has_one_object_per_entry() {
    let entries = vec![discrete_result(0, 10), unified_result(20), discrete_result(2, 30)];
    assert_eq!(
        gpu_list_json(&entries),
        vec![gpu_json(&entries[0]), gpu_json(&entries[1]), gpu_json(&entries[2])]
    );
    assert_eq!(gpu_list_json(&Vec::new()), Vec::<JsonObject>::new());
}

#[test]
fn the_battery_object_has_its_fields() {
    assert_eq!(
        battery_json(&battery_info()).fields,
        vec![
            field("has_battery", JsonScalar::Bool(true)),
            field(
                "charge_percent",
                JsonScalar::Decimal(Decimal { negative: false, digits: 875, scale: 1 })
            ),
            field("is_charging", JsonScalar::Bool(true)),
            field(
                "wh_capacity",
                JsonScalar::Decimal(Decimal { negative: false, digits: 5_725, scale: 2 })
            ),
        ]
    );
    let absent = BatteryInfo {
        has_battery: false,
        charge_percent: None,
        is_charging: None,
        wh_capacity: None,
    };
    assert_eq!(
        battery_json(&absent).fields,
        vec![
            field("has_battery", JsonScalar::Bool(false)),
            field("charge_percent", JsonScalar::Null),
            field("is_charging", JsonScalar::Null),
            field("wh_capacity", JsonScalar::Null),
        ]
    );
}

#[test]
fn the_network_object_has_its_fields() {
    assert_eq!(
        network_json(&network_info()).fields,
        vec![
            field("ping_ms", JsonScalar::Unsigned(23)),
            field("public_ip", text("203.0.113.7")),
            field(
                "download_mbps",
                JsonScalar::Number(Quotient::new(800_000_000_000, 8_000_000_000))
            ),
            field(
                "upload_mbps",
                JsonScalar::Number(Quotient::new(80_000_000_000, 3_000_000_000))
            ),
        ]
    );
}

#[test]
fn objects_and_documents_grow_at_the_end() {
    let mut object = JsonObject::new();
    assert_eq!(object.fields, Vec::new());
    object.insert("a", JsonScalar::Null);
    object.insert("b", JsonScalar::Unsigned(1));
    assert_eq!(object.fields, vec![field("a", JsonScalar::Null), field("b", JsonScalar::Unsigned(1))]);
    let mut document = JsonDocument::new();
    assert_eq!(document.entries, Vec::new());
    document.insert("first", JsonSection::Object(object.clone()));
    document.insert("second", JsonSection::List(Vec::new()));
    assert_eq!(
        document.entries,
        vec![
            JsonEntry { key: "first".to_string(), value: JsonSection::Object(object) },
            JsonEntry { key: "second".to_string(), value: JsonSection::List(Vec::new()) },
        ]
    );
}

#[test]
fn the_document_has_one_entry_per_section() {
    let report = BenchmarkReport {
        cpu: Some(cpu_result()),
        gpu: Some(vec![discrete_result(0, 1_000_000_000)]),
        battery: Some(battery_info()),
        network: Some(network_info()),
    };
    let document = generate_json_output(&report);
    assert_eq!(
        document.entries,
        vec![
            JsonEntry {
                key: "cpu_info".to_string(),
                value: JsonSection::Object(cpu_json(&cpu_result())),
            },
            JsonEntry {
                key: "gpu_info".to_string(),
                value: JsonSection::List(vec![gpu_json(&discrete_result(0, 1_000_000_000))]),
            },
            JsonEntry {
                key: "battery_info".to_string(),
                value: JsonSection::Object(battery_json(&battery_info())),
            },
            JsonEntry {
                key: "network_info".to_string(),
                value: JsonSection::Object(network_json(&network_info())),
            },
        ]
    );
    assert_eq!(generate_json_output(&empty_report()).entries, Vec::new());
}

#[test]
fn battery_alone_gives_one_key() {
    let mut run = Orchestrator::new(FeatureSet { cpu: false, gpu: false, battery: true, network: false });
    run.handle(Event::Battery(Vec::new())).unwrap();
    let document = generate_json_output(&run.finalize().unwrap());
    let keys: Vec<&str> = document.entries.iter().map(|entry| entry.key.as_str()).collect();
    assert_eq!(keys, vec!["battery_info"]);
}

#[test]
fn an_empty_accelerator_section_is_an_empty_list_not_a_missing_key() {
    let report = BenchmarkReport {
        cpu: Some(cpu_result()),
        gpu: Some(Vec::new()),
        ..empty_report()
    };
    let document = generate_json_output(&report);
    assert_eq!(document.entries.len(), 2);
    assert_eq!(document.entries[0].key, "cpu_info");
    assert_eq!(
        document.entries[1],
        JsonEntry { key: "gpu_info".to_string(), value: JsonSection::List(Vec::new()) }
    );
    let value = document_value(&document);
    assert_eq!(value["gpu_info"], serde_json::Value::Array(Vec::new()));
    assert!(value.get("battery_info").is_none());
}

#[test]
fn cpu_alone_written_as_json_has_one_key_with_numeric_figures() {
    let counters = SystemCounters {
        total_memory_bytes: 17_179_869_184,
        used_memory_bytes: 8_589_934_592,
        total_swap_bytes: 0,
        used_swap_bytes: 0,
        arch: Some("x86_64".to_string()),
        os: "ubuntu".to_string(),
        os_version: Some("22.04".to_string()),
        cpu_count: 8,
    };
    let mut run = Orchestrator::new(FeatureSet::from_names(&vec!["cpu".to_string()]));
    run.handle(Event::Snapshot(counters)).unwrap();
    run.handle(Event::Timed { elapsed_nanos: 1_000_000_000 }).unwrap();
    let report = run.finalize().unwrap();
    assert_eq!(OutputFormat::from_name(&"json".to_string()), OutputFormat::Json);
    let written = json_text(&report);
    let parsed: serde_json::Value = serde_json::from_str(&written).unwrap();
    let top = parsed.as_object().expect("a top-level object");
    assert_eq!(top.len(), 1);
    let cpu = top.get("cpu_info").expect("the key cpu_info").as_object().unwrap();
    let gflops = cpu.get("gflops").unwrap().as_f64().expect("gflops is a number");
    let duration = cpu
        .get("benchmark_duration_seconds")
        .unwrap()
        .as_f64()
        .expect("the duration is a number");
    assert!(gflops >= 0.0);
    assert!(duration >= 0.0);
    assert!((gflops - 10.73741824).abs() < 1e-9);
    assert!((duration - 1.0).abs() < 1e-12);
    assert_eq!(cpu.get("total_memory_mb").unwrap().as_u64(), Some(16_384));
    assert_eq!(cpu.get("os").unwrap().as_str(), Some("ubuntu"));
    assert_eq!(cpu.len(), 10);
}

#[test]
fn rendering_twice_gives_the_same_bytes() {
    let report = BenchmarkReport {
        cpu: Some(cpu_result()),
        gpu: Some(vec![discrete_result(0, 1_000_000_000), discrete_result(1, 3)]),
        battery: Some(battery_info()),
        network: Some(network_info()),
    };
    assert_eq!(generate_json_output(&report), generate_json_output(&report));
    assert_eq!(json_text(&report).into_bytes(), json_text(&report).into_bytes());
    assert_eq!(
        generate_plain_output(&report).into_bytes(),
        generate_plain_output(&report).into_bytes()
    );
    assert_eq!(json_text(&report.clone()), json_text(&report));
}

#[test]
fn a_figure_that_is_not_finite_is_written_as_null() {
    let report = BenchmarkReport {
        cpu: Some(CpuResult {
            info: cpu_info(),
            measurement: ComputeMeasurement {
                path: ComputePath::Cpu,
                operations: 10_737_418_240,
                elapsed_nanos: 0,
            },
        }),
        ..empty_report()
    };
    let value = document_value(&generate_json_output(&report));
    assert_eq!(value["cpu_info"]["gflops"], serde_json::Value::Null);
    assert!(generate_plain_output(&report).contains("CPU FLOPS   : inf GFLOPS\n"));
}

#[test]
fn format_names_select_the_format() {
    assert_eq!(OutputFormat::from_name(&"json".to_string()), OutputFormat::Json);
    assert_eq!(OutputFormat::from_name(&"plain".to_string()), OutputFormat::Plain);
    assert_eq!(OutputFormat::from_name(&"JSON".to_string()), OutputFormat::Plain);
    assert_eq!(OutputFormat::from_name(&"yaml".to_string()), OutputFormat::Plain);
    assert_eq!(OutputFormat::from_name(&String::new()), OutputFormat::Plain);
}
