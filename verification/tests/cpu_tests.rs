use simadmin::cpu::{cpu_info_from, cpu_times_from, cpu_usage_delta, identify_cpu_model};

#[test]
fn stat_totals_from_first_cpu_line() {
    let text = "cpu  10 20 30 400 5 6 7 8 9 10\ncpu0 1 2 3 4 5 6 7 8\nintr 1\n";
    assert_eq!(cpu_times_from(text), Ok((10 + 20 + 30 + 400 + 5 + 6 + 7 + 8, 405)));
}

#[test]
fn stat_with_four_counters() {
    assert_eq!(cpu_times_from("cpu 1 2 3 4\n"), Ok((10, 4)));
}

#[test]
fn stat_skips_short_cpu_line() {
    assert_eq!(cpu_times_from("cpu 1 2 3\ncpu 1 1 1 1 1\n"), Ok((5, 2)));
}

#[test]
fn stat_without_cpu_line() {
    assert_eq!(cpu_times_from("cpu0 1 2 3 4\n"), Err("Failed to parse /proc/stat".to_string()));
}

#[test]
fn usage_between_samples() {
    assert_eq!(cpu_usage_delta((100, 50), (200, 90)), Some((60, 100)));
    assert_eq!(cpu_usage_delta((100, 50), (100, 60)), None);
    assert_eq!(cpu_usage_delta((200, 50), (100, 60)), None);
}

#[test]
fn arm_core_names() {
    assert_eq!(identify_cpu_model("0x41", "0xd05"), "ARM Cortex-A55");
    assert_eq!(identify_cpu_model("0x41", "0xd4e"), "ARM Cortex-X3");
    assert_eq!(identify_cpu_model("0x41", "0xfff"), "ARM CPU (part: 0xfff)");
    assert_eq!(identify_cpu_model("0x51", "0x801"), "CPU (implementer: 0x51, part: 0x801)");
}

#[test]
fn cpuinfo_cores() {
    let text = "processor\t: 0\nBogoMIPS\t: 38.40\nFeatures\t: fp asimd evtstrm\nCPU implementer\t: 0x41\nCPU architecture: 8\nCPU variant\t: 0x2\nCPU part\t: 0xd05\nCPU revision\t: 0\n\nprocessor\t: 1\nBogoMIPS\t: 38.40\nCPU implementer\t: 0x41\nCPU part\t: 0xd05\n\nHardware\t: Qualcomm\nSerial\t\t: 00ab\n";
    let info = cpu_info_from(text);
    assert_eq!(info.core_count, 2);
    assert_eq!(info.cores.len(), 2);
    assert_eq!(info.cores[0].processor, 0);
    assert_eq!(info.cores[0].bogomips, "38.40");
    assert_eq!(info.cores[0].features, vec!["fp", "asimd", "evtstrm"]);
    assert_eq!(info.cores[0].architecture, "8");
    assert_eq!(info.cores[0].variant, "0x2");
    assert_eq!(info.cores[1].processor, 1);
    assert_eq!(info.hardware, "Qualcomm");
    assert_eq!(info.serial, "00ab");
    assert_eq!(info.model_name, "ARM Cortex-A55");
}

#[test]
fn cpuinfo_without_cores() {
    let info = cpu_info_from("Hardware: X\n");
    assert_eq!(info.core_count, 0);
    assert_eq!(info.model_name, "Unknown");
    assert_eq!(info.hardware, "X");
}
