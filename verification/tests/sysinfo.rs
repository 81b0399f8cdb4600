use lian::sysinfo::{SystemInfo, SystemProbe, UNKNOWN};

#[test]
fn distro_is_unquoted() {
    assert_eq!(SystemInfo::get_distro("PRETTY_NAME=\"Arch Linux\""), "Arch Linux");
    assert_eq!(SystemInfo::get_distro("PRETTY_NAME=Gentoo"), "Gentoo");
    assert_eq!(SystemInfo::get_distro("未知"), "未知");
    assert_eq!(SystemInfo::get_distro("A=\"b\"=c"), "b");
}

#[test]
fn cpu_is_the_value_after_the_colon() {
    assert_eq!(
        SystemInfo::get_cpu("Model name:                      AMD Ryzen 7 5800X 8-Core Processor"),
        "AMD Ryzen 7 5800X 8-Core Processor"
    );
    assert_eq!(SystemInfo::get_cpu("未知"), "未知");
}

#[test]
fn memory_shows_total_and_used() {
    assert_eq!(
        SystemInfo::get_memory("Mem:            31Gi       8.2Gi        12Gi       1.1Gi        11Gi        22Gi"),
        "31Gi (已用 8.2Gi)"
    );
    assert_eq!(SystemInfo::get_memory("Mem: 31Gi"), "Mem: 31Gi");
    assert_eq!(SystemInfo::get_memory("未知"), "未知");
}

#[test]
fn gpus_are_joined() {
    let raw = "00:02.0 VGA compatible controller: Intel Corporation UHD Graphics 630\n01:00.0 VGA compatible controller: NVIDIA Corporation GA104 [GeForce RTX 3070] (rev a1)";
    assert_eq!(
        SystemInfo::get_gpu(raw),
        "Intel Corporation UHD Graphics 630; NVIDIA Corporation GA104 [GeForce RTX 3070] (rev a1)"
    );
    assert_eq!(SystemInfo::get_gpu("未知"), "");
    assert_eq!(SystemInfo::get_gpu("a: b: c"), "b");
}

#[test]
fn detection_reads_the_probe() {
    let probe = SystemProbe {
        kernel: Some("6.12.1-arch1-1\n".to_string()),
        os_release: Some("PRETTY_NAME=\"Arch Linux\"\n".to_string()),
        vga: Some("00:02.0 VGA compatible controller: Intel Corporation Iris Xe\n".to_string()),
        desktop: Some("KDE".to_string()),
        session_type: Some("wayland".to_string()),
        cpu_model: Some("Model name: Intel Core i7\n".to_string()),
        memory: Some("Mem: 15Gi 4.0Gi 8Gi\n".to_string()),
    };
    let info = SystemInfo::detect(&probe);
    assert_eq!(info.kernel, "6.12.1-arch1-1");
    assert_eq!(info.distro, "Arch Linux");
    assert_eq!(info.gpu, "Intel Corporation Iris Xe");
    assert_eq!(info.desktop, "KDE");
    assert_eq!(info.display_protocol, "wayland");
    assert_eq!(info.cpu, "Intel Core i7");
    assert_eq!(info.memory, "15Gi (已用 4.0Gi)");
}

#[test]
fn failed_probes_are_unknown() {
    let probe = SystemProbe {
        kernel: None,
        os_release: None,
        vga: Some("  \n".to_string()),
        desktop: None,
        session_type: None,
        cpu_model: None,
        memory: None,
    };
    let info = SystemInfo::detect(&probe);
    assert_eq!(UNKNOWN, "未知");
    assert_eq!(info.kernel, "未知");
    assert_eq!(info.distro, "未知");
    assert_eq!(info.gpu, "");
    assert_eq!(info.desktop, "未知");
    assert_eq!(info.display_protocol, "未知");
    assert_eq!(info.cpu, "未知");
    assert_eq!(info.memory, "未知");
}

#[test]
fn prompt_section_lists_the_machine() {
    let info = SystemInfo {
        kernel: "6.12".to_string(),
        distro: "Arch Linux".to_string(),
        gpu: "Intel".to_string(),
        desktop: "KDE".to_string(),
        display_protocol: "wayland".to_string(),
        cpu: "i7".to_string(),
        memory: "15Gi (已用 4.0Gi)".to_string(),
    };
    assert_eq!(
        info.to_prompt_section(),
        "## 系统环境信息\n- 发行版: Arch Linux\n- 内核: 6.12\n- CPU: i7\n- 内存: 15Gi (已用 4.0Gi)\n- 显卡: Intel\n- 桌面环境: KDE\n- 显示协议: wayland"
    );
}
