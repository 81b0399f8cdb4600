use lian::prompt::{
    generate_analysis_prompt, generate_install_prompt, generate_remove_prompt, REPORT_CLOSING,
    REPORT_RULES,
};
use lian::sysinfo::SystemInfo;

fn machine() -> SystemInfo {
    SystemInfo {
        kernel: "6.12".to_string(),
        distro: "Arch Linux".to_string(),
        gpu: "Intel".to_string(),
        desktop: "KDE".to_string(),
        display_protocol: "wayland".to_string(),
        cpu: "i7".to_string(),
        memory: "15Gi (已用 4.0Gi)".to_string(),
    }
}

#[test]
fn analysis_request_without_machine_or_lists() {
    let p = generate_analysis_prompt("paru", "upgraded linux", None, None, None);
    let expected = format!(
        "# Linux 系统更新分析任务\n\n你是一个专业的 Linux 系统管理员和软件包分析专家。\n请仔细分析以下系统更新日志，生成一份结构化的更新报告。\n\n## 系统环境信息\n- 发行版: 未检测到\n- 其他信息: 未检测到\n- 包管理器: paru\n{}upgraded linux\n```\n\n{}",
        REPORT_RULES, REPORT_CLOSING
    );
    assert_eq!(p, expected);
}

#[test]
fn analysis_request_with_machine_and_lists() {
    let info = machine();
    let p = generate_analysis_prompt("yay", "LOG", Some("a 1"), Some("a 2"), Some(&info));
    assert!(p.starts_with("# Arch Linux 系统更新分析任务\n\n"));
    assert!(p.contains(&info.to_prompt_section()));
    assert!(p.contains("\n- 包管理器: yay\n"));
    assert!(p.contains("LOG\n```\n\n## 更新前已安装包列表 (pacman -Qe)\n```\na 1\n```\n\n## 更新后已安装包列表 (pacman -Qe)\n```\na 2\n```\n\n"));
    assert!(p.ends_with(REPORT_CLOSING));
}

#[test]
fn package_lists_need_both_sides() {
    let p = generate_analysis_prompt("yay", "LOG", Some("a 1"), None, None);
    assert!(!p.contains("更新前已安装包列表"));
    let p = generate_analysis_prompt("yay", "LOG", None, Some("a 2"), None);
    assert!(!p.contains("更新后已安装包列表"));
}

#[test]
fn install_request() {
    let p = generate_install_prompt(
        "Arch Linux",
        "paru",
        &vec!["firefox".to_string(), "vim".to_string()],
        "installed",
    );
    assert_eq!(
        p,
        "以下是在 Arch Linux 系统上使用 paru 安装软件包的日志。\n安装的包: firefox, vim\n\n安装日志:\ninstalled\n\n请简要分析安装结果，说明是否成功，安装了哪些包及其依赖，是否有需要注意的问题。"
    );
}

#[test]
fn remove_request() {
    let p = generate_remove_prompt("Arch Linux", "pacman", &vec!["nano".to_string()], "removed");
    assert_eq!(
        p,
        "以下是在 Arch Linux 系统上使用 pacman -Rns 卸载软件包的日志。\n卸载的包: nano\n\n卸载日志:\nremoved\n\n请简要分析卸载结果，说明是否成功，移除了哪些包及其依赖和配置，是否有需要注意的问题。"
    );
}
