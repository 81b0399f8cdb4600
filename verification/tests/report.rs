use lian::catalog::Operation;
use lian::report::{operation_tag, ReportSaver, Timestamp};

fn stamp() -> Timestamp {
    Timestamp { year: 2025, month: 3, day: 7, hour: 9, minute: 5, second: 1 }
}

#[test]
fn reports_are_filed_by_day() {
    let saver = ReportSaver::new("/home/ann/.lian/pacman".to_string());
    assert_eq!(saver.base_dir, "/home/ann/.lian/pacman");
    assert_eq!(saver.directory(stamp()), "/home/ann/.lian/pacman/2025/03/07");
    let late = Timestamp { year: 2024, month: 12, day: 31, hour: 23, minute: 59, second: 59 };
    assert_eq!(saver.directory(late), "/home/ann/.lian/pacman/2024/12/31");
}

#[test]
fn file_is_named_by_the_minute() {
    assert_eq!(ReportSaver::file_name(stamp()), "09-05.md");
    let late = Timestamp { year: 2024, month: 12, day: 31, hour: 23, minute: 59, second: 59 };
    assert_eq!(ReportSaver::file_name(late), "23-59.md");
    let midnight = Timestamp { year: 2024, month: 1, day: 1, hour: 0, minute: 0, second: 0 };
    assert_eq!(ReportSaver::file_name(midnight), "00-00.md");
}

#[test]
fn document_has_a_head_before_the_analysis() {
    let text = ReportSaver::document("## 内容\nbody", "Arch Linux", "Syu", stamp());
    assert_eq!(
        text,
        "# Arch Linux 更新报告\n\n**操作**: -Syu\n\n**生成时间**: 2025-03-07 09:05:01\n\n---\n\n## 内容\nbody"
    );
}

#[test]
fn operations_are_named_by_their_flags() {
    assert_eq!(operation_tag(Operation::Update), Some("Syu"));
    assert_eq!(operation_tag(Operation::Install), Some("S"));
    assert_eq!(operation_tag(Operation::Remove), Some("Rns"));
    assert_eq!(operation_tag(Operation::Custom), None);
}
