use image_classifier::diagnosis::{diagnose, summarize};

#[test]
fn diagnosis_of_blue_screen_on_windows() {
    let a = diagnose(0, 0);
    assert_eq!(a.error_type, "blue_screen_of_death");
    assert_eq!(a.os_type, "windows");
    assert_eq!(a.possible_causes.len(), 4);
    assert_eq!(a.solutions.len(), 5);
}

#[test]
fn diagnosis_of_unlisted_error() {
    let a = diagnose(5, 2);
    assert_eq!(a.error_type, "network_error");
    assert_eq!(a.os_type, "macos");
    assert_eq!(a.detailed_description, "Общая системная ошибка, требующая дополнительной диагностики.");
}

#[test]
fn summary_reports_brief_description() {
    let s = summarize(7, 1);
    assert_eq!(s.error_type, "file_not_found");
    assert_eq!(s.os_type, "linux");
    assert_eq!(s.description, "Файл или ресурс не найден");
    let s = summarize(999, -3);
    assert_eq!(s.error_type, "unknown");
    assert_eq!(s.os_type, "unknown");
    assert_eq!(s.description, "Неизвестная ошибка");
}
