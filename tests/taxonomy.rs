use image_classifier::taxonomy::{
    brief_error_description, detailed_error_info, error_type_label, os_type_label,
    ERROR_TYPE_COUNT, GENERAL_DESCRIPTION, OS_TYPE_COUNT,
};

#[test]
fn error_labels_follow_head_order() {
    assert_eq!(error_type_label(0), "blue_screen_of_death");
    assert_eq!(error_type_label(1), "kernel_panic");
    assert_eq!(error_type_label(3), "memory_error");
    assert_eq!(error_type_label(9), "driver_error");
    assert_eq!(ERROR_TYPE_COUNT, 10);
}

#[test]
fn os_labels_follow_head_order() {
    assert_eq!(os_type_label(0), "windows");
    assert_eq!(os_type_label(1), "linux");
    assert_eq!(os_type_label(2), "macos");
    assert_eq!(os_type_label(3), "unknown");
    assert_eq!(OS_TYPE_COUNT, 4);
}

#[test]
fn out_of_range_indices_are_unknown() {
    assert_eq!(error_type_label(10), "unknown");
    assert_eq!(error_type_label(-1), "unknown");
    assert_eq!(error_type_label(i64::MAX), "unknown");
    assert_eq!(os_type_label(4), "unknown");
    assert_eq!(os_type_label(i64::MIN), "unknown");
}

#[test]
fn index_999_resolves_to_general_knowledge() {
    let label = error_type_label(999);
    assert_eq!(label, "unknown");
    let info = detailed_error_info(&label);
    assert_eq!(info.description, GENERAL_DESCRIPTION);
    assert!(!info.description.is_empty());
    assert_eq!(info.causes, vec!["Различные факторы могут вызывать эту ошибку".to_string()]);
    assert_eq!(info.solutions.len(), 3);
    assert_eq!(info.solutions[0], "Перезагрузите систему");
}

#[test]
fn unrecognized_label_gets_general_entry() {
    let info = detailed_error_info("disk_error");
    assert_eq!(info.description, GENERAL_DESCRIPTION);
    let info = detailed_error_info("");
    assert_eq!(info.description, GENERAL_DESCRIPTION);
}

#[test]
fn blue_screen_entry() {
    let info = detailed_error_info("blue_screen_of_death");
    assert!(info.description.starts_with("Синий экран смерти (BSOD)"));
    assert_eq!(info.causes.len(), 4);
    assert_eq!(info.solutions.len(), 5);
    assert_eq!(info.solutions[4], "Проверьте температуру компонентов");
}

#[test]
fn kernel_panic_and_memory_entries() {
    let info = detailed_error_info("kernel_panic");
    assert_eq!(info.causes[3], "Переполнение стека ядра");
    assert_eq!(info.solutions.len(), 4);
    let info = detailed_error_info("memory_error");
    assert_eq!(info.causes.len(), 3);
    assert_eq!(info.solutions[2], "Увеличьте размер файла подкачки");
}

#[test]
fn brief_descriptions() {
    assert_eq!(brief_error_description("blue_screen_of_death"), "Критическая системная ошибка Windows (BSOD)");
    assert_eq!(brief_error_description("network_error"), "Проблемы с сетевым подключением");
    assert_eq!(brief_error_description("driver_error"), "Ошибка драйвера устройства");
    assert_eq!(brief_error_description("unknown"), "Неизвестная ошибка");
    assert_eq!(brief_error_description("Kernel_Panic"), "Неизвестная ошибка");
}
