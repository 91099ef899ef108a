//! The fixed label sets of the two classifier heads and the remediation
//! knowledge attached to each error label.
//!
//! Classifier output is never trusted to stay in range: every lookup is total
//! and falls back to the `unknown` label or to a general entry.

use vstd::prelude::*;
use crate::text::{same_text, texts};

verus! {

/// Number of labels of the error-type head.
pub const ERROR_TYPE_COUNT: usize = 10;

/// Number of labels of the operating-system head.
pub const OS_TYPE_COUNT: usize = 4;

/// Labels of the error-type head, in the order of its output indices.
pub open spec fn error_type_labels() -> Seq<Seq<char>> {
    seq![
        "blue_screen_of_death"@,
        "kernel_panic"@,
        "application_crash"@,
        "memory_error"@,
        "disk_error"@,
        "network_error"@,
        "permission_denied"@,
        "file_not_found"@,
        "system_overload"@,
        "driver_error"@,
    ]
}

/// Labels of the operating-system head, in the order of its output indices.
pub open spec fn os_type_labels() -> Seq<Seq<char>> {
    seq!["windows"@, "linux"@, "macos"@, "unknown"@]
}

/// The label that stands for any index outside a label set.
pub open spec fn unknown_label() -> Seq<char> {
    "unknown"@
}

/// Bounds-checked lookup of `index` in `labels`.
pub open spec fn label_at(labels: Seq<Seq<char>>, index: int) -> Seq<char> {
    if 0 <= index < labels.len() {
        labels[index]
    } else {
        unknown_label()
    }
}

/// The error-type label of a head output index; `unknown` when out of range.
pub fn error_type_label(index: i64) -> (r: String)
    ensures
        r@ == label_at(error_type_labels(), index as int),
{
    let s: &str = match index {
        0 => "blue_screen_of_death",
        1 => "kernel_panic",
        2 => "application_crash",
        3 => "memory_error",
        4 => "disk_error",
        5 => "network_error",
        6 => "permission_denied",
        7 => "file_not_found",
        8 => "system_overload",
        9 => "driver_error",
        _ => "unknown",
    };
    s.to_string()
}

/// The operating-system label of a head output index; `unknown` when out of range.
pub fn os_type_label(index: i64) -> (r: String)
    ensures
        r@ == label_at(os_type_labels(), index as int),
{
    let s: &str = match index {
        0 => "windows",
        1 => "linux",
        2 => "macos",
        _ => "unknown",
    };
    s.to_string()
}

/// Description of the blue screen of death.
pub const BSOD_DESCRIPTION: &'static str = "Синий экран смерти (BSOD) - критическая системная ошибка Windows, при которой операционная система не может продолжить работу и принудительно перезагружается.";

/// Description of the kernel panic.
pub const KERNEL_PANIC_DESCRIPTION: &'static str = "Паника ядра - критическая ошибка в ядре операционной системы Linux/macOS, после которой система не может продолжить безопасную работу.";

/// Description of the memory error.
pub const MEMORY_ERROR_DESCRIPTION: &'static str = "Ошибка памяти указывает на проблемы с доступом к оперативной памяти или её нехватку.";

/// Description of the general entry.
pub const GENERAL_DESCRIPTION: &'static str = "Общая системная ошибка, требующая дополнительной диагностики.";

/// Remediation knowledge about one error label.
pub struct ErrorInfo {
    pub description: String,
    pub causes: Vec<String>,
    pub solutions: Vec<String>,
}

/// The content of an [`ErrorInfo`] as character sequences.
pub struct ErrorInfoView {
    pub description: Seq<char>,
    pub causes: Seq<Seq<char>>,
    pub solutions: Seq<Seq<char>>,
}

impl View for ErrorInfo {
    type V = ErrorInfoView;

    open spec fn view(&self) -> ErrorInfoView {
        ErrorInfoView {
            description: self.description@,
            causes: texts(self.causes@),
            solutions: texts(self.solutions@),
        }
    }
}

/// The general entry, for every label without an entry of its own.
pub open spec fn general_error_info() -> ErrorInfoView {
    ErrorInfoView {
        description: GENERAL_DESCRIPTION@,
        causes: seq!["Различные факторы могут вызывать эту ошибку"@],
        solutions: seq![
            "Перезагрузите систему"@,
            "Проверьте журналы событий"@,
            "Обратитесь к документации системы"@,
        ],
    }
}

/// The knowledge base: an entry for the blue screen, the kernel panic and
/// the memory error, and the general entry for any other label.
pub open spec fn error_info(label: Seq<char>) -> ErrorInfoView {
    if label == "blue_screen_of_death"@ {
        ErrorInfoView {
            description: BSOD_DESCRIPTION@,
            causes: seq![
                "Неисправность оборудования (RAM, жесткий диск)"@,
                "Несовместимые или поврежденные драйверы"@,
                "Перегрев процессора или видеокарты"@,
                "Поврежденные системные файлы"@,
            ],
            solutions: seq![
                "Проверьте код ошибки на экране и найдите его в документации Microsoft"@,
                "Запустите проверку памяти Windows (mdsched.exe)"@,
                "Обновите или откатите драйверы устройств"@,
                "Запустите sfc /scannow для проверки системных файлов"@,
                "Проверьте температуру компонентов"@,
            ],
        }
    } else if label == "kernel_panic"@ {
        ErrorInfoView {
            description: KERNEL_PANIC_DESCRIPTION@,
            causes: seq![
                "Ошибки в модулях ядра"@,
                "Неисправность оборудования"@,
                "Несовместимые драйверы"@,
                "Переполнение стека ядра"@,
            ],
            solutions: seq![
                "Проанализируйте журналы системы (dmesg, /var/log/kern.log)"@,
                "Загрузитесь с предыдущего стабильного ядра"@,
                "Отключите недавно установленные модули"@,
                "Проверьте оборудование с помощью memtest86+"@,
            ],
        }
    } else if label == "memory_error"@ {
        ErrorInfoView {
            description: MEMORY_ERROR_DESCRIPTION@,
            causes: seq![
                "Физическая неисправность модулей RAM"@,
                "Нехватка оперативной памяти"@,
                "Ошибки в управлении памятью приложением"@,
            ],
            solutions: seq![
                "Запустите тест памяти (MemTest86, Windows Memory Diagnostic)"@,
                "Закройте ненужные приложения"@,
                "Увеличьте размер файла подкачки"@,
                "Переустановите или замените модули RAM"@,
            ],
        }
    } else {
        general_error_info()
    }
}

/// Describes an error label; labels without an entry get the general one.
pub fn detailed_error_info(error_type: &str) -> (r: ErrorInfo)
    ensures
        r@ == error_info(error_type@),
{
    let r = if same_text(error_type, "blue_screen_of_death") {
        ErrorInfo {
            description: BSOD_DESCRIPTION.to_string(),
            causes: vec![
                "Неисправность оборудования (RAM, жесткий диск)".to_string(),
                "Несовместимые или поврежденные драйверы".to_string(),
                "Перегрев процессора или видеокарты".to_string(),
                "Поврежденные системные файлы".to_string(),
            ],
            solutions: vec![
                "Проверьте код ошибки на экране и найдите его в документации Microsoft".to_string(),
                "Запустите проверку памяти Windows (mdsched.exe)".to_string(),
                "Обновите или откатите драйверы устройств".to_string(),
                "Запустите sfc /scannow для проверки системных файлов".to_string(),
                "Проверьте температуру компонентов".to_string(),
            ],
        }
    } else if same_text(error_type, "kernel_panic") {
        ErrorInfo {
            description: KERNEL_PANIC_DESCRIPTION.to_string(),
            causes: vec![
                "Ошибки в модулях ядра".to_string(),
                "Неисправность оборудования".to_string(),
                "Несовместимые драйверы".to_string(),
                "Переполнение стека ядра".to_string(),
            ],
            solutions: vec![
                "Проанализируйте журналы системы (dmesg, /var/log/kern.log)".to_string(),
                "Загрузитесь с предыдущего стабильного ядра".to_string(),
                "Отключите недавно установленные модули".to_string(),
                "Проверьте оборудование с помощью memtest86+".to_string(),
            ],
        }
    } else if same_text(error_type, "memory_error") {
        ErrorInfo {
            description: MEMORY_ERROR_DESCRIPTION.to_string(),
            causes: vec![
                "Физическая неисправность модулей RAM".to_string(),
                "Нехватка оперативной памяти".to_string(),
                "Ошибки в управлении памятью приложением".to_string(),
            ],
            solutions: vec![
                "Запустите тест памяти (MemTest86, Windows Memory Diagnostic)".to_string(),
                "Закройте ненужные приложения".to_string(),
                "Увеличьте размер файла подкачки".to_string(),
                "Переустановите или замените модули RAM".to_string(),
            ],
        }
    } else {
        ErrorInfo {
            description: GENERAL_DESCRIPTION.to_string(),
            causes: vec!["Различные факторы могут вызывать эту ошибку".to_string()],
            solutions: vec![
                "Перезагрузите систему".to_string(),
                "Проверьте журналы событий".to_string(),
                "Обратитесь к документации системы".to_string(),
            ],
        }
    };
    assert(r@.causes =~= error_info(error_type@).causes);
    assert(r@.solutions =~= error_info(error_type@).solutions);
    r
}

/// One-line description of an error label, as the diagnosis endpoint reports it.
pub open spec fn brief_description(label: Seq<char>) -> Seq<char> {
    if label == "blue_screen_of_death"@ {
        "Критическая системная ошибка Windows (BSOD)"@
    } else if label == "kernel_panic"@ {
        "Критическая ошибка ядра Linux/macOS"@
    } else if label == "application_crash"@ {
        "Неожиданное завершение работы приложения"@
    } else if label == "memory_error"@ {
        "Ошибка доступа к памяти или нехватка RAM"@
    } else if label == "disk_error"@ {
        "Ошибка чтения/записи диска"@
    } else if label == "network_error"@ {
        "Проблемы с сетевым подключением"@
    } else if label == "permission_denied"@ {
        "Недостаточно прав для выполнения операции"@
    } else if label == "file_not_found"@ {
        "Файл или ресурс не найден"@
    } else if label == "system_overload"@ {
        "Перегрузка системы"@
    } else if label == "driver_error"@ {
        "Ошибка драйвера устройства"@
    } else {
        "Неизвестная ошибка"@
    }
}

/// The one-line description of an error label; any other label is an unknown error.
pub fn brief_error_description(error_type: &str) -> (r: String)
    ensures
        r@ == brief_description(error_type@),
{
    let s: &str = if same_text(error_type, "blue_screen_of_death") {
        "Критическая системная ошибка Windows (BSOD)"
    } else if same_text(error_type, "kernel_panic") {
        "Критическая ошибка ядра Linux/macOS"
    } else if same_text(error_type, "application_crash") {
        "Неожиданное завершение работы приложения"
    } else if same_text(error_type, "memory_error") {
        "Ошибка доступа к памяти или нехватка RAM"
    } else if same_text(error_type, "disk_error") {
        "Ошибка чтения/записи диска"
    } else if same_text(error_type, "network_error") {
        "Проблемы с сетевым подключением"
    } else if same_text(error_type, "permission_denied") {
        "Недостаточно прав для выполнения операции"
    } else if same_text(error_type, "file_not_found") {
        "Файл или ресурс не найден"
    } else if same_text(error_type, "system_overload") {
        "Перегрузка системы"
    } else if same_text(error_type, "driver_error") {
        "Ошибка драйвера устройства"
    } else {
        "Неизвестная ошибка"
    };
    s.to_string()
}

/// Lookups are total: every index, in range or not, resolves to a non-empty
/// label in both label sets, and every label, known or not, has a non-empty
/// description, at least one cause, at least one solution and a non-empty
/// one-line description.
pub proof fn lookups_are_total(index: int, label: Seq<char>)
    ensures
        label_at(error_type_labels(), index).len() > 0,
        label_at(os_type_labels(), index).len() > 0,
        error_info(label).description.len() > 0,
        error_info(label).causes.len() > 0,
        error_info(label).solutions.len() > 0,
        brief_description(label).len() > 0,
{
    reveal_strlit("blue_screen_of_death");
    reveal_strlit("kernel_panic");
    reveal_strlit("application_crash");
    reveal_strlit("memory_error");
    reveal_strlit("disk_error");
    reveal_strlit("network_error");
    reveal_strlit("permission_denied");
    reveal_strlit("file_not_found");
    reveal_strlit("system_overload");
    reveal_strlit("driver_error");
    reveal_strlit("windows");
    reveal_strlit("linux");
    reveal_strlit("macos");
    reveal_strlit("unknown");
    reveal_strlit("Синий экран смерти (BSOD) - критическая системная ошибка Windows, при которой операционная система не может продолжить работу и принудительно перезагружается.");
    reveal_strlit("Паника ядра - критическая ошибка в ядре операционной системы Linux/macOS, после которой система не может продолжить безопасную работу.");
    reveal_strlit("Ошибка памяти указывает на проблемы с доступом к оперативной памяти или её нехватку.");
    reveal_strlit("Общая системная ошибка, требующая дополнительной диагностики.");
    reveal_strlit("Критическая системная ошибка Windows (BSOD)");
    reveal_strlit("Критическая ошибка ядра Linux/macOS");
    reveal_strlit("Неожиданное завершение работы приложения");
    reveal_strlit("Ошибка доступа к памяти или нехватка RAM");
    reveal_strlit("Ошибка чтения/записи диска");
    reveal_strlit("Проблемы с сетевым подключением");
    reveal_strlit("Недостаточно прав для выполнения операции");
    reveal_strlit("Файл или ресурс не найден");
    reveal_strlit("Перегрузка системы");
    reveal_strlit("Ошибка драйвера устройства");
    reveal_strlit("Неизвестная ошибка");
}

} // verus!
