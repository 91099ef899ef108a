//! Replies of the chat channel.
//!
//! A message with image data is answered in two steps, since the classifier
//! runs outside this crate: [`begin_chat_message`] either replies at once or
//! asks for the screenshot tensor to be classified, and
//! [`finish_chat_message`] turns the two head indices into the reply. A
//! message without image data is answered by a fixed intent matcher.

use vstd::prelude::*;
use crate::diagnosis::{diagnose, diagnosis_of, screenshot_error, screenshot_tensor, Analysis, AnalysisView};
use crate::preprocess::SCREENSHOT_SIDE;
use crate::text::{contains_text, has_text, lowercase, lowercase_of, texts};

verus! {

/// An inbound chat message: free text, and optionally a base64 screenshot.
pub struct ChatMessage {
    pub message: String,
    pub image_data: Option<String>,
}

/// A reply: its text, the diagnosis if an image was analysed, and suggestions.
pub struct ChatResponse {
    pub response: String,
    pub analysis: Option<Analysis>,
    pub suggestions: Vec<String>,
}

/// The content of a [`ChatResponse`] as character sequences.
pub struct ChatResponseView {
    pub response: Seq<char>,
    pub analysis: Option<AnalysisView>,
    pub suggestions: Seq<Seq<char>>,
}

impl View for ChatResponse {
    type V = ChatResponseView;

    open spec fn view(&self) -> ChatResponseView {
        ChatResponseView {
            response: self.response@,
            analysis: match self.analysis {
                Some(a) => Some(a@),
                None => None,
            },
            suggestions: texts(self.suggestions@),
        }
    }
}

/// Reply to a request for help.
pub const HELP_REPLY: &'static str = "Я помогу вам диагностировать ошибки операционной системы! Загрузите скриншот ошибки, и я проанализирую её тип, определю ОС и предложу решения.";

/// Reply to a question about the blue screen of death.
pub const BSOD_REPLY: &'static str = "BSOD (Blue Screen of Death) - критическая ошибка Windows. Обычно вызвана проблемами с драйверами, оборудованием или системными файлами.";

/// Reply to a question about the kernel panic.
pub const KERNEL_PANIC_REPLY: &'static str = "Kernel Panic - критическая ошибка ядра в Linux/macOS. Система не может продолжить работу и перезагружается.";

/// Reply to any other text: a request for details.
pub const CLARIFY_REPLY: &'static str = "Опишите вашу проблему подробнее или загрузите скриншот ошибки для анализа.";

/// Apology when screenshot data cannot be analysed.
pub const IMAGE_FAILED_REPLY: &'static str = "Не удалось проанализировать изображение. Убедитесь, что это скриншот с ошибкой.";

/// The text announcing a diagnosis, in three parts around the two labels.
pub const ANALYSIS_REPLY_START: &'static str = "Я проанализировал ваш скриншот. Обнаружена ошибка типа '";
pub const ANALYSIS_REPLY_MIDDLE: &'static str = "' в системе ";
pub const ANALYSIS_REPLY_END: &'static str = ".";

/// What a free-text message asks about, first match wins.
pub enum Intent {
    Help,
    BlueScreen,
    KernelPanic,
    Other,
}

/// The intent of a lowercased message: help first, then the blue screen,
/// then the kernel panic.
pub open spec fn intent_of(lower: Seq<char>) -> Intent {
    if contains_text(lower, "помощь"@) || contains_text(lower, "help"@) {
        Intent::Help
    } else if contains_text(lower, "bsod"@) || contains_text(lower, "синий экран"@) {
        Intent::BlueScreen
    } else if contains_text(lower, "kernel panic"@) || contains_text(lower, "паника ядра"@) {
        Intent::KernelPanic
    } else {
        Intent::Other
    }
}

/// The fixed reply to an intent.
pub open spec fn intent_reply(intent: Intent) -> ChatResponseView {
    match intent {
        Intent::Help => ChatResponseView {
            response: HELP_REPLY@,
            analysis: None,
            suggestions: seq![
                "Загрузите скриншот с ошибкой для анализа"@,
                "Спросите о конкретном типе ошибки"@,
                "Опишите симптомы проблемы"@,
            ],
        },
        Intent::BlueScreen => ChatResponseView {
            response: BSOD_REPLY@,
            analysis: None,
            suggestions: seq![
                "Запишите код ошибки с синего экрана"@,
                "Проверьте последние установленные драйверы"@,
                "Запустите тест памяти"@,
            ],
        },
        Intent::KernelPanic => ChatResponseView {
            response: KERNEL_PANIC_REPLY@,
            analysis: None,
            suggestions: seq![
                "Проверьте журналы системы (/var/log/kern.log)"@,
                "Загрузитесь с предыдущего ядра"@,
                "Отключите проблемные модули ядра"@,
            ],
        },
        Intent::Other => ChatResponseView {
            response: CLARIFY_REPLY@,
            analysis: None,
            suggestions: seq![
                "Загрузите скриншот ошибки"@,
                "Укажите тип операционной системы"@,
                "Опишите когда возникла ошибка"@,
            ],
        },
    }
}

/// Answers an already lowercased free-text message.
pub fn reply_to_lowercase(lower: &str) -> (r: ChatResponse)
    ensures
        r@ == intent_reply(intent_of(lower@)),
{
    let r = if has_text(lower, "помощь") || has_text(lower, "help") {
        ChatResponse {
            response: HELP_REPLY.to_string(),
            analysis: None,
            suggestions: vec![
                "Загрузите скриншот с ошибкой для анализа".to_string(),
                "Спросите о конкретном типе ошибки".to_string(),
                "Опишите симптомы проблемы".to_string(),
            ],
        }
    } else if has_text(lower, "bsod") || has_text(lower, "синий экран") {
        ChatResponse {
            response: BSOD_REPLY.to_string(),
            analysis: None,
            suggestions: vec![
                "Запишите код ошибки с синего экрана".to_string(),
                "Проверьте последние установленные драйверы".to_string(),
                "Запустите тест памяти".to_string(),
            ],
        }
    } else if has_text(lower, "kernel panic") || has_text(lower, "паника ядра") {
        ChatResponse {
            response: KERNEL_PANIC_REPLY.to_string(),
            analysis: None,
            suggestions: vec![
                "Проверьте журналы системы (/var/log/kern.log)".to_string(),
                "Загрузитесь с предыдущего ядра".to_string(),
                "Отключите проблемные модули ядра".to_string(),
            ],
        }
    } else {
        ChatResponse {
            response: CLARIFY_REPLY.to_string(),
            analysis: None,
            suggestions: vec![
                "Загрузите скриншот ошибки".to_string(),
                "Укажите тип операционной системы".to_string(),
                "Опишите когда возникла ошибка".to_string(),
            ],
        }
    };
    assert(r@.suggestions =~= intent_reply(intent_of(lower@)).suggestions);
    r
}

/// Answers a free-text message: it is lowercased, then matched.
pub fn process_text_query(message: &str) -> (r: ChatResponse)
    ensures
        r@ == intent_reply(intent_of(lowercase_of(message@))),
{
    let lower = lowercase(message);
    reply_to_lowercase(lower.as_str())
}

/// The two reminders that precede the solutions of every diagnosis.
pub open spec fn general_reminders() -> Seq<Seq<char>> {
    seq![
        "Сохраните скриншот ошибки для дальнейшего анализа"@,
        "Запишите код ошибки, если он есть"@,
    ]
}

/// The suggestions for a diagnosis: the two general reminders, then its
/// solutions in order.
pub fn generate_suggestions(solutions: &Vec<String>) -> (r: Vec<String>)
    ensures
        texts(r@) == general_reminders() + texts(solutions@),
{
    let mut r: Vec<String> = vec![
        "Сохраните скриншот ошибки для дальнейшего анализа".to_string(),
        "Запишите код ошибки, если он есть".to_string(),
    ];
    let mut i: usize = 0;
    while i < solutions.len()
        invariant
            i <= solutions@.len(),
            texts(r@) == general_reminders() + texts(solutions@.subrange(0, i as int)),
        decreases solutions@.len() - i,
    {
        let ghost before = r@;
        r.push(solutions[i].clone());
        assert(r@ =~= before.push(solutions@[i as int]));
        assert(texts(r@) =~= texts(before).push(solutions@[i as int]@));
        assert(texts(solutions@.subrange(0, i + 1)) =~= texts(solutions@.subrange(0, i as int)).push(
            solutions@[i as int]@,
        ));
        assert(texts(r@) =~= general_reminders() + texts(solutions@.subrange(0, i + 1)));
        i = i + 1;
    }
    assert(solutions@.subrange(0, solutions@.len() as int) =~= solutions@);
    r
}

/// The text that announces a diagnosis.
pub open spec fn analysis_text(error_type: Seq<char>, os_type: Seq<char>) -> Seq<char> {
    ANALYSIS_REPLY_START@ + error_type + ANALYSIS_REPLY_MIDDLE@ + os_type + ANALYSIS_REPLY_END@
}

/// The reply that carries a diagnosis.
pub open spec fn analysis_reply_of(a: AnalysisView) -> ChatResponseView {
    ChatResponseView {
        response: analysis_text(a.error_type, a.os_type),
        analysis: Some(a),
        suggestions: general_reminders() + a.solutions,
    }
}

/// Wraps a diagnosis into a reply.
pub fn analysis_reply(analysis: Analysis) -> (r: ChatResponse)
    ensures
        r@ == analysis_reply_of(analysis@),
{
    let suggestions = generate_suggestions(&analysis.solutions);
    let mut response = ANALYSIS_REPLY_START.to_string();
    response.append(analysis.error_type.as_str());
    response.append(ANALYSIS_REPLY_MIDDLE);
    response.append(analysis.os_type.as_str());
    response.append(ANALYSIS_REPLY_END);
    ChatResponse { response, analysis: Some(analysis), suggestions }
}

/// The reply when screenshot data cannot be analysed.
pub open spec fn fallback_reply_of() -> ChatResponseView {
    ChatResponseView {
        response: IMAGE_FAILED_REPLY@,
        analysis: None,
        suggestions: seq![
            "Загрузите четкий скриншот ошибки"@,
            "Убедитесь, что изображение содержит текст ошибки"@,
        ],
    }
}

/// The apology sent when screenshot data cannot be analysed.
pub fn fallback_reply() -> (r: ChatResponse)
    ensures
        r@ == fallback_reply_of(),
{
    let r = ChatResponse {
        response: IMAGE_FAILED_REPLY.to_string(),
        analysis: None,
        suggestions: vec![
            "Загрузите четкий скриншот ошибки".to_string(),
            "Убедитесь, что изображение содержит текст ошибки".to_string(),
        ],
    };
    assert(r@.suggestions =~= fallback_reply_of().suggestions);
    r
}

/// What handling a message needs next.
pub enum ChatStep {
    /// The reply is ready.
    Reply(ChatResponse),
    /// This screenshot tensor is to be classified; the indices that the two
    /// heads pick go to [`finish_chat_message`].
    Classify(Vec<u8>),
}

/// The first step for a message: free text is answered at once; screenshot
/// data is preprocessed for the classifier, or answered with the apology
/// when it cannot be.
pub fn begin_chat_message(msg: &ChatMessage) -> (r: ChatStep)
    ensures
        match msg.image_data {
            None => r matches ChatStep::Reply(resp)
                && resp@ == intent_reply(intent_of(lowercase_of(msg.message@))),
            Some(data) => match screenshot_error(data@) {
                None => r matches ChatStep::Classify(v) && v@.len() == 3 * SCREENSHOT_SIDE
                    * SCREENSHOT_SIDE,
                Some(_) => r matches ChatStep::Reply(resp) && resp@ == fallback_reply_of(),
            },
        },
{
    match &msg.image_data {
        Some(data) => match screenshot_tensor(data.as_str()) {
            Ok(t) => ChatStep::Classify(t),
            Err(_) => ChatStep::Reply(fallback_reply()),
        },
        None => ChatStep::Reply(process_text_query(msg.message.as_str())),
    }
}

/// The reply to a screenshot once the error head picked `error_index` and
/// the operating-system head picked `os_index`.
pub fn finish_chat_message(error_index: i64, os_index: i64) -> (r: ChatResponse)
    ensures
        r@ == analysis_reply_of(diagnosis_of(error_index as int, os_index as int)),
{
    analysis_reply(diagnose(error_index, os_index))
}

} // verus!
