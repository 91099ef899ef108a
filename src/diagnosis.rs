//! The diagnosis engine: from screenshot data to classifier input, and from
//! the two head indices that the classifier picks to a full diagnosis.
//!
//! The classifier itself (its forward passes, softmax and confidence) runs
//! outside this crate; its confidence travels beside a diagnosis.

use vstd::prelude::*;
use crate::preprocess::{
    base64_decoded, decode_base64, decodes, preprocess, InputError, SCREENSHOT_SIDE,
};
use crate::taxonomy::{
    brief_description, brief_error_description, detailed_error_info, error_info,
    error_type_label, error_type_labels, label_at, os_type_label, os_type_labels,
};
use crate::text::texts;

verus! {

/// The structured result of classifying a screenshot.
pub struct Analysis {
    pub error_type: String,
    pub os_type: String,
    pub detailed_description: String,
    pub possible_causes: Vec<String>,
    pub solutions: Vec<String>,
}

/// The content of an [`Analysis`] as character sequences.
pub struct AnalysisView {
    pub error_type: Seq<char>,
    pub os_type: Seq<char>,
    pub detailed_description: Seq<char>,
    pub possible_causes: Seq<Seq<char>>,
    pub solutions: Seq<Seq<char>>,
}

impl View for Analysis {
    type V = AnalysisView;

    open spec fn view(&self) -> AnalysisView {
        AnalysisView {
            error_type: self.error_type@,
            os_type: self.os_type@,
            detailed_description: self.detailed_description@,
            possible_causes: texts(self.possible_causes@),
            solutions: texts(self.solutions@),
        }
    }
}

/// The diagnosis for the error-head index `error_index` and the
/// operating-system-head index `os_index`.
pub open spec fn diagnosis_of(error_index: int, os_index: int) -> AnalysisView {
    let error_type = label_at(error_type_labels(), error_index);
    let info = error_info(error_type);
    AnalysisView {
        error_type,
        os_type: label_at(os_type_labels(), os_index),
        detailed_description: info.description,
        possible_causes: info.causes,
        solutions: info.solutions,
    }
}

/// Resolves the two head indices through the taxonomy and attaches the
/// knowledge about the error; out-of-range indices resolve to `unknown`.
pub fn diagnose(error_index: i64, os_index: i64) -> (r: Analysis)
    ensures
        r@ == diagnosis_of(error_index as int, os_index as int),
{
    let error_type = error_type_label(error_index);
    let os_type = os_type_label(os_index);
    let info = detailed_error_info(error_type.as_str());
    Analysis {
        error_type,
        os_type,
        detailed_description: info.description,
        possible_causes: info.causes,
        solutions: info.solutions,
    }
}

/// The short report of the diagnosis endpoint: both labels and a one-line
/// description of the error.
pub struct ErrorSummary {
    pub error_type: String,
    pub os_type: String,
    pub description: String,
}

/// The short report for the two head indices.
pub fn summarize(error_index: i64, os_index: i64) -> (r: ErrorSummary)
    ensures
        r.error_type@ == label_at(error_type_labels(), error_index as int),
        r.os_type@ == label_at(os_type_labels(), os_index as int),
        r.description@ == brief_description(r.error_type@),
{
    let error_type = error_type_label(error_index);
    let os_type = os_type_label(os_index);
    let description = brief_error_description(error_type.as_str());
    ErrorSummary { error_type, os_type, description }
}

/// Why base64 screenshot data yields no tensor: the text is no base64, or
/// its bytes are no image; `None` when it yields one.
pub open spec fn screenshot_error(image_data: Seq<char>) -> Option<InputError> {
    match base64_decoded(image_data) {
        None => Some(InputError::Base64),
        Some(bytes) => if decodes(bytes) {
            None
        } else {
            Some(InputError::Image)
        },
    }
}

/// Decodes base64 screenshot data and preprocesses it at the screenshot
/// resolution.
pub fn screenshot_tensor(image_data: &str) -> (r: Result<Vec<u8>, InputError>)
    ensures
        match screenshot_error(image_data@) {
            None => r matches Ok(v) && v@.len() == 3 * SCREENSHOT_SIDE * SCREENSHOT_SIDE,
            Some(e) => r == Err::<Vec<u8>, InputError>(e),
        },
{
    let bytes = match decode_base64(image_data) {
        Ok(b) => b,
        Err(_) => {
            return Err(InputError::Base64);
        },
    };
    preprocess(bytes.as_slice(), SCREENSHOT_SIDE)
}

} // verus!
