//! The normalized outcome of one provider call.

use vstd::prelude::*;
use crate::json::json_text;

verus! {

/// The outcome of one provider call, the same shape for every backend.
pub struct AnalysisResult {
    pub provider: String,
    pub response: String,
    pub structured_data: Option<serde_json::Value>,
    pub processing_time_ms: u64,
    /// The confidence score as the bit pattern of an IEEE-754 double.
    pub confidence: Option<u64>,
    pub error: Option<String>,
}

/// The mathematical content of an `AnalysisResult`.
pub ghost struct AnalysisView {
    pub provider: Seq<char>,
    pub response: Seq<char>,
    pub structured_data: Option<Seq<char>>,
    pub processing_time_ms: u64,
    pub confidence: Option<u64>,
    pub error: Option<Seq<char>>,
}

impl View for AnalysisResult {
    type V = AnalysisView;

    open spec fn view(&self) -> AnalysisView {
        AnalysisView {
            provider: self.provider@,
            response: self.response@,
            structured_data: match self.structured_data {
                Some(value) => Some(json_text(value)),
                None => None,
            },
            processing_time_ms: self.processing_time_ms,
            confidence: self.confidence,
            error: match self.error {
                Some(text) => Some(text@),
                None => None,
            },
        }
    }
}

/// The bit pattern of the double 1.0. The doubles from 0.0 to 1.0 are those
/// whose bit patterns, read as integers, are no larger.
pub const CONFIDENCE_ONE: u64 = 0x3FF0_0000_0000_0000;

/// The confidence where it lies between 0.0 and 1.0, and none otherwise.
pub open spec fn bounded_confidence(confidence: Option<u64>) -> Option<u64> {
    match confidence {
        Some(bits) => if bits <= CONFIDENCE_ONE {
            Some(bits)
        } else {
            None
        },
        None => None,
    }
}

impl AnalysisView {
    /// A result that carries an error carries nothing else, and a confidence
    /// lies between 0.0 and 1.0.
    pub open spec fn wf(self) -> bool {
        &&& self.error is Some ==> self.response.len() == 0 && self.structured_data is None
            && self.confidence is None
        &&& self.confidence is Some ==> self.confidence.unwrap() <= CONFIDENCE_ONE
    }
}

/// The content of a result that reports a soft failure.
pub open spec fn failure_view(provider: Seq<char>, elapsed_ms: u64, error: Seq<char>)
    -> AnalysisView {
    AnalysisView {
        provider,
        response: Seq::empty(),
        structured_data: None,
        processing_time_ms: elapsed_ms,
        confidence: None,
        error: Some(error),
    }
}

/// The content of a result that reports an answer.
pub open spec fn success_view(
    provider: Seq<char>,
    response: Seq<char>,
    structured_data: Option<Seq<char>>,
    elapsed_ms: u64,
    confidence: Option<u64>,
) -> AnalysisView {
    AnalysisView {
        provider,
        response,
        structured_data,
        processing_time_ms: elapsed_ms,
        confidence,
        error: None,
    }
}

impl AnalysisResult {
    /// A result that reports a soft failure: the error and nothing else.
    pub fn failure(provider: &str, elapsed_ms: u64, error: String) -> (result: AnalysisResult)
        ensures
            result@ == failure_view(provider@, elapsed_ms, error@),
            result@.wf(),
    {
        AnalysisResult {
            provider: provider.to_owned(),
            response: String::new(),
            structured_data: None,
            processing_time_ms: elapsed_ms,
            confidence: None,
            error: Some(error),
        }
    }

    /// A result that reports an answer and no error. A confidence outside
    /// 0.0 to 1.0 is left out.
    pub fn success(
        provider: &str,
        response: String,
        structured_data: Option<serde_json::Value>,
        elapsed_ms: u64,
        confidence: Option<u64>,
    ) -> (result: AnalysisResult)
        ensures
            result@ == success_view(
                provider@,
                response@,
                match structured_data {
                    Some(value) => Some(json_text(value)),
                    None => None,
                },
                elapsed_ms,
                bounded_confidence(confidence),
            ),
            result@.wf(),
    {
        let confidence = match confidence {
            Some(bits) => if bits <= CONFIDENCE_ONE {
                Some(bits)
            } else {
                None
            },
            None => None,
        };
        AnalysisResult {
            provider: provider.to_owned(),
            response,
            structured_data,
            processing_time_ms: elapsed_ms,
            confidence,
            error: None,
        }
    }

    /// Did the call fail?
    pub fn is_failure(&self) -> (failed: bool)
        ensures
            failed == (self@.error is Some),
    {
        self.error.is_some()
    }

    /// The structured payload as compact JSON text.
    pub fn structured_text(&self) -> (text: Option<String>)
        ensures
            match text {
                Some(t) => self@.structured_data == Some(t@),
                None => self@.structured_data is None,
            },
    {
        match &self.structured_data {
            Some(value) => Some(crate::json::render(value)),
            None => None,
        }
    }
}

} // verus!
