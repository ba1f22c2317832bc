//! The client of the cloud provider: what it asks, and what it makes of the
//! answers.

use vstd::prelude::*;
use vstd::slice::slice_subrange;
use vstd::utf8::encode_utf8;
use crate::analysis::{
    bounded_confidence, failure_view, success_view, AnalysisResult, AnalysisView,
};
use crate::http::{body_or_empty, body_text, is_success, is_success_code, Reply};
use crate::json::{
    as_number_bits, as_string, debug_text, error_message, json_debug, json_member,
    is_plain_char, is_plain_key, json_number_bits, json_parse, json_string, json_text, member,
    object_of, object_text, parse,
};
use crate::text::{
    concat2, concat4, find_first, find_last, first_index, is_first_index, is_last_index,
    last_index, same_text,
};

verus! {

/// The operations that every provider offers.
#[derive(Clone, Copy, Debug, PartialEq, Eq, Structural)]
pub enum Operation {
    Query,
    Caption,
    Detect,
    Point,
}

/// What a caller wants of a provider.
pub struct ProviderRequest {
    pub operation: Operation,
    /// The image, base64-encoded.
    pub image_base64: String,
    /// The prompt of a query, the length of a caption, or the label of the
    /// object to detect or point at.
    pub parameter: Option<String>,
    /// The caller's timeout in milliseconds, where the provider's own is not to hold.
    pub timeout_ms: Option<u64>,
}

/// One request to the cloud provider, ready to be sent.
pub struct CloudCall {
    pub url: String,
    pub auth_header: String,
    pub api_key: String,
    pub image_url: String,
    /// The name of the body's field that carries the parameter.
    pub field: String,
    pub value: String,
    pub stream: bool,
    pub timeout_ms: u64,
}

/// What the cloud provider reports of itself.
pub struct ProviderStatus {
    pub provider: String,
    pub status: String,
    pub base_url: String,
    pub has_api_key: bool,
}

/// The client of the cloud provider.
#[derive(Clone)]
pub struct MoondreamManager {
    api_key: String,
    base_url: String,
}

/// The timeout of a call to the cloud provider, in milliseconds.
pub const CLOUD_TIMEOUT_MS: u64 = 30000;

/// The opening brace.
pub const BRACE_OPEN: u8 = 0x7b;

/// The closing brace.
pub const BRACE_CLOSE: u8 = 0x7d;

/// The path of an operation under the base URL.
pub open spec fn operation_path(operation: Operation) -> Seq<char> {
    match operation {
        Operation::Query => "/query"@,
        Operation::Caption => "/caption"@,
        Operation::Detect => "/detect"@,
        Operation::Point => "/point"@,
    }
}

/// The name of the body's field that carries an operation's parameter.
pub open spec fn operation_field(operation: Operation) -> Seq<char> {
    match operation {
        Operation::Query => "question"@,
        Operation::Caption => "length"@,
        Operation::Detect => "object"@,
        Operation::Point => "object"@,
    }
}

/// The parameter of an operation: the one given, else `normal` for a caption
/// and nothing for the others.
pub open spec fn operation_value(operation: Operation, parameter: Option<String>) -> Seq<char> {
    match parameter {
        Some(given) => given@,
        None => match operation {
            Operation::Caption => "normal"@,
            _ => Seq::empty(),
        },
    }
}

/// What is put before the cause when a request got no answer.
pub open spec fn unreachable_prefix(operation: Operation) -> Seq<char> {
    match operation {
        Operation::Query => "Moondream request failed: "@,
        Operation::Caption => "Moondream caption request failed: "@,
        Operation::Detect => "Moondream detect request failed: "@,
        Operation::Point => "Moondream point request failed: "@,
    }
}

/// The error that stands for an answer without success.
pub open spec fn status_error(operation: Operation, status_text: Seq<char>, body: Seq<char>)
    -> Seq<char> {
    match operation {
        Operation::Query => "API error "@ + status_text + ": "@ + body,
        Operation::Caption => "Caption API error: "@ + status_text,
        Operation::Detect => "Detect API error: "@ + status_text,
        Operation::Point => "Point API error: "@ + status_text,
    }
}

/// What is put before the parser's message when a body is no JSON.
pub open spec fn malformed_prefix(operation: Operation) -> Seq<char> {
    match operation {
        Operation::Query => "Failed to parse Moondream response: "@,
        Operation::Caption => "Failed to parse caption response: "@,
        Operation::Detect => "Failed to parse detect response: "@,
        Operation::Point => "Failed to parse point response: "@,
    }
}

/// The JSON document in a reply, or the soft failure that the reply stands
/// for: no answer, an answer without success, or a body that could not be
/// read or is no JSON.
pub open spec fn document_of(operation: Operation, reply: Reply, elapsed_ms: u64) -> Result<
    Seq<char>,
    AnalysisView,
> {
    match reply {
        Reply::Unreachable { cause } => Err(
            failure_view("cloud"@, elapsed_ms, unreachable_prefix(operation) + cause@),
        ),
        Reply::Answered { status, status_text, body } => if !is_success_code(status) {
            Err(
                failure_view(
                    "cloud"@,
                    elapsed_ms,
                    status_error(operation, status_text@, body_text(body)),
                ),
            )
        } else {
            match body {
                Ok(text) => match json_parse(encode_utf8(text@)) {
                    Ok(document) => Ok(document),
                    Err(detail) => Err(
                        failure_view("cloud"@, elapsed_ms, malformed_prefix(operation) + detail),
                    ),
                },
                Err(cause) => Err(
                    failure_view("cloud"@, elapsed_ms, malformed_prefix(operation) + cause@),
                ),
            }
        },
    }
}

/// The bytes from the first opening brace to the last closing brace, where the
/// closing one comes later.
pub open spec fn brace_slice(bytes: Seq<u8>) -> Option<Seq<u8>> {
    match (first_index(bytes, BRACE_OPEN), last_index(bytes, BRACE_CLOSE)) {
        (Some(start), Some(end)) => if end > start {
            Some(bytes.subrange(start, end + 1))
        } else {
            None
        },
        _ => None,
    }
}

/// The JSON value embedded in a text, if its brace slice parses.
pub open spec fn structured_of(text: Seq<char>) -> Option<Seq<char>> {
    match brace_slice(encode_utf8(text)) {
        Some(slice) => match json_parse(slice) {
            Ok(value) => Some(value),
            Err(_) => None,
        },
        None => None,
    }
}

/// The string that a document holds under a key, or the fallback where it
/// holds none.
pub open spec fn string_member(document: Seq<char>, key: Seq<char>, fallback: Seq<char>) -> Seq<
    char,
> {
    match json_string(json_member(document, key)) {
        Some(held) => held,
        None => fallback,
    }
}

/// What a query's reply comes to.
pub open spec fn query_outcome(reply: Reply, elapsed_ms: u64) -> AnalysisView {
    match document_of(Operation::Query, reply, elapsed_ms) {
        Err(failed) => failed,
        Ok(document) => {
            let answer = string_member(document, "answer"@, Seq::empty());
            success_view(
                "cloud"@,
                answer,
                structured_of(answer),
                elapsed_ms,
                bounded_confidence(json_number_bits(json_member(document, "confidence"@))),
            )
        },
    }
}

/// What a caption's reply comes to.
pub open spec fn caption_outcome(reply: Reply, elapsed_ms: u64) -> AnalysisView {
    match document_of(Operation::Caption, reply, elapsed_ms) {
        Err(failed) => failed,
        Ok(document) => success_view(
            "cloud"@,
            string_member(document, "caption"@, Seq::empty()),
            None,
            elapsed_ms,
            None,
        ),
    }
}

/// What a detection's reply comes to.
pub open spec fn detect_outcome(reply: Reply, elapsed_ms: u64) -> AnalysisView {
    match document_of(Operation::Detect, reply, elapsed_ms) {
        Err(failed) => failed,
        Ok(document) => {
            let objects = json_member(document, "objects"@);
            success_view(
                "cloud"@,
                "Detected objects: "@ + json_debug(objects),
                Some(object_text("objects"@, objects)),
                elapsed_ms,
                None,
            )
        },
    }
}

/// What a pointing's reply comes to.
pub open spec fn point_outcome(reply: Reply, elapsed_ms: u64) -> AnalysisView {
    match document_of(Operation::Point, reply, elapsed_ms) {
        Err(failed) => failed,
        Ok(document) => success_view(
            "cloud"@,
            "Object coordinates: "@ + json_debug(document),
            Some(document),
            elapsed_ms,
            None,
        ),
    }
}

/// What a reply to an operation comes to.
pub open spec fn outcome_of(operation: Operation, reply: Reply, elapsed_ms: u64) -> AnalysisView {
    match operation {
        Operation::Query => query_outcome(reply, elapsed_ms),
        Operation::Caption => caption_outcome(reply, elapsed_ms),
        Operation::Detect => detect_outcome(reply, elapsed_ms),
        Operation::Point => point_outcome(reply, elapsed_ms),
    }
}

/// The key under which detected objects stand is written into JSON as it
/// stands.
pub proof fn lemma_objects_key_is_plain()
    ensures
        is_plain_key("objects"@),
{
    reveal_strlit("objects");
    let key = "objects"@;
    assert forall|i: int| 0 <= i < key.len() implies is_plain_char(#[trigger] key[i]) by {
        if i == 0 {
        } else if i == 1 {
        } else if i == 2 {
        } else if i == 3 {
        } else if i == 4 {
        } else if i == 5 {
        } else {
        }
    }
}

/// A text without an opening brace, or without a closing one, holds no
/// structured data.
pub proof fn lemma_no_braces_no_structure(text: Seq<char>)
    requires
        !encode_utf8(text).contains(BRACE_OPEN) || !encode_utf8(text).contains(BRACE_CLOSE),
    ensures
        structured_of(text) is None,
{
    let bytes = encode_utf8(text);
    if !bytes.contains(BRACE_OPEN) {
        assert forall|at: int| !is_first_index(bytes, BRACE_OPEN, at) by {
            if 0 <= at < bytes.len() && bytes[at] == BRACE_OPEN {
                assert(bytes.contains(BRACE_OPEN));
            }
        }
    } else {
        assert forall|at: int| !is_last_index(bytes, BRACE_CLOSE, at) by {
            if 0 <= at < bytes.len() && bytes[at] == BRACE_CLOSE {
                assert(bytes.contains(BRACE_CLOSE));
            }
        }
    }
}

/// The prompt for a kind of retail scene.
pub open spec fn retail_prompt_text(scene_type: Seq<char>) -> Seq<char> {
    if scene_type == "queue"@ {
        "Analyze this retail scene and return a JSON response with:\n{\n  \"people_count\": number,\n  \"queue_formation\": \"line|cluster|scattered\",\n  \"estimated_wait_minutes\": number,\n  \"crowd_density\": \"low|medium|high\",\n  \"customer_mood\": [\"calm\", \"impatient\", \"frustrated\"],\n  \"staff_needed\": boolean,\n  \"description\": \"natural language description\"\n}"@
    } else if scene_type == "inventory"@ {
        "Analyze this retail inventory scene and return JSON:\n{\n  \"products_visible\": number,\n  \"shelf_capacity_used\": number (0-100),\n  \"restocking_needed\": boolean,\n  \"empty_spots\": number,\n  \"product_categories\": [\"category1\", \"category2\"],\n  \"organization_quality\": \"poor|good|excellent\",\n  \"description\": \"natural language description\"\n}"@
    } else if scene_type == "safety"@ {
        "Analyze this scene for safety concerns and return JSON:\n{\n  \"hazard_detected\": boolean,\n  \"hazard_type\": \"spill|obstruction|crowd|equipment|none\",\n  \"immediate_action_required\": boolean,\n  \"affected_area\": \"description of area\",\n  \"severity\": \"low|medium|high\",\n  \"description\": \"natural language description\"\n}"@
    } else {
        "Describe this retail scene in detail, focusing on people, objects, activities, and any notable patterns or issues."@
    }
}

/// The prompt for a kind of retail scene.
pub fn retail_prompt(scene_type: &str) -> (prompt: String)
    ensures
        prompt@ == retail_prompt_text(scene_type@),
{
    if same_text(scene_type, "queue") {
        "Analyze this retail scene and return a JSON response with:\n{\n  \"people_count\": number,\n  \"queue_formation\": \"line|cluster|scattered\",\n  \"estimated_wait_minutes\": number,\n  \"crowd_density\": \"low|medium|high\",\n  \"customer_mood\": [\"calm\", \"impatient\", \"frustrated\"],\n  \"staff_needed\": boolean,\n  \"description\": \"natural language description\"\n}".to_owned()
    } else if same_text(scene_type, "inventory") {
        "Analyze this retail inventory scene and return JSON:\n{\n  \"products_visible\": number,\n  \"shelf_capacity_used\": number (0-100),\n  \"restocking_needed\": boolean,\n  \"empty_spots\": number,\n  \"product_categories\": [\"category1\", \"category2\"],\n  \"organization_quality\": \"poor|good|excellent\",\n  \"description\": \"natural language description\"\n}".to_owned()
    } else if same_text(scene_type, "safety") {
        "Analyze this scene for safety concerns and return JSON:\n{\n  \"hazard_detected\": boolean,\n  \"hazard_type\": \"spill|obstruction|crowd|equipment|none\",\n  \"immediate_action_required\": boolean,\n  \"affected_area\": \"description of area\",\n  \"severity\": \"low|medium|high\",\n  \"description\": \"natural language description\"\n}".to_owned()
    } else {
        "Describe this retail scene in detail, focusing on people, objects, activities, and any notable patterns or issues.".to_owned()
    }
}

/// Where the brace slice of the bytes begins and where it stops: at the first
/// opening brace and behind the last closing brace, where the closing one
/// comes later.
pub fn brace_bounds(bytes: &[u8]) -> (bounds: Option<(usize, usize)>)
    ensures
        match bounds {
            Some((start, stop)) => {
                &&& is_first_index(bytes@, BRACE_OPEN, start as int)
                &&& is_last_index(bytes@, BRACE_CLOSE, stop - 1)
                &&& start < stop - 1
                &&& stop <= bytes@.len()
                &&& brace_slice(bytes@) == Some(bytes@.subrange(start as int, stop as int))
            },
            None => brace_slice(bytes@) is None,
        },
{
    if bytes.len() == 0 {
        proof {
            assert forall|at: int| !is_first_index(bytes@, BRACE_OPEN, at) by {}
        }
        return None;
    }
    match (find_first(bytes, BRACE_OPEN), find_last(bytes, BRACE_CLOSE)) {
        (Some(start), Some(end)) => {
            if end > start {
                Some((start, end + 1))
            } else {
                None
            }
        },
        _ => None,
    }
}

/// The JSON value embedded in a text: the bytes from the first opening brace to
/// the last closing brace, where they parse.
pub fn embedded_json(text: &str) -> (found: Option<serde_json::Value>)
    ensures
        match found {
            Some(value) => structured_of(text@) == Some(json_text(value)),
            None => structured_of(text@) is None,
        },
{
    let bytes = text.as_bytes();
    match brace_bounds(bytes) {
        Some((start, stop)) => {
            match parse(slice_subrange(bytes, start, stop)) {
                Ok(value) => Some(value),
                Err(_) => None,
            }
        },
        None => None,
    }
}

/// The string that a document holds under a key, or the fallback where it
/// holds none.
pub fn string_of_member(document: &serde_json::Value, key: &str, fallback: &str) -> (held: String)
    ensures
        held@ == string_member(json_text(*document), key@, fallback@),
{
    let found = member(document, key);
    match as_string(&found) {
        Some(held) => held,
        None => fallback.to_owned(),
    }
}

/// The error that stands for an answer without success.
fn status_message(operation: Operation, status_text: &str, body: &str) -> (message: String)
    ensures
        message@ == status_error(operation, status_text@, body@),
{
    match operation {
        Operation::Query => concat4("API error ", status_text, ": ", body),
        Operation::Caption => concat2("Caption API error: ", status_text),
        Operation::Detect => concat2("Detect API error: ", status_text),
        Operation::Point => concat2("Point API error: ", status_text),
    }
}

/// The JSON document in a reply, or the soft failure that the reply stands for.
pub fn document(operation: Operation, reply: &Reply, elapsed_ms: u64) -> (outcome: Result<
    serde_json::Value,
    AnalysisResult,
>)
    ensures
        match outcome {
            Ok(value) => document_of(operation, *reply, elapsed_ms) == Ok::<
                Seq<char>,
                AnalysisView,
            >(json_text(value)),
            Err(failed) => document_of(operation, *reply, elapsed_ms) == Err::<
                Seq<char>,
                AnalysisView,
            >(failed@) && failed@.wf() && failed@.error is Some,
        },
{
    match reply {
        Reply::Unreachable { cause } => {
            let prefix = match operation {
                Operation::Query => "Moondream request failed: ",
                Operation::Caption => "Moondream caption request failed: ",
                Operation::Detect => "Moondream detect request failed: ",
                Operation::Point => "Moondream point request failed: ",
            };
            Err(AnalysisResult::failure("cloud", elapsed_ms, concat2(prefix, cause.as_str())))
        },
        Reply::Answered { status, status_text, body } => {
            if !is_success(*status) {
                let message = status_message(
                    operation,
                    status_text.as_str(),
                    body_or_empty(body),
                );
                return Err(AnalysisResult::failure("cloud", elapsed_ms, message));
            }
            let prefix = match operation {
                Operation::Query => "Failed to parse Moondream response: ",
                Operation::Caption => "Failed to parse caption response: ",
                Operation::Detect => "Failed to parse detect response: ",
                Operation::Point => "Failed to parse point response: ",
            };
            match body {
                Ok(text) => match parse(text.as_str().as_bytes()) {
                    Ok(value) => Ok(value),
                    Err(error) => {
                        let detail = error_message(&error);
                        Err(
                            AnalysisResult::failure(
                                "cloud",
                                elapsed_ms,
                                concat2(prefix, detail.as_str()),
                            ),
                        )
                    },
                },
                Err(cause) => Err(
                    AnalysisResult::failure("cloud", elapsed_ms, concat2(prefix, cause.as_str())),
                ),
            }
        },
    }
}

impl MoondreamManager {
    /// The key that authenticates the client.
    pub closed spec fn key(&self) -> Seq<char> {
        self.api_key@
    }

    /// The URL under which the provider's operations stand.
    pub closed spec fn base(&self) -> Seq<char> {
        self.base_url@
    }

    /// A client of the provider's public endpoint, with the given key.
    pub fn new(api_key: String) -> (manager: MoondreamManager)
        ensures
            manager.key() == api_key@,
            manager.base() == "https://api.moondream.ai/v1"@,
    {
        MoondreamManager { api_key, base_url: "https://api.moondream.ai/v1".to_owned() }
    }

    /// The key that authenticates the client.
    pub fn api_key(&self) -> (key: &str)
        ensures
            key@ == self.key(),
    {
        self.api_key.as_str()
    }

    /// The URL under which the provider's operations stand.
    pub fn base_url(&self) -> (url: &str)
        ensures
            url@ == self.base(),
    {
        self.base_url.as_str()
    }

    /// The call carries out what the caller wants: the operation's URL, the
    /// key, the image as a data URI and the operation's parameter, with the
    /// caller's timeout or else the provider's own.
    pub open spec fn is_request(&self, call: CloudCall, wanted: ProviderRequest) -> bool {
        &&& call.url@ == self.base() + operation_path(wanted.operation)
        &&& call.auth_header@ == "X-Moondream-Auth"@
        &&& call.api_key@ == self.key()
        &&& call.image_url@ == "data:image/jpeg;base64,"@ + wanted.image_base64@
        &&& call.field@ == operation_field(wanted.operation)
        &&& call.value@ == operation_value(wanted.operation, wanted.parameter)
        &&& !call.stream
        &&& call.timeout_ms == (match wanted.timeout_ms {
            Some(given) => given,
            None => CLOUD_TIMEOUT_MS,
        })
    }

    /// The request that carries out what the caller wants.
    pub fn request(&self, wanted: &ProviderRequest) -> (call: CloudCall)
        ensures
            self.is_request(call, *wanted),
    {
        let path = match wanted.operation {
            Operation::Query => "/query",
            Operation::Caption => "/caption",
            Operation::Detect => "/detect",
            Operation::Point => "/point",
        };
        let field = match wanted.operation {
            Operation::Query => "question",
            Operation::Caption => "length",
            Operation::Detect => "object",
            Operation::Point => "object",
        };
        let value = match &wanted.parameter {
            Some(given) => given.clone(),
            None => match wanted.operation {
                Operation::Caption => "normal".to_owned(),
                _ => String::new(),
            },
        };
        let timeout_ms = match wanted.timeout_ms {
            Some(given) => given,
            None => CLOUD_TIMEOUT_MS,
        };
        CloudCall {
            url: concat2(self.base_url.as_str(), path),
            auth_header: "X-Moondream-Auth".to_owned(),
            api_key: self.api_key.clone(),
            image_url: concat2("data:image/jpeg;base64,", wanted.image_base64.as_str()),
            field: field.to_owned(),
            value,
            stream: false,
            timeout_ms,
        }
    }

    /// The JSON value embedded in a text: the bytes from the first opening
    /// brace to the last closing brace, where they parse.
    pub fn try_parse_structured(&self, text: &str) -> (found: Option<serde_json::Value>)
        ensures
            match found {
                Some(value) => structured_of(text@) == Some(json_text(value)),
                None => structured_of(text@) is None,
            },
    {
        embedded_json(text)
    }

    /// What a query's reply comes to: the answer, the JSON value embedded in
    /// it and the confidence where it lies between 0.0 and 1.0, or the soft
    /// failure.
    pub fn query(&self, reply: &Reply, elapsed_ms: u64) -> (result: AnalysisResult)
        ensures
            result@ == query_outcome(*reply, elapsed_ms),
            result@.wf(),
    {
        match document(Operation::Query, reply, elapsed_ms) {
            Err(failed) => failed,
            Ok(value) => {
                let answer = string_of_member(&value, "answer", "");
                let structured = self.try_parse_structured(answer.as_str());
                let confidence = as_number_bits(&member(&value, "confidence"));
                proof {
                    reveal_strlit("");
                    assert(""@ =~= Seq::<char>::empty());
                }
                AnalysisResult::success("cloud", answer, structured, elapsed_ms, confidence)
            },
        }
    }

    /// What a caption's reply comes to: the caption, or the soft failure.
    pub fn caption(&self, reply: &Reply, elapsed_ms: u64) -> (result: AnalysisResult)
        ensures
            result@ == caption_outcome(*reply, elapsed_ms),
            result@.wf(),
    {
        match document(Operation::Caption, reply, elapsed_ms) {
            Err(failed) => failed,
            Ok(value) => {
                let caption = string_of_member(&value, "caption", "");
                proof {
                    reveal_strlit("");
                    assert(""@ =~= Seq::<char>::empty());
                }
                AnalysisResult::success("cloud", caption, None, elapsed_ms, None)
            },
        }
    }

    /// What a detection's reply comes to: the objects found as structured
    /// data, with a summary of them as the response, or the soft failure.
    pub fn detect(&self, reply: &Reply, elapsed_ms: u64) -> (result: AnalysisResult)
        ensures
            result@ == detect_outcome(*reply, elapsed_ms),
            result@.wf(),
    {
        match document(Operation::Detect, reply, elapsed_ms) {
            Err(failed) => failed,
            Ok(value) => {
                let objects = member(&value, "objects");
                let summary = debug_text(&objects);
                let response = concat2("Detected objects: ", summary.as_str());
                proof {
                    lemma_objects_key_is_plain();
                }
                let structured = object_of("objects", objects);
                AnalysisResult::success("cloud", response, Some(structured), elapsed_ms, None)
            },
        }
    }

    /// What a pointing's reply comes to: the document as structured data,
    /// with a summary of it as the response, or the soft failure.
    pub fn point(&self, reply: &Reply, elapsed_ms: u64) -> (result: AnalysisResult)
        ensures
            result@ == point_outcome(*reply, elapsed_ms),
            result@.wf(),
    {
        match document(Operation::Point, reply, elapsed_ms) {
            Err(failed) => failed,
            Ok(value) => {
                let summary = debug_text(&value);
                let response = concat2("Object coordinates: ", summary.as_str());
                AnalysisResult::success("cloud", response, Some(value), elapsed_ms, None)
            },
        }
    }

    /// What a reply to an operation comes to.
    pub fn normalize(&self, operation: Operation, reply: &Reply, elapsed_ms: u64) -> (result:
        AnalysisResult)
        ensures
            result@ == outcome_of(operation, *reply, elapsed_ms),
            result@.wf(),
    {
        match operation {
            Operation::Query => self.query(reply, elapsed_ms),
            Operation::Caption => self.caption(reply, elapsed_ms),
            Operation::Detect => self.detect(reply, elapsed_ms),
            Operation::Point => self.point(reply, elapsed_ms),
        }
    }

    /// The query that asks for the analysis of a retail scene of the given kind.
    pub fn analyze_retail_scene(&self, image_base64: String, scene_type: &str) -> (wanted:
        ProviderRequest)
        ensures
            wanted.operation == Operation::Query,
            wanted.image_base64@ == image_base64@,
            wanted.parameter is Some,
            wanted.parameter.unwrap()@ == retail_prompt_text(scene_type@),
            wanted.timeout_ms is None,
    {
        ProviderRequest {
            operation: Operation::Query,
            image_base64,
            parameter: Some(retail_prompt(scene_type)),
            timeout_ms: None,
        }
    }

    /// What the provider reports of itself: always ready, with its URL, and
    /// whether a key is set.
    pub fn check_status(&self) -> (status: ProviderStatus)
        ensures
            status.provider@ == "cloud"@,
            status.status@ == "ready"@,
            status.base_url@ == self.base(),
            status.has_api_key == (self.key().len() > 0),
    {
        ProviderStatus {
            provider: "cloud".to_owned(),
            status: "ready".to_owned(),
            base_url: self.base_url.clone(),
            has_api_key: !self.api_key.as_str().is_empty(),
        }
    }
}

} // verus!
