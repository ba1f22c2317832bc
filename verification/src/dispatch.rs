//! The dispatch engine: the readiness gate before a call to the local
//! provider, what the local provider's answers come to, and the comparison of
//! several providers on one request.

use vstd::prelude::*;
use vstd::utf8::encode_utf8;
use crate::analysis::{failure_view, success_view, AnalysisResult, AnalysisView};
use crate::http::{body_or_empty, body_text, is_success, is_success_code, Reply};
use crate::json::{error_message, json_parse, parse};
use crate::moondream_manager::{
    embedded_json, string_member, string_of_member, structured_of, CloudCall, MoondreamManager,
    ProviderRequest,
};
use crate::ollama_manager::{OllamaStatus, StatusView};
use crate::text::{concat2, concat4};

verus! {

/// A request to analyze one image with the local provider.
pub struct AnalyzeRequest {
    pub image_base64: String,
    pub prompt: Option<String>,
}

/// What the analysis of one image came to: a description, or an error.
pub struct AnalyzeResponse {
    pub description: String,
    pub error: Option<String>,
}

/// The sampling options of a generation.
pub struct GenerateOptions {
    /// The temperature in hundredths.
    pub temperature_percent: u32,
    pub num_predict: u32,
    pub num_ctx: u32,
    pub num_thread: u32,
}

/// One request to the local provider, ready to be sent.
pub struct GenerateCall {
    pub url: String,
    pub model: String,
    pub prompt: String,
    pub image_base64: String,
    pub stream: bool,
    pub keep_alive: Option<String>,
    pub options: Option<GenerateOptions>,
    pub timeout_ms: u64,
}

/// The backends a request can go to.
#[derive(Clone, Copy, Debug, PartialEq, Eq, Structural)]
pub enum ProviderKind {
    /// The locally hosted server.
    Local,
    /// The cloud API.
    Cloud,
}

/// What is to be done with a request to one provider.
pub enum Dispatch {
    /// The provider is not ready; the result says so and no call is made.
    Refused(AnalysisResult),
    /// Send this to the local provider.
    Local(GenerateCall),
    /// Send this to the cloud provider.
    Cloud(CloudCall),
}

/// The timeout of a call to the local provider, in milliseconds.
pub const LOCAL_TIMEOUT_MS: u64 = 30000;

/// The server runs and holds the model.
pub open spec fn ready(status: StatusView) -> bool {
    status.running && status.model_ready
}

/// Does the server run and hold the model?
pub fn is_ready(status: &OllamaStatus) -> (open_gate: bool)
    ensures
        open_gate == ready(status@),
{
    status.running && status.model_ready
}

/// The identifier that tags a provider's results.
pub open spec fn provider_name(kind: ProviderKind) -> Seq<char> {
    match kind {
        ProviderKind::Local => "llava"@,
        ProviderKind::Cloud => "cloud"@,
    }
}

/// The identifier that tags a provider's results.
pub fn provider_id(kind: ProviderKind) -> (id: String)
    ensures
        id@ == provider_name(kind),
{
    match kind {
        ProviderKind::Local => "llava".to_owned(),
        ProviderKind::Cloud => "cloud".to_owned(),
    }
}

/// The content of a call that asks the local provider about one image.
pub open spec fn is_generate_call(
    call: GenerateCall,
    prompt: Seq<char>,
    image_base64: Seq<char>,
    timeout_ms: u64,
) -> bool {
    &&& call.url@ == "http://127.0.0.1:11434/api/generate"@
    &&& call.model@ == "llava:7b"@
    &&& call.prompt@ == prompt
    &&& call.image_base64@ == image_base64
    &&& !call.stream
    &&& call.timeout_ms == timeout_ms
}

/// The call keeps the model loaded for five minutes and samples with the
/// options tuned for short, steady answers.
pub open spec fn is_tuned(call: GenerateCall) -> bool {
    &&& call.keep_alive is Some
    &&& call.keep_alive.unwrap()@ == "5m"@
    &&& call.options is Some
    &&& call.options.unwrap().temperature_percent == 30
    &&& call.options.unwrap().num_predict == 200
    &&& call.options.unwrap().num_ctx == 2048
    &&& call.options.unwrap().num_thread == 4
}

/// The call that asks for a description of one image, or the response that
/// says that the server is not ready.
pub fn analyze_image_call(status: &OllamaStatus, request: AnalyzeRequest) -> (step: Result<
    GenerateCall,
    AnalyzeResponse,
>)
    ensures
        match step {
            Ok(call) => ready(status@) && is_generate_call(
                call,
                match request.prompt {
                    Some(given) => given@,
                    None => "Describe what you see in this image in 2-3 sentences. Focus on the main subjects and activities."@,
                },
                request.image_base64@,
                LOCAL_TIMEOUT_MS,
            ) && call.keep_alive is None && call.options is None,
            Err(refused) => !ready(status@) && refused.description@.len() == 0 && refused.error
                is Some && refused.error.unwrap()@ == "Ollama not ready"@,
        },
{
    if !is_ready(status) {
        return Err(
            AnalyzeResponse { description: String::new(), error: Some("Ollama not ready".to_owned()) },
        );
    }
    let prompt = match request.prompt {
        Some(given) => given,
        None => "Describe what you see in this image in 2-3 sentences. Focus on the main subjects and activities.".to_owned(),
    };
    Ok(
        GenerateCall {
            url: "http://127.0.0.1:11434/api/generate".to_owned(),
            model: "llava:7b".to_owned(),
            prompt,
            image_base64: request.image_base64,
            stream: false,
            keep_alive: None,
            options: None,
            timeout_ms: LOCAL_TIMEOUT_MS,
        },
    )
}

/// What the reply to a description request comes to: the description and no
/// error, or an error and no description.
pub open spec fn describe_outcome(reply: Reply) -> (Seq<char>, Option<Seq<char>>) {
    match reply {
        Reply::Unreachable { cause } => (
            Seq::empty(),
            Some("Failed to analyze image: "@ + cause@),
        ),
        Reply::Answered { status, status_text, body } => if !is_success_code(status) {
            (Seq::empty(), Some("Analysis failed: "@ + status_text@ + " - "@ + body_text(body)))
        } else {
            match body {
                Ok(text) => match json_parse(encode_utf8(text@)) {
                    Ok(document) => (
                        string_member(document, "response"@, "No description available"@),
                        None,
                    ),
                    Err(detail) => (Seq::empty(), Some("Failed to parse response: "@ + detail)),
                },
                Err(cause) => (Seq::empty(), Some("Failed to read response: "@ + cause@)),
            }
        },
    }
}

/// What the reply to a description request comes to.
pub fn analyze_image(reply: &Reply) -> (response: AnalyzeResponse)
    ensures
        response.description@ == describe_outcome(*reply).0,
        (match response.error {
            Some(text) => Some(text@),
            None => None,
        }) == describe_outcome(*reply).1,
        response.error is Some ==> response.description@.len() == 0,
{
    match reply {
        Reply::Unreachable { cause } => AnalyzeResponse {
            description: String::new(),
            error: Some(concat2("Failed to analyze image: ", cause.as_str())),
        },
        Reply::Answered { status, status_text, body } => {
            if !is_success(*status) {
                return AnalyzeResponse {
                    description: String::new(),
                    error: Some(
                        concat4(
                            "Analysis failed: ",
                            status_text.as_str(),
                            " - ",
                            body_or_empty(body),
                        ),
                    ),
                };
            }
            match body {
                Ok(text) => match parse(text.as_str().as_bytes()) {
                    Ok(value) => AnalyzeResponse {
                        description: string_of_member(
                            &value,
                            "response",
                            "No description available",
                        ),
                        error: None,
                    },
                    Err(error) => {
                        let detail = error_message(&error);
                        AnalyzeResponse {
                            description: String::new(),
                            error: Some(concat2("Failed to parse response: ", detail.as_str())),
                        }
                    },
                },
                Err(cause) => AnalyzeResponse {
                    description: String::new(),
                    error: Some(concat2("Failed to read response: ", cause.as_str())),
                },
            }
        },
    }
}

/// The call that puts a prompt about one frame to the local provider, or the
/// result that says that the server is not ready.
pub fn analyze_with_llava_call(
    status: &OllamaStatus,
    frame_base64: String,
    prompt: String,
    timeout: Option<u64>,
) -> (step: Result<GenerateCall, AnalysisResult>)
    ensures
        match step {
            Ok(call) => ready(status@) && is_generate_call(
                call,
                prompt@,
                frame_base64@,
                match timeout {
                    Some(given) => given,
                    None => LOCAL_TIMEOUT_MS,
                },
            ) && is_tuned(call),
            Err(refused) => !ready(status@) && refused@ == failure_view(
                "llava"@,
                0,
                "Ollama not ready"@,
            ) && refused@.wf(),
        },
{
    if !is_ready(status) {
        return Err(AnalysisResult::failure("llava", 0, "Ollama not ready".to_owned()));
    }
    let timeout_ms = match timeout {
        Some(given) => given,
        None => LOCAL_TIMEOUT_MS,
    };
    Ok(
        GenerateCall {
            url: "http://127.0.0.1:11434/api/generate".to_owned(),
            model: "llava:7b".to_owned(),
            prompt,
            image_base64: frame_base64,
            stream: false,
            keep_alive: Some("5m".to_owned()),
            options: Some(
                GenerateOptions {
                    temperature_percent: 30,
                    num_predict: 200,
                    num_ctx: 2048,
                    num_thread: 4,
                },
            ),
            timeout_ms,
        },
    )
}

/// What the local provider's reply to a prompt comes to.
pub open spec fn llava_outcome(reply: Reply, elapsed_ms: u64) -> AnalysisView {
    match reply {
        Reply::Unreachable { cause } => failure_view(
            "llava"@,
            elapsed_ms,
            "Failed to analyze: "@ + cause@,
        ),
        Reply::Answered { status, status_text, body } => if !is_success_code(status) {
            failure_view("llava"@, elapsed_ms, "Analysis failed: "@ + status_text@)
        } else {
            match body {
                Ok(text) => match json_parse(encode_utf8(text@)) {
                    Ok(document) => {
                        let answer = string_member(document, "response"@, Seq::empty());
                        success_view("llava"@, answer, structured_of(answer), elapsed_ms, None)
                    },
                    Err(detail) => failure_view(
                        "llava"@,
                        elapsed_ms,
                        "Failed to parse response: "@ + detail,
                    ),
                },
                Err(cause) => failure_view(
                    "llava"@,
                    elapsed_ms,
                    "Failed to parse response: "@ + cause@,
                ),
            }
        },
    }
}

/// What the local provider's reply to a prompt comes to: the answer with the
/// JSON value embedded in it, or the soft failure.
pub fn analyze_with_llava(reply: &Reply, elapsed_ms: u64) -> (result: AnalysisResult)
    ensures
        result@ == llava_outcome(*reply, elapsed_ms),
        result@.wf(),
{
    match reply {
        Reply::Unreachable { cause } => AnalysisResult::failure(
            "llava",
            elapsed_ms,
            concat2("Failed to analyze: ", cause.as_str()),
        ),
        Reply::Answered { status, status_text, body } => {
            if !is_success(*status) {
                return AnalysisResult::failure(
                    "llava",
                    elapsed_ms,
                    concat2("Analysis failed: ", status_text.as_str()),
                );
            }
            match body {
                Ok(text) => match parse(text.as_str().as_bytes()) {
                    Ok(value) => {
                        let answer = string_of_member(&value, "response", "");
                        let structured = embedded_json(answer.as_str());
                        proof {
                            reveal_strlit("");
                            assert(""@ =~= Seq::<char>::empty());
                        }
                        AnalysisResult::success("llava", answer, structured, elapsed_ms, None)
                    },
                    Err(error) => {
                        let detail = error_message(&error);
                        AnalysisResult::failure(
                            "llava",
                            elapsed_ms,
                            concat2("Failed to parse response: ", detail.as_str()),
                        )
                    },
                },
                Err(cause) => AnalysisResult::failure(
                    "llava",
                    elapsed_ms,
                    concat2("Failed to parse response: ", cause.as_str()),
                ),
            }
        },
    }
}

/// The prompt of a request, or nothing where it has none.
pub open spec fn prompt_of(wanted: ProviderRequest) -> Seq<char> {
    match wanted.parameter {
        Some(given) => given@,
        None => Seq::empty(),
    }
}

/// What is to be done with a request to one provider. A request to the local
/// provider passes the readiness gate first: without a status, or with one
/// that is not ready, it is refused and no call is made. A request to the
/// cloud provider passes no gate.
pub fn dispatch_single(
    wanted: &ProviderRequest,
    kind: ProviderKind,
    status: Option<&OllamaStatus>,
    cloud: &MoondreamManager,
) -> (step: Dispatch)
    ensures
        match step {
            Dispatch::Refused(result) => kind == ProviderKind::Local && !(status is Some && ready(
                status.unwrap()@,
            )) && result@ == failure_view("llava"@, 0, "Ollama not ready"@) && result@.wf(),
            Dispatch::Local(call) => kind == ProviderKind::Local && status is Some && ready(
                status.unwrap()@,
            ) && is_generate_call(
                call,
                prompt_of(*wanted),
                wanted.image_base64@,
                match wanted.timeout_ms {
                    Some(given) => given,
                    None => LOCAL_TIMEOUT_MS,
                },
            ) && is_tuned(call),
            Dispatch::Cloud(call) => kind == ProviderKind::Cloud && cloud.is_request(
                call,
                *wanted,
            ),
        },
{
    match kind {
        ProviderKind::Cloud => Dispatch::Cloud(cloud.request(wanted)),
        ProviderKind::Local => {
            let prompt = match &wanted.parameter {
                Some(given) => given.clone(),
                None => String::new(),
            };
            match status {
                Some(snapshot) => {
                    match analyze_with_llava_call(
                        snapshot,
                        wanted.image_base64.clone(),
                        prompt,
                        wanted.timeout_ms,
                    ) {
                        Ok(call) => Dispatch::Local(call),
                        Err(refused) => Dispatch::Refused(refused),
                    }
                },
                None => Dispatch::Refused(
                    AnalysisResult::failure("llava", 0, "Ollama not ready".to_owned()),
                ),
            }
        },
    }
}

} // verus!
