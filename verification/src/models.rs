//! Contents, messages, responses and configuration of the Gemini API.
use vstd::prelude::*;

use crate::json::parse_json_document;
use crate::tools::{FunctionCall, FunctionResponse};

verus! {

/// Role of a message in a conversation.
#[derive(Debug, Clone, PartialEq, Eq, Structural)]
pub enum Role {
    /// Message from the user
    User,
    /// Message from the model
    Model,
}

/// Content part that can be included in a message.
#[derive(Debug, Clone)]
pub enum Part {
    /// Text content
    Text {
        /// The text content
        text: String,
        /// Whether this is a thought summary (Gemini 2.5 series only)
        thought: Option<bool>,
    },
    /// Inline binary data
    InlineData {
        /// The blob data
        inline_data: Blob,
    },
    /// Function call from the model
    FunctionCall {
        /// The function call details
        function_call: FunctionCall,
    },
    /// Function response (results from executing a function call)
    FunctionResponse {
        /// The function response details
        function_response: FunctionResponse,
    },
}

/// Blob for a message part.
#[derive(Debug, Clone)]
pub struct Blob {
    /// MIME type of the data.
    pub mime_type: String,
    /// Base64 encoded data.
    pub data: String,
}

impl Blob {
    /// Create a new blob with mime type and data.
    pub fn new(mime_type: String, data: String) -> (res: Self)
        ensures
            res.mime_type == mime_type,
            res.data == data,
    {
        Blob { mime_type, data }
    }
}

/// Content of a message.
#[derive(Debug, Clone)]
pub struct Content {
    /// Parts of the content
    pub parts: Vec<Part>,
    /// Role of the content
    pub role: Option<Role>,
}

impl Default for Content {
    /// An empty content: no parts and no role.
    fn default() -> (res: Self)
        ensures
            res.parts@ == Seq::<Part>::empty(),
            res.role is None,
    {
        Content { parts: Vec::new(), role: None }
    }
}

impl Content {
    /// Create a new text content.
    pub fn text(text: String) -> (res: Self)
        ensures
            res.parts@ == seq![Part::Text { text: text, thought: None }],
            res.role is None,
    {
        Content { parts: vec![Part::Text { text, thought: None }], role: None }
    }

    /// Create a new content with a function call.
    pub fn function_call(function_call: FunctionCall) -> (res: Self)
        ensures
            res.parts@ == seq![Part::FunctionCall { function_call: function_call }],
            res.role is None,
    {
        Content { parts: vec![Part::FunctionCall { function_call }], role: None }
    }

    /// Create a new content with a function response.
    pub fn function_response(function_response: FunctionResponse) -> (res: Self)
        ensures
            res.parts@ == seq![Part::FunctionResponse { function_response: function_response }],
            res.role is None,
    {
        Content { parts: vec![Part::FunctionResponse { function_response }], role: None }
    }

    /// Create a new content with a function response from name and JSON value.
    pub fn function_response_json(name: String, response: serde_json::Value) -> (res: Self)
        ensures
            res.parts@.len() == 1,
            res.parts@[0] matches Part::FunctionResponse { function_response }
                && function_response.name == name && function_response.response == response,
            res.role is None,
    {
        Content {
            parts: vec![
                Part::FunctionResponse {
                    function_response: FunctionResponse::new(name, response),
                },
            ],
            role: None,
        }
    }

    /// Create a new content with inline data (blob data).
    pub fn inline_data(mime_type: String, data: String) -> (res: Self)
        ensures
            res.parts@.len() == 1,
            res.parts@[0] matches Part::InlineData { inline_data }
                && inline_data.mime_type == mime_type && inline_data.data == data,
            res.role is None,
    {
        Content {
            parts: vec![Part::InlineData { inline_data: Blob::new(mime_type, data) }],
            role: None,
        }
    }

    /// Add a role to this content; the parts are kept as they are.
    pub fn with_role(self, role: Role) -> (res: Self)
        ensures
            res.parts == self.parts,
            res.role == Some(role),
    {
        let mut this = self;
        this.role = Some(role);
        this
    }
}

/// Message in a conversation.
#[derive(Debug, Clone)]
pub struct Message {
    /// Content of the message
    pub content: Content,
    /// Role of the message
    pub role: Role,
}

impl Message {
    /// The role of the content, where it has one, is the message's role.
    pub open spec fn roles_agree(self) -> bool {
        self.content.role == Some(self.role)
    }

    /// Create a new user message with text content.
    pub fn user(text: String) -> (res: Self)
        ensures
            res.content.parts@ == seq![Part::Text { text: text, thought: None }],
            res.role == Role::User,
            res.roles_agree(),
    {
        Message { content: Content::text(text).with_role(Role::User), role: Role::User }
    }

    /// Create a new model message with text content.
    pub fn model(text: String) -> (res: Self)
        ensures
            res.content.parts@ == seq![Part::Text { text: text, thought: None }],
            res.role == Role::Model,
            res.roles_agree(),
    {
        Message { content: Content::text(text).with_role(Role::Model), role: Role::Model }
    }

    /// Create a new model message with text content whose content carries
    /// no role.
    pub fn embed(text: String) -> (res: Self)
        ensures
            res.content.parts@ == seq![Part::Text { text: text, thought: None }],
            res.content.role is None,
            res.role == Role::Model,
    {
        Message { content: Content::text(text), role: Role::Model }
    }

    /// Create a new function message with function response content from JSON.
    pub fn function(name: String, response: serde_json::Value) -> (res: Self)
        ensures
            res.content.parts@.len() == 1,
            res.content.parts@[0] matches Part::FunctionResponse { function_response }
                && function_response.name == name && function_response.response == response,
            res.role == Role::Model,
            res.roles_agree(),
    {
        Message {
            content: Content::function_response_json(name, response).with_role(Role::Model),
            role: Role::Model,
        }
    }

    /// Create a new function message with function response from a JSON string.
    ///
    /// Fails, handing back the parser's error for `response` unchanged,
    /// exactly when `response` is not one JSON document; otherwise the message is `Message::function` of the name and
    /// the parsed document.
    pub fn function_str(name: String, response: String) -> (res: Result<Self, serde_json::Error>)
        ensures
            res is Ok <==> crate::json::json_outcome(response@) is Ok,
            res matches Err(e) ==> crate::json::json_outcome(response@) == Err::<
                serde_json::Value,
                serde_json::Error,
            >(e),
            res matches Ok(msg) ==> {
                &&& msg.content.parts@.len() == 1
                &&& msg.content.parts@[0] matches Part::FunctionResponse { function_response }
                    && function_response.name == name
                    && crate::json::json_outcome(response@) == Ok::<
                    serde_json::Value,
                    serde_json::Error,
                >(function_response.response)
                &&& msg.role == Role::Model
                &&& msg.roles_agree()
            },
    {
        match parse_json_document(response.as_str()) {
            Ok(json) => Ok(Message::function(name, json)),
            Err(e) => Err(e),
        }
    }
}

/// Safety rating for content.
#[derive(Debug, Clone)]
pub struct SafetyRating {
    /// The category of the safety rating
    pub category: String,
    /// The probability that the content is harmful
    pub probability: String,
}

/// Citation metadata for content.
#[derive(Debug, Clone)]
pub struct CitationMetadata {
    /// The citation sources
    pub citation_sources: Vec<CitationSource>,
}

/// Citation source.
#[derive(Debug, Clone)]
pub struct CitationSource {
    /// The URI of the citation source
    pub uri: Option<String>,
    /// The title of the citation source
    pub title: Option<String>,
    /// The start index of the citation in the response
    pub start_index: Option<i32>,
    /// The end index of the citation in the response
    pub end_index: Option<i32>,
    /// The license of the citation source
    pub license: Option<String>,
    /// The publication date of the citation source
    pub publication_date: Option<String>,
}

/// A candidate response.
#[derive(Debug, Clone)]
pub struct Candidate {
    /// The content of the candidate
    pub content: Content,
    /// The safety ratings for the candidate
    pub safety_ratings: Option<Vec<SafetyRating>>,
    /// The citation metadata for the candidate
    pub citation_metadata: Option<CitationMetadata>,
    /// The finish reason for the candidate
    pub finish_reason: Option<String>,
    /// The index of the candidate
    pub index: Option<i32>,
}

/// Metadata about token usage.
#[derive(Debug, Clone)]
pub struct UsageMetadata {
    /// The number of prompt tokens
    pub prompt_token_count: i32,
    /// The number of response tokens
    pub candidates_token_count: Option<i32>,
    /// The total number of tokens
    pub total_token_count: i32,
    /// The number of thinking tokens (Gemini 2.5 series only)
    pub thoughts_token_count: Option<i32>,
}

/// Response from the Gemini API for content generation.
#[derive(Debug, Clone)]
pub struct GenerationResponse {
    /// The candidates generated
    pub candidates: Vec<Candidate>,
    /// The prompt feedback
    pub prompt_feedback: Option<PromptFeedback>,
    /// Usage metadata
    pub usage_metadata: Option<UsageMetadata>,
}

/// Feedback about the prompt.
#[derive(Debug, Clone)]
pub struct PromptFeedback {
    /// The safety ratings for the prompt
    pub safety_ratings: Vec<SafetyRating>,
    /// The block reason if the prompt was blocked
    pub block_reason: Option<String>,
}

/// A text part read as a pair: its text, and whether it is a thought summary
/// (an absent `thought` flag counts as `false`). Other parts give nothing.
pub open spec fn as_text_entry() -> spec_fn(Part) -> Option<(String, bool)> {
    |p: Part| match p {
        Part::Text { text, thought } => Some((text, match thought {
            Some(b) => b,
            None => false,
        })),
        _ => None,
    }
}

/// A text part explicitly marked as a thought summary gives its text;
/// other parts give nothing.
pub open spec fn as_thought() -> spec_fn(Part) -> Option<String> {
    |p: Part| match p {
        Part::Text { text, thought: Some(true) } => Some(text),
        _ => None,
    }
}

/// A function-call part gives its call; other parts give nothing.
pub open spec fn as_function_call() -> spec_fn(Part) -> Option<FunctionCall> {
    |p: Part| match p {
        Part::FunctionCall { function_call } => Some(function_call),
        _ => None,
    }
}

/// Goes through the parts of every candidate in order, keeping what `f`
/// gives for each part.
pub open spec fn collect_parts<B>(candidates: Seq<Candidate>, f: spec_fn(Part) -> Option<B>) -> Seq<B>
    decreases candidates.len(),
{
    if candidates.len() == 0 {
        Seq::empty()
    } else {
        collect_parts(candidates.drop_last(), f) + candidates.last().content.parts@.filter_map(f)
    }
}

impl GenerationResponse {
    /// The first part of the first candidate, where there is one.
    pub open spec fn first_part(self) -> Option<Part> {
        if self.candidates@.len() > 0 && self.candidates@[0].content.parts@.len() > 0 {
            Some(self.candidates@[0].content.parts@[0])
        } else {
            None
        }
    }

    /// All text parts of all candidates, with their thought flags.
    pub open spec fn text_entries(self) -> Seq<(String, bool)> {
        collect_parts(self.candidates@, as_text_entry())
    }

    /// The texts of all thought-summary parts of all candidates.
    pub open spec fn thought_texts(self) -> Seq<String> {
        collect_parts(self.candidates@, as_thought())
    }

    /// All function calls of all candidates.
    pub open spec fn calls(self) -> Seq<FunctionCall> {
        collect_parts(self.candidates@, as_function_call())
    }

    /// Get the text of the first candidate: the text of its first part where
    /// that is a text part, else the empty string.
    pub fn text(&self) -> (res: String)
        ensures
            match self.first_part() {
                Some(Part::Text { text, .. }) => res == text,
                _ => res@ == Seq::<char>::empty(),
            },
            self.candidates@.len() > 0 && self.candidates@[0].content.parts@.len() > 0
                ==> match self.candidates@[0].content.parts@[0] {
                Part::Text { text, .. } => res == text,
                _ => res@ == Seq::<char>::empty(),
            },
            self.candidates@.len() == 0 || self.candidates@[0].content.parts@.len() == 0
                ==> res@ == Seq::<char>::empty(),
    {
        if self.candidates.len() > 0 {
            let first = &self.candidates[0];
            if first.content.parts.len() > 0 {
                match &first.content.parts[0] {
                    Part::Text { text, thought: _ } => {
                        return text.clone();
                    },
                    _ => {},
                }
            }
        }
        String::new()
    }

    /// Get function calls from the response, in order.
    pub fn function_calls(&self) -> (res: Vec<&FunctionCall>)
        ensures
            res@.map_values(|c: &FunctionCall| *c) == self.calls(),
    {
        let ghost cands = self.candidates@;
        let mut res: Vec<&FunctionCall> = Vec::new();
        let mut i: usize = 0;
        while i < self.candidates.len()
            invariant
                cands == self.candidates@,
                0 <= i <= cands.len(),
                res@.map_values(|c: &FunctionCall| *c) == collect_parts(cands.take(i as int), as_function_call()),
            decreases cands.len() - i,
        {
            let parts = &self.candidates[i].content.parts;
            let mut j: usize = 0;
            while j < parts.len()
                invariant
                    cands == self.candidates@,
                    0 <= i < cands.len(),
                    *parts == cands[i as int].content.parts,
                    0 <= j <= parts@.len(),
                    res@.map_values(|c: &FunctionCall| *c) == collect_parts(cands.take(i as int), as_function_call())
                        + parts@.take(j as int).filter_map(as_function_call()),
                decreases parts@.len() - j,
            {
                proof {
                    parts@.lemma_filter_map_take_succ(as_function_call(), j as int);
                }
                let ghost before = res@;
                match &parts[j] {
                    Part::FunctionCall { function_call } => {
                        res.push(function_call);
                        assert(res@.map_values(|c: &FunctionCall| *c) =~= before.map_values(
                            |c: &FunctionCall| *c,
                        ).push(*function_call));
                    },
                    _ => {},
                }
                j += 1;
            }
            proof {
                assert(cands.take(i + 1).drop_last() == cands.take(i as int));
                assert(parts@.take(parts@.len() as int) == parts@);
            }
            i += 1;
        }
        proof {
            assert(cands.take(cands.len() as int) == cands);
        }
        res
    }
    /// Get thought summaries from the response: the texts of the parts
    /// marked as thoughts, in order.
    pub fn thoughts(&self) -> (res: Vec<String>)
        ensures
            res@ == self.thought_texts(),
    {
        let ghost cands = self.candidates@;
        let mut res: Vec<String> = Vec::new();
        let mut i: usize = 0;
        while i < self.candidates.len()
            invariant
                cands == self.candidates@,
                0 <= i <= cands.len(),
                res@ == collect_parts(cands.take(i as int), as_thought()),
            decreases cands.len() - i,
        {
            let parts = &self.candidates[i].content.parts;
            let mut j: usize = 0;
            while j < parts.len()
                invariant
                    cands == self.candidates@,
                    0 <= i < cands.len(),
                    *parts == cands[i as int].content.parts,
                    0 <= j <= parts@.len(),
                    res@ == collect_parts(cands.take(i as int), as_thought()) + parts@.take(
                        j as int,
                    ).filter_map(as_thought()),
                decreases parts@.len() - j,
            {
                proof {
                    parts@.lemma_filter_map_take_succ(as_thought(), j as int);
                }
                match &parts[j] {
                    Part::Text { text, thought: Some(true) } => {
                        res.push(text.clone());
                    },
                    _ => {},
                }
                j += 1;
            }
            proof {
                assert(cands.take(i + 1).drop_last() == cands.take(i as int));
                assert(parts@.take(parts@.len() as int) == parts@);
            }
            i += 1;
        }
        proof {
            assert(cands.take(cands.len() as int) == cands);
        }
        res
    }

    /// Get all text parts (both regular text and thoughts), each with
    /// whether it is a thought summary.
    pub fn all_text(&self) -> (res: Vec<(String, bool)>)
        ensures
            res@ == self.text_entries(),
    {
        let ghost cands = self.candidates@;
        let mut res: Vec<(String, bool)> = Vec::new();
        let mut i: usize = 0;
        while i < self.candidates.len()
            invariant
                cands == self.candidates@,
                0 <= i <= cands.len(),
                res@ == collect_parts(cands.take(i as int), as_text_entry()),
            decreases cands.len() - i,
        {
            let parts = &self.candidates[i].content.parts;
            let mut j: usize = 0;
            while j < parts.len()
                invariant
                    cands == self.candidates@,
                    0 <= i < cands.len(),
                    *parts == cands[i as int].content.parts,
                    0 <= j <= parts@.len(),
                    res@ == collect_parts(cands.take(i as int), as_text_entry()) + parts@.take(
                        j as int,
                    ).filter_map(as_text_entry()),
                decreases parts@.len() - j,
            {
                proof {
                    parts@.lemma_filter_map_take_succ(as_text_entry(), j as int);
                }
                match &parts[j] {
                    Part::Text { text, thought } => {
                        let is_thought = match thought {
                            Some(b) => *b,
                            None => false,
                        };
                        res.push((text.clone(), is_thought));
                    },
                    _ => {},
                }
                j += 1;
            }
            proof {
                assert(cands.take(i + 1).drop_last() == cands.take(i as int));
                assert(parts@.take(parts@.len() as int) == parts@);
            }
            i += 1;
        }
        proof {
            assert(cands.take(cands.len() as int) == cands);
        }
        res
    }
}

/// Request to embed words.
#[derive(Debug, Clone)]
pub struct EmbedContentRequest {
    /// The specified embedding model
    pub model: String,
    /// The chunks content to generate embeddings
    pub content: Content,
    /// The embedding task type (optional)
    pub task_type: Option<TaskType>,
    /// The title of the document (optional)
    pub title: Option<String>,
    /// The output_dimensionality (optional)
    pub output_dimensionality: Option<i32>,
}

/// Request to batch embed requests.
#[derive(Debug, Clone)]
pub struct BatchEmbedContentsRequest {
    /// The list of embed requests
    pub requests: Vec<EmbedContentRequest>,
}

/// Response from the Gemini API for batch content generation.
#[derive(Debug, Clone)]
pub struct BatchGenerateContentResponse {
    /// The generated responses
    pub generation_responses: Vec<GenerationResponse>,
}

/// Configuration for thinking (Gemini 2.5 series only).
#[derive(Debug, Clone)]
pub struct ThinkingConfig {
    /// The thinking budget (number of thinking tokens)
    ///
    /// - Set to 0 to disable thinking
    /// - Set to -1 for dynamic thinking (model decides)
    /// - Set to a positive number for a specific token budget
    ///
    /// Model-specific ranges:
    /// - 2.5 Pro: 128 to 32768 (cannot disable thinking)
    /// - 2.5 Flash: 0 to 24576
    /// - 2.5 Flash Lite: 512 to 24576
    pub thinking_budget: Option<i32>,
    /// Whether to include thought summaries in the response
    ///
    /// When enabled, the response will include synthesized versions of the model's
    /// raw thoughts, providing insights into the reasoning process.
    pub include_thoughts: Option<bool>,
}

impl ThinkingConfig {
    /// The configuration with neither a budget nor a choice about thought
    /// summaries.
    pub open spec fn unset() -> Self {
        ThinkingConfig { thinking_budget: None, include_thoughts: None }
    }

    /// This configuration with the thinking budget set to `budget`.
    pub open spec fn budget_set(self, budget: i32) -> Self {
        ThinkingConfig { thinking_budget: Some(budget), ..self }
    }

    /// This configuration with the choice about thought summaries set.
    pub open spec fn thoughts_set(self, enabled: bool) -> Self {
        ThinkingConfig { include_thoughts: Some(enabled), ..self }
    }

    /// Create a new thinking config with default settings: neither a budget
    /// nor a choice about thought summaries.
    pub fn new() -> (res: Self)
        ensures
            res == Self::unset(),
            res.thinking_budget is None,
            res.include_thoughts is None,
    {
        ThinkingConfig { thinking_budget: None, include_thoughts: None }
    }

    /// Set the thinking budget.
    pub fn with_thinking_budget(self, budget: i32) -> (res: Self)
        ensures
            res == self.budget_set(budget),
            res.thinking_budget == Some(budget),
            res.include_thoughts == self.include_thoughts,
    {
        let mut this = self;
        this.thinking_budget = Some(budget);
        this
    }

    /// Enable dynamic thinking (model decides the budget).
    /// The same as `with_thinking_budget(-1)`.
    pub fn with_dynamic_thinking(self) -> (res: Self)
        ensures
            res == self.budget_set(-1i32),
            res.thinking_budget == Some(-1i32),
            res.include_thoughts == self.include_thoughts,
    {
        let mut this = self;
        this.thinking_budget = Some(-1);
        this
    }

    /// Include thought summaries in the response.
    pub fn with_thoughts_included(self, enabled: bool) -> (res: Self)
        ensures
            res == self.thoughts_set(enabled),
            res.include_thoughts == Some(enabled),
            res.thinking_budget == self.thinking_budget,
    {
        let mut this = self;
        this.include_thoughts = Some(enabled);
        this
    }
}

impl Default for ThinkingConfig {
    /// The same as `ThinkingConfig::new()`.
    fn default() -> (res: Self)
        ensures
            res == Self::unset(),
            res.thinking_budget is None,
            res.include_thoughts is None,
    {
        Self::new()
    }
}

/// Configuration for tools.
#[derive(Debug, Clone)]
pub struct ToolConfig {
    /// The function calling config
    pub function_calling_config: Option<FunctionCallingConfig>,
}

/// Configuration for function calling.
#[derive(Debug, Clone)]
pub struct FunctionCallingConfig {
    /// The mode for function calling
    pub mode: FunctionCallingMode,
}

/// Mode for function calling.
#[derive(Debug, Clone)]
pub enum FunctionCallingMode {
    /// The model may use function calling
    Auto,
    /// The model must use function calling
    Any,
    /// The model must not use function calling (sent as `NONE`)
    Disabled,
}

/// Setting for safety.
#[derive(Debug, Clone)]
pub struct SafetySetting {
    /// The category of content to filter
    pub category: HarmCategory,
    /// The threshold for filtering
    pub threshold: HarmBlockThreshold,
}

/// Category of harmful content.
#[derive(Debug, Clone)]
pub enum HarmCategory {
    /// Dangerous content
    Dangerous,
    /// Harassment content
    Harassment,
    /// Hate speech
    HateSpeech,
    /// Sexually explicit content
    SexuallyExplicit,
}

/// Threshold for blocking harmful content.
#[derive(Debug, Clone)]
pub enum HarmBlockThreshold {
    /// Block content with low probability of harm
    BlockLowAndAbove,
    /// Block content with medium probability of harm
    BlockMediumAndAbove,
    /// Block content with high probability of harm
    BlockHighAndAbove,
    /// Block content with maximum probability of harm
    BlockOnlyHigh,
    /// Never block content
    BlockNone,
}

/// Embedding task types.
#[derive(Debug, Clone)]
pub enum TaskType {
    /// Used to generate embeddings that are optimized to assess text similarity
    SemanticSimilarity,
    /// Used to generate embeddings that are optimized to classify texts according to preset labels
    Classification,
    /// Used to generate embeddings that are optimized to cluster texts based on their similarities
    Clustering,
    /// Used to generate embeddings that are optimized for document search or information retrieval.
    RetrievalDocument,
    /// Used to generate embeddings for queries in information retrieval.
    RetrievalQuery,
    /// Used to generate embeddings for questions to be answered.
    QuestionAnswering,
    /// Used to generate embeddings for statements to be verified.
    FactVerification,
    /// Used to retrieve a code block based on a natural language query, such as sort an array or reverse a linked list.
    /// Embeddings of the code blocks are computed using RETRIEVAL_DOCUMENT.
    CodeRetrievalQuery,
}

} // verus!
