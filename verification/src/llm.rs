use vstd::prelude::*;
use crate::text::{byte_prefix, cut_on_boundary, decimal, owned, push_decimal, str_eq, take_bytes};

verus! {

/// Author of a chat message.
#[derive(Debug, Clone, Copy, PartialEq, Eq, Structural)]
pub enum MessageRole {
    System,
    User,
    Assistant,
}

/// The lower-case name of a role.
pub open spec fn role_name(r: MessageRole) -> Seq<char> {
    match r {
        MessageRole::System => "system"@,
        MessageRole::User => "user"@,
        MessageRole::Assistant => "assistant"@,
    }
}

impl MessageRole {
    /// The lower-case name of the role.
    pub fn as_str(&self) -> (s: &'static str)
        ensures
            s@ == role_name(*self),
    {
        match self {
            MessageRole::System => "system",
            MessageRole::User => "user",
            MessageRole::Assistant => "assistant",
        }
    }
}

/// A chat message.
pub struct ChatMessage {
    pub role: MessageRole,
    pub content: String,
}

/// A message as one prompt line: `role: content`.
pub open spec fn prompt_line(m: ChatMessage) -> Seq<char> {
    role_name(m.role) + ": "@ + m.content@
}

/// The lines of the messages joined by newlines.
pub open spec fn chat_prompt(ms: Seq<ChatMessage>) -> Seq<char>
    decreases ms.len(),
{
    if ms.len() == 0 {
        Seq::empty()
    } else if ms.len() == 1 {
        prompt_line(ms[0])
    } else {
        chat_prompt(ms.drop_last()) + "\n"@ + prompt_line(ms.last())
    }
}

/// The prompt for a chat: one `role: content` line per message.
pub fn format_chat_prompt(messages: &[ChatMessage]) -> (r: String)
    ensures
        r@ == chat_prompt(messages@),
{
    let mut out = String::new();
    let mut i: usize = 0;
    while i < messages.len()
        invariant
            i <= messages@.len(),
            out@ == chat_prompt(messages@.take(i as int)),
        decreases messages.len() - i,
    {
        let ghost prev = out@;
        if i > 0 {
            out.append("\n");
        }
        out.append(messages[i].role.as_str());
        out.append(": ");
        out.append(messages[i].content.as_str());
        let ghost t = messages@.take(i + 1);
        assert(t.drop_last() =~= messages@.take(i as int));
        assert(t.last() == messages@[i as int]);
        if i == 0 {
            assert(out@ =~= prompt_line(messages@[0]));
        } else {
            assert(out@ =~= prev + "\n"@ + prompt_line(messages@[i as int]));
        }
        i = i + 1;
    }
    assert(messages@.take(i as int) =~= messages@);
    out
}

/// The tag that opens a message of role `r` in the chat template.
pub open spec fn role_tag(r: MessageRole) -> Seq<char> {
    match r {
        MessageRole::System => "<|system|>\n"@,
        MessageRole::User => "<|user|>\n"@,
        MessageRole::Assistant => "<|assistant|>\n"@,
    }
}

/// The messages in the chat template: each as its role's tag, its text and
/// a newline.
pub open spec fn template_messages(ms: Seq<ChatMessage>) -> Seq<char>
    decreases ms.len(),
{
    if ms.len() == 0 {
        Seq::empty()
    } else {
        template_messages(ms.drop_last()) + role_tag(ms.last().role) + ms.last().content@ + "\n"@
    }
}

impl MessageRole {
    /// The tag that opens a message of this role in the chat template.
    pub fn tag(&self) -> (s: &'static str)
        ensures
            s@ == role_tag(*self),
    {
        match self {
            MessageRole::System => "<|system|>\n",
            MessageRole::User => "<|user|>\n",
            MessageRole::Assistant => "<|assistant|>\n",
        }
    }
}

/// The prompt that a local model is given for a chat: the messages in the
/// chat template, then the tag that opens the assistant's answer.
pub fn build_prompt(messages: &[ChatMessage]) -> (r: String)
    ensures
        r@ == template_messages(messages@) + "<|assistant|>\n"@,
{
    let mut out = String::new();
    let mut i: usize = 0;
    while i < messages.len()
        invariant
            i <= messages@.len(),
            out@ == template_messages(messages@.take(i as int)),
        decreases messages.len() - i,
    {
        let ghost prev = out@;
        out.append(messages[i].role.tag());
        out.append(messages[i].content.as_str());
        out.append("\n");
        let ghost t = messages@.take(i + 1);
        assert(t.drop_last() =~= messages@.take(i as int));
        assert(t.last() == messages@[i as int]);
        assert(out@ =~= prev + role_tag(messages@[i as int].role) + messages@[i as int].content@ + "\n"@);
        i = i + 1;
    }
    assert(messages@.take(i as int) =~= messages@);
    out.append("<|assistant|>\n");
    out
}

/// Description of a model.
pub struct ModelInfo {
    pub name: String,
    pub version: String,
    pub parameters: String,
    pub context_length: usize,
    pub device: String,
}

/// A model that answers with fixed texts, for tests.
pub struct MockLlm;

impl MockLlm {
    /// The fixed answer to a prompt, quoting its first 50 bytes.
    pub fn generate(&self, prompt: &str) -> (r: String)
        requires
            cut_on_boundary(prompt@, 50),
        ensures
            r@ == "Mock response for: "@ + byte_prefix(prompt@, 50),
    {
        let mut r = "Mock response for: ".to_string();
        let head = take_bytes(prompt, 50);
        r.append(head.as_str());
        r
    }

    /// The fixed chat answer, naming the number of messages.
    pub fn chat(&self, messages: &[ChatMessage]) -> (r: String)
        ensures
            r@ == "Mock chat response to "@ + decimal(messages@.len()) + " messages"@,
    {
        let mut r = "Mock chat response to ".to_string();
        push_decimal(&mut r, messages.len() as u128);
        r.append(" messages");
        r
    }

    /// Every text has the tokens 1, 2, 3.
    pub fn tokenize(&self, _text: &str) -> (r: Vec<u32>)
        ensures
            r@ == seq![1u32, 2u32, 3u32],
    {
        let r = vec![1u32, 2u32, 3u32];
        assert(r@ =~= seq![1u32, 2u32, 3u32]);
        r
    }

    /// Every token sequence decodes to the same text.
    pub fn decode(&self, _tokens: &[u32]) -> (r: String)
        ensures
            r@ == "Mock decoded text"@,
    {
        "Mock decoded text".to_string()
    }

    /// The mock is always loaded.
    pub fn is_loaded(&self) -> (r: bool)
        ensures
            r,
    {
        true
    }

    /// The mock's description.
    pub fn model_info(&self) -> (m: ModelInfo)
        ensures
            m.name@ == "Mock Model"@,
            m.version@ == "1.0"@,
            m.parameters@ == "0B"@,
            m.context_length == 1024,
            m.device@ == "Mock"@,
    {
        ModelInfo {
            name: "Mock Model".to_string(),
            version: "1.0".to_string(),
            parameters: "0B".to_string(),
            context_length: 1024,
            device: "Mock".to_string(),
        }
    }
}

/// Why a model could not be made active.
#[derive(Debug)]
pub enum LlmError {
    /// No model is registered under this name.
    ModelNotFound(String),
}

/// Whether a model is registered under `name`.
pub open spec fn has_model<M>(ms: Seq<(Seq<char>, M)>, name: Seq<char>) -> bool {
    exists|i: int| 0 <= i < ms.len() && (#[trigger] ms[i]).0 == name
}

/// Where the model named `name` is.
pub open spec fn model_index<M>(ms: Seq<(Seq<char>, M)>, name: Seq<char>) -> int {
    choose|i: int| 0 <= i < ms.len() && (#[trigger] ms[i]).0 == name
}

/// No two models share a name.
pub open spec fn names_distinct<M>(ms: Seq<(Seq<char>, M)>) -> bool {
    forall|a: int, b: int| 0 <= a < b < ms.len() ==> (#[trigger] ms[a]).0 != (#[trigger] ms[b]).0
}

/// The models after `model` is registered under `name`: it replaces a model
/// of that name or is added last.
pub open spec fn registered<M>(ms: Seq<(Seq<char>, M)>, name: Seq<char>, model: M) -> Seq<(Seq<char>, M)> {
    if has_model(ms, name) { ms.update(model_index(ms, name), (name, model)) } else { ms.push((name, model)) }
}

/// Models by name, one of them active: the first registered, until another
/// is chosen.
pub struct LlmManager<M> {
    models: Vec<(String, M)>,
    active_model: Option<String>,
}

impl<M> LlmManager<M> {
    /// The registered models, in registration order.
    pub closed spec fn models(&self) -> Seq<(Seq<char>, M)> {
        self.models@.map_values(|p: (String, M)| (p.0@, p.1))
    }

    /// The name of the active model, if any.
    pub closed spec fn active(&self) -> Option<Seq<char>> {
        match self.active_model {
            Some(n) => Some(n@),
            None => None,
        }
    }

    /// Names are unique and the active name is registered.
    pub closed spec fn wf(&self) -> bool {
        &&& names_distinct(self.models())
        &&& (self.active() matches Some(n) ==> has_model(self.models(), n))
    }

    /// No models, none active.
    pub fn new() -> (m: Self)
        ensures
            m.wf(),
            m.models().len() == 0,
            m.active() is None,
    {
        let m = LlmManager { models: Vec::new(), active_model: None };
        assert(m.models() =~= Seq::<(Seq<char>, M)>::empty());
        m
    }

    fn find(&self, name: &str) -> (r: Option<usize>)
        requires
            names_distinct(self.models()),
        ensures
            match r {
                Some(i) => i < self.models().len() && self.models()[i as int].0 == name@ && has_model(self.models(), name@)
                    && model_index(self.models(), name@) == i,
                None => !has_model(self.models(), name@),
            },
    {
        let ghost ms = self.models();
        let mut i: usize = 0;
        while i < self.models.len()
            invariant
                ms == self.models(),
                names_distinct(ms),
                i <= ms.len(),
                forall|k: int| 0 <= k < i ==> (#[trigger] ms[k]).0 != name@,
            decreases self.models.len() - i,
        {
            assert(ms[i as int].0 == self.models@[i as int].0@);
            if str_eq(self.models[i].0.as_str(), name) {
                assert(has_model(ms, name@));
                let ghost j = model_index(ms, name@);
                assert(j == i as int) by {
                    if j < i {
                        assert(ms[j].0 != name@);
                    } else if j > i {
                        assert(ms[i as int].0 != ms[j].0);
                    }
                }
                return Some(i);
            }
            i = i + 1;
        }
        None
    }

    /// Register `model` under `name`, replacing a model of that name; the
    /// first model registered becomes active.
    pub fn register_model(&mut self, name: String, model: M)
        requires
            old(self).wf(),
        ensures
            final(self).wf(),
            final(self).models() == registered(old(self).models(), name@, model),
            final(self).active() == if old(self).active() is None { Some(name@) } else { old(self).active() },
    {
        let ghost ms = self.models();
        let ghost nm = name@;
        if self.active_model.is_none() {
            self.active_model = Some(owned(name.as_str()));
        }
        match self.find(name.as_str()) {
            Some(i) => {
                self.models.set(i, (name, model));
                assert(self.models() =~= ms.update(i as int, (nm, model)));
                assert forall|a: int, b: int| 0 <= a < b < self.models().len() implies
                    (#[trigger] self.models()[a]).0 != (#[trigger] self.models()[b]).0 by {
                    assert(ms[a].0 != ms[b].0);
                }
            },
            None => {
                self.models.push((name, model));
                assert(self.models() =~= ms.push((nm, model)));
                assert forall|a: int, b: int| 0 <= a < b < self.models().len() implies
                    (#[trigger] self.models()[a]).0 != (#[trigger] self.models()[b]).0 by {
                    if b < ms.len() {
                        assert(ms[a].0 != ms[b].0);
                    } else {
                        assert(ms[a].0 != nm);
                    }
                }
            },
        }
        proof {
            let ms2 = self.models();
            if let Some(n) = self.active() {
                if n == nm {
                    if has_model(ms, nm) {
                        assert(ms2[model_index(ms, nm)].0 == nm);
                    } else {
                        assert(ms2[ms.len() as int].0 == nm);
                    }
                } else {
                    let k = model_index(ms, n);
                    assert(ms[k].0 == n);
                    assert(ms2[k].0 == n);
                }
            }
        }
    }

    /// Make the model `name` active; refused when no model has that name.
    pub fn set_active_model(&mut self, name: &str) -> (r: Result<(), LlmError>)
        requires
            old(self).wf(),
        ensures
            final(self).wf(),
            final(self).models() == old(self).models(),
            r is Ok <==> has_model(old(self).models(), name@),
            r is Ok ==> final(self).active() == Some(name@),
            r matches Err(LlmError::ModelNotFound(n)) ==> n@ == name@ && final(self).active() == old(self).active(),
    {
        match self.find(name) {
            Some(_) => {
                self.active_model = Some(owned(name));
                Ok(())
            },
            None => Err(LlmError::ModelNotFound(owned(name))),
        }
    }

    /// The active model, if any.
    pub fn get_active_model(&self) -> (r: Option<&M>)
        requires
            self.wf(),
        ensures
            match self.active() {
                Some(n) => r matches Some(m) && *m == self.models()[model_index(self.models(), n)].1,
                None => r is None,
            },
    {
        match &self.active_model {
            Some(n) => match self.find(n.as_str()) {
                Some(i) => Some(&self.models[i].1),
                None => None,
            },
            None => None,
        }
    }

    /// The registered names, in registration order.
    pub fn list_models(&self) -> (r: Vec<String>)
        ensures
            r@.map_values(|s: String| s@) == self.models().map_values(|p: (Seq<char>, M)| p.0),
    {
        let mut r: Vec<String> = Vec::new();
        let mut i: usize = 0;
        while i < self.models.len()
            invariant
                i <= self.models@.len(),
                r@.map_values(|s: String| s@) == self.models().take(i as int).map_values(|p: (Seq<char>, M)| p.0),
            decreases self.models.len() - i,
        {
            let ghost prev = r@;
            let x = owned(self.models[i].0.as_str());
            r.push(x);
            assert(r@.map_values(|s: String| s@) =~= prev.map_values(|s: String| s@).push(x@));
            i = i + 1;
            assert(r@.map_values(|s: String| s@) =~= self.models().take(i as int).map_values(|p: (Seq<char>, M)| p.0));
        }
        assert(self.models().take(i as int) =~= self.models());
        r
    }
}

/// After registering a model under a name, making that name active succeeds.
pub proof fn law_registered_model_can_be_activated<M>(ms: Seq<(Seq<char>, M)>, name: Seq<char>, model: M)
    ensures
        has_model(registered(ms, name, model), name),
{
    let r = registered(ms, name, model);
    if has_model(ms, name) {
        let i = model_index(ms, name);
        assert(r[i].0 == name);
    } else {
        assert(r[ms.len() as int].0 == name);
    }
}

/// Page features backed by a language model; without a model attached
/// they answer with fixed texts.
pub struct AiFeatures;

impl AiFeatures {
    /// A summary of the page content.
    pub fn summarize_page(&self, _content: &str) -> (r: Result<String, LlmError>)
        ensures
            r matches Ok(s) && s@ == "Summary placeholder"@,
    {
        Ok("Summary placeholder".to_string())
    }

    /// An answer to `question` about the page content.
    pub fn ask_about_page(&self, _content: &str, _question: &str) -> (r: Result<String, LlmError>)
        ensures
            r matches Ok(s) && s@ == "Answer placeholder"@,
    {
        Ok("Answer placeholder".to_string())
    }
}

} // verus!
