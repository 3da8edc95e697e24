use vstd::prelude::*;

verus! {

/// The result items of an image response, in the order they were sent.
pub type ResponseData = Vec<DataItem>;

/// One message of a conversation.
#[derive(Debug, Clone, PartialEq, Eq)]
pub struct MessageItem {
    pub role: String,
    pub content: String,
}

/// A [`MessageItem`] as two character sequences.
pub struct MessageView {
    pub role: Seq<char>,
    pub content: Seq<char>,
}

impl View for MessageItem {
    type V = MessageView;

    open spec fn view(&self) -> MessageView {
        MessageView { role: self.role@, content: self.content@ }
    }
}

impl MessageItem {
    pub fn new(role: String, content: String) -> (item: Self)
        ensures
            item@ == (MessageView { role: role@, content: content@ }),
    {
        Self { role, content }
    }
}

/// The messages of a sequence of message items.
pub open spec fn messages_view(items: Seq<MessageItem>) -> Seq<MessageView> {
    Seq::new(items.len(), |i: int| items[i]@)
}

/// One generated image: where to fetch it.
#[derive(Debug, Clone, PartialEq, Eq)]
pub struct DataItem {
    pub url: String,
}

/// The addresses of a sequence of result items.
pub open spec fn urls_view(items: Seq<DataItem>) -> Seq<Seq<char>> {
    Seq::new(items.len(), |i: int| items[i].url@)
}

/// What the image endpoint answers.
#[derive(Debug, Clone, PartialEq, Eq)]
pub struct ImageResponse {
    created: i32,
    pub data: ResponseData,
}

/// An [`ImageResponse`] as plain values: the creation time and the addresses.
pub struct ImageResponseView {
    pub created: int,
    pub urls: Seq<Seq<char>>,
}

impl View for ImageResponse {
    type V = ImageResponseView;

    closed spec fn view(&self) -> ImageResponseView {
        ImageResponseView { created: self.created as int, urls: urls_view(self.data@) }
    }
}

impl ImageResponse {
    pub fn new(created: i32, data: ResponseData) -> (response: Self)
        ensures
            response@ == (ImageResponseView { created: created as int, urls: urls_view(data@) }),
    {
        Self { created, data }
    }

    /// When the images were made, in seconds since the epoch.
    pub fn created(&self) -> (created: i32)
        ensures
            created == self@.created,
    {
        self.created
    }

    /// The result items, in the order they were sent.
    pub fn data(&self) -> (data: &ResponseData)
        ensures
            urls_view(data@) == self@.urls,
    {
        &self.data
    }
}

/// One candidate answer of a text response.
#[derive(Debug, Clone, PartialEq, Eq)]
pub struct CompletionChoice {
    pub message: MessageItem,
    finish_reason: String,
    index: i16,
}

/// A [`CompletionChoice`] as plain values.
pub struct ChoiceView {
    pub message: MessageView,
    pub finish_reason: Seq<char>,
    pub index: int,
}

impl View for CompletionChoice {
    type V = ChoiceView;

    closed spec fn view(&self) -> ChoiceView {
        ChoiceView {
            message: self.message@,
            finish_reason: self.finish_reason@,
            index: self.index as int,
        }
    }
}

impl CompletionChoice {
    pub fn new(message: MessageItem, finish_reason: String, index: i16) -> (choice: Self)
        ensures
            choice@ == (ChoiceView {
                message: message@,
                finish_reason: finish_reason@,
                index: index as int,
            }),
    {
        Self { message, finish_reason, index }
    }

    /// Why the model stopped writing this answer.
    pub fn finish_reason(&self) -> (reason: &String)
        ensures
            reason@ == self@.finish_reason,
    {
        &self.finish_reason
    }

    /// The position of this answer among its siblings.
    pub fn index(&self) -> (index: i16)
        ensures
            index == self@.index,
    {
        self.index
    }

    /// The message that this answer carries.
    pub fn message(&self) -> (message: &MessageItem)
        ensures
            message@ == self@.message,
    {
        &self.message
    }
}

/// A sequence of choices as plain values, in order.
pub open spec fn choices_view(choices: Seq<CompletionChoice>) -> Seq<ChoiceView> {
    Seq::new(choices.len(), |i: int| choices[i]@)
}

/// The messages that a sequence of choices carries, in order.
pub open spec fn messages_of(choices: Seq<ChoiceView>) -> Seq<MessageView> {
    Seq::new(choices.len(), |i: int| choices[i].message)
}

/// What the text endpoint answers.
#[derive(Debug, Clone, PartialEq, Eq)]
pub struct TextResponse {
    id: String,
    object: String,
    created: u32,
    model: String,
    pub choices: Vec<CompletionChoice>,
}

/// A [`TextResponse`] as plain values.
pub struct TextResponseView {
    pub id: Seq<char>,
    pub object: Seq<char>,
    pub created: int,
    pub model: Seq<char>,
    pub choices: Seq<ChoiceView>,
}

impl View for TextResponse {
    type V = TextResponseView;

    closed spec fn view(&self) -> TextResponseView {
        TextResponseView {
            id: self.id@,
            object: self.object@,
            created: self.created as int,
            model: self.model@,
            choices: choices_view(self.choices@),
        }
    }
}

impl TextResponse {
    pub fn new(
        id: String,
        object: String,
        created: u32,
        model: String,
        choices: Vec<CompletionChoice>,
    ) -> (response: Self)
        ensures
            response@ == (TextResponseView {
                id: id@,
                object: object@,
                created: created as int,
                model: model@,
                choices: choices_view(choices@),
            }),
    {
        Self { id, object, created, model, choices }
    }

    pub fn id(&self) -> (id: &String)
        ensures
            id@ == self@.id,
    {
        &self.id
    }

    pub fn object(&self) -> (object: &String)
        ensures
            object@ == self@.object,
    {
        &self.object
    }

    pub fn created(&self) -> (created: u32)
        ensures
            created == self@.created,
    {
        self.created
    }

    pub fn model(&self) -> (model: &String)
        ensures
            model@ == self@.model,
    {
        &self.model
    }

    /// The candidate answers, in the order they were sent.
    pub fn choices(&self) -> (choices: &Vec<CompletionChoice>)
        ensures
            choices_view(choices@) == self@.choices,
    {
        &self.choices
    }
}

/// The payload of an image request.
#[derive(Debug, Clone, PartialEq, Eq)]
pub struct ImageRequest {
    pub prompt: String,
    pub n: u32,
    pub size: String,
}

/// An [`ImageRequest`] as plain values.
pub struct ImageRequestView {
    pub prompt: Seq<char>,
    pub n: int,
    pub size: Seq<char>,
}

impl View for ImageRequest {
    type V = ImageRequestView;

    open spec fn view(&self) -> ImageRequestView {
        ImageRequestView { prompt: self.prompt@, n: self.n as int, size: self.size@ }
    }
}

/// The payload of a text request. The temperature is held in tenths, so
/// that 7 stands for 0.7.
#[derive(Debug, Clone, PartialEq, Eq)]
pub struct TextRequest {
    pub model: String,
    pub messages: Vec<MessageItem>,
    pub temperature_tenths: u32,
}

/// A [`TextRequest`] as plain values.
pub struct TextRequestView {
    pub model: Seq<char>,
    pub messages: Seq<MessageView>,
    pub temperature_tenths: int,
}

impl View for TextRequest {
    type V = TextRequestView;

    open spec fn view(&self) -> TextRequestView {
        TextRequestView {
            model: self.model@,
            messages: messages_view(self.messages@),
            temperature_tenths: self.temperature_tenths as int,
        }
    }
}

} // verus!
