//! Messages: the primary unit of communication between client and agent.

use vstd::prelude::*;
use crate::json::{JsonValue, JsonView};

verus! {

broadcast use vstd::std_specs::vec::group_vec_axioms, vstd::seq::group_seq_axioms;

/// Role of a message sender.
#[derive(Debug, Clone, Copy, PartialEq, Eq, Structural, Hash)]
pub enum Role {
    /// Message from a user.
    User,
    /// Message from an agent.
    Agent,
}

impl View for Role {
    type V = Role;

    open spec fn view(&self) -> Role {
        *self
    }
}

impl DeepView for Role {
    type V = Role;

    open spec fn deep_view(&self) -> Role {
        *self
    }
}

/// Mathematical model of a [`FileContent`].
pub struct FileContentView {
    pub media_type: Option<Seq<char>>,
    pub name: Seq<char>,
    pub file_with_uri: Option<Seq<char>>,
    pub file_with_bytes: Option<Seq<char>>,
}

/// File content of a file part: a name and a URI or base64 bytes.
#[derive(Debug, Clone, PartialEq)]
pub struct FileContent {
    /// MIME type of the file.
    pub media_type: Option<String>,
    /// Name of the file.
    pub name: String,
    /// URI reference to the file.
    pub file_with_uri: Option<String>,
    /// Base64-encoded file content.
    pub file_with_bytes: Option<String>,
}

impl View for FileContent {
    type V = FileContentView;

    open spec fn view(&self) -> FileContentView {
        FileContentView {
            media_type: self.media_type.deep_view(),
            name: self.name@,
            file_with_uri: self.file_with_uri.deep_view(),
            file_with_bytes: self.file_with_bytes.deep_view(),
        }
    }
}

impl DeepView for FileContent {
    type V = FileContentView;

    open spec fn deep_view(&self) -> FileContentView {
        self.view()
    }
}

/// Mathematical model of a [`MessagePart`].
pub enum MessagePartView {
    Text { text: Seq<char> },
    File { file: FileContentView },
    Data { data: JsonView },
}

/// A part of a message: exactly one of text, file, or data.
#[derive(Debug, Clone, PartialEq)]
pub enum MessagePart {
    /// Text content.
    Text {
        /// The text content.
        text: String,
    },
    /// File reference.
    File {
        /// The file content.
        file: FileContent,
    },
    /// Structured data.
    Data {
        /// The structured data.
        data: JsonValue,
    },
}

impl View for MessagePart {
    type V = MessagePartView;

    open spec fn view(&self) -> MessagePartView {
        match self {
            MessagePart::Text { text } => MessagePartView::Text { text: text@ },
            MessagePart::File { file } => MessagePartView::File { file: file@ },
            MessagePart::Data { data } => MessagePartView::Data { data: data@ },
        }
    }
}

impl DeepView for MessagePart {
    type V = MessagePartView;

    open spec fn deep_view(&self) -> MessagePartView {
        self.view()
    }
}

impl MessagePart {
    /// A text part.
    pub fn text(text: &str) -> (r: Self)
        ensures
            r@ == (MessagePartView::Text { text: text@ }),
    {
        MessagePart::Text { text: text.to_owned() }
    }

    /// A file part referring to a URI.
    pub fn file(name: &str, file_uri: &str) -> (r: Self)
        ensures
            r@ == (MessagePartView::File {
                file: FileContentView {
                    media_type: None,
                    name: name@,
                    file_with_uri: Some(file_uri@),
                    file_with_bytes: None,
                },
            }),
    {
        MessagePart::File {
            file: FileContent {
                media_type: None,
                name: name.to_owned(),
                file_with_uri: Some(file_uri.to_owned()),
                file_with_bytes: None,
            },
        }
    }

    /// A file part referring to a URI, with a media type.
    pub fn file_with_type(name: &str, file_uri: &str, media_type: &str) -> (r: Self)
        ensures
            r@ == (MessagePartView::File {
                file: FileContentView {
                    media_type: Some(media_type@),
                    name: name@,
                    file_with_uri: Some(file_uri@),
                    file_with_bytes: None,
                },
            }),
    {
        MessagePart::File {
            file: FileContent {
                media_type: Some(media_type.to_owned()),
                name: name.to_owned(),
                file_with_uri: Some(file_uri.to_owned()),
                file_with_bytes: None,
            },
        }
    }

    /// A file part carrying base64-encoded bytes.
    pub fn file_with_bytes(name: &str, file_bytes: &str, media_type: Option<String>) -> (r: Self)
        ensures
            r@ == (MessagePartView::File {
                file: FileContentView {
                    media_type: media_type.deep_view(),
                    name: name@,
                    file_with_uri: None,
                    file_with_bytes: Some(file_bytes@),
                },
            }),
    {
        MessagePart::File {
            file: FileContent {
                media_type,
                name: name.to_owned(),
                file_with_uri: None,
                file_with_bytes: Some(file_bytes.to_owned()),
            },
        }
    }

    /// A data part.
    pub fn data(data: JsonValue) -> (r: Self)
        ensures
            r@ == (MessagePartView::Data { data: data@ }),
    {
        MessagePart::Data { data }
    }
}

/// Mathematical model of a [`Message`].
pub struct MessageView {
    pub role: Role,
    pub parts: Seq<MessagePartView>,
    pub message_id: Option<Seq<char>>,
    pub task_id: Option<Seq<char>>,
    pub context_id: Option<Seq<char>>,
    pub metadata: Option<Seq<(Seq<char>, JsonView)>>,
    pub extensions: Option<Seq<(Seq<char>, JsonView)>>,
}

impl MessageView {
    /// The message invariant: at least one part.
    pub open spec fn wf(self) -> bool {
        self.parts.len() >= 1
    }
}

/// A message: a role, one or more parts, optional correlation identifiers,
/// and free-form metadata and extensions.
#[derive(Debug, Clone, PartialEq)]
pub struct Message {
    /// Role of the sender.
    pub role: Role,
    /// Message content parts; at least one.
    pub parts: Vec<MessagePart>,
    /// Optional message identifier.
    pub message_id: Option<String>,
    /// Optional task identifier.
    pub task_id: Option<String>,
    /// Optional context identifier for multi-turn conversations.
    pub context_id: Option<String>,
    /// Optional metadata, keyed by name.
    pub metadata: Option<Vec<(String, JsonValue)>>,
    /// Optional extensions, keyed by name.
    pub extensions: Option<Vec<(String, JsonValue)>>,
}

impl View for Message {
    type V = MessageView;

    open spec fn view(&self) -> MessageView {
        MessageView {
            role: self.role,
            parts: self.parts.deep_view(),
            message_id: self.message_id.deep_view(),
            task_id: self.task_id.deep_view(),
            context_id: self.context_id.deep_view(),
            metadata: self.metadata.deep_view(),
            extensions: self.extensions.deep_view(),
        }
    }
}

impl DeepView for Message {
    type V = MessageView;

    open spec fn deep_view(&self) -> MessageView {
        self.view()
    }
}

/// Update the first pair holding the key, or append a new pair.
pub open spec fn spec_upsert(
    ms: Seq<(Seq<char>, JsonView)>,
    key: Seq<char>,
    value: JsonView,
) -> Seq<(Seq<char>, JsonView)>
    decreases ms.len(),
{
    if ms.len() == 0 {
        seq![(key, value)]
    } else if ms[0].0 == key {
        seq![(key, value)] + ms.drop_first()
    } else {
        seq![ms[0]] + spec_upsert(ms.drop_first(), key, value)
    }
}

proof fn lemma_upsert_update(ms: Seq<(Seq<char>, JsonView)>, key: Seq<char>, value: JsonView, i: int)
    requires
        0 <= i < ms.len(),
        ms[i].0 == key,
        forall|j: int| 0 <= j < i ==> ms[j].0 != key,
    ensures
        spec_upsert(ms, key, value) == ms.update(i, (key, value)),
    decreases i,
{
    if i == 0 {
        assert(spec_upsert(ms, key, value) =~= ms.update(0, (key, value)));
    } else {
        lemma_upsert_update(ms.drop_first(), key, value, i - 1);
        assert(ms.update(i, (key, value)).drop_first() =~= ms.drop_first().update(
            i - 1,
            (key, value),
        ));
        assert(spec_upsert(ms, key, value) =~= ms.update(i, (key, value)));
    }
}

proof fn lemma_upsert_append(ms: Seq<(Seq<char>, JsonView)>, key: Seq<char>, value: JsonView)
    requires
        forall|j: int| 0 <= j < ms.len() ==> ms[j].0 != key,
    ensures
        spec_upsert(ms, key, value) == ms.push((key, value)),
    decreases ms.len(),
{
    if ms.len() == 0 {
        assert(spec_upsert(ms, key, value) =~= ms.push((key, value)));
    } else {
        lemma_upsert_append(ms.drop_first(), key, value);
        assert(ms.push((key, value)).drop_first() =~= ms.drop_first().push((key, value)));
        assert(spec_upsert(ms, key, value) =~= ms.push((key, value)));
    }
}

/// Insert a pair into a key-value vector, replacing the first pair with the
/// same key if one exists.
#[verifier::loop_isolation(false)]
pub fn upsert_pair(ms: &mut Vec<(String, JsonValue)>, key: &str, value: JsonValue) -> (nothing: ())
    ensures
        final(ms).deep_view() == spec_upsert(old(ms).deep_view(), key@, value@),
{
    let key_owned = key.to_owned();
    let ghost gms = ms.deep_view();
    let mut i: usize = 0;
    while i < ms.len()
        invariant
            i <= ms@.len(),
            gms.len() == ms@.len(),
            forall|j: int| 0 <= j < gms.len() ==> gms[j] == (ms@[j].0@, ms@[j].1@),
            forall|j: int| 0 <= j < i ==> gms[j].0 != key@,
        decreases ms@.len() - i,
    {
        if ms[i].0 == key_owned {
            ms.remove(i);
            ms.insert(i, (key_owned, value));
            proof {
                lemma_upsert_update(gms, key@, value@, i as int);
                assert(ms.deep_view() =~= gms.update(i as int, (key@, value@)));
            }
            return ();
        }
        i += 1;
    }
    ms.push((key_owned, value));
    proof {
        lemma_upsert_append(gms, key@, value@);
        assert(ms.deep_view() =~= gms.push((key@, value@)));
    }
}

impl Message {
    /// A message with one text part.
    pub fn new(role: Role, text: &str) -> (r: Self)
        ensures
            r@ == (MessageView {
                role,
                parts: seq![MessagePartView::Text { text: text@ }],
                message_id: None,
                task_id: None,
                context_id: None,
                metadata: None,
                extensions: None,
            }),
            r@.wf(),
    {
        let mut parts: Vec<MessagePart> = Vec::new();
        parts.push(MessagePart::text(text));
        let r = Message {
            role,
            parts,
            message_id: None,
            task_id: None,
            context_id: None,
            metadata: None,
            extensions: None,
        };
        proof {
            assert(r@.parts =~= seq![MessagePartView::Text { text: text@ }]);
        }
        r
    }

    /// A user message with one text part.
    pub fn user(text: &str) -> (r: Self)
        ensures
            r@ == (MessageView {
                role: Role::User,
                parts: seq![MessagePartView::Text { text: text@ }],
                message_id: None,
                task_id: None,
                context_id: None,
                metadata: None,
                extensions: None,
            }),
            r@.wf(),
    {
        Message::new(Role::User, text)
    }

    /// An agent message with one text part.
    pub fn agent(text: &str) -> (r: Self)
        ensures
            r@ == (MessageView {
                role: Role::Agent,
                parts: seq![MessagePartView::Text { text: text@ }],
                message_id: None,
                task_id: None,
                context_id: None,
                metadata: None,
                extensions: None,
            }),
            r@.wf(),
    {
        Message::new(Role::Agent, text)
    }

    /// A builder for messages.
    pub fn builder() -> (r: MessageBuilder)
        ensures
            r@ == (MessageBuilderView {
                role: None,
                parts: Seq::empty(),
                message_id: None,
                task_id: None,
                context_id: None,
                metadata: None,
                extensions: None,
            }),
    {
        MessageBuilder::new()
    }

    /// The message with one metadata entry inserted.
    pub fn with_metadata(self, key: &str, value: JsonValue) -> (r: Self)
        ensures
            r@ == (MessageView {
                metadata: Some(
                    spec_upsert(
                        match self@.metadata {
                            Some(m) => m,
                            None => Seq::empty(),
                        },
                        key@,
                        value@,
                    ),
                ),
                ..self@
            }),
    {
        let mut m: Vec<(String, JsonValue)> = match self.metadata {
            Some(m) => m,
            None => Vec::new(),
        };
        let ghost gm = m.deep_view();
        proof {
            assert(gm =~= match self@.metadata {
                Some(prior) => prior,
                None => Seq::empty(),
            });
        }
        upsert_pair(&mut m, key, value);
        Message { metadata: Some(m), ..self }
    }

    /// The message with one extension entry inserted.
    pub fn with_extension(self, key: &str, value: JsonValue) -> (r: Self)
        ensures
            r@ == (MessageView {
                extensions: Some(
                    spec_upsert(
                        match self@.extensions {
                            Some(m) => m,
                            None => Seq::empty(),
                        },
                        key@,
                        value@,
                    ),
                ),
                ..self@
            }),
    {
        let mut m: Vec<(String, JsonValue)> = match self.extensions {
            Some(m) => m,
            None => Vec::new(),
        };
        let ghost gm = m.deep_view();
        proof {
            assert(gm =~= match self@.extensions {
                Some(prior) => prior,
                None => Seq::empty(),
            });
        }
        upsert_pair(&mut m, key, value);
        Message { extensions: Some(m), ..self }
    }

    /// The message with one more part appended.
    pub fn with_part(self, part: MessagePart) -> (r: Self)
        ensures
            r@ == (MessageView { parts: self@.parts.push(part@), ..self@ }),
            r@.wf(),
    {
        let mut parts = self.parts;
        let ghost gparts = parts.deep_view();
        parts.push(part);
        proof {
            assert(parts.deep_view() =~= gparts.push(part@));
        }
        Message { parts, ..self }
    }
}

/// Mathematical model of a [`MessageBuilder`].
pub struct MessageBuilderView {
    pub role: Option<Role>,
    pub parts: Seq<MessagePartView>,
    pub message_id: Option<Seq<char>>,
    pub task_id: Option<Seq<char>>,
    pub context_id: Option<Seq<char>>,
    pub metadata: Option<Seq<(Seq<char>, JsonView)>>,
    pub extensions: Option<Seq<(Seq<char>, JsonView)>>,
}

/// Builder for constructing messages field by field.
#[derive(Debug)]
pub struct MessageBuilder {
    /// Role of the sender, once set.
    pub role: Option<Role>,
    /// Parts collected so far.
    pub parts: Vec<MessagePart>,
    /// Optional message identifier.
    pub message_id: Option<String>,
    /// Optional task identifier.
    pub task_id: Option<String>,
    /// Optional context identifier.
    pub context_id: Option<String>,
    /// Optional metadata entries.
    pub metadata: Option<Vec<(String, JsonValue)>>,
    /// Optional extension entries.
    pub extensions: Option<Vec<(String, JsonValue)>>,
}

impl View for MessageBuilder {
    type V = MessageBuilderView;

    open spec fn view(&self) -> MessageBuilderView {
        MessageBuilderView {
            role: self.role.deep_view(),
            parts: self.parts.deep_view(),
            message_id: self.message_id.deep_view(),
            task_id: self.task_id.deep_view(),
            context_id: self.context_id.deep_view(),
            metadata: self.metadata.deep_view(),
            extensions: self.extensions.deep_view(),
        }
    }
}

impl MessageBuilder {
    /// An empty builder.
    pub fn new() -> (r: Self)
        ensures
            r@ == (MessageBuilderView {
                role: None,
                parts: Seq::empty(),
                message_id: None,
                task_id: None,
                context_id: None,
                metadata: None,
                extensions: None,
            }),
    {
        let r = MessageBuilder {
            role: None,
            parts: Vec::new(),
            message_id: None,
            task_id: None,
            context_id: None,
            metadata: None,
            extensions: None,
        };
        proof {
            assert(r@.parts =~= Seq::<MessagePartView>::empty());
        }
        r
    }

    /// Set the role.
    pub fn role(self, role: Role) -> (r: Self)
        ensures
            r@ == (MessageBuilderView { role: Some(role), ..self@ }),
    {
        MessageBuilder { role: Some(role), ..self }
    }

    /// Replace the parts.
    pub fn parts(self, parts: Vec<MessagePart>) -> (r: Self)
        ensures
            r@ == (MessageBuilderView { parts: parts.deep_view(), ..self@ }),
    {
        MessageBuilder { parts, ..self }
    }

    /// Append a single part.
    pub fn part(self, part: MessagePart) -> (r: Self)
        ensures
            r@ == (MessageBuilderView { parts: self@.parts.push(part@), ..self@ }),
    {
        let mut parts = self.parts;
        let ghost gparts = parts.deep_view();
        parts.push(part);
        proof {
            assert(parts.deep_view() =~= gparts.push(part@));
        }
        MessageBuilder { parts, ..self }
    }

    /// Set the message id.
    pub fn message_id(self, id: &str) -> (r: Self)
        ensures
            r@ == (MessageBuilderView { message_id: Some(id@), ..self@ }),
    {
        MessageBuilder { message_id: Some(id.to_owned()), ..self }
    }

    /// Set the task id.
    pub fn task_id(self, id: &str) -> (r: Self)
        ensures
            r@ == (MessageBuilderView { task_id: Some(id@), ..self@ }),
    {
        MessageBuilder { task_id: Some(id.to_owned()), ..self }
    }

    /// Set the context id.
    pub fn context_id(self, id: &str) -> (r: Self)
        ensures
            r@ == (MessageBuilderView { context_id: Some(id@), ..self@ }),
    {
        MessageBuilder { context_id: Some(id.to_owned()), ..self }
    }

    /// Insert one metadata entry.
    pub fn metadata(self, key: &str, value: JsonValue) -> (r: Self)
        ensures
            r@ == (MessageBuilderView {
                metadata: Some(
                    spec_upsert(
                        match self@.metadata {
                            Some(m) => m,
                            None => Seq::empty(),
                        },
                        key@,
                        value@,
                    ),
                ),
                ..self@
            }),
    {
        let mut m: Vec<(String, JsonValue)> = match self.metadata {
            Some(m) => m,
            None => Vec::new(),
        };
        let ghost gm = m.deep_view();
        proof {
            assert(gm =~= match self@.metadata {
                Some(prior) => prior,
                None => Seq::empty(),
            });
        }
        upsert_pair(&mut m, key, value);
        MessageBuilder { metadata: Some(m), ..self }
    }

    /// Insert one extension entry.
    pub fn extension(self, key: &str, value: JsonValue) -> (r: Self)
        ensures
            r@ == (MessageBuilderView {
                extensions: Some(
                    spec_upsert(
                        match self@.extensions {
                            Some(m) => m,
                            None => Seq::empty(),
                        },
                        key@,
                        value@,
                    ),
                ),
                ..self@
            }),
    {
        let mut m: Vec<(String, JsonValue)> = match self.extensions {
            Some(m) => m,
            None => Vec::new(),
        };
        let ghost gm = m.deep_view();
        proof {
            assert(gm =~= match self@.extensions {
                Some(prior) => prior,
                None => Seq::empty(),
            });
        }
        upsert_pair(&mut m, key, value);
        MessageBuilder { extensions: Some(m), ..self }
    }

    /// Build the message.
    ///
    /// The role must have been set and at least one part added.
    pub fn build(self) -> (r: Message)
        requires
            self@.role is Some,
            self@.parts.len() >= 1,
        ensures
            r@ == (MessageView {
                role: self@.role->0,
                parts: self@.parts,
                message_id: self@.message_id,
                task_id: self@.task_id,
                context_id: self@.context_id,
                metadata: self@.metadata,
                extensions: self@.extensions,
            }),
            r@.wf(),
    {
        let role = match self.role {
            Some(role) => role,
            None => Role::User,
        };
        Message {
            role,
            parts: self.parts,
            message_id: self.message_id,
            task_id: self.task_id,
            context_id: self.context_id,
            metadata: self.metadata,
            extensions: self.extensions,
        }
    }
}

} // verus!
