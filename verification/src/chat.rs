//! The chat session: its state, what an inbound frame does to it, and the
//! frames it sends.
//!
//! The session owns the roster and the message feed. It neither reads a
//! socket nor writes to one: [`Chat::update`] takes an event, changes the
//! state, and returns the [`Effect`] that the caller is to carry out.

use crate::json::{parsed, printed, JsonDoc};
use crate::roster::{
    avatar_in, distinct, law_roster_is_valid, lemma_distinct_is_idempotent, roster_of,
    roster_view, valid_roster, Roster, UserProfile, UserProfileView,
};
use crate::wire::{
    decode, decode_payload, decoded, encode, envelope_doc, law_roster_without_names_is_empty,
    payload_of, ChatMessage, ChatMessageView, DecodeError, Envelope, EnvelopeView,
};
use vstd::prelude::*;
use vstd::string::StrSliceExecFns;

verus! {

/// What the session is told.
#[derive(Debug, Clone, PartialEq, Eq)]
pub enum Msg {
    /// A frame has arrived from the server.
    HandleMsg(String),
    /// The user has submitted the input field.
    SubmitMessage,
}

/// What the caller is to do after a step of the session.
#[derive(Debug, Clone, PartialEq, Eq)]
pub enum Effect {
    /// The state has changed: render again.
    Render,
    /// Nothing has changed and nothing is to be done.
    Nothing,
    /// The frame was discarded: report the error and go on.
    Discard(DecodeError),
    /// Hand the frame to the transport, then clear the input field,
    /// whether or not the transport took the frame.
    Send(String),
}

/// An [`Effect`] as a mathematical value.
pub enum EffectView {
    Render,
    Nothing,
    Discard(DecodeError),
    Send(Seq<char>),
}

impl View for Effect {
    type V = EffectView;

    open spec fn view(&self) -> EffectView {
        match self {
            Effect::Render => EffectView::Render,
            Effect::Nothing => EffectView::Nothing,
            Effect::Discard(error) => EffectView::Discard(*error),
            Effect::Send(frame) => EffectView::Send(frame@),
        }
    }
}

impl Effect {
    /// Whether the state has changed, so that it is to be rendered again.
    pub fn should_render(&self) -> (render: bool)
        ensures
            render == (self@ is Render),
    {
        match self {
            Effect::Render => true,
            _ => false,
        }
    }
}

/// The state of a session as a mathematical value: the roster and the
/// messages in the order of their arrival.
pub struct ChatView {
    pub roster: Seq<UserProfileView>,
    pub messages: Seq<ChatMessageView>,
}

/// A vector of messages as a mathematical value.
pub open spec fn feed_view(messages: Seq<ChatMessage>) -> Seq<ChatMessageView> {
    Seq::new(messages.len(), |i: int| messages[i]@)
}

/// The state after an envelope has been dispatched.
///
/// A roster replaces the one before it, whole. A message whose `data` holds
/// a `{from, message}` pair is added at the end of the feed, whoever sent
/// it. Anything else, an inbound registration among it, changes nothing.
pub open spec fn applied(state: ChatView, envelope: EnvelopeView) -> ChatView {
    match envelope {
        EnvelopeView::Users { names } => ChatView {
            roster: roster_of(names),
            messages: state.messages,
        },
        EnvelopeView::Message { data } => match payload_of(data) {
            Ok(message) => ChatView {
                roster: state.roster,
                messages: state.messages.push(message),
            },
            Err(_) => state,
        },
        EnvelopeView::Register { .. } => state,
    }
}

/// The effect of dispatching an envelope.
pub open spec fn effect_of(envelope: EnvelopeView) -> EffectView {
    match envelope {
        EnvelopeView::Users { .. } => EffectView::Render,
        EnvelopeView::Message { data } => match payload_of(data) {
            Ok(_) => EffectView::Render,
            Err(error) => EffectView::Discard(error),
        },
        EnvelopeView::Register { .. } => EffectView::Nothing,
    }
}

/// The state and the effect after a frame has been received: a frame that
/// does not decode is discarded and leaves the state as it was.
pub open spec fn received(state: ChatView, text: Seq<char>) -> (ChatView, EffectView) {
    match decoded(text) {
        Ok(envelope) => (applied(state, envelope), effect_of(envelope)),
        Err(error) => (state, EffectView::Discard(error)),
    }
}

/// The frame that announces a user.
pub open spec fn register_frame(username: Seq<char>) -> Seq<char> {
    printed(envelope_doc(EnvelopeView::Register { username }))
}

/// The frame that carries what the user typed.
pub open spec fn message_frame(text: Seq<char>) -> Seq<char> {
    printed(envelope_doc(EnvelopeView::Message { data: text }))
}

/// The effect of a submit: the frame for the input's text, or nothing where
/// there is no input field.
pub open spec fn submitted(input: Option<Seq<char>>) -> EffectView {
    match input {
        Some(text) => EffectView::Send(message_frame(text)),
        None => EffectView::Nothing,
    }
}

/// The text of an optional string slice.
pub open spec fn input_view(input: Option<&str>) -> Option<Seq<char>> {
    match input {
        Some(text) => Some(text@),
        None => None,
    }
}

/// `text` ends with `suffix`.
pub open spec fn ends_with(text: Seq<char>, suffix: Seq<char>) -> bool {
    suffix.len() <= text.len() && text.subrange(text.len() - suffix.len(), text.len() as int)
        == suffix
}

/// A message body that ends in `.gif` is shown as an image.
pub open spec fn shows_image(message: Seq<char>) -> bool {
    ends_with(message, ".gif"@)
}

/// One message as it is to be shown.
#[derive(Debug, Clone, PartialEq, Eq)]
pub struct FeedEntry {
    /// The sender's name.
    pub from: String,
    /// The sender's avatar, `None` for a sender that the roster does not
    /// know.
    pub avatar: Option<String>,
    /// The body, as it arrived.
    pub message: String,
    /// Whether the body is the address of an image.
    pub image: bool,
}

/// A [`FeedEntry`] as a mathematical value.
pub struct FeedEntryView {
    pub from: Seq<char>,
    pub avatar: Option<Seq<char>>,
    pub message: Seq<char>,
    pub image: bool,
}

impl View for FeedEntry {
    type V = FeedEntryView;

    open spec fn view(&self) -> FeedEntryView {
        FeedEntryView {
            from: self.from@,
            avatar: match self.avatar {
                Some(avatar) => Some(avatar@),
                None => None,
            },
            message: self.message@,
            image: self.image,
        }
    }
}

/// How a message is shown beside a roster.
pub open spec fn entry_of(roster: Seq<UserProfileView>, message: ChatMessageView) -> FeedEntryView {
    FeedEntryView {
        from: message.from,
        avatar: avatar_in(roster, message.from),
        message: message.message,
        image: shows_image(message.message),
    }
}

impl ChatMessage {
    /// Whether the body is shown as an image: it ends in `.gif`.
    pub fn is_image(&self) -> (image: bool)
        ensures
            image == shows_image(self.message@),
    {
        let text = self.message.as_str();
        let len = text.unicode_len();
        proof {
            reveal_strlit(".gif");
            assert(".gif"@.len() == 4);
        }
        if len < 4 {
            return false;
        }
        let image = text.get_char(len - 4) == '.' && text.get_char(len - 3) == 'g' && text.get_char(
            len - 2,
        ) == 'i' && text.get_char(len - 1) == 'f';
        proof {
            let tail = text@.subrange(len - 4, len as int);
            if image {
                assert(tail =~= ".gif"@);
            } else {
                assert(tail[0] == text@[len - 4]);
                assert(tail[1] == text@[len - 3]);
                assert(tail[2] == text@[len - 2]);
                assert(tail[3] == text@[len - 1]);
            }
        }
        image
    }
}

/// The frame that announces `username` to the server: a register envelope
/// with the name as its `data`.
pub fn announce_presence(username: &str) -> (frame: String)
    ensures
        frame@ == register_frame(username@),
        decoded(frame@) == Ok::<EnvelopeView, DecodeError>(
            EnvelopeView::Register { username: username@ },
        ),
{
    encode(&Envelope::Register { username: username.to_owned() })
}

/// The frame that carries a chat message to the server: a message envelope
/// with the text as its `data`, whatever the text is, the empty text too.
pub fn send_chat_message(text: &str) -> (frame: String)
    ensures
        frame@ == message_frame(text@),
        parsed(frame@) == Some(envelope_doc(EnvelopeView::Message { data: text@ })),
{
    encode(&Envelope::Message { data: text.to_owned() })
}

/// The state of one chat view: the roster and the message feed.
pub struct Chat {
    roster: Roster,
    messages: Vec<ChatMessage>,
}

impl View for Chat {
    type V = ChatView;

    closed spec fn view(&self) -> ChatView {
        ChatView { roster: self.roster@, messages: feed_view(self.messages@) }
    }
}

impl Chat {
    /// A session without users or messages.
    pub fn new() -> (chat: Chat)
        ensures
            chat@.roster.len() == 0,
            chat@.messages.len() == 0,
    {
        Chat { roster: Roster::new(), messages: Vec::new() }
    }

    /// Starts a session for `username`: the empty state, and the register
    /// frame that is to be sent before any inbound frame is handled.
    pub fn create(username: &str) -> (started: (Chat, String))
        ensures
            started.0@.roster.len() == 0,
            started.0@.messages.len() == 0,
            started.1@ == register_frame(username@),
            decoded(started.1@) == Ok::<EnvelopeView, DecodeError>(
                EnvelopeView::Register { username: username@ },
            ),
    {
        (Chat::new(), announce_presence(username))
    }

    /// The roster, in the order in which the server named the users. It is
    /// valid in every state.
    pub fn users(&self) -> (users: &Vec<UserProfile>)
        ensures
            roster_view(users@) == self@.roster,
            valid_roster(self@.roster),
    {
        self.roster.users()
    }

    /// The messages, in the order of their arrival.
    pub fn messages(&self) -> (messages: &Vec<ChatMessage>)
        ensures
            feed_view(messages@) == self@.messages,
    {
        &self.messages
    }

    /// Replaces the roster by the one that `names` stands for. The
    /// messages stay.
    pub fn apply_roster_update(&mut self, names: &Vec<String>)
        ensures
            final(self)@.roster == roster_of(names.deep_view()),
            final(self)@.messages == old(self)@.messages,
    {
        self.roster = Roster::from_names(names);
    }

    /// Adds a message at the end of the feed, whether or not the roster
    /// knows the sender. The roster stays.
    pub fn append_message(&mut self, from: String, message: String)
        ensures
            final(self)@.roster == old(self)@.roster,
            final(self)@.messages == old(self)@.messages.push(
                ChatMessageView { from: from@, message: message@ },
            ),
    {
        self.messages.push(ChatMessage { from, message });
        assert(feed_view(self.messages@) =~= feed_view(old(self).messages@).push(
            ChatMessageView { from: from@, message: message@ },
        ));
    }

    /// Dispatches an envelope by its kind: the state becomes [`applied`] of
    /// it, and the effect is [`effect_of`] it.
    pub fn dispatch(&mut self, envelope: Envelope) -> (effect: Effect)
        ensures
            final(self)@ == applied(old(self)@, envelope@),
            effect@ == effect_of(envelope@),
    {
        match envelope {
            Envelope::Users { names } => {
                self.apply_roster_update(&names);
                Effect::Render
            },
            Envelope::Message { data } => match decode_payload(data.as_str()) {
                Ok(message) => {
                    self.append_message(message.from, message.message);
                    Effect::Render
                },
                Err(error) => Effect::Discard(error),
            },
            Envelope::Register { .. } => Effect::Nothing,
        }
    }

    /// Handles one inbound frame: decodes it and dispatches the envelope.
    /// A frame that does not decode is discarded; the state is then what
    /// it was.
    pub fn handle_frame(&mut self, text: &str) -> (effect: Effect)
        ensures
            (final(self)@, effect@) == received(old(self)@, text@),
    {
        match decode(text) {
            Ok(envelope) => self.dispatch(envelope),
            Err(error) => Effect::Discard(error),
        }
    }

    /// One step of the session. `input` is the text of the input field, or
    /// `None` where there is no such field; it is read on a submit alone.
    ///
    /// An inbound frame is handled as [`Chat::handle_frame`] does. A submit
    /// leaves the state as it is and asks for the input's text to be sent,
    /// the empty text too.
    pub fn update(&mut self, msg: Msg, input: Option<&str>) -> (effect: Effect)
        ensures
            match msg {
                Msg::HandleMsg(text) => (final(self)@, effect@) == received(old(self)@, text@),
                Msg::SubmitMessage => final(self)@ == old(self)@ && effect@ == submitted(
                    input_view(input),
                ),
            },
    {
        match msg {
            Msg::HandleMsg(text) => self.handle_frame(text.as_str()),
            Msg::SubmitMessage => match input {
                Some(text) => Effect::Send(send_chat_message(text)),
                None => Effect::Nothing,
            },
        }
    }

    /// The avatar of the roster entry of that name, `None` where the
    /// roster has none.
    pub fn avatar_of(&self, name: &str) -> (avatar: Option<String>)
        ensures
            match avatar {
                Some(url) => avatar_in(self@.roster, name@) == Some(url@),
                None => avatar_in(self@.roster, name@) is None,
            },
    {
        self.roster.avatar_of(name)
    }

    /// The messages as they are to be shown, in the order of their
    /// arrival: each with its sender's avatar, where the roster knows the
    /// sender, its body unchanged, and whether the body is an image.
    pub fn feed(&self) -> (entries: Vec<FeedEntry>)
        ensures
            entries.len() == self@.messages.len(),
            forall|i: int|
                0 <= i < entries.len() ==> (#[trigger] entries[i])@ == entry_of(
                    self@.roster,
                    self@.messages[i],
                ),
    {
        let mut entries: Vec<FeedEntry> = Vec::new();
        let mut i: usize = 0;
        while i < self.messages.len()
            invariant
                i <= self.messages.len(),
                entries.len() == i,
                forall|k: int|
                    0 <= k < i ==> (#[trigger] entries[k])@ == entry_of(
                        self@.roster,
                        self@.messages[k],
                    ),
            decreases self.messages.len() - i,
        {
            let message = &self.messages[i];
            let entry = FeedEntry {
                from: message.from.clone(),
                avatar: self.avatar_of(message.from.as_str()),
                message: message.message.clone(),
                image: message.is_image(),
            };
            assert(entry@ == entry_of(self@.roster, self@.messages[i as int]));
            entries.push(entry);
            i += 1;
        }
        entries
    }
}

/// Replacing the roster twice by the same names gives what replacing it
/// once gives; so does receiving the same roster frame twice.
pub proof fn law_roster_update_is_idempotent(
    state: ChatView,
    names: Seq<Seq<char>>,
    text: Seq<char>,
)
    ensures
        applied(applied(state, EnvelopeView::Users { names }), EnvelopeView::Users { names })
            == applied(state, EnvelopeView::Users { names }),
        decoded(text) is Ok && decoded(text)->Ok_0 is Users ==> received(
            received(state, text).0,
            text,
        ) == received(state, text),
{
}

/// The roster after an update depends on the names alone, not on the state
/// before, and the names of a roster stand for that same roster.
pub proof fn law_roster_is_a_function_of_the_names(
    state: ChatView,
    other: ChatView,
    names: Seq<Seq<char>>,
)
    ensures
        applied(state, EnvelopeView::Users { names }).roster == applied(
            other,
            EnvelopeView::Users { names },
        ).roster,
        roster_of(distinct(names)) == roster_of(names),
{
    lemma_distinct_is_idempotent(names);
}

/// A frame that does not decode changes nothing: the roster stays, no
/// message is added, and the effect is to discard the frame.
pub proof fn law_bad_frame_changes_nothing(state: ChatView, text: Seq<char>)
    ensures
        decoded(text) is Err ==> received(state, text) == (
            state,
            EffectView::Discard(decoded(text)->Err_0),
        ),
{
}

/// A roster frame without `dataArray`, or with `null` in its place, empties
/// the roster, adds no message and asks to render.
pub proof fn law_roster_frame_without_names_empties_the_roster(
    state: ChatView,
    text: Seq<char>,
    doc: JsonDoc,
)
    requires
        doc.field("messageType"@) == Some(JsonDoc::Text("users"@)),
        doc.field("dataArray"@) is None || doc.field("dataArray"@) == Some(JsonDoc::Null),
    ensures
        parsed(text) == Some(doc) ==> received(state, text) == (
            ChatView { roster: Seq::empty(), messages: state.messages },
            EffectView::Render,
        ),
{
    law_roster_without_names_is_empty(doc);
    assert(roster_of(Seq::<Seq<char>>::empty()) =~= Seq::empty());
}

/// Only a roster frame or a message frame asks to render, and only they
/// change the state.
pub proof fn law_render_follows_change(state: ChatView, text: Seq<char>)
    ensures
        received(state, text).1 is Render <==> decoded(text) is Ok && !(decoded(text)->Ok_0
            is Register),
        !(received(state, text).1 is Render) ==> received(state, text).0 == state,
        !(received(state, text).1 is Send),
{
}

/// Two messages that arrive one after the other stand at the end of the
/// feed in that order. The roster is not consulted and stays: a message
/// from a sender that it does not know is stored like any other.
pub proof fn law_messages_keep_their_order(state: ChatView, first: Seq<char>, second: Seq<char>)
    ensures
        payload_of(first) is Ok && payload_of(second) is Ok ==> applied(
            applied(state, EnvelopeView::Message { data: first }),
            EnvelopeView::Message { data: second },
        ) == (ChatView {
            roster: state.roster,
            messages: state.messages.push(payload_of(first)->Ok_0).push(payload_of(second)->Ok_0),
        }),
{
}

/// Dispatching keeps the roster valid.
pub proof fn law_dispatch_keeps_the_roster_valid(state: ChatView, envelope: EnvelopeView)
    requires
        valid_roster(state.roster),
    ensures
        valid_roster(applied(state, envelope).roster),
{
    if let EnvelopeView::Users { names } = envelope {
        law_roster_is_valid(names);
    }
}

} // verus!
