//! Notifications and the queue that holds them until they are shown.

use vstd::prelude::*;
use std::collections::VecDeque;
use crate::key::{HandleSuccess, Key};

verus! {

/// A notification for the user.
#[derive(Debug, PartialEq, Eq)]
pub enum Message {
    Info(String),
    Error(String),
}

/// What a message says, as plain values.
pub enum MessageModel {
    Info(Seq<char>),
    Error(Seq<char>),
}

impl View for Message {
    type V = MessageModel;

    open spec fn view(&self) -> MessageModel {
        match self {
            Message::Info(text) => MessageModel::Info(text@),
            Message::Error(text) => MessageModel::Error(text@),
        }
    }
}

impl Clone for Message {
    fn clone(&self) -> (copy: Message)
        ensures
            copy@ == self@,
    {
        match self {
            Message::Info(text) => Message::Info(text.clone()),
            Message::Error(text) => Message::Error(text.clone()),
        }
    }
}

/// The messages that wait to be shown, oldest first.
pub struct MessageQueue {
    items: VecDeque<Message>,
}

impl View for MessageQueue {
    type V = Seq<MessageModel>;

    closed spec fn view(&self) -> Seq<MessageModel> {
        self.items@.map_values(|m: Message| m@)
    }
}

impl MessageQueue {
    /// A queue with nothing in it.
    pub fn new() -> (queue: MessageQueue)
        ensures
            queue@ == Seq::<MessageModel>::empty(),
    {
        let queue = MessageQueue { items: VecDeque::new() };
        assert(queue@ =~= Seq::<MessageModel>::empty());
        queue
    }

    /// The number of waiting messages.
    pub fn len(&self) -> (n: usize)
        ensures
            n == self@.len(),
    {
        self.items.len()
    }

    /// Appends a message behind all that wait.
    pub fn push(&mut self, content: Message)
        ensures
            final(self)@ == old(self)@.push(content@),
    {
        self.items.push_back(content);
        assert(self@ =~= old(self)@.push(content@));
    }

    /// Takes the oldest message out, if there is one.
    pub fn pop(&mut self) -> (oldest: Option<Message>)
        ensures
            old(self)@.len() == 0 ==> oldest is None && final(self)@ == old(self)@,
            old(self)@.len() > 0 ==> oldest is Some && oldest->Some_0@ == old(self)@[0]
                && final(self)@ == old(self)@.subrange(1, old(self)@.len() as int),
    {
        let oldest = self.items.pop_front();
        assert(oldest is Some ==> self@ =~= old(self)@.subrange(1, old(self)@.len() as int));
        oldest
    }
}

/// Colour of a dialog's border.
#[derive(Clone, Copy, Debug, PartialEq, Eq, Structural)]
pub enum Tone {
    Good,
    Bad,
}

/// What a message dialog shows: its title, the colour of its border, and its text.
pub struct DialogFace {
    pub title: String,
    pub tone: Tone,
    pub text: String,
}

impl DialogFace {
    /// True when this is the face of a dialog for `message`: ` info ` in the good
    /// tone for an information, ` error ` in the bad tone for an error, and the text
    /// of the message.
    pub open spec fn shows(self, message: MessageModel) -> bool {
        match message {
            MessageModel::Info(text) => self.title@ == " info "@ && self.tone == Tone::Good
                && self.text@ == text,
            MessageModel::Error(text) => self.title@ == " error "@ && self.tone == Tone::Bad
                && self.text@ == text,
        }
    }
}

/// A message on display.
#[derive(Debug)]
pub struct MessageDialog {
    content: Message,
}

impl View for MessageDialog {
    type V = MessageModel;

    closed spec fn view(&self) -> MessageModel {
        self.content@
    }
}

impl Clone for MessageDialog {
    fn clone(&self) -> (copy: MessageDialog)
        ensures
            copy@ == self@,
    {
        MessageDialog { content: self.content.clone() }
    }
}

impl MessageDialog {
    /// Appends `content` to the queue, behind all messages that wait there.
    pub fn push_message(queue: &mut MessageQueue, content: Message)
        ensures
            final(queue)@ == old(queue)@.push(content@),
    {
        queue.push(content);
    }

    /// Takes the oldest message from the queue and makes a dialog of it; `None` when
    /// the queue is empty, which then stays as it is.
    pub fn pop_message(queue: &mut MessageQueue) -> (dialog: Option<MessageDialog>)
        ensures
            old(queue)@.len() == 0 ==> dialog is None && final(queue)@ == old(queue)@,
            old(queue)@.len() > 0 ==> dialog is Some && dialog->Some_0@ == old(queue)@[0]
                && final(queue)@ == old(queue)@.subrange(1, old(queue)@.len() as int),
    {
        match queue.pop() {
            Some(content) => Some(MessageDialog { content }),
            None => None,
        }
    }

    /// The message on display.
    pub fn content(&self) -> (content: &Message)
        ensures
            content@ == self@,
    {
        &self.content
    }

    /// Every key dismisses the dialog: the key is always consumed.
    pub fn on_event(&mut self, key: Key) -> (handled: HandleSuccess)
        ensures
            handled == HandleSuccess::Consumed,
            final(self)@ == old(self)@,
    {
        HandleSuccess::Consumed
    }

    /// Title, border colour and text of the dialog.
    pub fn render(&self) -> (face: DialogFace)
        ensures
            face.shows(self@),
    {
        match &self.content {
            Message::Info(text) => DialogFace {
                title: String::from_str(" info "),
                tone: Tone::Good,
                text: text.clone(),
            },
            Message::Error(text) => DialogFace {
                title: String::from_str(" error "),
                tone: Tone::Bad,
                text: text.clone(),
            },
        }
    }
}

} // verus!
