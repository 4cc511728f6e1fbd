//! A bounded conversation history for the dialogue system around the
//! protocol core: user and assistant messages in order, trimmed from the
//! front so that at most twice the configured exchange count is kept.

use std::collections::VecDeque;
use vstd::prelude::*;
use vstd::string::StringExecFns;

verus! {

/// One message of the dialogue, with its speaker role.
#[derive(Debug, Clone)]
pub struct ChatMessage {
    pub role: String,
    pub content: String,
}

/// The mathematical model of a [`ChatMessage`].
pub struct MessageView {
    pub role: Seq<char>,
    pub content: Seq<char>,
}

impl View for ChatMessage {
    type V = MessageView;

    open spec fn view(&self) -> MessageView {
        MessageView { role: self.role@, content: self.content@ }
    }
}

/// A message sequence trimmed from the front to at most `2 * max`
/// entries.
pub open spec fn trimmed(s: Seq<MessageView>, max: nat) -> Seq<MessageView> {
    if s.len() > 2 * max {
        s.skip(s.len() - 2 * max)
    } else {
        s
    }
}

/// The dialogue history: messages in arrival order, and the exchange
/// count that bounds how many are kept.
pub struct ConversationHistory {
    messages: VecDeque<ChatMessage>,
    max_history: usize,
}

impl ConversationHistory {
    /// The stored messages, in order.
    pub closed spec fn messages_view(&self) -> Seq<MessageView> {
        Seq::new(self.messages@.len(), |i: int| self.messages@[i]@)
    }

    /// The configured exchange bound.
    pub closed spec fn max(&self) -> nat {
        self.max_history as nat
    }

    /// Twice the bound stays a machine integer.
    pub closed spec fn wf(&self) -> bool {
        2 * self.max() <= usize::MAX
    }

    /// An empty history keeping at most `max_history` exchanges.
    pub fn new(max_history: usize) -> (h: ConversationHistory)
        requires
            2 * max_history <= usize::MAX,
        ensures
            h.wf(),
            h.max() == max_history,
            h.messages_view() == Seq::<MessageView>::empty(),
    {
        let h = ConversationHistory { messages: VecDeque::new(), max_history };
        proof {
            assert(h.messages_view() =~= Seq::<MessageView>::empty());
        }
        h
    }

    /// Appends a user message and trims.
    pub fn add_user_message(&mut self, content: &str)
        requires
            old(self).wf(),
        ensures
            final(self).wf(),
            final(self).max() == old(self).max(),
            final(self).messages_view() == trimmed(
                old(self).messages_view().push(
                    (MessageView { role: "user"@, content: content@ }),
                ),
                old(self).max(),
            ),
    {
        let message = ChatMessage { role: String::from_str("user"), content: String::from_str(content) };
        let ghost pushed = self.messages_view().push(message@);
        self.messages.push_back(message);
        proof {
            assert(self.messages_view() =~= pushed);
        }
        self.trim_history();
    }

    /// Appends an assistant message and trims.
    pub fn add_assistant_message(&mut self, content: &str)
        requires
            old(self).wf(),
        ensures
            final(self).wf(),
            final(self).max() == old(self).max(),
            final(self).messages_view() == trimmed(
                old(self).messages_view().push(
                    (MessageView { role: "assistant"@, content: content@ }),
                ),
                old(self).max(),
            ),
    {
        let message = ChatMessage {
            role: String::from_str("assistant"),
            content: String::from_str(content),
        };
        let ghost pushed = self.messages_view().push(message@);
        self.messages.push_back(message);
        proof {
            assert(self.messages_view() =~= pushed);
        }
        self.trim_history();
    }

    /// Drops the oldest messages until at most `2 * max` remain.
    pub fn trim_history(&mut self)
        requires
            old(self).wf(),
        ensures
            final(self).wf(),
            final(self).max() == old(self).max(),
            final(self).messages_view() == trimmed(old(self).messages_view(), old(self).max()),
    {
        let ghost target = trimmed(self.messages_view(), self.max());
        while self.messages.len() > self.max_history * 2
            invariant
                self.wf(),
                self.max() == old(self).max(),
                trimmed(self.messages_view(), self.max()) == target,
            decreases self.messages@.len(),
        {
            let ghost before = self.messages_view();
            self.messages.pop_front();
            proof {
                assert(self.messages_view() =~= before.skip(1));
                if before.skip(1).len() > 2 * self.max() {
                    assert(before.skip(1).skip(before.skip(1).len() - 2 * self.max()) =~= before
                        .skip(before.len() - 2 * self.max()));
                } else {
                    assert(before.skip(1) =~= before.skip(before.len() - 2 * self.max()));
                }
            }
        }
    }

    /// Every stored message, oldest first.
    pub fn get_messages(&self) -> (r: Vec<&ChatMessage>)
        ensures
            r@.len() == self.messages_view().len(),
            forall|i: int|
                0 <= i < r@.len() ==> (#[trigger] r@[i])@ == self.messages_view()[i],
    {
        let mut r: Vec<&ChatMessage> = Vec::new();
        let n: usize = self.messages.len();
        for i in 0..n
            invariant
                n == self.messages@.len(),
                r@.len() == i,
                forall|j: int| 0 <= j < i ==> (#[trigger] r@[j])@ == self.messages_view()[j],
        {
            let message: &ChatMessage = &self.messages[i];
            r.push(message);
        }
        r
    }
}

} // verus!
