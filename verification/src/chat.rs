//! The conversation: how the user's input becomes a turn, and what is asked
//! of the server.

use crate::app::{msgs_view, App, AppView};
use crate::models::{Msg, MsgView};
use crate::text::{chars_of, spec_trim, string_of, text_is, trim};
use vstd::prelude::*;
use vstd::string::{StrSliceExecFns, StringExecFns};

verus! {

/// A chat request: where to send it, for which model, and the conversation
/// so far.
#[derive(Debug)]
pub struct ChatRequest {
    pub url: String,
    pub model: String,
    pub messages: Vec<Msg>,
}

/// The conversation once the user has said `text`: a user's turn that is
/// still open takes the text after a blank line, else a new turn begins;
/// then an empty turn of the assistant is opened for the answer.
pub open spec fn spec_with_turn(msgs: Seq<MsgView>, text: Seq<char>) -> Seq<MsgView> {
    let said = if msgs.len() > 0 && msgs.last().role == "user"@ {
        let open = msgs.last();
        let lead = if open.content.len() > 0 {
            open.content + "\n\n"@
        } else {
            open.content
        };
        msgs.update(msgs.len() - 1, MsgView { role: open.role, content: lead + text })
    } else {
        msgs.push(MsgView { role: "user"@, content: text })
    };
    said.push(MsgView { role: "assistant"@, content: Seq::empty() })
}

/// What sending the input does to the state: a server that is not ready is
/// remarked on, and an input that is not blank becomes a turn.
pub open spec fn spec_prepare_send(a: AppView, input: Seq<char>) -> AppView {
    let noted = if a.server_ready {
        a
    } else {
        AppView { status: "Server not ready yet"@, ..a }
    };
    if spec_trim(input).len() == 0 {
        noted
    } else {
        AppView { msgs: spec_with_turn(a.msgs, spec_trim(input)), ..noted }
    }
}

/// The model to name in a request: the one that the server serves, where
/// that is known.
pub open spec fn request_model(a: AppView) -> Seq<char> {
    match a.served_model_id {
        Some(id) => id,
        None => "local"@,
    }
}

fn copy_msgs(msgs: &Vec<Msg>) -> (copy: Vec<Msg>)
    ensures
        copy@ == msgs@,
{
    let mut copy: Vec<Msg> = Vec::new();
    let mut i: usize = 0;
    while i < msgs.len()
        invariant
            i <= msgs.len(),
            copy@ == msgs@.take(i as int),
        decreases msgs.len() - i,
    {
        copy.push(Msg { role: msgs[i].role.clone(), content: msgs[i].content.clone() });
        assert(copy@ =~= msgs@.take(i + 1));
        i += 1;
    }
    assert(msgs@.take(msgs.len() as int) =~= msgs@);
    copy
}

impl App {
    /// Takes the user's input as a turn of the conversation and says what to
    /// ask of the server; a blank input asks nothing.
    pub fn prepare_send(&mut self, input: &str) -> (request: Option<ChatRequest>)
        requires
            old(self).wf(),
        ensures
            final(self).wf(),
            final(self)@ == spec_prepare_send(old(self)@, input@),
            match request {
                Some(r) => {
                    &&& spec_trim(input@).len() > 0
                    &&& r.url@ == old(self)@.server_url
                    &&& r.model@ == request_model(old(self)@)
                    &&& msgs_view(r.messages@) == final(self)@.msgs
                },
                None => spec_trim(input@).len() == 0,
            },
    {
        if !self.server_ready {
            self.status = "Server not ready yet".to_owned();
        }
        let chars = trim(&chars_of(input));
        if chars.len() == 0 {
            return None;
        }
        let text = string_of(&chars);
        let ghost before = self.msgs@;
        let n = self.msgs.len();
        if n > 0 && text_is(&self.msgs[n - 1].role, "user") {
            let mut open = self.msgs.pop().unwrap();
            if open.content.as_str().unicode_len() > 0 {
                open.content.append("\n\n");
            }
            open.content.append(text.as_str());
            self.msgs.push(open);
        } else {
            self.msgs.push(Msg { role: "user".to_owned(), content: text });
        }
        self.msgs.push(Msg { role: "assistant".to_owned(), content: String::new() });
        assert(msgs_view(self.msgs@) =~= spec_with_turn(msgs_view(before), spec_trim(input@)));
        let model = match &self.served_model_id {
            Some(id) => id.clone(),
            None => "local".to_owned(),
        };
        let messages = copy_msgs(&self.msgs);
        Some(ChatRequest { url: self.server_url.clone(), model, messages })
    }

    /// The user calls the answer off. The stream is dropped by whoever holds
    /// it; its task notices when it next sends.
    pub fn cancel_chat(&mut self)
        requires
            old(self).wf(),
        ensures
            final(self).wf(),
            final(self)@ == (AppView { status: "Canceled"@, ..old(self)@ }),
    {
        self.status = "Canceled".to_owned();
    }

    /// Begins a new conversation: the turns so far are forgotten.
    pub fn new_chat(&mut self)
        requires
            old(self).wf(),
        ensures
            final(self).wf(),
            final(self)@ == (AppView {
                msgs: Seq::empty(),
                status: "New chat started"@,
                ..old(self)@
            }),
    {
        self.msgs.clear();
        self.status = "New chat started".to_owned();
        assert(msgs_view(self.msgs@) =~= Seq::empty());
    }

    /// Takes the conversation up again after turn `at`: what follows it is
    /// forgotten.
    pub fn restart_from(&mut self, at: usize)
        requires
            old(self).wf(),
        ensures
            final(self).wf(),
            final(self)@ == (AppView {
                msgs: if at + 1 <= old(self)@.msgs.len() {
                    old(self)@.msgs.take(at + 1)
                } else {
                    old(self)@.msgs
                },
                ..old(self)@
            }),
    {
        let ghost before = self.msgs@;
        if at < self.msgs.len() {
            self.msgs.truncate(at + 1);
            assert(msgs_view(self.msgs@) =~= msgs_view(before).take(at + 1));
        }
    }
}

} // verus!
