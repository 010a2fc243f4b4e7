//! Mail data: envelopes, addresses, flags and message summaries.
use vstd::prelude::*;

verus! {

/// A message envelope, with the essential header fields.
#[derive(Debug, Clone)]
pub struct Envelope {
    pub message_id: Option<String>,
    pub date: Option<String>,
    pub from: Vec<Address>,
    pub to: Vec<Address>,
    pub cc: Vec<Address>,
    pub subject: Option<String>,
    pub in_reply_to: Option<String>,
}

/// A mail address: personal name, mailbox and host.
#[derive(Debug, Clone)]
pub struct Address {
    pub personal: Option<String>,
    pub mailbox: String,
    pub host: String,
}

/// How an address is shown: `Name <mailbox@host>`, or `mailbox@host`
/// where there is no personal name.
pub open spec fn address_text(a: Address) -> Seq<char> {
    match a.personal {
        Some(name) => name@ + " <"@ + a.mailbox@ + "@"@ + a.host@ + ">"@,
        None => a.mailbox@ + "@"@ + a.host@,
    }
}

impl Address {
    /// The address as shown to the user.
    pub fn display(&self) -> (s: String)
        ensures
            s@ == address_text(*self),
    {
        match &self.personal {
            Some(name) => {
                let mut s = name.clone();
                s.append(" <");
                s.append(self.mailbox.as_str());
                s.append("@");
                s.append(self.host.as_str());
                s.append(">");
                s
            },
            None => {
                let mut s = self.mailbox.clone();
                s.append("@");
                s.append(self.host.as_str());
                s
            },
        }
    }
}

/// Message flags, the standard IMAP flags.
#[derive(Debug, Clone)]
pub struct MessageFlags {
    pub seen: bool,
    pub answered: bool,
    pub flagged: bool,
    pub deleted: bool,
    pub draft: bool,
    pub recent: bool,
}

impl Default for MessageFlags {
    /// No flag is set.
    fn default() -> (f: MessageFlags)
        ensures
            !f.seen && !f.answered && !f.flagged && !f.deleted && !f.draft && !f.recent,
    {
        MessageFlags {
            seen: false,
            answered: false,
            flagged: false,
            deleted: false,
            draft: false,
            recent: false,
        }
    }
}

/// A message summary for the message index.
#[derive(Debug, Clone)]
pub struct MessageSummary {
    pub sequence_number: u32,
    pub uid: u32,
    pub flags: MessageFlags,
    pub envelope: Envelope,
    pub size: u32,
}

} // verus!
