//! An inbound webhook message and the text that is posted for it.
use vstd::prelude::*;
use vstd::string::*;

verus! {

/// Sender, recipient and body of one inbound message, as the webhook gave them.
pub struct InboundMessage {
    pub from: String,
    pub to: String,
    pub body: String,
}

/// The text posted into the room: `FROM: <from>\nTO: <to>\n\n<body>`.
pub open spec fn outbound_text(from: Seq<char>, to: Seq<char>, body: Seq<char>) -> Seq<char> {
    "FROM: "@ + from + "\nTO: "@ + to + "\n\n"@ + body
}

impl InboundMessage {
    pub fn new(from: String, to: String, body: String) -> (r: InboundMessage)
        ensures
            r.from == from,
            r.to == to,
            r.body == body,
    {
        InboundMessage { from, to, body }
    }

    pub open spec fn outbound(&self) -> Seq<char> {
        outbound_text(self.from@, self.to@, self.body@)
    }

    /// The plain text that is sent for this message.
    pub fn compose_body(&self) -> (r: String)
        ensures
            r@ == self.outbound(),
    {
        let mut s = String::from_str("FROM: ");
        s.append(self.from.as_str());
        s.append("\nTO: ");
        s.append(self.to.as_str());
        s.append("\n\n");
        s.append(self.body.as_str());
        s
    }
}

} // verus!
