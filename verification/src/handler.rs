//! The connection endpoint: what one live connection does with each message
//! that arrives, and what it owes the registry when it ends.
//!
//! The endpoint decides; its driver moves the bytes. A decision comes back as
//! a `Directive`, and the driver submits the dispatch tuple or sends the
//! error reply that it names.

use bytes::Bytes;
use crate::codec::{
    bytes_view, decode_binary, parser_answers, parser_takes, split_spec, DecodeErrorView,
};
use crate::service::Service;
use vstd::prelude::*;
use vstd::string::*;
use vstd::utf8::encode_utf8;

verus! {

/// One message as the transport delivers it.
#[derive(Debug, PartialEq, Eq)]
pub enum Message {
    /// A JSON document that is a command, with no framing.
    Text(String),
    /// A length-prefixed frame: a command and a payload.
    Binary(Vec<u8>),
}

/// The tag of an error reply: which path refused the message.
#[derive(Debug, Clone, Copy, PartialEq, Eq)]
pub enum ErrorContext {
    /// The frame codec refused a binary message.
    BinaryToAction,
    /// A text message did not parse as a command.
    StringToAction,
}

impl ErrorContext {
    /// The label as clients see it.
    pub open spec fn label_spec(self) -> Seq<char> {
        match self {
            ErrorContext::BinaryToAction => "BinaryToAction"@,
            ErrorContext::StringToAction => "StringToAction"@,
        }
    }

    /// The label as clients see it.
    pub fn label(&self) -> (s: &'static str)
        ensures
            s@ == self.label_spec(),
    {
        match self {
            ErrorContext::BinaryToAction => "BinaryToAction",
            ErrorContext::StringToAction => "StringToAction",
        }
    }
}

/// The unit of work that crosses to the command processor: the client's
/// identity, the command, the payload of a binary message, and the capability
/// to reply.
pub type ActionRequest<C, S> = (usize, C, Option<Bytes>, S);

/// What the endpoint has decided for one message.
pub enum Directive<C, S> {
    /// Submit this tuple to the dispatch channel.
    Dispatch(ActionRequest<C, S>),
    /// Reply on this connection with the error command made of `context` and
    /// `description`.
    Reject { context: ErrorContext, description: String },
}

/// The dispatch channel has lost its consumer.
#[derive(Debug, Clone, Copy, PartialEq, Eq)]
pub struct ChannelClosed;

/// The endpoint of one connection.
pub struct Client<S> {
    /// The capability to write to this connection.
    pub out: S,
    /// The identity that the registry gave this connection.
    pub client_id: usize,
}

/// The bytes of `msg` that go to the parser: a text message whole, of a
/// binary message the JSON bytes, and none of a frame that cannot be cut.
pub open spec fn parser_input(msg: Message) -> Option<Seq<u8>> {
    match msg {
        Message::Text(text) => Some(encode_utf8(text@)),
        Message::Binary(data) => match split_spec(data@) {
            Ok(parts) => Some(parts.0),
            Err(_) => None,
        },
    }
}

/// Whether `d` asks for an error reply tagged `context` that says
/// `description`.
pub open spec fn rejects<C, S>(
    d: Directive<C, S>,
    context: ErrorContext,
    description: Seq<char>,
) -> bool {
    &&& d matches Directive::Reject { context: c, description: text }
    &&& c == context
    &&& text@ == description
}

impl<S: Clone> Client<S> {
    /// Whether `d` asks to dispatch `command` for this client, with a buffer
    /// holding `payload` where there is one, and a clone of this
    /// connection's capability.
    pub open spec fn dispatches<C>(
        self,
        d: Directive<C, S>,
        command: C,
        payload: Option<Seq<u8>>,
    ) -> bool {
        &&& d matches Directive::Dispatch(request)
        &&& request.0 == self.client_id
        &&& request.1 == command
        &&& match payload {
            Some(bytes) => request.2 matches Some(buffer) && bytes_view(buffer) == bytes,
            None => request.2 is None,
        }
        &&& cloned(self.out, request.3)
    }

    /// Whether `d` is the decision for the text message `text`, once the
    /// parser has answered `parsed` for its bytes.
    pub open spec fn directs_text<C>(self, parsed: Result<C, String>, d: Directive<C, S>) -> bool {
        match parsed {
            Ok(command) => self.dispatches(d, command, None),
            Err(message) => rejects(d, ErrorContext::StringToAction, message@),
        }
    }

    /// Whether `d` is the decision for a complete frame cut into `json` and
    /// `payload`, once the parser has answered `parsed` for `json`.
    pub open spec fn directs_frame<C>(
        self,
        parsed: Result<C, String>,
        json: Seq<u8>,
        payload: Seq<u8>,
        d: Directive<C, S>,
    ) -> bool {
        match parsed {
            Ok(command) => self.dispatches(d, command, Some(payload)),
            Err(message) => rejects(
                d,
                ErrorContext::BinaryToAction,
                (DecodeErrorView::JsonParseError { message: message@, raw: json }).describe(),
            ),
        }
    }

    /// Whether `d` is the decision for `msg` with `parse` as the parser.
    pub open spec fn directs<C, F: FnOnce(&[u8]) -> Result<C, String>>(
        self,
        msg: Message,
        parse: F,
        d: Directive<C, S>,
    ) -> bool {
        match msg {
            Message::Binary(data) => match split_spec(data@) {
                Err(e) => rejects(d, ErrorContext::BinaryToAction, e.describe()),
                Ok(parts) => exists|parsed: Result<C, String>|
                    {
                        &&& #[trigger] parser_answers(parse, parts.0, parsed)
                        &&& self.directs_frame(parsed, parts.0, parts.1, d)
                    },
            },
            Message::Text(text) => exists|parsed: Result<C, String>|
                {
                    &&& #[trigger] parser_answers(parse, encode_utf8(text@), parsed)
                    &&& self.directs_text(parsed, d)
                },
        }
    }

    /// Decides what to do with one inbound message. `parse` turns JSON bytes
    /// into a command or into the parser's error message.
    ///
    /// A binary message goes through the frame codec, and its command is
    /// dispatched with the payload, empty or not. A text message is parsed as
    /// it stands and dispatched without a payload. A message that fails
    /// either way is answered with an error reply, tagged by the path that
    /// refused it.
    pub fn on_message<C, F>(&self, msg: Message, parse: F) -> (d: Directive<C, S>) where
        F: FnOnce(&[u8]) -> Result<C, String>,

        requires
            parser_input(msg) matches Some(bytes) ==> parser_takes(parse, bytes),
        ensures
            self.directs(msg, parse, d),
    {
        match msg {
            Message::Binary(data) => {
                match decode_binary(data.as_slice(), parse) {
                    Ok((command, payload)) => Directive::Dispatch(
                        (self.client_id, command, Some(payload), self.out.clone()),
                    ),
                    Err(e) => Directive::Reject {
                        context: ErrorContext::BinaryToAction,
                        description: e.describe(),
                    },
                }
            },
            Message::Text(text) => {
                let parsed: Result<C, String> = parse(text.as_str().as_bytes());
                assert(parser_answers(parse, encode_utf8(text@), parsed));
                match parsed {
                    Ok(command) => Directive::Dispatch(
                        (self.client_id, command, None, self.out.clone()),
                    ),
                    Err(message) => Directive::Reject {
                        context: ErrorContext::StringToAction,
                        description: message,
                    },
                }
            },
        }
    }
}

/// A text message is parsed as it stands, with no framing: its bytes go to
/// the parser whole, a command is dispatched without payload, and the
/// parser's error is reported under the text path's own tag.
pub proof fn text_is_parsed_as_it_stands<S: Clone, C, F: FnOnce(&[u8]) -> Result<C, String>>(
    client: Client<S>,
    text: String,
    parse: F,
    d: Directive<C, S>,
)
    requires
        client.directs(Message::Text(text), parse, d),
    ensures
        parser_input(Message::Text(text)) == Some(encode_utf8(text@)),
        exists|parsed: Result<C, String>|
            {
                &&& #[trigger] parser_answers(parse, encode_utf8(text@), parsed)
                &&& parsed matches Ok(command) ==> client.dispatches(d, command, None)
                &&& parsed matches Err(message) ==> rejects(
                    d,
                    ErrorContext::StringToAction,
                    message@,
                )
            },
{
}

impl<S> Client<S> {
    /// Hands a dispatch tuple to the channel. `submit` pushes it without
    /// blocking and says whether the channel took it. A channel that has lost
    /// its consumer is fatal to the connection: the caller goes on with
    /// `on_error` and closes.
    pub fn send<C, F>(&self, s: ActionRequest<C, S>, submit: F) -> (r: Result<
        (),
        ChannelClosed,
    >) where F: FnOnce(ActionRequest<C, S>) -> bool
        requires
            call_requires(submit, (s,)),
        ensures
            exists|accepted: bool| call_ensures(submit, (s,), accepted) && (r is Ok <==> accepted),
    {
        if submit(s) {
            Ok(())
        } else {
            Err(ChannelClosed)
        }
    }

    /// The connection was closed, from either end: its identity leaves the
    /// registry. Where the identity is no longer held, nothing changes.
    pub fn on_close(&self, service: &mut Service<S>)
        ensures
            old(service).wf() ==> final(service).wf(),
            final(service)@ == old(service)@.remove(self.client_id),
    {
        service.remove_client(self.client_id);
    }

    /// The connection met an error that it cannot recover from: its identity
    /// leaves the registry, and the caller closes the connection with an
    /// error status.
    pub fn on_error(&self, service: &mut Service<S>)
        ensures
            old(service).wf() ==> final(service).wf(),
            final(service)@ == old(service)@.remove(self.client_id),
    {
        service.remove_client(self.client_id);
    }
}

} // verus!
