use action_gateway::handler::{Client, Directive, ErrorContext, Message};
use action_gateway::service::Service;
use serde_json::Value;

fn parse_value(json: &[u8]) -> Result<Value, String> {
    serde_json::from_slice::<Value>(json).map_err(|e| e.to_string())
}

fn deliver(sender: &ws::Sender, command: Value) -> bool {
    sender.send(ws::Message::text(serde_json::to_string(&command).unwrap())).is_ok()
}

fn no_handler(_out: ws::Sender) -> impl ws::Handler {
    |_msg: ws::Message| -> ws::Result<()> { Ok(()) }
}

#[test]
fn registry_holds_websocket_senders() {
    let socket = ws::WebSocket::new(no_handler).unwrap();
    let mut service: Service<ws::Sender> = Service::new();
    assert_eq!(service.add_client(socket.broadcaster()), Ok(1));
    assert_eq!(service.add_client(socket.broadcaster()), Ok(2));
    let got = service.get_sender(2).unwrap();
    assert_eq!(got, socket.broadcaster());
    assert!(service.get_sender(3).is_none());
}

#[test]
fn reply_over_a_live_websocket_keeps_the_client() {
    let socket = ws::WebSocket::new(no_handler).unwrap();
    let mut service: Service<ws::Sender> = Service::new();
    assert_eq!(service.add_client(socket.broadcaster()), Ok(1));
    service.socket_reply((1, Value::from("pong")), deliver);
    assert!(service.get_sender(1).is_some());
}

#[test]
fn reply_over_a_dead_websocket_removes_the_client() {
    let socket = ws::WebSocket::new(no_handler).unwrap();
    let mut service: Service<ws::Sender> = Service::new();
    assert_eq!(service.add_client(socket.broadcaster()), Ok(1));
    assert_eq!(service.add_client(socket.broadcaster()), Ok(2));
    drop(socket);
    service.socket_reply((1, Value::from("pong")), deliver);
    assert!(service.get_sender(1).is_none());
    assert!(service.get_sender(2).is_some());
}

#[test]
fn websocket_messages_map_onto_the_endpoint() {
    let socket = ws::WebSocket::new(no_handler).unwrap();
    let client = Client { out: socket.broadcaster(), client_id: 3 };
    let inbound = ws::Message::binary(vec![0, 0, 0, 4, b'n', b'u', b'l', b'l', 7]);
    let msg = match inbound {
        ws::Message::Text(text) => Message::Text(text),
        ws::Message::Binary(data) => Message::Binary(data),
    };
    match client.on_message(msg, parse_value) {
        Directive::Dispatch((id, command, payload, out)) => {
            assert_eq!(id, 3);
            assert_eq!(command, Value::Null);
            assert_eq!(&payload.unwrap()[..], &[7]);
            assert_eq!(out, socket.broadcaster());
        }
        Directive::Reject { .. } => panic!("the command was refused"),
    }
    let inbound = ws::Message::text("not json");
    let msg = match inbound {
        ws::Message::Text(text) => Message::Text(text),
        ws::Message::Binary(data) => Message::Binary(data),
    };
    match client.on_message(msg, parse_value) {
        Directive::Reject { context, .. } => assert_eq!(context, ErrorContext::StringToAction),
        Directive::Dispatch(_) => panic!("the text was dispatched"),
    }
}
