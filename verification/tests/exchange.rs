use ldk_node::NodeError;
use ldk_node_rpc::{
    handle_request, read_response, Dispatch, LdkNodeServerClient, LdkNodeServerError, NodeService,
    Operation, Reply,
};
use prost::{DecodeError, Message};
use std::sync::Arc;

fn decode_text(bytes: &[u8]) -> Result<String, DecodeError> {
    String::decode(bytes)
}

fn encode_text(message: &String) -> Vec<u8> {
    message.encode_to_vec()
}

/// Stands for the transport: takes the path out of the address and lets the
/// service answer.
fn serve(service: &NodeService<String>, url: &str, body: &[u8], fail: bool) -> Reply {
    let path = &url[url.rfind('/').unwrap()..];
    match service.call(path) {
        Dispatch::Invoke { operation, node } => handle_request(
            node,
            body,
            decode_text,
            |node: Arc<String>, request: String| {
                if fail {
                    Err(NodeError::PaymentSendingFailed)
                } else {
                    Ok(format!("{}:{}:{}", node, operation.path(), request))
                }
            },
            encode_text,
        ),
        Dispatch::Reject { reply } => reply,
    }
}

#[test]
fn codec_gives_back_what_it_was_given() {
    for text in ["", "a", "bc1qaddress", "gr\u{fc}n \u{20ac}"] {
        let message = String::from(text);
        assert_eq!(String::decode(&message.encode_to_vec()[..]), Ok(message));
    }
    for number in [0u64, 1, 127, 128, 300, u64::MAX] {
        assert_eq!(u64::decode(&number.encode_to_vec()[..]), Ok(number));
    }
}

#[test]
fn response_reaches_the_caller_as_the_handler_gave_it() {
    let service = NodeService::new(Arc::new(String::from("node")));
    let client = LdkNodeServerClient::new(String::from("localhost:3000"));
    let envelope = client.list_channels(String::from("all").encode_to_vec());
    let reply = serve(&service, &envelope.url, &envelope.body, false);
    assert_eq!(reply.status(), 200);
    let result = read_response(Ok((reply.status(), reply.into_body())), decode_text);
    assert_eq!(result, Ok(String::from("node:ListChannels:all")));
}

#[test]
fn every_stub_reaches_its_own_handler() {
    let service = NodeService::new(Arc::new(String::from("n")));
    let client = LdkNodeServerClient::new(String::from("h:1"));
    for operation in Operation::all() {
        let envelope = client.request(operation, String::from("q").encode_to_vec());
        let reply = serve(&service, &envelope.url, &envelope.body, false);
        let result = read_response(Ok((reply.status(), reply.into_body())), decode_text);
        assert_eq!(result, Ok(format!("n:{}:q", operation.path())));
    }
}

#[test]
fn servers_words_do_not_reach_the_caller() {
    let service = NodeService::new(Arc::new(String::from("node")));
    let client = LdkNodeServerClient::new(String::from("localhost:3000"));
    let unknown = LdkNodeServerError::InternalError(String::from("Unknown Error"));

    let envelope = client.bolt11_send(String::from("invoice").encode_to_vec());
    let failed = serve(&service, &envelope.url, &envelope.body, true);
    assert_eq!(failed.status(), 500);
    assert_eq!(failed.body(), b"Failed to send the given payment.".to_vec());
    let result = read_response(Ok((failed.status(), failed.into_body())), decode_text);
    assert_eq!(result, Err(unknown.clone()));

    let malformed = serve(&service, &envelope.url, &[0x0f], false);
    assert_eq!(malformed.status(), 400);
    let result = read_response(Ok((malformed.status(), malformed.into_body())), decode_text);
    assert_eq!(result, Err(unknown.clone()));

    let missing = serve(&service, "http://localhost:3000/DoesNotExist", &envelope.body, false);
    assert_eq!(missing.body(), b"Unknown request: /DoesNotExist".to_vec());
    let result = read_response(Ok((missing.status(), missing.into_body())), decode_text);
    assert_eq!(result, Err(unknown));
}

#[test]
fn interleaved_calls_get_their_own_answers() {
    let node = Arc::new(String::from("shared"));
    let service = NodeService::new(Arc::clone(&node));
    let other_service = service.clone();
    let client = LdkNodeServerClient::new(String::from("h:1"));
    let other_client = client.clone();

    let mut envelopes = Vec::new();
    for (index, operation) in Operation::all().into_iter().enumerate() {
        let sender = if index % 2 == 0 { &client } else { &other_client };
        let request = format!("request-{}", index);
        envelopes.push((operation, request.clone(), sender.request(operation, request.encode_to_vec())));
    }

    let mut replies = Vec::new();
    for (index, (operation, request, envelope)) in envelopes.iter().enumerate().rev() {
        let receiver = if index % 3 == 0 { &service } else { &other_service };
        replies.push((*operation, request.clone(), serve(receiver, &envelope.url, &envelope.body, false)));
    }
    assert_eq!(replies.len(), 9);

    for (operation, request, reply) in replies {
        let result = read_response(Ok((reply.status(), reply.into_body())), decode_text);
        assert_eq!(result, Ok(format!("shared:{}:{}", operation.path(), request)));
    }
    assert_eq!(Arc::strong_count(&node), 3);
}
