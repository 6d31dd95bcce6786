use ldk_node_rpc::operation::{
    Operation, BOLT11_RECEIVE_PATH, BOLT11_SEND_PATH, BOLT12_RECEIVE_PATH, BOLT12_SEND_PATH,
    CLOSE_CHANNEL_PATH, LIST_CHANNELS_PATH, ONCHAIN_RECEIVE_PATH, ONCHAIN_SEND_PATH,
    OPEN_CHANNEL_PATH,
};

#[test]
fn table_lists_the_nine_operations_in_order() {
    assert_eq!(
        Operation::all(),
        [
            Operation::OnchainReceive,
            Operation::OnchainSend,
            Operation::Bolt11Receive,
            Operation::Bolt11Send,
            Operation::Bolt12Receive,
            Operation::Bolt12Send,
            Operation::OpenChannel,
            Operation::CloseChannel,
            Operation::ListChannels,
        ]
    );
}

#[test]
fn each_operation_has_its_path() {
    assert_eq!(Operation::OnchainReceive.path(), "OnchainReceive");
    assert_eq!(Operation::OnchainSend.path(), "OnchainSend");
    assert_eq!(Operation::Bolt11Receive.path(), "Bolt11Receive");
    assert_eq!(Operation::Bolt11Send.path(), "Bolt11Send");
    assert_eq!(Operation::Bolt12Receive.path(), "Bolt12Receive");
    assert_eq!(Operation::Bolt12Send.path(), "Bolt12Send");
    assert_eq!(Operation::OpenChannel.path(), "OpenChannel");
    assert_eq!(Operation::CloseChannel.path(), "CloseChannel");
    assert_eq!(Operation::ListChannels.path(), "ListChannels");
}

#[test]
fn path_constants_are_the_paths() {
    assert_eq!(ONCHAIN_RECEIVE_PATH, "OnchainReceive");
    assert_eq!(ONCHAIN_SEND_PATH, "OnchainSend");
    assert_eq!(BOLT11_RECEIVE_PATH, "Bolt11Receive");
    assert_eq!(BOLT11_SEND_PATH, "Bolt11Send");
    assert_eq!(BOLT12_RECEIVE_PATH, "Bolt12Receive");
    assert_eq!(BOLT12_SEND_PATH, "Bolt12Send");
    assert_eq!(OPEN_CHANNEL_PATH, "OpenChannel");
    assert_eq!(CLOSE_CHANNEL_PATH, "CloseChannel");
    assert_eq!(LIST_CHANNELS_PATH, "ListChannels");
}

#[test]
fn every_path_finds_its_operation() {
    for operation in Operation::all() {
        assert_eq!(Operation::from_path(operation.path()), Some(operation));
    }
}

#[test]
fn no_two_operations_share_a_path() {
    let table = Operation::all();
    for (i, a) in table.iter().enumerate() {
        for (j, b) in table.iter().enumerate() {
            assert_eq!(a.path() == b.path(), i == j);
        }
    }
}

#[test]
fn lookup_is_case_sensitive() {
    assert_eq!(Operation::from_path("onchainreceive"), None);
    assert_eq!(Operation::from_path("ONCHAINRECEIVE"), None);
    assert_eq!(Operation::from_path("onchainReceive"), None);
    assert_eq!(Operation::from_path("Listchannels"), None);
}

#[test]
fn lookup_matches_the_whole_path() {
    assert_eq!(Operation::from_path(""), None);
    assert_eq!(Operation::from_path("Onchain"), None);
    assert_eq!(Operation::from_path("OnchainReceive "), None);
    assert_eq!(Operation::from_path(" OnchainReceive"), None);
    assert_eq!(Operation::from_path("OnchainReceive/"), None);
    assert_eq!(Operation::from_path("/OnchainReceive"), None);
    assert_eq!(Operation::from_path("OnchainReceiveOnchainSend"), None);
    assert_eq!(Operation::from_path("Bolt13Send"), None);
    assert_eq!(Operation::from_path("DoesNotExist"), None);
}

#[test]
fn every_target_finds_its_operation() {
    for operation in Operation::all() {
        let target = format!("/{}", operation.path());
        assert_eq!(Operation::from_target(&target), Some(operation));
    }
    assert_eq!(Operation::from_target("/OnchainReceive"), Some(Operation::OnchainReceive));
    assert_eq!(Operation::from_target("/CloseChannel"), Some(Operation::CloseChannel));
    assert_eq!(Operation::from_target("/ListChannels"), Some(Operation::ListChannels));
}

#[test]
fn target_takes_exactly_one_leading_slash() {
    assert_eq!(Operation::from_target("OnchainReceive"), None);
    assert_eq!(Operation::from_target("//OnchainReceive"), None);
    assert_eq!(Operation::from_target("/OnchainReceive/"), None);
    assert_eq!(Operation::from_target("/onchainreceive"), None);
    assert_eq!(Operation::from_target("/api/OnchainReceive"), None);
    assert_eq!(Operation::from_target("/"), None);
    assert_eq!(Operation::from_target(""), None);
    assert_eq!(Operation::from_target("/DoesNotExist"), None);
    assert_eq!(Operation::from_target("\u{e9}OnchainReceive"), None);
    assert_eq!(Operation::from_target("/\u{e9}"), None);
}
