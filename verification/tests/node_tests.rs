use runtime::node::{self, NodeError, NodeEvent};

#[test]
fn create_records_node() {
    let mut nodes = node::Module::new();
    assert_eq!(nodes.create(1, 100), Ok(NodeEvent::Created(1, 100)));
    assert_eq!(nodes.owner_of(100), Some(1));
    assert_eq!(nodes.node(100).unwrap().id, 100);
    assert_eq!(nodes.all_nodes_count(), 1);
    assert_eq!(nodes.node_by_index(1), 100);
    assert_eq!(nodes.owned_nodes_count(1), 1);
    assert_eq!(nodes.node_of_owner_by_index(1, 1), 100);
    assert_eq!(nodes.create(2, 100), Err(NodeError::NodeAlreadyExists));
    assert_eq!(NodeError::NodeAlreadyExists.message(), "Content Node already exists");
}

#[test]
fn transfer_moves_ownership_and_counts() {
    let mut nodes = node::Module::new();
    nodes.create(1, 100).unwrap();
    nodes.create(1, 101).unwrap();
    nodes.create(2, 200).unwrap();
    assert_eq!(nodes.transfer(1, 2, 100), Ok(NodeEvent::Transferred(1, 2, 100)));
    assert_eq!(nodes.owner_of(100), Some(2));
    assert_eq!(nodes.owned_nodes_count(1), 1);
    assert_eq!(nodes.owned_nodes_count(2), 2);
    assert_eq!(nodes.all_nodes_count(), 3);
    // the node's rank 1 equals the sender's count less one, so rank 1 is
    // cleared; the node takes the receiver's old count, 1, as its rank
    assert_eq!(nodes.node_of_owner_by_index(1, 1), 0);
    assert_eq!(nodes.node_of_owner_by_index(1, 2), 101);
    assert_eq!(nodes.node_of_owner_by_index(2, 1), 100);
    assert_eq!(nodes.transfer(1, 3, 100), Err(NodeError::SenderDoesNotOwnNode));
}

#[test]
fn transfer_refusals() {
    let mut nodes = node::Module::new();
    assert_eq!(nodes.transfer(1, 2, 100), Err(NodeError::NoNodeOwner));
    nodes.create(1, 100).unwrap();
    assert_eq!(nodes.transfer(2, 3, 100), Err(NodeError::SenderDoesNotOwnNode));
    assert_eq!(NodeError::NoNodeOwner.message(), "No node owner");
}

#[test]
fn transfer_to_self_raises_count() {
    let mut nodes = node::Module::new();
    nodes.create(1, 100).unwrap();
    assert_eq!(nodes.transfer(1, 1, 100), Ok(NodeEvent::Transferred(1, 1, 100)));
    assert_eq!(nodes.owner_of(100), Some(1));
    assert_eq!(nodes.owned_nodes_count(1), 2);
}
