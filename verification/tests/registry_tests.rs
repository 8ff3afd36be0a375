use wm_core::client::{Client, Role};
use wm_core::container::ClientContainer;

#[test]
fn test_client_container() {
    let mut container = ClientContainer::new();
    container.add_client(1, 2);
    container.add_client(3, 4);
    assert_eq!(
        container.query_client_from_app(1).unwrap(),
        container.query_client_from_frame(2).unwrap()
    );
    assert_eq!(
        container.query_client_from_app(3).unwrap(),
        container.query_client_from_frame(4).unwrap()
    );
    assert_ne!(
        container.query_client_from_app(1).unwrap(),
        container.query_client_from_app(3).unwrap()
    );
    assert_eq!(container.query_client_from_app(5), None);
    assert_eq!(container.query_client_from_frame(6), None);
}

#[test]
fn query_by_id_resolves_roles() {
    let mut container = ClientContainer::new();
    assert!(container.add_client(1, 2).is_some());
    assert!(container.add_client(3, 4).is_some());

    let first = Client { app_id: 1, frame_id: 2 };
    assert_eq!(container.query_client_from_id(1), Some((first, Role::App)));
    assert_eq!(container.query_client_from_id(2), Some((first, Role::Frame)));
    assert_eq!(container.query_client_from_id(5), None);

    container.remove_client(first);
    assert_eq!(container.query_client_from_id(1), None);
    assert_eq!(container.query_client_from_id(2), None);
    let second = Client { app_id: 3, frame_id: 4 };
    assert_eq!(container.query_client_from_id(3), Some((second, Role::App)));
    assert_eq!(container.query_client_from_id(4), Some((second, Role::Frame)));
}

#[test]
fn duplicate_identifiers_are_rejected() {
    let mut container = ClientContainer::new();
    assert_eq!(container.add_client(1, 2), Some(Client { app_id: 1, frame_id: 2 }));
    // Each identifier may be registered once, in either role.
    assert_eq!(container.add_client(1, 9), None);
    assert_eq!(container.add_client(9, 2), None);
    assert_eq!(container.add_client(2, 9), None);
    assert_eq!(container.add_client(9, 1), None);
    // A client may not use one identifier for both windows.
    assert_eq!(container.add_client(7, 7), None);
    // The failed attempts left the registry unchanged.
    assert_eq!(container.query_client_from_app(9), None);
    assert_eq!(container.query_client_from_frame(9), None);
}

#[test]
fn remove_is_idempotent() {
    let mut container = ClientContainer::new();
    assert!(container.add_client(1, 2).is_some());
    let client = Client { app_id: 1, frame_id: 2 };
    container.remove_client(client);
    container.remove_client(client);
    assert_eq!(container.query_client_from_app(1), None);
    // Removing a client that was never registered is a no-op too.
    container.remove_client(Client { app_id: 50, frame_id: 60 });
    assert!(container.add_client(1, 2).is_some());
}
