use wm_core::client::Client;
use wm_core::client_map::ClientMap;

#[test]
fn test_client_map() {
    let mut map = ClientMap::new();
    map.insert(
        Client {
            app_id: 1,
            frame_id: 2,
        },
        3,
    );
    map.insert(
        Client {
            app_id: 4,
            frame_id: 5,
        },
        6,
    );
    assert_eq!(
        map.query(Client {
            app_id: 1,
            frame_id: 2
        }),
        Some(&3)
    );
    assert_eq!(
        map.query(Client {
            app_id: 4,
            frame_id: 5
        }),
        Some(&6)
    );

    map.remove(Client {
        app_id: 1,
        frame_id: 2,
    });
    assert_eq!(
        map.query(Client {
            app_id: 1,
            frame_id: 2
        }),
        None
    );
    assert_eq!(
        map.query(Client {
            app_id: 4,
            frame_id: 5
        }),
        Some(&6)
    );
}

#[test]
fn insert_overwrites_in_place() {
    let mut map = ClientMap::new();
    let client = Client { app_id: 1, frame_id: 2 };
    map.insert(client, 10);
    map.insert(client, 20);
    assert_eq!(map.query(client), Some(&20));
    assert_eq!(map.entries().len(), 1);
    map.clear();
    assert_eq!(map.query(client), None);
    assert_eq!(map.entries().len(), 0);
}
