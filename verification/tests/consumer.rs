use next_slide_client::consumer::key_for;
use next_slide_client::{Event, Key, Panel, StateChange};

#[test]
fn panel_starts_initializing() {
    assert_eq!(
        Panel::new(),
        Panel { status: "Initializing".to_string(), websocket_url: None, publish_url: None }
    );
}

#[test]
fn connecting_clears_the_addresses() {
    let mut panel = Panel {
        status: "Connected!".to_string(),
        websocket_url: Some("wss://ws.example/abc".to_string()),
        publish_url: Some("https://ctl.example/abc".to_string()),
    };
    assert_eq!(panel.apply(StateChange::Connecting), None);
    assert_eq!(
        panel,
        Panel { status: "Connecting...".to_string(), websocket_url: None, publish_url: None }
    );
}

#[test]
fn connected_shows_the_addresses() {
    let mut panel = Panel::new();
    let pressed = panel.apply(StateChange::Connected {
        websocket_url: "wss://ws.example/abc".to_string(),
        publish_url: "https://ctl.example/abc".to_string(),
    });
    assert_eq!(pressed, None);
    assert_eq!(
        panel,
        Panel {
            status: "Connected!".to_string(),
            websocket_url: Some("wss://ws.example/abc".to_string()),
            publish_url: Some("https://ctl.example/abc".to_string()),
        }
    );
}

#[test]
fn an_event_presses_its_key_and_leaves_the_panel() {
    let mut panel = Panel {
        status: "Connected!".to_string(),
        websocket_url: Some("w".to_string()),
        publish_url: Some("p".to_string()),
    };
    assert_eq!(panel.apply(StateChange::EventReceived(Event::Next)), Some(Key::Right));
    assert_eq!(panel.apply(StateChange::EventReceived(Event::Previous)), Some(Key::Left));
    assert_eq!(
        panel,
        Panel {
            status: "Connected!".to_string(),
            websocket_url: Some("w".to_string()),
            publish_url: Some("p".to_string()),
        }
    );
}

#[test]
fn keys_of_the_events() {
    assert_eq!(key_for(Event::Previous), Key::Left);
    assert_eq!(key_for(Event::Next), Key::Right);
}
