use iced_core::event::{Event, MacOS, PlatformSpecific, TickEvent};

#[derive(Debug, Clone, PartialEq)]
struct Key(char);

#[derive(Debug, Clone, PartialEq)]
struct Cursor(i32, i32);

#[derive(Debug, Clone, PartialEq)]
struct Resized(u32, u32);

#[derive(Debug, Clone, PartialEq)]
struct Finger(u64);

type UiEvent = Event<Key, Cursor, Resized, Finger, f32>;

fn url(text: &str) -> PlatformSpecific {
    PlatformSpecific::MacOS(MacOS::ReceivedUrl(text.to_string()))
}

fn one_of_each() -> Vec<UiEvent> {
    vec![
        Event::Keyboard(Key('a')),
        Event::Mouse(Cursor(3, 4)),
        Event::Window(Resized(800, 600)),
        Event::Touch(Finger(7)),
        Event::PlatformSpecific(url("a")),
        Event::Tick(TickEvent::new(0.016, 1.234)),
    ]
}

#[test]
fn tick_event_new_keeps_fields() {
    let tick = TickEvent::new(0.016f32, 1.234f32);
    assert_eq!(tick.delta_seconds, 0.016);
    assert_eq!(tick.total_seconds, 1.234);
    assert_eq!(tick, TickEvent::new(0.016, 1.234));
    assert_ne!(tick, TickEvent::new(0.017, 1.234));
    assert_ne!(tick, TickEvent::new(0.016, 1.235));
}

#[test]
fn tick_event_accepts_unchecked_values() {
    let tick = TickEvent::new(-1.0f32, 0.0f32);
    assert_eq!(tick.delta_seconds, -1.0);
    assert_eq!(tick.total_seconds, 0.0);
}

#[test]
fn tick_event_is_copied() {
    let tick = TickEvent::new(0.5f32, 2.0f32);
    let copy = tick;
    assert_eq!(tick, copy);
}

#[test]
fn each_variant_equals_an_independent_copy() {
    let first = one_of_each();
    let second = one_of_each();
    for (a, b) in first.iter().zip(second.iter()) {
        assert_eq!(a, b);
        assert_eq!(a, &a.clone());
    }
}

#[test]
fn variants_are_distinguishable() {
    let events = one_of_each();
    for (i, a) in events.iter().enumerate() {
        for (j, b) in events.iter().enumerate() {
            if i != j {
                assert_ne!(a, b);
            }
        }
    }
}

#[test]
fn payloads_are_distinguishable() {
    let a: UiEvent = Event::PlatformSpecific(url("a"));
    let b: UiEvent = Event::PlatformSpecific(url("b"));
    assert_ne!(a, b);
    assert_ne!(url("a"), url("b"));
    assert_eq!(url("https://example.com"), url("https://example.com"));

    let k1: UiEvent = Event::Keyboard(Key('a'));
    let k2: UiEvent = Event::Keyboard(Key('b'));
    assert_ne!(k1, k2);
}

#[test]
fn received_url_keeps_its_text() {
    match url("myapp://open?file=1") {
        PlatformSpecific::MacOS(MacOS::ReceivedUrl(text)) => {
            assert_eq!(text, "myapp://open?file=1");
        }
    }
}
