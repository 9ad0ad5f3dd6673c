use subrelay::{
    has_prefix, parse_command, placeholder, render, resolve_thumbnail, select_at, select_item,
    str_equal, strip_prefix_repeated, Action, Command, ContentItem, Registry, RegistryError,
    SelectError, SourceError, SubscriptionTask, TaskError, TaskEvent, TaskPhase,
};

const FALLBACK: &str = "https://i.imgur.com/3QXVqyN.png";

fn item(n: usize) -> ContentItem {
    ContentItem {
        title: format!("post {}", n),
        url: Some(format!("https://example.com/{}", n)),
        body: format!("body {}", n),
        thumbnail: Some(format!("https://example.com/{}.png", n)),
        score: Some(n as i64),
    }
}

fn batch(n: usize) -> Vec<ContentItem> {
    (0..n).map(item).collect()
}

#[test]
fn select_item_stays_in_window() {
    let b: Vec<u32> = vec![1, 2, 3, 4, 5, 6, 7];
    for window in 1..=b.len() {
        for _ in 0..50 {
            let r = select_item(&b, window).unwrap();
            assert!(b[..window].contains(r));
        }
    }
}

#[test]
fn select_item_window_of_one_is_first() {
    let b: Vec<u32> = vec![9, 8, 7];
    assert_eq!(select_item(&b, 1), Ok(&9));
}

#[test]
fn select_item_empty_batch() {
    let b: Vec<u32> = Vec::new();
    assert_eq!(select_item(&b, 1), Err(SelectError::EmptyBatch));
    assert_eq!(select_item(&b, 0), Err(SelectError::EmptyBatch));
    assert_eq!(select_at(&b, 3, 2), Err(SelectError::EmptyBatch));
}

#[test]
fn select_item_window_errors() {
    let b: Vec<u32> = vec![1, 2, 3];
    assert_eq!(select_item(&b, 4), Err(SelectError::WindowExceedsBatch));
    assert_eq!(select_item(&b, 0), Err(SelectError::EmptyWindow));
}

#[test]
fn select_at_wraps_pick_into_window() {
    let b: Vec<u32> = vec![10, 20, 30, 40, 50];
    assert_eq!(select_at(&b, 3, 0), Ok(&10));
    assert_eq!(select_at(&b, 3, 2), Ok(&30));
    assert_eq!(select_at(&b, 3, 4), Ok(&20));
    assert_eq!(select_at(&b, 5, 4), Ok(&50));
}

#[test]
fn thumbnail_resolution() {
    let fallback = FALLBACK.to_string();
    assert_eq!(resolve_thumbnail(&Some("self".to_string()), &fallback), FALLBACK);
    assert_eq!(resolve_thumbnail(&Some("default".to_string()), &fallback), FALLBACK);
    assert_eq!(
        resolve_thumbnail(&Some("http://x/y.png".to_string()), &fallback),
        "http://x/y.png"
    );
    assert_eq!(resolve_thumbnail(&None, &fallback), FALLBACK);
    assert_eq!(resolve_thumbnail(&Some("selfie".to_string()), &fallback), "selfie");
}

#[test]
fn placeholder_markers() {
    assert!(placeholder("self"));
    assert!(placeholder("default"));
    assert!(!placeholder("Self"));
    assert!(!placeholder(""));
    assert!(str_equal("ab", "ab"));
    assert!(!str_equal("ab", "abc"));
}

#[test]
fn render_copies_fields() {
    let mut it = item(3);
    it.thumbnail = Some("self".to_string());
    let r = render(&it, &FALLBACK.to_string());
    assert_eq!(r.title, "post 3");
    assert_eq!(r.url, Some("https://example.com/3".to_string()));
    assert_eq!(r.description, "body 3");
    assert_eq!(r.image, FALLBACK);
}

#[test]
fn prefix_checks() {
    assert!(has_prefix("!subscribe rust", "!subscribe"));
    assert!(!has_prefix("!sub", "!subscribe"));
    assert_eq!(strip_prefix_repeated("!subscribe!subscribe rust", "!subscribe"), " rust");
    assert_eq!(strip_prefix_repeated("abc", ""), "abc");
}

#[test]
fn parse_commands() {
    assert!(matches!(parse_command("!hello"), Command::Hello));
    assert!(matches!(parse_command("!hello there"), Command::Other));
    assert!(matches!(parse_command("hello"), Command::Other));
    match parse_command("!subscribe  rust \n") {
        Command::Subscribe { rest, topic } => {
            assert_eq!(rest, "  rust \n");
            assert_eq!(topic, "rust");
        }
        _ => panic!("expected a subscription"),
    }
    match parse_command("!subscribe") {
        Command::Subscribe { rest, topic } => {
            assert_eq!(rest, "");
            assert_eq!(topic, "");
        }
        _ => panic!("expected a subscription"),
    }
}

#[test]
fn registry_rejects_duplicate() {
    let mut reg = Registry::new();
    let id = reg.register("rust".to_string(), 7, 30).unwrap();
    assert_eq!(
        reg.register("rust".to_string(), 7, 60),
        Err(RegistryError::DuplicateSubscription)
    );
    assert_eq!(reg.len(), 1);
    assert_eq!(reg.list()[0].id, id);
    assert_eq!(reg.list()[0].interval, 30);
    let other = reg.register("rust".to_string(), 8, 30).unwrap();
    assert_ne!(id, other);
    assert_eq!(reg.len(), 2);
}

#[test]
fn registry_rejects_empty_topic() {
    let mut reg = Registry::new();
    assert_eq!(reg.register(String::new(), 1, 1), Err(RegistryError::InvalidTopic));
    assert_eq!(reg.len(), 0);
}

#[test]
fn registry_cancel_twice() {
    let mut reg = Registry::new();
    let a = reg.register("a".to_string(), 1, 1).unwrap();
    let b = reg.register("b".to_string(), 1, 1).unwrap();
    assert!(reg.is_active(a));
    assert_eq!(reg.cancel(a), Ok(()));
    assert!(!reg.is_active(a));
    assert_eq!(reg.cancel(a), Err(RegistryError::NotFound));
    assert_eq!(reg.len(), 1);
    assert!(reg.is_active(b));
    assert_eq!(reg.cancel(999), Err(RegistryError::NotFound));
    let again = reg.register("a".to_string(), 1, 1).unwrap();
    assert_ne!(again, a);
}

#[test]
fn task_rejects_empty_topic() {
    let r = SubscriptionTask::start(String::new(), 1, 1, 25, 5, FALLBACK.to_string());
    assert!(matches!(r, Err(TaskError::InvalidTopic)));
}

fn started(topic: &str, interval: u64) -> SubscriptionTask {
    let (task, first) =
        SubscriptionTask::start(topic.to_string(), 42, interval, 25, 5, FALLBACK.to_string())
            .unwrap();
    match first {
        Action::Fetch { topic: t, size } => {
            assert_eq!(t, topic);
            assert_eq!(size, 25);
        }
        _ => panic!("first action must be a fetch"),
    }
    task
}

#[test]
fn task_survives_three_fetch_failures() {
    let mut task = started("news", 30);
    let errors = [
        SourceError::SourceUnavailable,
        SourceError::MalformedResponse,
        SourceError::SourceUnavailable,
    ];
    for e in errors {
        assert!(matches!(task.step(TaskEvent::FetchFailed(e)), Action::Sleep { ticks: 30 }));
        assert_eq!(task.phase(), TaskPhase::Sleeping);
        match task.step(TaskEvent::Woke { cancelled: false }) {
            Action::Fetch { topic, size } => {
                assert_eq!(topic, "news");
                assert_eq!(size, 25);
            }
            _ => panic!("expected a fetch"),
        }
        assert!(!task.is_cancelled());
    }
    let b = batch(5);
    match task.step(TaskEvent::Fetched(b)) {
        Action::Send { destination, relay } => {
            assert_eq!(destination, 42);
            assert!((0..5).any(|n| relay.title == format!("post {}", n)));
        }
        _ => panic!("expected a send"),
    }
    assert_eq!(task.phase(), TaskPhase::Relaying);
}

#[test]
fn task_relays_once_per_tick() {
    let mut reg = Registry::new();
    let (id, mut task, first) = reg
        .subscribe("testsub".to_string(), 42, 1, 25, 5, FALLBACK.to_string())
        .unwrap();
    assert!(matches!(first, Action::Fetch { size: 25, .. }));
    let mut sends = Vec::new();
    let mut action = task.step(TaskEvent::Fetched(batch(5)));
    loop {
        match action {
            Action::Send { destination, relay } => {
                sends.push((destination, relay.title));
                action = task.step(TaskEvent::Delivered);
            }
            Action::Sleep { ticks } => {
                assert_eq!(ticks, 1);
                break;
            }
            _ => panic!("unexpected action"),
        }
    }
    assert_eq!(sends.len(), 1);
    assert_eq!(sends[0].0, 42);
    assert!((0..5).any(|n| sends[0].1 == format!("post {}", n)));
    assert!(reg.is_active(id));
}

#[test]
fn task_skips_unusable_batch_and_failed_delivery() {
    let mut task = started("news", 5);
    assert!(matches!(task.step(TaskEvent::Fetched(Vec::new())), Action::Sleep { ticks: 5 }));
    assert!(matches!(task.step(TaskEvent::Woke { cancelled: false }), Action::Fetch { .. }));
    assert!(matches!(task.step(TaskEvent::Fetched(batch(3))), Action::Sleep { ticks: 5 }));
    assert!(matches!(task.step(TaskEvent::Woke { cancelled: false }), Action::Fetch { .. }));
    assert!(matches!(task.step(TaskEvent::Fetched(batch(6))), Action::Send { .. }));
    assert!(matches!(task.step(TaskEvent::DeliveryFailed), Action::Sleep { ticks: 5 }));
    assert_eq!(task.phase(), TaskPhase::Sleeping);
}

#[test]
fn task_stops_on_cancel() {
    let mut task = started("news", 5);
    assert!(matches!(task.step(TaskEvent::Delivered), Action::Ignore));
    assert_eq!(task.phase(), TaskPhase::Polling);
    assert!(matches!(
        task.step(TaskEvent::FetchFailed(SourceError::SourceUnavailable)),
        Action::Sleep { .. }
    ));
    assert!(matches!(task.step(TaskEvent::Woke { cancelled: true }), Action::Stop));
    assert!(task.is_cancelled());
    assert!(matches!(task.step(TaskEvent::Fetched(batch(5))), Action::Stop));
    assert!(matches!(task.step(TaskEvent::Woke { cancelled: false }), Action::Stop));
    assert_eq!(task.destination(), 42);
    assert_eq!(task.topic(), "news");
}

#[test]
fn subscribe_registers_and_starts() {
    let mut reg = Registry::new();
    let (id, task, first) = reg
        .subscribe("rust".to_string(), 3, 10, 25, 5, FALLBACK.to_string())
        .unwrap();
    assert!(reg.is_active(id));
    assert_eq!(task.phase(), TaskPhase::Polling);
    assert_eq!(task.topic(), "rust");
    match first {
        Action::Fetch { topic, size } => {
            assert_eq!(topic, "rust");
            assert_eq!(size, 25);
        }
        _ => panic!("expected a fetch"),
    }
    let dup = reg.subscribe("rust".to_string(), 3, 10, 25, 5, FALLBACK.to_string());
    assert!(matches!(dup, Err(RegistryError::DuplicateSubscription)));
    let empty = reg.subscribe(String::new(), 3, 10, 25, 5, FALLBACK.to_string());
    assert!(matches!(empty, Err(RegistryError::InvalidTopic)));
    assert_eq!(reg.len(), 1);
}

#[test]
fn select_item_draws_vary() {
    let b: Vec<u32> = vec![1, 2, 3, 4, 5];
    let mut seen = Vec::new();
    for _ in 0..200 {
        let r = *select_item(&b, 5).unwrap();
        if !seen.contains(&r) {
            seen.push(r);
        }
    }
    assert!(seen.len() > 1);
}
