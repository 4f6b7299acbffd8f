use spotify_manager::daemon::{Daemon, Effect, Event, Ticker, TickerStep, POLL_INTERVAL};
use spotify_manager::ipc::{action_for, Action, ControlMessage, RefreshSignal, SOCKET_PATH};
use spotify_manager::playlist::Playlist;
use spotify_manager::track_info::Track;
use spotify_manager::track_lists::TrackLists;

fn strings(items: &[&str]) -> Vec<String> {
    items.iter().map(|s| s.to_string()).collect()
}

fn cache() -> TrackLists {
    let mut lists = TrackLists::new();
    lists.insert(Playlist::CurrentLoop, strings(&["trackA", "trackB"]));
    lists.insert(Playlist::FreshVibrations, strings(&["trackC"]));
    lists
}

fn playing(uri: &str) -> Option<Track> {
    Some(Track {
        id: uri.to_string(),
        uri: uri.to_string(),
        name: "Song".to_string(),
        artists: strings(&["Ann"]),
    })
}

/// Runs a ticker against scripted polls and returns what it put on the
/// stream and how long it slept, up to the poll for which the script has
/// nothing left.
fn produce(polls: &[Option<Action>]) -> (Vec<Action>, Vec<u64>) {
    let mut ticker = Ticker::new();
    let mut polls = polls.iter();
    let mut stream = Vec::new();
    let mut sleeps = Vec::new();
    loop {
        match ticker.step() {
            TickerStep::Enqueue { action } => {
                stream.push(action);
                ticker.enqueued();
            }
            TickerStep::Poll => match polls.next() {
                Some(found) => ticker.polled(*found),
                None => return (stream, sleeps),
            },
            TickerStep::Sleep { seconds } => {
                sleeps.push(seconds);
                ticker.slept();
            }
        }
    }
}

#[test]
fn the_socket_and_the_interval_are_fixed() {
    assert_eq!(SOCKET_PATH, "/tmp/spotify-manager/socket");
    assert_eq!(POLL_INTERVAL, 1);
}

#[test]
fn requests_become_actions_and_everything_else_is_dropped() {
    assert_eq!(action_for(Some(&ControlMessage::RefreshRequested), 4), Some(Action::RefreshCache));
    assert_eq!(
        action_for(Some(&ControlMessage::StatusRequested), 4),
        Some(Action::ReplyStatus { reply: 4 })
    );
    assert_eq!(action_for(Some(&ControlMessage::TrackInfo { text: "x".to_string() }), 4), None);
    assert_eq!(action_for(None, 4), None);
}

#[test]
fn a_refresh_signal_is_a_refresh_request() {
    assert_eq!(RefreshSignal.message(), ControlMessage::RefreshRequested);
    assert_eq!(action_for(Some(&RefreshSignal.message()), 0), Some(Action::RefreshCache));
}

#[test]
fn only_a_reply_carries_a_status() {
    assert_eq!(ControlMessage::reply("line".to_string()).status_text(), Some("line".to_string()));
    assert_eq!(
        ControlMessage::reply("line".to_string()),
        ControlMessage::TrackInfo { text: "line".to_string() }
    );
    assert_eq!(ControlMessage::RefreshRequested.status_text(), None);
    assert_eq!(ControlMessage::StatusRequested.status_text(), None);
}

#[test]
fn the_stream_opens_with_a_tick_a_refresh_and_the_first_cycle() {
    let (stream, sleeps) = produce(&[]);
    assert_eq!(stream, vec![Action::Tick, Action::RefreshCache, Action::Tick]);
    assert!(sleeps.is_empty());
}

#[test]
fn a_scripted_interleaving_comes_out_in_enqueue_order() {
    let polls = [
        Some(Action::RefreshCache),
        Some(Action::ReplyStatus { reply: 1 }),
        Some(Action::RefreshCache),
        None,
        None,
        Some(Action::ReplyStatus { reply: 2 }),
        None,
        Some(Action::ReplyStatus { reply: 3 }),
    ];
    let (stream, sleeps) = produce(&polls);
    assert_eq!(
        stream,
        vec![
            Action::Tick,
            Action::RefreshCache,
            Action::Tick,
            Action::RefreshCache,
            Action::ReplyStatus { reply: 1 },
            Action::RefreshCache,
            Action::Tick,
            Action::Tick,
            Action::ReplyStatus { reply: 2 },
            Action::Tick,
            Action::ReplyStatus { reply: 3 },
        ]
    );
    assert_eq!(sleeps, vec![1, 1, 1]);
}

#[test]
fn each_poll_adds_one_action_to_the_stream() {
    let polls: Vec<Option<Action>> = (0..40u64)
        .map(|i| match i % 4 {
            0 => Some(Action::ReplyStatus { reply: i }),
            1 => None,
            2 => Some(Action::RefreshCache),
            _ => Some(Action::ReplyStatus { reply: i * 7 }),
        })
        .collect();
    let (stream, sleeps) = produce(&polls);
    let mut expected = vec![Action::Tick, Action::RefreshCache, Action::Tick];
    expected.extend(polls.iter().map(|found| found.unwrap_or(Action::Tick)));
    assert_eq!(stream, expected);
    assert_eq!(sleeps.len(), polls.iter().filter(|found| found.is_none()).count());
}

#[test]
fn reports_the_ticker_did_not_ask_for_change_nothing() {
    let mut ticker = Ticker::new();
    ticker.polled(Some(Action::RefreshCache));
    ticker.slept();
    assert_eq!(ticker, Ticker::Opening);
    ticker.enqueued();
    ticker.enqueued();
    ticker.enqueued();
    assert_eq!(ticker, Ticker::Polling);
    assert_eq!(ticker.step(), TickerStep::Poll);
    ticker.enqueued();
    ticker.slept();
    assert_eq!(ticker, Ticker::Polling);
    ticker.polled(None);
    assert_eq!(ticker.step(), TickerStep::Sleep { seconds: 1 });
    ticker.polled(Some(Action::Tick));
    ticker.enqueued();
    assert_eq!(ticker, Ticker::Sleeping);
}

#[test]
fn events_answer_their_actions() {
    assert_eq!(Event::Tick { now_playing: None }.action(), Action::Tick);
    assert_eq!(Event::Refresh { fetched: Vec::new() }.action(), Action::RefreshCache);
    assert_eq!(Event::Status { reply: 9 }.action(), Action::ReplyStatus { reply: 9 });
}

#[test]
fn the_status_follows_what_is_playing() {
    let mut daemon = Daemon::new(cache());
    assert_eq!(daemon.track_info(), "");
    let effect = daemon.handle(Event::Tick { now_playing: playing("trackB") });
    assert_eq!(effect, Effect::Show { line: "Ann - Song [C]".to_string() });
    assert_eq!(daemon.track_info(), "Ann - Song [C]");
    let effect = daemon.handle(Event::Tick { now_playing: playing("trackC") });
    assert_eq!(effect, Effect::Show { line: "Ann - Song [F]".to_string() });
    let effect = daemon.handle(Event::Tick { now_playing: None });
    assert_eq!(effect, Effect::Show { line: "-".to_string() });
    assert_eq!(daemon.track_info(), "-");
    assert_eq!(daemon.track_lists(), &cache());
}

#[test]
fn a_status_request_gets_the_last_status() {
    let mut daemon = Daemon::new(cache());
    assert_eq!(
        daemon.handle(Event::Status { reply: 5 }),
        Effect::Reply { reply: 5, text: String::new() }
    );
    daemon.handle(Event::Tick { now_playing: playing("trackA") });
    assert_eq!(
        daemon.handle(Event::Status { reply: 6 }),
        Effect::Reply { reply: 6, text: "Ann - Song [C]".to_string() }
    );
    assert_eq!(
        daemon.handle(Event::Status { reply: 7 }),
        Effect::Reply { reply: 7, text: "Ann - Song [C]".to_string() }
    );
}

#[test]
fn a_refresh_that_fails_leaves_the_cache_as_it_was() {
    let mut daemon = Daemon::new(cache());
    let effect = daemon.handle(Event::Refresh {
        fetched: vec![(Playlist::CurrentLoop, None), (Playlist::FreshVibrations, None)],
    });
    assert_eq!(effect, Effect::Refreshed { persist: false });
    assert_eq!(daemon.track_lists(), &cache());
}

#[test]
fn a_refresh_that_fails_in_part_keeps_the_part_that_came() {
    let mut daemon = Daemon::new(cache());
    let effect = daemon.handle(Event::Refresh {
        fetched: vec![
            (Playlist::CurrentLoop, Some(strings(&["trackC"]))),
            (Playlist::FreshVibrations, None),
        ],
    });
    assert_eq!(effect, Effect::Refreshed { persist: false });
    assert_eq!(daemon.track_lists().get(Playlist::CurrentLoop), Some(&strings(&["trackC"])));
    assert_eq!(daemon.track_lists().get(Playlist::FreshVibrations), Some(&strings(&["trackC"])));
    let effect = daemon.handle(Event::Tick { now_playing: playing("trackC") });
    assert_eq!(effect, Effect::Show { line: "Ann - Song [CF]".to_string() });
}

#[test]
fn a_refresh_that_succeeds_is_written_to_the_cache() {
    let mut daemon = Daemon::new(TrackLists::new());
    assert_eq!(
        daemon.handle(Event::Tick { now_playing: playing("trackA") }),
        Effect::Show { line: "-".to_string() }
    );
    let effect = daemon.handle(Event::Refresh {
        fetched: vec![
            (Playlist::CurrentLoop, Some(strings(&["trackA", "trackB"]))),
            (Playlist::FreshVibrations, Some(strings(&["trackC"]))),
        ],
    });
    assert_eq!(effect, Effect::Refreshed { persist: true });
    assert_eq!(daemon.track_lists(), &cache());
    assert_eq!(
        daemon.handle(Event::Tick { now_playing: playing("trackA") }),
        Effect::Show { line: "Ann - Song [C]".to_string() }
    );
}

#[test]
fn events_are_handled_in_the_order_of_the_stream() {
    let events = vec![
        Event::Tick { now_playing: playing("trackA") },
        Event::Status { reply: 1 },
        Event::Refresh { fetched: vec![(Playlist::CurrentLoop, Some(strings(&["trackC"])))] },
        Event::Refresh { fetched: vec![(Playlist::FreshVibrations, None)] },
        Event::Status { reply: 2 },
        Event::Tick { now_playing: playing("trackA") },
        Event::Status { reply: 3 },
        Event::Tick { now_playing: None },
        Event::Status { reply: 4 },
    ];
    let mut daemon = Daemon::new(cache());
    let effects = daemon.run(events.clone());
    assert_eq!(
        effects,
        vec![
            Effect::Show { line: "Ann - Song [C]".to_string() },
            Effect::Reply { reply: 1, text: "Ann - Song [C]".to_string() },
            Effect::Refreshed { persist: true },
            Effect::Refreshed { persist: false },
            Effect::Reply { reply: 2, text: "Ann - Song [C]".to_string() },
            Effect::Show { line: "Ann - Song []".to_string() },
            Effect::Reply { reply: 3, text: "Ann - Song []".to_string() },
            Effect::Show { line: "-".to_string() },
            Effect::Reply { reply: 4, text: "-".to_string() },
        ]
    );
    let mut stepwise = Daemon::new(cache());
    let one_by_one: Vec<Effect> = events.into_iter().map(|event| stepwise.handle(event)).collect();
    assert_eq!(one_by_one, effects);
    assert_eq!(stepwise, daemon);
}

#[test]
fn running_no_events_does_nothing() {
    let mut daemon = Daemon::new(cache());
    assert!(daemon.run(Vec::new()).is_empty());
    assert_eq!(daemon, Daemon::new(cache()));
}
