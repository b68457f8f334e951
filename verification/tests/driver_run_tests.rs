use go_client::driver::{Driver, Lifecycle};
use go_client::event::{Action, Event, Failure, Timeout};

/// A small generator of numbers that look random and are the same in every
/// run of the tests.
struct Dice(u64);

impl Dice {
    fn roll(&mut self, sides: u64) -> u64 {
        self.0 = self.0.wrapping_mul(6364136223846793005).wrapping_add(1442695040888963407);
        (self.0 >> 33) % sides
    }

    fn chance(&mut self, percent: u64) -> bool {
        self.roll(100) < percent
    }
}

fn rank(stage: Lifecycle) -> u8 {
    match stage {
        Lifecycle::Handshaking => 0,
        Lifecycle::Established => 1,
        Lifecycle::Closing => 2,
        Lifecycle::Closed => 3,
    }
}

/// An outcome that the pending action can have, picked by the dice.
fn answer(dice: &mut Dice, action: Action) -> Event {
    match action {
        Action::Produce => match dice.roll(10) {
            0..=5 => Event::Produced { len: dice.roll(1351) as usize },
            6..=8 => Event::OutboundIdle,
            _ => Event::ProduceFailed,
        },
        Action::Transmit { .. } => match dice.roll(20) {
            0..=14 => Event::Transmitted,
            15..=18 => Event::TransmitBlocked,
            _ => Event::TransportFailed,
        },
        Action::QueryTimeout => Event::Deadline {
            timeout: if dice.chance(80) {
                Some(Timeout { secs: dice.roll(5), nanos: dice.roll(1_000_000_000) as u32 })
            } else {
                None
            },
        },
        Action::Wait { .. } => match dice.roll(20) {
            0..=12 => Event::Ready,
            13..=18 => Event::TimedOut,
            _ => Event::TransportFailed,
        },
        Action::FireTimeout => Event::TimeoutHandled,
        Action::Receive => match dice.roll(20) {
            0..=11 => Event::Datagram { len: dice.roll(65536) as usize },
            12..=18 => Event::InboundIdle,
            _ => Event::TransportFailed,
        },
        Action::Feed { .. } => {
            if dice.chance(70) {
                Event::Accepted
            } else {
                Event::Rejected
            }
        }
        Action::QueryClosed => Event::Closed { closed: dice.chance(5) },
        Action::QueryEstablished => Event::Established { established: dice.chance(50) },
        Action::SubmitRequest { .. } => {
            if dice.chance(95) {
                Event::RequestSubmitted
            } else {
                Event::RequestRefused
            }
        }
        Action::ListReadable => {
            let count = dice.roll(4);
            Event::Readable { streams: (0..count).map(|_| 4 * dice.roll(3)).collect() }
        }
        Action::ReadStream { .. } => {
            if dice.chance(60) {
                let len = dice.roll(6) as usize;
                Event::StreamData {
                    bytes: (0..len).map(|_| dice.roll(256) as u8).collect(),
                    fin: dice.chance(20),
                }
            } else {
                Event::StreamDry
            }
        }
        Action::Close { .. } => Event::CloseHandled,
        Action::Finish | Action::Abort { .. } => Event::Ready,
    }
}

#[test]
fn random_runs_keep_the_invariants() {
    let mut dice = Dice(20241028);
    let mut finished = 0;
    let mut completed = 0;
    for _ in 0..400 {
        let mut driver = Driver::new("/");
        let mut action = driver.pending();
        let mut submissions = 0;
        let mut established_reported = false;
        let mut fin_seen = false;
        let mut bytes_after_fin = false;
        let mut expected_response: Vec<u8> = Vec::new();
        let mut stage = rank(driver.lifecycle());
        for _ in 0..600 {
            let event = answer(&mut dice, action);
            let before = action;
            let next = driver.step(event.clone());
            assert_eq!(next, driver.pending());

            // What the events amount to.
            match (&before, &event) {
                (Action::QueryEstablished, Event::Established { established: true }) => {
                    established_reported = true;
                }
                (Action::ReadStream { stream }, Event::StreamData { bytes, fin }) => {
                    if *stream == 4 && fin_seen {
                        bytes_after_fin = bytes_after_fin || !bytes.is_empty();
                    } else {
                        expected_response.extend_from_slice(bytes);
                        if *stream == 4 && *fin {
                            fin_seen = true;
                        }
                    }
                }
                _ => {}
            }

            // The request goes out at most once, and after the handshake.
            if let (Action::SubmitRequest { stream, fin }, false) =
                (next, matches!(before, Action::SubmitRequest { .. }))
            {
                assert_eq!(stream, 4);
                assert!(fin);
                submissions += 1;
                assert!(established_reported);
            }
            assert!(submissions <= 1);
            assert_eq!(driver.request_sent(), submissions == 1);

            // The response is what was read; it is complete with the fin.
            assert_eq!(driver.response(), &expected_response[..]);
            assert_eq!(driver.response_complete(), fin_seen);
            assert_eq!(driver.protocol_violation(), bytes_after_fin);

            // The connection never goes back.
            let now = rank(driver.lifecycle());
            assert!(stage <= now);
            stage = now;

            // What goes to the socket is what the engine produced; the wait
            // is as long as the engine said.
            match (&event, next) {
                (Event::Produced { len }, Action::Transmit { len: sent }) => assert_eq!(*len, sent),
                (Event::Produced { .. }, other) => panic!("produced, then {:?}", other),
                (Event::Deadline { timeout }, Action::Wait { timeout: waited }) => {
                    assert_eq!(*timeout, waited)
                }
                (Event::Deadline { .. }, other) => panic!("deadline, then {:?}", other),
                (Event::Datagram { len }, Action::Feed { len: fed }) => assert_eq!(*len, fed),
                (Event::Datagram { .. }, other) => panic!("datagram, then {:?}", other),
                (Event::Rejected, other) => assert_eq!(other, Action::Receive),
                (Event::Accepted, other) => assert_eq!(other, Action::Receive),
                _ => {}
            }

            // The driver gives up only for what is fatal.
            if let Action::Abort { failure } = next {
                match failure {
                    Failure::Transport => assert!(matches!(event, Event::TransportFailed)),
                    Failure::RequestRefused => assert!(matches!(event, Event::RequestRefused)),
                    Failure::FirstFlight => assert!(matches!(
                        event,
                        Event::OutboundIdle | Event::ProduceFailed
                    )),
                    Failure::Unexpected => panic!("{:?} did not answer {:?}", event, before),
                }
                assert_eq!(driver.failure(), Some(failure));
                for _ in 0..5 {
                    let event = answer(&mut dice, Action::Produce);
                    assert_eq!(driver.step(event), next);
                }
                break;
            }

            // Closed is the end.
            if next == Action::Finish {
                assert!(matches!(event, Event::Closed { closed: true }));
                assert_eq!(driver.lifecycle(), Lifecycle::Closed);
                assert!(driver.is_finished());
                finished += 1;
                for _ in 0..5 {
                    let event = answer(&mut dice, Action::Receive);
                    assert_eq!(driver.step(event), Action::Finish);
                    assert_eq!(driver.lifecycle(), Lifecycle::Closed);
                    assert_eq!(driver.response(), &expected_response[..]);
                }
                break;
            }
            action = next;
        }
        if fin_seen {
            completed += 1;
        }
    }
    assert!(finished > 50);
    assert!(completed > 10);
}

#[test]
fn an_event_that_answers_nothing_ends_the_run() {
    let unasked = [
        Event::Ready,
        Event::TimedOut,
        Event::Transmitted,
        Event::Accepted,
        Event::Closed { closed: true },
        Event::Established { established: true },
        Event::StreamDry,
        Event::CloseHandled,
        Event::RequestSubmitted,
        Event::Readable { streams: vec![4] },
        Event::Datagram { len: 1 },
        Event::Deadline { timeout: None },
        Event::TimeoutHandled,
        Event::InboundIdle,
        Event::Rejected,
        Event::TransmitBlocked,
        Event::RequestRefused,
        Event::StreamData { bytes: vec![1], fin: true },
    ];
    for event in unasked {
        let mut driver = Driver::new("/");
        assert_eq!(driver.step(event), Action::Abort { failure: Failure::Unexpected });
        assert_eq!(driver.lifecycle(), Lifecycle::Handshaking);
        assert!(driver.response().is_empty());
    }
}
