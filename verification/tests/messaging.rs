use kapp::application::{initialize, Application};
use kapp::common::ApplicationMessage;
use kapp::macos::PlatformApplication;
use kapp::messaging::{
    Delivery, Envelope, Mailbox, PlatformChannel, PlatformChannelTrait, PlatformWaker,
    PlatformWakerTrait, WakerRequests,
};

fn application() -> Application {
    let (application, _event_loop) = initialize::<PlatformApplication>();
    application
}

/// Plays the main loop: takes envelopes until the barrier with `token`, and
/// counts the frames asked for on the way.
fn frames_until_barrier(mailbox: &mut Mailbox, token: u64) -> Option<u32> {
    let mut frames = 0;
    while let Some(envelope) = mailbox.receive() {
        match envelope {
            Envelope::Message(ApplicationMessage::RequestFrame) => frames += 1,
            Envelope::Message(_) => {}
            Envelope::Barrier(seen) => {
                if seen == token {
                    return Some(frames);
                }
            }
        }
    }
    None
}

#[test]
fn three_frames_then_flush() {
    let mut application = application();
    let parameters = application.new_window().title("T").dimensions(800, 600).build();
    assert_eq!(parameters.title, "T");
    assert_eq!(parameters.dimensions, Some((800, 600)));

    let mut mailbox = Mailbox::new();
    for _ in 0..3 {
        application.request_frame();
    }
    application.flush_application_events();
    let owed = mailbox.deliver(
        &mut application.platform_channel,
        &mut application.application_waker,
        1,
    );
    assert_eq!(owed, Delivery { wake: true, wait_for: Some(1) });
    assert_eq!(mailbox.pending(), 4);
    assert!(!mailbox.take_acknowledgement(1));
    assert_eq!(frames_until_barrier(&mut mailbox, 1), Some(3));
    assert_eq!(mailbox.pending(), 0);
    assert!(mailbox.take_acknowledgement(1));
}

#[test]
fn flush_covers_every_tagged_message() {
    let mut application = application();
    let mut mailbox = Mailbox::new();
    let count = 25u32;
    for tag in 0..count {
        application.set_mouse_position(tag, tag + 1);
    }
    application.flush_application_events();
    let owed = mailbox.deliver(
        &mut application.platform_channel,
        &mut application.application_waker,
        77,
    );
    assert_eq!(owed.wait_for, Some(77));
    let mut seen = 0u32;
    loop {
        match mailbox.receive() {
            Some(Envelope::Message(ApplicationMessage::SetMousePosition { x, y })) => {
                assert_eq!(x, seen);
                assert_eq!(y, seen + 1);
                seen += 1;
            }
            Some(Envelope::Barrier(token)) => {
                assert_eq!(token, 77);
                break;
            }
            other => panic!("{:?}", other),
        }
    }
    assert_eq!(seen, count);
    assert_eq!(mailbox.receive(), None);
}

#[test]
fn messages_sent_after_a_delivery_follow_the_barrier() {
    let mut application = application();
    let mut mailbox = Mailbox::new();
    application.request_frame();
    application.flush_application_events();
    mailbox.deliver(&mut application.platform_channel, &mut application.application_waker, 5);
    application.quit();
    mailbox.deliver(&mut application.platform_channel, &mut application.application_waker, 6);
    assert_eq!(mailbox.receive(), Some(Envelope::Message(ApplicationMessage::RequestFrame)));
    assert_eq!(mailbox.receive(), Some(Envelope::Barrier(5)));
    assert_eq!(mailbox.receive(), Some(Envelope::Message(ApplicationMessage::Quit)));
    assert_eq!(mailbox.receive(), None);
}

#[test]
fn request_frame_sends_and_wakes() {
    let mut application = application();
    application.request_frame();
    let requests = application.application_waker.take_requests();
    assert_eq!(requests, WakerRequests { wake: true, flush: false });
    assert_eq!(
        application.platform_channel.take_outgoing(),
        vec![ApplicationMessage::RequestFrame]
    );
}

#[test]
fn quit_and_mouse_position_send_without_waking() {
    let mut application = application();
    application.quit();
    application.set_mouse_position(12, 34);
    let requests = application.application_waker.take_requests();
    assert_eq!(requests, WakerRequests { wake: false, flush: false });
    assert_eq!(
        application.platform_channel.take_outgoing(),
        vec![ApplicationMessage::Quit, ApplicationMessage::SetMousePosition { x: 12, y: 34 }]
    );
    assert_eq!(application.platform_channel.take_outgoing(), vec![]);
}

#[test]
fn flush_sends_nothing_by_itself() {
    let mut application = application();
    application.flush_application_events();
    assert_eq!(application.platform_channel.take_outgoing(), vec![]);
    let requests = application.application_waker.take_requests();
    assert_eq!(requests, WakerRequests { wake: false, flush: true });
    let again = application.application_waker.take_requests();
    assert_eq!(again, WakerRequests { wake: false, flush: false });
}

#[test]
fn delivery_without_flush_waits_for_nothing() {
    let mut application = application();
    let mut mailbox = Mailbox::new();
    application.quit();
    let owed = mailbox.deliver(
        &mut application.platform_channel,
        &mut application.application_waker,
        3,
    );
    assert_eq!(owed, Delivery { wake: false, wait_for: None });
    assert_eq!(mailbox.pending(), 1);
    assert_eq!(mailbox.receive(), Some(Envelope::Message(ApplicationMessage::Quit)));
}

#[test]
fn closed_mailbox_drops_what_is_sent() {
    let mut mailbox = Mailbox::new();
    mailbox.send(ApplicationMessage::RequestFrame);
    assert!(!mailbox.is_closed());
    mailbox.close();
    assert!(mailbox.is_closed());
    mailbox.send(ApplicationMessage::Quit);
    assert!(!mailbox.post_barrier(9));
    assert_eq!(mailbox.pending(), 1);

    let mut application = application();
    application.request_frame();
    application.flush_application_events();
    let owed = mailbox.deliver(
        &mut application.platform_channel,
        &mut application.application_waker,
        10,
    );
    assert_eq!(owed, Delivery { wake: true, wait_for: None });
    assert_eq!(mailbox.pending(), 1);
    assert_eq!(application.platform_channel.take_outgoing(), vec![]);
}

#[test]
fn mailbox_is_first_in_first_out() {
    let mut mailbox = Mailbox::new();
    assert_eq!(mailbox.receive(), None);
    mailbox.send(ApplicationMessage::SetMousePosition { x: 1, y: 2 });
    assert!(mailbox.post_barrier(4));
    mailbox.send(ApplicationMessage::Quit);
    assert_eq!(mailbox.pending(), 3);
    assert_eq!(
        mailbox.receive(),
        Some(Envelope::Message(ApplicationMessage::SetMousePosition { x: 1, y: 2 }))
    );
    assert_eq!(mailbox.receive(), Some(Envelope::Barrier(4)));
    assert_eq!(mailbox.receive(), Some(Envelope::Message(ApplicationMessage::Quit)));
    assert_eq!(mailbox.receive(), None);
    assert_eq!(mailbox.pending(), 0);
}

#[test]
fn channel_and_waker_start_with_nothing_owed() {
    let mut channel = PlatformChannel::new();
    let mut waker = PlatformWaker::new();
    assert_eq!(channel.take_outgoing(), vec![]);
    assert_eq!(waker.take_requests(), WakerRequests { wake: false, flush: false });
    channel.send(ApplicationMessage::Quit);
    waker.wake();
    waker.flush();
    assert_eq!(channel.take_outgoing(), vec![ApplicationMessage::Quit]);
    assert_eq!(waker.take_requests(), WakerRequests { wake: true, flush: true });
}

#[test]
fn initialize_gives_an_idle_application() {
    let (mut application, event_loop) = initialize::<PlatformApplication>();
    assert_eq!(application.platform_channel.take_outgoing(), vec![]);
    assert_eq!(
        application.application_waker.take_requests(),
        WakerRequests { wake: false, flush: false }
    );
    let mut platform_application = event_loop.platform_application;
    assert_eq!(platform_application.native_classes(), (0, 0));
    assert_eq!(platform_application.event_loop().ns_application(), 0);
}

#[test]
fn window_builder_starts_from_the_defaults() {
    let mut application = application();
    let parameters = application.new_window().build();
    assert_eq!(parameters.title, "Untitled");
    assert_eq!(parameters.position, None);
    assert_eq!(parameters.dimensions, None);
    assert!(parameters.resizable);
    assert_eq!(application.platform_channel.take_outgoing(), vec![]);
}

#[test]
fn window_builder_keeps_what_was_set() {
    let mut application = application();
    let parameters = application
        .new_window()
        .title("Plot")
        .position(10, 20)
        .dimensions(640, 480)
        .resizable(false)
        .title("Plot 2")
        .build();
    assert_eq!(parameters.title, "Plot 2");
    assert_eq!(parameters.position, Some((10, 20)));
    assert_eq!(parameters.dimensions, Some((640, 480)));
    assert!(!parameters.resizable);
}

#[test]
fn barrier_counts_as_taken_only_once_received() {
    let mut application = application();
    let mut mailbox = Mailbox::new();
    application.request_frame();
    application.flush_application_events();
    let owed = mailbox.deliver(
        &mut application.platform_channel,
        &mut application.application_waker,
        42,
    );
    assert_eq!(owed.wait_for, Some(42));
    assert!(!mailbox.take_acknowledgement(42));
    assert_eq!(mailbox.receive(), Some(Envelope::Message(ApplicationMessage::RequestFrame)));
    assert!(!mailbox.take_acknowledgement(42));
    assert_eq!(mailbox.receive(), Some(Envelope::Barrier(42)));
    assert!(!mailbox.take_acknowledgement(41));
    assert!(mailbox.take_acknowledgement(42));
    assert!(!mailbox.take_acknowledgement(42));
}

#[test]
fn acknowledgements_of_several_callers_are_kept_apart() {
    let mut mailbox = Mailbox::new();
    assert!(mailbox.post_barrier(1));
    mailbox.send(ApplicationMessage::Quit);
    assert!(mailbox.post_barrier(2));
    assert!(mailbox.post_barrier(3));
    assert_eq!(mailbox.receive(), Some(Envelope::Barrier(1)));
    assert_eq!(mailbox.receive(), Some(Envelope::Message(ApplicationMessage::Quit)));
    assert_eq!(mailbox.receive(), Some(Envelope::Barrier(2)));
    assert!(!mailbox.take_acknowledgement(3));
    assert!(mailbox.take_acknowledgement(2));
    assert!(mailbox.take_acknowledgement(1));
    assert!(!mailbox.take_acknowledgement(2));
    assert_eq!(mailbox.receive(), Some(Envelope::Barrier(3)));
    assert!(mailbox.take_acknowledgement(3));
    assert_eq!(mailbox.pending(), 0);
}

#[test]
fn a_cloned_handle_starts_with_nothing_collected() {
    let mut application = application();
    application.request_frame();
    application.flush_application_events();
    let mut other = application.clone();
    assert_eq!(other.platform_channel.take_outgoing(), vec![]);
    assert_eq!(
        other.application_waker.take_requests(),
        WakerRequests { wake: false, flush: false }
    );
    assert_eq!(
        application.platform_channel.take_outgoing(),
        vec![ApplicationMessage::RequestFrame]
    );
    assert_eq!(
        application.application_waker.take_requests(),
        WakerRequests { wake: true, flush: true }
    );
}
