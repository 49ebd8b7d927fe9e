use vision_manager::remote_viewing::{
    pipeline_description, Launch, MessageKind, PipelineState, RemoteViewing, RemoteViewingError,
    WatchAction,
};

#[test]
fn description_for_the_default_destination() {
    assert_eq!(
        pipeline_description("127.0.0.1", 5000),
        "v4l2src device=\"/dev/video0\" ! video/x-raw,width=320,height=240 ! videoscale ! videoconvert ! x264enc tune=zerolatency bitrate=500 speed-preset=superfast ! rtph264pay config-interval=10 pt=96 ! udpsink host=127.0.0.1 port=5000"
    );
}

#[test]
fn description_ends_in_host_and_port() {
    let description = pipeline_description("viewer.local", 65535);
    assert!(description.starts_with("v4l2src device=\"/dev/video0\" ! "));
    assert!(description.ends_with(" ! udpsink host=viewer.local port=65535"));
}

#[test]
fn description_takes_the_host_as_given() {
    let description = pipeline_description("", 0);
    assert!(description.ends_with("udpsink host= port=0"));
    let description = pipeline_description("a b", 7);
    assert!(description.ends_with("udpsink host=a b port=7"));
}

#[test]
fn description_differs_with_the_port() {
    assert_ne!(pipeline_description("h", 5000), pipeline_description("h", 5001));
}

#[test]
fn no_supervisor_when_the_description_is_refused() {
    assert!(RemoteViewing::new("127.0.0.1", 5000, Launch::ParseFailed).is_none());
}

#[test]
fn no_supervisor_without_a_bus() {
    assert!(RemoteViewing::new("127.0.0.1", 5000, Launch::NoBus).is_none());
}

#[test]
fn supervisor_of_a_ready_pipeline_knows_its_description() {
    let viewing = RemoteViewing::new("10.0.0.2", 1234, Launch::Ready);
    match viewing {
        Some(viewing) => {
            assert_eq!(viewing.description(), pipeline_description("10.0.0.2", 1234));
        }
        None => panic!("a ready pipeline has a supervisor"),
    }
}

#[test]
fn start_asks_for_playing() {
    let viewing = RemoteViewing::new("h", 1, Launch::Ready).unwrap();
    assert_eq!(viewing.start(), PipelineState::Playing);
}

#[test]
fn stop_asks_for_paused() {
    let viewing = RemoteViewing::new("h", 1, Launch::Ready).unwrap();
    assert_eq!(viewing.stop(), PipelineState::Paused);
}

#[test]
fn release_asks_for_null() {
    let viewing = RemoteViewing::new("h", 1, Launch::Ready).unwrap();
    assert_eq!(viewing.release(), PipelineState::Null);
}

#[test]
fn a_state_change_that_was_taken_is_a_success() {
    let viewing = RemoteViewing::new("h", 1, Launch::Ready).unwrap();
    assert_eq!(viewing.started(true), Ok(()));
    assert_eq!(viewing.stopped(true), Ok(()));
}

#[test]
fn a_state_change_that_was_refused_is_an_error() {
    let viewing = RemoteViewing::new("h", 1, Launch::Ready).unwrap();
    assert_eq!(viewing.started(false), Err(RemoteViewingError::StartFailed));
    assert_eq!(viewing.stopped(false), Err(RemoteViewingError::StopFailed));
}

#[test]
fn remote_viewing_error_messages() {
    assert_eq!(RemoteViewingError::StartFailed.message(), "could not start remote viewing");
    assert_eq!(RemoteViewingError::StopFailed.message(), "could not stop remote viewing");
}

#[test]
fn watch_passes_over_ordinary_messages() {
    assert_eq!(RemoteViewing::pipeline_watch(MessageKind::Other), WatchAction::Continue);
}

#[test]
fn watch_gives_up_on_an_error() {
    assert_eq!(RemoteViewing::pipeline_watch(MessageKind::Error), WatchAction::AbortOnError);
}

#[test]
fn watch_gives_up_on_the_end_of_the_stream() {
    assert_eq!(RemoteViewing::pipeline_watch(MessageKind::Eos), WatchAction::AbortOnEndOfStream);
}
