use vueko::event::Event;
use vueko::stream::{PixelFormat, StreamDescriptor};
use vueko::video::{is_whole_frame, VideoAction, VideoError, VideoEvent, VideoProducer, VideoState};

fn mode(pixel_format: PixelFormat, width: u32, height: u32) -> StreamDescriptor {
    StreamDescriptor { pixel_format, width, height }
}

fn halt(error: VideoError) -> VideoAction {
    VideoAction::Halt { error }
}

fn stopped(error: VideoError) -> VideoState {
    VideoState::Stopped { error }
}

fn streaming(descriptor: StreamDescriptor) -> VideoProducer {
    let mut producer = VideoProducer::new();
    assert_eq!(producer.step(VideoEvent::Done), VideoAction::Enumerate);
    assert_eq!(producer.step(VideoEvent::Devices { count: 1 }), VideoAction::Open { device: 0 });
    let offered = [descriptor];
    assert_eq!(
        producer.step(VideoEvent::Opened { offered: &offered }),
        VideoAction::Start { stream: 0, degraded: !descriptor.pixel_format.is_rgb8() }
    );
    assert_eq!(producer.step(VideoEvent::Done), VideoAction::Capture);
    assert_eq!(producer.state(), VideoState::Streaming { descriptor });
    producer
}

#[test]
fn a_new_producer_is_idle() {
    assert_eq!(VideoProducer::new().state(), VideoState::Idle);
}

#[test]
fn the_producer_opens_the_first_device_and_starts_the_preferred_mode() {
    let mut producer = VideoProducer::new();
    assert_eq!(producer.step(VideoEvent::Done), VideoAction::Enumerate);
    assert_eq!(producer.state(), VideoState::Enumerating);
    assert_eq!(producer.step(VideoEvent::Devices { count: 3 }), VideoAction::Open { device: 0 });
    assert_eq!(producer.state(), VideoState::Opening);
    let offered = [
        mode(PixelFormat::Custom, 1280, 720),
        mode(PixelFormat::Rgb(24), 640, 480),
        mode(PixelFormat::Rgb(24), 1920, 1080),
    ];
    assert_eq!(
        producer.step(VideoEvent::Opened { offered: &offered }),
        VideoAction::Start { stream: 1, degraded: false }
    );
    assert_eq!(producer.state(), VideoState::Starting { descriptor: offered[1] });
    assert_eq!(producer.step(VideoEvent::Done), VideoAction::Capture);
    assert_eq!(producer.state(), VideoState::Streaming { descriptor: offered[1] });
}

#[test]
fn a_mode_other_than_rgb8_is_degraded() {
    let mut producer = VideoProducer::new();
    producer.step(VideoEvent::Done);
    producer.step(VideoEvent::Devices { count: 1 });
    let offered = [mode(PixelFormat::Custom, 640, 480), mode(PixelFormat::Jpeg, 1280, 720)];
    assert_eq!(
        producer.step(VideoEvent::Opened { offered: &offered }),
        VideoAction::Start { stream: 1, degraded: true }
    );
}

#[test]
fn no_device_stops_the_producer() {
    let mut producer = VideoProducer::new();
    producer.step(VideoEvent::Done);
    assert_eq!(producer.step(VideoEvent::Devices { count: 0 }), halt(VideoError::NoDeviceFound));
    assert_eq!(producer.state(), stopped(VideoError::NoDeviceFound));
}

#[test]
fn a_failed_enumeration_stops_the_producer() {
    let mut producer = VideoProducer::new();
    producer.step(VideoEvent::Done);
    assert_eq!(producer.step(VideoEvent::Failed), halt(VideoError::NoDeviceFound));
}

#[test]
fn a_device_that_does_not_open_stops_the_producer() {
    let mut producer = VideoProducer::new();
    producer.step(VideoEvent::Done);
    producer.step(VideoEvent::Devices { count: 1 });
    assert_eq!(producer.step(VideoEvent::Failed), halt(VideoError::DeviceOpenError));
    assert_eq!(producer.state(), stopped(VideoError::DeviceOpenError));
}

#[test]
fn a_device_without_modes_stops_the_producer() {
    let mut producer = VideoProducer::new();
    producer.step(VideoEvent::Done);
    producer.step(VideoEvent::Devices { count: 1 });
    assert_eq!(producer.step(VideoEvent::Opened { offered: &[] }), halt(VideoError::DeviceOpenError));
}

#[test]
fn a_stream_that_does_not_start_stops_the_producer() {
    let mut producer = VideoProducer::new();
    producer.step(VideoEvent::Done);
    producer.step(VideoEvent::Devices { count: 1 });
    producer.step(VideoEvent::Opened { offered: &[mode(PixelFormat::Rgb(24), 2, 2)] });
    assert_eq!(producer.step(VideoEvent::Failed), halt(VideoError::DeviceOpenError));
}

#[test]
fn a_frame_becomes_a_camera_feed() {
    let descriptor = mode(PixelFormat::Rgb(24), 2, 2);
    let mut producer = streaming(descriptor);
    let raw: Vec<u8> = vec![1, 2, 3, 4, 5, 6, 7, 8, 9, 10, 11, 12];
    assert_eq!(
        producer.step(VideoEvent::Frame { raw: &raw }),
        VideoAction::Submit {
            event: Event::CameraFeed {
                frame: vec![7, 8, 9, 255, 10, 11, 12, 255, 1, 2, 3, 255, 4, 5, 6, 255]
            }
        }
    );
    assert_eq!(producer.state(), VideoState::Streaming { descriptor });
    assert_eq!(producer.step(VideoEvent::Done), VideoAction::Capture);
    assert_eq!(producer.state(), VideoState::Streaming { descriptor });
}

#[test]
fn a_short_frame_stops_the_producer() {
    let mut producer = streaming(mode(PixelFormat::Rgb(24), 2, 2));
    let raw: Vec<u8> = vec![0; 11];
    assert_eq!(producer.step(VideoEvent::Frame { raw: &raw }), halt(VideoError::DeviceLost));
    assert_eq!(producer.state(), stopped(VideoError::DeviceLost));
}

#[test]
fn a_lost_device_stops_the_producer_for_good() {
    let mut producer = streaming(mode(PixelFormat::Rgb(24), 1, 1));
    assert_eq!(producer.step(VideoEvent::Failed), halt(VideoError::DeviceLost));
    assert_eq!(producer.step(VideoEvent::Done), halt(VideoError::DeviceLost));
    assert_eq!(producer.step(VideoEvent::Frame { raw: &[1, 2, 3] }), halt(VideoError::DeviceLost));
    assert_eq!(producer.step(VideoEvent::Devices { count: 1 }), halt(VideoError::DeviceLost));
    assert_eq!(producer.state(), stopped(VideoError::DeviceLost));
}

#[test]
fn an_event_out_of_turn_stops_the_producer() {
    let mut producer = VideoProducer::new();
    assert_eq!(producer.step(VideoEvent::Frame { raw: &[] }), halt(VideoError::NoDeviceFound));
    let mut producer = VideoProducer::new();
    producer.step(VideoEvent::Done);
    producer.step(VideoEvent::Devices { count: 1 });
    assert_eq!(producer.step(VideoEvent::Done), halt(VideoError::DeviceOpenError));
    let mut producer = streaming(mode(PixelFormat::Rgb(24), 1, 1));
    assert_eq!(producer.step(VideoEvent::Devices { count: 1 }), halt(VideoError::DeviceLost));
}

#[test]
fn whole_frames_are_told_from_short_ones() {
    let descriptor = mode(PixelFormat::Rgb(24), 3, 2);
    assert!(is_whole_frame(&[0; 18], &descriptor));
    assert!(is_whole_frame(&[0; 19], &descriptor));
    assert!(!is_whole_frame(&[0; 17], &descriptor));
    assert!(is_whole_frame(&[], &mode(PixelFormat::Rgb(24), 0, 9)));
    assert!(!is_whole_frame(&[0; 64], &mode(PixelFormat::Rgb(24), u32::MAX, u32::MAX)));
}
