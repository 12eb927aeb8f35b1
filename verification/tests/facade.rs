use ipcam::{FrameBuffer, NetworkCamera, NokhwaError, Resolution};

fn rgb_frame(width: u32, height: u32, data: Vec<u8>) -> FrameBuffer {
    FrameBuffer::new(Resolution::new(width, height), data).unwrap()
}

#[test]
fn construct_reports_address_back() {
    let address = "rtsp://192.168.0.9:554/stream".to_string();
    let camera = NetworkCamera::new(address.clone()).unwrap();
    assert_eq!(camera.ip(), address);
}

#[test]
fn construct_rejects_empty_address() {
    let r = NetworkCamera::new(String::new());
    assert!(matches!(r, Err(NokhwaError::OpenDeviceError(_))));
}

#[test]
fn error_message_is_kept() {
    let e = NetworkCamera::new(String::new()).unwrap_err();
    assert_eq!(e.message(), "empty network address");
}

#[test]
fn set_ip_replaces_address_and_device() {
    let mut camera = NetworkCamera::new("10.0.0.1".to_string()).unwrap();
    camera.open_stream().unwrap();
    camera.set_ip("10.0.0.2".to_string()).unwrap();
    assert_eq!(camera.ip(), "10.0.0.2".to_string());
    // the replacement device is freshly opened: its stream is not open
    assert!(matches!(camera.frame(), Err(NokhwaError::ReadFrameError(_))));
}

#[test]
fn set_ip_failure_leaves_camera_untouched() {
    let mut camera = NetworkCamera::new("10.0.0.1".to_string()).unwrap();
    let r = camera.set_ip(String::new());
    assert!(matches!(r, Err(NokhwaError::OpenDeviceError(_))));
    assert_eq!(camera.ip(), "10.0.0.1".to_string());
}

#[test]
fn min_buffer_size_is_three_or_four_bytes_per_pixel() {
    let mut camera = NetworkCamera::new("cam".to_string()).unwrap();
    camera.deliver_frame(rgb_frame(4, 2, vec![0u8; 24]));
    assert_eq!(camera.min_buffer_size(false), 4 * 2 * 3);
    assert_eq!(camera.min_buffer_size(true), 4 * 2 * 4);
    camera.deliver_frame(rgb_frame(640, 480, vec![0u8; 640 * 480 * 3]));
    assert_eq!(camera.min_buffer_size(false), 640 * 480 * 3);
    assert_eq!(camera.min_buffer_size(true), 640 * 480 * 4);
}

#[test]
fn frame_fails_before_open_stream() {
    let mut camera = NetworkCamera::new("cam".to_string()).unwrap();
    camera.deliver_frame(rgb_frame(1, 1, vec![1, 2, 3]));
    assert!(matches!(camera.frame(), Err(NokhwaError::ReadFrameError(_))));
}

#[test]
fn frame_fails_when_none_was_delivered() {
    let mut camera = NetworkCamera::new("cam".to_string()).unwrap();
    camera.open_stream().unwrap();
    assert!(matches!(camera.frame(), Err(NokhwaError::ReadFrameError(_))));
}

#[test]
fn frame_returns_the_delivered_frame_once() {
    let mut camera = NetworkCamera::new("cam".to_string()).unwrap();
    camera.open_stream().unwrap();
    camera.deliver_frame(rgb_frame(1, 1, vec![7, 8, 9]));
    let frame = camera.frame().unwrap();
    assert_eq!(frame.width(), 1);
    assert_eq!(frame.height(), 1);
    assert_eq!(frame.data().as_slice(), &[7, 8, 9]);
    // a frame is consumed by reading it
    assert!(matches!(camera.frame(), Err(NokhwaError::ReadFrameError(_))));
}

#[test]
fn unsupported_capabilities_surface_explicit_errors() {
    let mut camera = NetworkCamera::new("cam".to_string()).unwrap();
    assert!(matches!(camera.refresh_camera_format(), Err(NokhwaError::NotImplementedError(_))));
    assert!(matches!(
        camera.set_resolution(Resolution::new(640, 480)),
        Err(NokhwaError::NotImplementedError(_))
    ));
    assert!(matches!(camera.frame_rate(), Err(NokhwaError::NotImplementedError(_))));
    assert!(matches!(camera.set_frame_rate(30), Err(NokhwaError::NotImplementedError(_))));
    // the camera is untouched by the rejected calls
    assert_eq!(camera.ip(), "cam".to_string());
}

#[test]
fn stop_stream_twice_and_before_open_is_harmless() {
    let mut camera = NetworkCamera::new("cam".to_string()).unwrap();
    camera.stop_stream().unwrap();
    camera.open_stream().unwrap();
    camera.stop_stream().unwrap();
    camera.stop_stream().unwrap();
}

#[test]
fn stopping_closes_the_stream() {
    let mut camera = NetworkCamera::new("cam".to_string()).unwrap();
    camera.open_stream().unwrap();
    camera.deliver_frame(rgb_frame(1, 1, vec![1, 2, 3]));
    camera.stop_stream().unwrap();
    assert!(matches!(camera.frame(), Err(NokhwaError::ReadFrameError(_))));
}
