use ipcam::frame::rgb_to_rgba;
use ipcam::texture::upload_admissible;
use ipcam::{FrameBuffer, NetworkCamera, NokhwaError, Resolution};

fn camera_with_frame(width: u32, height: u32, data: Vec<u8>) -> NetworkCamera {
    let mut camera = NetworkCamera::new("cam".to_string()).unwrap();
    camera.open_stream().unwrap();
    let frame = FrameBuffer::new(Resolution::new(width, height), data).unwrap();
    camera.deliver_frame(frame);
    camera
}

#[test]
fn rgba_expansion_of_eight_pixels() {
    // a 4 x 2 RGB frame: pixel i holds (3i, 3i + 1, 3i + 2)
    let rgb: Vec<u8> = (0u8..24u8).collect();
    let rgba = rgb_to_rgba(&rgb);
    assert_eq!(rgba.len(), 32);
    for i in 0..8usize {
        let p = 3 * i as u8;
        assert_eq!(&rgba[4 * i..4 * i + 4], &[p, p + 1, p + 2, 255]);
    }
}

#[test]
fn rgba_expansion_of_nothing_is_empty() {
    let rgba = rgb_to_rgba(&Vec::new());
    assert!(rgba.is_empty());
}

#[test]
fn frame_buffer_rejects_mismatched_data() {
    let r = FrameBuffer::new(Resolution::new(2, 2), vec![0u8; 11]);
    assert!(matches!(r, Err(NokhwaError::ProcessFrameError(_))));
}

#[test]
fn frame_to_buffer_copies_rgb_bytes() {
    let mut camera = camera_with_frame(2, 1, vec![1, 2, 3, 4, 5, 6]);
    let mut buffer = vec![0u8; 6];
    let written = camera.frame_to_buffer(&mut buffer, false).unwrap();
    assert_eq!(written, 6);
    assert_eq!(buffer, vec![1, 2, 3, 4, 5, 6]);
}

#[test]
fn frame_to_buffer_converts_to_rgba() {
    let mut camera = camera_with_frame(2, 1, vec![1, 2, 3, 4, 5, 6]);
    let mut buffer = vec![0u8; 9];
    let written = camera.frame_to_buffer(&mut buffer, true).unwrap();
    assert_eq!(written, 8);
    // the byte after the written prefix is untouched
    assert_eq!(buffer, vec![1, 2, 3, 255, 4, 5, 6, 255, 0]);
}

#[test]
fn frame_to_buffer_scenario_four_by_two() {
    let rgb: Vec<u8> = (0u8..24u8).collect();
    let mut camera = camera_with_frame(4, 2, rgb);
    let mut buffer = vec![0u8; 32];
    let written = camera.frame_to_buffer(&mut buffer, true).unwrap();
    assert_eq!(written, 32);
    for i in 0..8usize {
        let p = 3 * i as u8;
        assert_eq!(&buffer[4 * i..4 * i + 4], &[p, p + 1, p + 2, 255]);
    }
}

#[test]
fn frame_to_buffer_rejects_small_buffer_without_writing() {
    let mut camera = camera_with_frame(2, 1, vec![1, 2, 3, 4, 5, 6]);
    let mut buffer = vec![9u8; 7];
    let r = camera.frame_to_buffer(&mut buffer, true);
    assert!(matches!(r, Err(NokhwaError::ProcessFrameError(_))));
    assert_eq!(buffer, vec![9u8; 7]);
    // the frame was not consumed by the failed call
    let mut big = vec![0u8; 8];
    assert_eq!(camera.frame_to_buffer(&mut big, true).unwrap(), 8);
}

#[test]
fn frame_to_buffer_needs_an_open_stream() {
    let mut camera = NetworkCamera::new("cam".to_string()).unwrap();
    let frame = FrameBuffer::new(Resolution::new(1, 1), vec![1, 2, 3]).unwrap();
    camera.deliver_frame(frame);
    let mut buffer = vec![0u8; 4];
    let r = camera.frame_to_buffer(&mut buffer, true);
    assert!(matches!(r, Err(NokhwaError::ReadFrameError(_))));
    assert_eq!(buffer, vec![0u8; 4]);
}

#[test]
fn upload_admissibility_rejects_zero_and_oversized_frames() {
    assert!(!upload_admissible(0, 2, 8192));
    assert!(!upload_admissible(4, 0, 8192));
    assert!(!upload_admissible(8193, 2, 8192));
    assert!(!upload_admissible(4, 8193, 8192));
    assert!(upload_admissible(4, 2, 8192));
    assert!(upload_admissible(8192, 8192, 8192));
}
