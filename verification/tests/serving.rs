use diffrant_native::commands::{open_file, plugin_search_path, OpenFileResult};
use diffrant_native::error::{LayoutFault, ReaderError};
use diffrant_native::frame::{frame_count, read_nxs_frame, Frame, StackHeader};
use diffrant_native::metadata::{
    read_nxs_metadata, BeamEnergy, DetectorGroup, ImageMetadata, NexusContents, PanelDistance,
    PixelSize, TrustedRangeMax,
};
use diffrant_native::pixel::{ElementType, RawPixels};
use diffrant_native::readers::Reader;
use diffrant_native::registry::Registry;
use diffrant_native::server::{
    frame_reply, get_image, get_metadata, metadata_reply, Reply, FRAME_CONTENT_TYPE, NO_FILE_OPEN,
    STATUS_FAILED, STATUS_NOT_FOUND, STATUS_OK,
};

/// A reader over a file held in memory.
#[derive(Debug, Clone, PartialEq)]
struct MemoryReader {
    contents: NexusContents<f64>,
    element: ElementType,
    frames: Vec<RawPixels>,
}

impl Reader for MemoryReader {
    type Value = f64;

    fn metadata(&self) -> Result<ImageMetadata<f64>, ReaderError> {
        read_nxs_metadata(&self.contents)
    }

    fn frame_count(&self) -> Result<usize, ReaderError> {
        frame_count(&self.contents.stack)
    }

    fn read_frame(&self, frame: usize) -> Result<Frame, ReaderError> {
        let header = self
            .contents
            .stack
            .clone()
            .map(|dims| StackHeader { dims, element: self.element.clone() });
        read_nxs_frame(&header, frame, |plan| Ok(self.frames[plan.index].clone()))
    }
}

fn detector() -> DetectorGroup<f64> {
    DetectorGroup {
        distance: None,
        detector_distance: None,
        x_pixel_size: None,
        beam_center_x: None,
        beam_center_y: None,
        saturation_value: None,
        detector_specific: None,
    }
}

fn reader(dims: Vec<usize>, element: ElementType, frames: Vec<RawPixels>) -> MemoryReader {
    MemoryReader {
        contents: NexusContents { stack: Some(dims), detector: Some(detector()), beam: None },
        element,
        frames,
    }
}

fn two_frames() -> MemoryReader {
    reader(
        vec![2, 1, 2],
        ElementType::I32,
        vec![RawPixels::I32(vec![1, 0x1_FFFF]), RawPixels::I32(vec![-2, 258])],
    )
}

fn active(registry: &Registry<MemoryReader>) -> Option<MemoryReader> {
    registry.with_current(|r| r.clone()).ok()
}

fn opened(r: MemoryReader) -> Result<(MemoryReader, usize), ReaderError> {
    let n = r.frame_count()?;
    Ok((r, n))
}

#[test]
fn a_new_registry_is_empty() {
    let registry: Registry<MemoryReader> = Registry::new();
    assert!(!registry.is_open());
    assert_eq!(active(&registry), None);
}

#[test]
fn metadata_without_a_file_is_not_open() {
    let registry: Registry<MemoryReader> = Registry::new();
    let reply = get_metadata(&registry);
    assert_eq!(reply, Reply::NoFileOpen);
    assert_eq!(reply.status(), 404);
}

#[test]
fn frame_without_a_file_is_not_open() {
    let registry: Registry<MemoryReader> = Registry::new();
    for index in [0usize, 1, 77] {
        let reply = get_image(&registry, index);
        assert_eq!(reply, Reply::NoFileOpen);
        assert_eq!(reply.status(), 404);
    }
}

#[test]
fn with_current_on_an_empty_registry_is_not_open() {
    let registry: Registry<MemoryReader> = Registry::new();
    assert_eq!(registry.with_current(|r| r.frame_count()), Err(ReaderError::NotOpen));
}

#[test]
fn with_current_hands_back_what_the_operation_returns() {
    let mut registry: Registry<MemoryReader> = Registry::new();
    registry.install(two_frames());
    assert_eq!(registry.with_current(|r| r.frame_count()), Ok(Ok(2)));
    assert_eq!(registry.with_current(|r| r.frames.len() + 40), Ok(42));
}

#[test]
fn install_replaces_the_reader() {
    let mut registry: Registry<MemoryReader> = Registry::new();
    registry.install(two_frames());
    assert!(registry.is_open());
    assert_eq!(active(&registry), Some(two_frames()));
    let other = reader(vec![5, 1, 1], ElementType::U16, vec![]);
    registry.install(other.clone());
    assert_eq!(active(&registry), Some(other));
    assert_eq!(registry.with_current(|r| r.frame_count()), Ok(Ok(5)));
}

#[test]
fn open_file_installs_and_reports_the_frame_count() {
    let mut registry: Registry<MemoryReader> = Registry::new();
    let result = open_file(&mut registry, opened(two_frames()));
    assert_eq!(result, Ok(OpenFileResult { frame_count: 2 }));
    assert_eq!(active(&registry), Some(two_frames()));
}

#[test]
fn a_failed_open_leaves_an_empty_registry_empty() {
    let mut registry: Registry<MemoryReader> = Registry::new();
    let flat = reader(vec![200, 100], ElementType::U16, vec![]);
    let result = open_file(&mut registry, opened(flat));
    assert_eq!(result, Err("failed to open file: Expected 3D dataset, got 2D".to_string()));
    assert!(!registry.is_open());
    assert_eq!(get_metadata(&registry), Reply::NoFileOpen);
}

#[test]
fn a_failed_open_keeps_the_file_that_was_open() {
    let mut registry: Registry<MemoryReader> = Registry::new();
    assert!(open_file(&mut registry, opened(two_frames())).is_ok());
    let flat = reader(vec![200, 100], ElementType::U16, vec![]);
    let result = open_file(&mut registry, opened(flat));
    assert_eq!(result, Err("failed to open file: Expected 3D dataset, got 2D".to_string()));
    assert_eq!(active(&registry), Some(two_frames()));
    let missing: Result<(MemoryReader, usize), ReaderError> =
        Err(ReaderError::Io("Cannot open /data/x.nxs: no such file".to_string()));
    assert_eq!(
        open_file(&mut registry, missing),
        Err("failed to open file: Cannot open /data/x.nxs: no such file".to_string())
    );
    assert_eq!(active(&registry), Some(two_frames()));
    assert_eq!(get_image(&registry, 0), Reply::Frame(vec![1, 0, 0xFF, 0xFF]));
}

#[test]
fn metadata_of_the_active_file() {
    let mut registry: Registry<MemoryReader> = Registry::new();
    registry.install(two_frames());
    let reply = get_metadata(&registry);
    assert_eq!(reply.status(), 200);
    match reply {
        Reply::Metadata(m) => {
            assert_eq!(m.panel_size_fast_slow.fast, 2);
            assert_eq!(m.panel_size_fast_slow.slow, 1);
            assert_eq!(m.image_depth_bits, 16);
            assert_eq!(m.panel_distance, PanelDistance::Unknown);
            assert_eq!(m.pixel_size, PixelSize::Nominal);
            assert_eq!(m.trusted_range_max, TrustedRangeMax::Ceiling);
            assert_eq!(m.beam_energy, BeamEnergy::Absent);
        }
        other => panic!("unexpected reply {:?}", other),
    }
}

#[test]
fn metadata_failure_is_reported() {
    let mut registry: Registry<MemoryReader> = Registry::new();
    registry.install(reader(vec![200, 100], ElementType::U16, vec![]));
    let reply = get_metadata(&registry);
    assert_eq!(reply, Reply::Failed(ReaderError::InvalidLayout(LayoutFault::WrongRank(2))));
    assert_eq!(reply.status(), 500);
}

#[test]
fn frames_of_the_active_file() {
    let mut registry: Registry<MemoryReader> = Registry::new();
    registry.install(two_frames());
    let first = get_image(&registry, 0);
    assert_eq!(first, Reply::Frame(vec![0x01, 0x00, 0xFF, 0xFF]));
    assert_eq!(first.status(), 200);
    let second = get_image(&registry, 1);
    assert_eq!(second, Reply::Frame(vec![0xFE, 0xFF, 0x02, 0x01]));
    assert_eq!(get_image(&registry, 0), first);
}

#[test]
fn frame_out_of_range_is_reported() {
    let mut registry: Registry<MemoryReader> = Registry::new();
    registry.install(two_frames());
    for index in [2usize, 3, usize::MAX] {
        let reply = get_image(&registry, index);
        assert_eq!(reply, Reply::Failed(ReaderError::OutOfRange { index, frame_count: 2 }));
        assert_eq!(reply.status(), 500);
    }
}

#[test]
fn frame_of_unsupported_type_is_reported() {
    let mut registry: Registry<MemoryReader> = Registry::new();
    registry.install(reader(vec![1, 1, 1], ElementType::Other("Float(U4)".to_string()), vec![]));
    assert_eq!(
        get_image(&registry, 0),
        Reply::Failed(ReaderError::UnsupportedDtype("Float(U4)".to_string()))
    );
}

/// A reader that hands out a frame with fewer pixels than it declares.
struct ShortReader;

impl Reader for ShortReader {
    type Value = f64;

    fn metadata(&self) -> Result<ImageMetadata<f64>, ReaderError> {
        Err(ReaderError::Io("no metadata".to_string()))
    }

    fn frame_count(&self) -> Result<usize, ReaderError> {
        Ok(1)
    }

    fn read_frame(&self, _frame: usize) -> Result<Frame, ReaderError> {
        Ok(Frame { pixels: vec![1, 2, 3], width: 2, height: 2 })
    }
}

#[test]
fn a_frame_of_the_wrong_length_is_not_sent() {
    let short = Frame { pixels: vec![1, 2, 3], width: 2, height: 2 };
    let reply: Reply<ImageMetadata<f64>> = frame_reply(Ok(short));
    let expected = Reply::Failed(ReaderError::InvalidLayout(LayoutFault::WrongPixelCount {
        width: 2,
        height: 2,
        found: 3,
    }));
    assert_eq!(reply, expected);
    assert_eq!(reply.status(), 500);
    let mut registry: Registry<ShortReader> = Registry::new();
    registry.install(ShortReader);
    assert_eq!(get_image(&registry, 0), expected);
    assert_eq!(
        get_metadata(&registry),
        Reply::Failed(ReaderError::Io("no metadata".to_string()))
    );
}

#[test]
fn frame_replies_are_two_bytes_per_pixel() {
    let mut registry: Registry<MemoryReader> = Registry::new();
    registry.install(reader(
        vec![1, 3, 2],
        ElementType::U16,
        vec![RawPixels::U16(vec![1, 2, 3, 4, 5, 6])],
    ));
    match get_image(&registry, 0) {
        Reply::Frame(bytes) => assert_eq!(bytes.len(), 2 * 2 * 3),
        other => panic!("unexpected reply {:?}", other),
    }
}

#[test]
fn replies_by_outcome() {
    let frame = Frame { pixels: vec![0x0102, 0x0304], width: 2, height: 1 };
    let reply: Reply<ImageMetadata<f64>> = frame_reply(Ok(frame));
    assert_eq!(reply, Reply::Frame(vec![2, 1, 4, 3]));
    let failed: Reply<ImageMetadata<f64>> = frame_reply(Err(ReaderError::Io("gone".to_string())));
    assert_eq!(failed, Reply::Failed(ReaderError::Io("gone".to_string())));
    let metadata = two_frames().metadata().unwrap();
    assert_eq!(metadata_reply(Ok(metadata)), Reply::Metadata(metadata));
    assert_eq!(
        metadata_reply::<f64>(Err(ReaderError::NotOpen)),
        Reply::Failed(ReaderError::NotOpen)
    );
}

#[test]
fn replies_carry_text_only_on_failure() {
    assert_eq!(Reply::<u8>::Metadata(1).text_body(), None);
    assert_eq!(Reply::<u8>::Frame(vec![1, 2]).text_body(), None);
    assert_eq!(Reply::<u8>::NoFileOpen.text_body(), Some("No file open".to_string()));
    assert_eq!(
        Reply::<u8>::Failed(ReaderError::OutOfRange { index: 9, frame_count: 4 }).text_body(),
        Some("Frame index 9 out of range (dataset has 4 frames)".to_string())
    );
    assert_eq!(
        Reply::<u8>::Failed(ReaderError::UnsupportedDtype("Float(U8)".to_string())).text_body(),
        Some("Unsupported pixel dtype: Float(U8)".to_string())
    );
}

#[test]
fn statuses_and_texts() {
    assert_eq!(STATUS_OK, 200);
    assert_eq!(STATUS_NOT_FOUND, 404);
    assert_eq!(STATUS_FAILED, 500);
    assert_eq!(FRAME_CONTENT_TYPE, "application/octet-stream");
    assert_eq!(NO_FILE_OPEN, "No file open");
    assert_eq!(Reply::<u8>::Metadata(1).status(), 200);
    assert_eq!(Reply::<u8>::Frame(vec![]).status(), 200);
    assert_eq!(Reply::<u8>::NoFileOpen.status(), 404);
    assert_eq!(Reply::<u8>::Failed(ReaderError::NotOpen).status(), 500);
}

#[test]
fn bundled_plugins_take_precedence() {
    assert_eq!(
        plugin_search_path(Some("/app/hdf5-plugins".to_string()), Some("/usr/lib/hdf5".to_string())),
        Some("/app/hdf5-plugins".to_string())
    );
    assert_eq!(
        plugin_search_path(Some("/app/hdf5-plugins".to_string()), None),
        Some("/app/hdf5-plugins".to_string())
    );
}

#[test]
fn configured_plugins_stay_without_a_bundle() {
    assert_eq!(
        plugin_search_path(None, Some("/usr/lib/hdf5".to_string())),
        Some("/usr/lib/hdf5".to_string())
    );
    assert_eq!(plugin_search_path(None, None), None);
}
