use diffrant_native::error::ReaderError;
use diffrant_native::readers::{
    format_for_extension, format_from_lowercase, open, select_format, FileFormat, NxsReader,
};

#[test]
fn supported_extensions() {
    for ext in ["nxs", "h5", "hdf5", "nx5"] {
        assert_eq!(format_from_lowercase(ext), Some(FileFormat::Nexus));
        assert_eq!(format_for_extension(Some(ext)), Ok(FileFormat::Nexus));
    }
}

#[test]
fn extensions_ignore_case() {
    for ext in ["NXS", "H5", "Hdf5", "nX5"] {
        assert_eq!(format_from_lowercase(ext), None);
        assert_eq!(format_for_extension(Some(ext)), Ok(FileFormat::Nexus));
    }
}

#[test]
fn unsupported_extensions_are_named_in_lower_case() {
    assert_eq!(
        format_for_extension(Some("TIFF")),
        Err(ReaderError::UnsupportedFormat("tiff".to_string()))
    );
    assert_eq!(
        format_for_extension(Some("cbf")),
        Err(ReaderError::UnsupportedFormat("cbf".to_string()))
    );
    assert_eq!(format_for_extension(Some("")), Err(ReaderError::UnsupportedFormat(String::new())));
    assert_eq!(format_for_extension(None), Err(ReaderError::UnsupportedFormat(String::new())));
    assert_eq!(format_from_lowercase(""), None);
    assert_eq!(format_from_lowercase("nxs "), None);
    assert_eq!(format_from_lowercase("h55"), None);
}

#[test]
fn format_is_selected_by_the_extension_of_the_path() {
    assert_eq!(select_format("scan_0001.nxs"), Ok(FileFormat::Nexus));
    assert_eq!(select_format("/data/run.7/scan_0001.H5"), Ok(FileFormat::Nexus));
    assert_eq!(select_format("relative/dir/master.hdf5"), Ok(FileFormat::Nexus));
    assert_eq!(select_format("a.b.nx5"), Ok(FileFormat::Nexus));
}

#[test]
fn paths_with_other_extensions_are_refused() {
    assert_eq!(
        select_format("image.TIF"),
        Err(ReaderError::UnsupportedFormat("tif".to_string()))
    );
    assert_eq!(select_format("nxs"), Err(ReaderError::UnsupportedFormat(String::new())));
    assert_eq!(select_format("/data/scan.nxs/readme"), Err(ReaderError::UnsupportedFormat(String::new())));
    assert_eq!(select_format(".nxs"), Err(ReaderError::UnsupportedFormat(String::new())));
    assert_eq!(select_format(""), Err(ReaderError::UnsupportedFormat(String::new())));
    assert_eq!(
        select_format("scan.nxs.bak"),
        Err(ReaderError::UnsupportedFormat("bak".to_string()))
    );
}

#[test]
fn a_reader_owns_the_path() {
    let reader = NxsReader::open("/data/scan.nxs", Ok(())).unwrap();
    assert_eq!(reader.path(), "/data/scan.nxs");
    let other = open("/data/other.h5", |_| Ok(())).unwrap();
    assert_eq!(other.path(), "/data/other.h5");
}

#[test]
fn a_file_that_cannot_be_opened_gives_no_reader() {
    assert_eq!(
        NxsReader::open("/data/scan.nxs", Err("unable to open file".to_string())),
        Err(ReaderError::Io("Cannot open /data/scan.nxs: unable to open file".to_string()))
    );
    assert_eq!(
        open("/data/scan.nxs", |_| Err("permission denied".to_string())),
        Err(ReaderError::Io("Cannot open /data/scan.nxs: permission denied".to_string()))
    );
    assert_eq!(
        NxsReader::open("", Err(String::new())),
        Err(ReaderError::Io("Cannot open : ".to_string()))
    );
}

#[test]
fn the_failure_names_path_and_cause() {
    let failure = open("/data/run 7/scan.H5", |_| Err("no such file or directory".to_string()));
    let text = failure.unwrap_err().describe();
    assert_eq!(text, "Cannot open /data/run 7/scan.H5: no such file or directory");
    assert!(text.contains("/data/run 7/scan.H5"));
    assert!(text.contains("no such file or directory"));
}

#[test]
fn the_file_is_tried_under_its_own_path() {
    let reader = open("/data/scan.nxs", |path| {
        assert_eq!(path, "/data/scan.nxs");
        Ok(())
    });
    assert!(reader.is_ok());
}

#[test]
fn the_extension_is_judged_before_the_file() {
    assert_eq!(
        open("/data/scan.cbf", |_| panic!("the file is not to be touched")),
        Err(ReaderError::UnsupportedFormat("cbf".to_string()))
    );
    assert_eq!(
        open("/data/scan", |_| panic!("the file is not to be touched")),
        Err(ReaderError::UnsupportedFormat(String::new()))
    );
}

#[test]
fn a_later_failure_to_open_names_path_and_cause() {
    let reader = NxsReader::open("/data/scan.nxs", Ok(())).unwrap();
    assert_eq!(
        reader.unreadable("file is locked"),
        ReaderError::Io("Failed to open /data/scan.nxs: file is locked".to_string())
    );
}
