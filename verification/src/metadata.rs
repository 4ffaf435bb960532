//! Detector geometry of a NeXus file: which dataset supplies each field,
//! in which unit, and what stands in when none does.
//!
//! Measured numbers pass through untouched, as values of a type `V` that the
//! caller chooses. Each field of the record says where its number came from
//! and, by an integer factor, how it is brought to the unit of the record;
//! the product is left to the caller, who owns the arithmetic of `V`.

use vstd::prelude::*;
use crate::error::ReaderError;
use crate::frame::{stack_shape, StackShape};
use crate::units::{LengthUnit, TextAttribute, WavelengthUnit};

verus! {

/// Where the image stack lies in a file.
pub const STACK_PATH: &'static str = "entry/data/data";

/// Where the detector group lies in a file.
pub const DETECTOR_PATH: &'static str = "entry/instrument/detector";

/// Where the beam group lies in a file.
pub const BEAM_PATH: &'static str = "entry/instrument/beam";

/// The name of the vendor subgroup of the detector group.
pub const DETECTOR_SPECIFIC_GROUP: &'static str = "detectorSpecific";

/// The name of the dataset of the detector group that is tried first for
/// the distance.
pub const DISTANCE: &'static str = "distance";

/// The name of the dataset of the detector group that is tried second for
/// the distance.
pub const DETECTOR_DISTANCE: &'static str = "detector_distance";

/// The name of the dataset of the detector group that gives the pixel pitch.
pub const X_PIXEL_SIZE: &'static str = "x_pixel_size";

/// The name of the dataset of the detector group that gives the beam centre
/// along the fast axis.
pub const BEAM_CENTER_X: &'static str = "beam_center_x";

/// The name of the dataset of the detector group that gives the beam centre
/// along the slow axis.
pub const BEAM_CENTER_Y: &'static str = "beam_center_y";

/// The name of the dataset of the vendor subgroup that is tried first for the
/// trusted maximum.
pub const COUNT_CUTOFF: &'static str = "countrate_correction_count_cutoff";

/// The name of the dataset of the detector group that is tried second for the
/// trusted maximum.
pub const SATURATION_VALUE: &'static str = "saturation_value";

/// The name of the dataset of the beam group that gives the beam energy in
/// electronvolts; it is tried first.
pub const INCIDENT_ENERGY: &'static str = "incident_energy";

/// The name of the dataset of the beam group that gives the wavelength of the
/// beam; it is tried second.
pub const INCIDENT_WAVELENGTH: &'static str = "incident_wavelength";

/// The name of the attribute that gives the unit of a dataset.
pub const UNITS: &'static str = "units";

/// The canonical depth of a transferred pixel, in bits.
pub const IMAGE_DEPTH_BITS: u32 = 16;

/// The trusted maximum of a file that names none: the largest 16-bit value
/// but one, the largest being kept as a sentinel.
pub const DEFAULT_TRUSTED_RANGE_MAX: u16 = 65534;

/// The pixel pitch of a file that names none, in micrometres.
pub const DEFAULT_PIXEL_SIZE_MICROMETRES: u64 = 75;

/// How many electronvolts one kiloelectronvolt is.
pub const ELECTRONVOLTS_PER_KEV: u64 = 1000;

/// How many millimetres one metre is.
pub const MILLIMETRES_PER_METRE: u64 = 1000;

/// The product of Planck's constant and the speed of light in units of
/// 10^-9 keV angstrom: a photon of wavelength `w` angstrom has the energy
/// `12.398419843 / w` keV.
pub const HC_NANO_KEV_ANGSTROM: u64 = 12_398_419_843;

/// What reading a numeric dataset gave under each of the forms a file may
/// store a number in. A form under which the dataset cannot be read gives
/// `None`. Numbers stored in 32 bits arrive widened.
#[derive(Debug, Clone, PartialEq)]
pub struct Reading<V> {
    /// Read as a 64-bit scalar.
    pub scalar_f64: Option<V>,
    /// Read as a 32-bit scalar.
    pub scalar_f32: Option<V>,
    /// Read as a one-dimensional array of 64-bit numbers.
    pub array_f64: Option<Vec<V>>,
    /// Read as a one-dimensional array of 32-bit numbers.
    pub array_f32: Option<Vec<V>>,
}

/// A numeric dataset that is present in its group.
#[derive(Debug, Clone, PartialEq)]
pub struct Dataset<V> {
    pub reading: Reading<V>,
    /// The `units` attribute of the dataset.
    pub units: TextAttribute,
}

/// The `detectorSpecific` subgroup of the detector group.
#[derive(Debug, Clone, PartialEq)]
pub struct DetectorSpecific<V> {
    pub countrate_correction_count_cutoff: Option<Dataset<V>>,
}

/// The detector group, each dataset under its name in the file.
#[derive(Debug, Clone, PartialEq)]
pub struct DetectorGroup<V> {
    pub distance: Option<Dataset<V>>,
    pub detector_distance: Option<Dataset<V>>,
    pub x_pixel_size: Option<Dataset<V>>,
    pub beam_center_x: Option<Dataset<V>>,
    pub beam_center_y: Option<Dataset<V>>,
    pub saturation_value: Option<Dataset<V>>,
    pub detector_specific: Option<DetectorSpecific<V>>,
}

/// The beam group, each dataset under its name in the file.
#[derive(Debug, Clone, PartialEq)]
pub struct BeamGroup<V> {
    pub incident_energy: Option<Dataset<V>>,
    pub incident_wavelength: Option<Dataset<V>>,
}

/// What a file holds of the things that bear on its metadata. `None` stands
/// for a dataset or group that is not there.
#[derive(Debug, Clone, PartialEq)]
pub struct NexusContents<V> {
    /// The dimensions that the image stack declares, outermost first.
    pub stack: Option<Vec<usize>>,
    pub detector: Option<DetectorGroup<V>>,
    pub beam: Option<BeamGroup<V>>,
}

/// The distance from sample to detector.
#[derive(Debug, Clone, Copy, PartialEq)]
pub enum PanelDistance<V> {
    /// No dataset gave a distance: 0 mm.
    Unknown,
    /// `raw` in `unit`, which is `raw * unit.millimetres()` mm.
    Measured { raw: V, unit: LengthUnit },
}

/// The pixel pitch of the detector.
#[derive(Debug, Clone, Copy, PartialEq)]
pub enum PixelSize<V> {
    /// No dataset gave a pitch: `DEFAULT_PIXEL_SIZE_MICROMETRES`.
    Nominal,
    /// `metres` m, which is `metres * MILLIMETRES_PER_METRE` mm.
    Measured { metres: V },
}

/// One coordinate of the beam centre, in pixels.
#[derive(Debug, Clone, Copy, PartialEq)]
pub enum BeamCoordinate<V> {
    /// No dataset gave the coordinate: the middle of the detector along this
    /// axis, `extent / 2`.
    Middle { extent: u64 },
    Measured { pixels: V },
}

/// The pixel value above which a pixel is not trusted.
#[derive(Debug, Clone, Copy, PartialEq)]
pub enum TrustedRangeMax<V> {
    /// No dataset gave a limit: `DEFAULT_TRUSTED_RANGE_MAX`.
    Ceiling,
    Measured { counts: V },
}

/// The energy of the beam.
#[derive(Debug, Clone, Copy, PartialEq)]
pub enum BeamEnergy<V> {
    /// The file gives neither energy nor wavelength: the field is left out.
    Absent,
    /// `electronvolts` eV, which is `electronvolts / ELECTRONVOLTS_PER_KEV`
    /// keV.
    Energy { electronvolts: V },
    /// A wavelength of `raw` in `unit`, which is `raw * unit.angstroms()`
    /// angstrom and gives `12.398419843` keV divided by that number.
    Wavelength { raw: V, unit: WavelengthUnit },
}

/// The beam centre in pixel coordinates.
#[derive(Debug, Clone, Copy, PartialEq)]
pub struct BeamCenter<V> {
    /// Along the fast axis, the width.
    pub fast: BeamCoordinate<V>,
    /// Along the slow axis, the height.
    pub slow: BeamCoordinate<V>,
}

/// The size of the detector in pixels.
#[derive(Debug, Clone, Copy, PartialEq, Eq, Structural)]
pub struct PanelSize {
    /// The width.
    pub fast: u64,
    /// The height.
    pub slow: u64,
}

/// Detector geometry and image properties of one file.
#[derive(Debug, Clone, Copy, PartialEq)]
pub struct ImageMetadata<V> {
    pub panel_distance: PanelDistance<V>,
    pub beam_center: BeamCenter<V>,
    pub pixel_size: PixelSize<V>,
    pub panel_size_fast_slow: PanelSize,
    pub image_depth_bits: u32,
    pub trusted_range_max: TrustedRangeMax<V>,
    pub beam_energy: BeamEnergy<V>,
}

/// The one element of an array that was read, if it has exactly one.
pub open spec fn single<V>(array: Option<Vec<V>>) -> Option<V> {
    match array {
        Some(a) => if a@.len() == 1 {
            Some(a@[0])
        } else {
            None
        },
        None => None,
    }
}

impl<V> Reading<V> {
    /// The number a reading gives: the first that is there of the 64-bit
    /// scalar, the 32-bit scalar, the one element of the 64-bit array and the
    /// one element of the 32-bit array.
    pub open spec fn number(self) -> Option<V> {
        match self.scalar_f64 {
            Some(v) => Some(v),
            None => match self.scalar_f32 {
                Some(v) => Some(v),
                None => match single(self.array_f64) {
                    Some(v) => Some(v),
                    None => single(self.array_f32),
                },
            },
        }
    }
}

/// The number that a dataset of a group gives, if it is there and readable.
pub open spec fn number_of<V>(dataset: Option<Dataset<V>>) -> Option<V> {
    match dataset {
        Some(d) => d.reading.number(),
        None => None,
    }
}

/// The distance of a detector group: `distance` if it gives a number, else
/// `detector_distance`, each in the unit its own attribute names.
pub open spec fn panel_distance_of<V>(detector: DetectorGroup<V>) -> PanelDistance<V> {
    match number_of(detector.distance) {
        Some(raw) => PanelDistance::Measured {
            raw,
            unit: LengthUnit::named(detector.distance->0.units.text()),
        },
        None => match number_of(detector.detector_distance) {
            Some(raw) => PanelDistance::Measured {
                raw,
                unit: LengthUnit::named(detector.detector_distance->0.units.text()),
            },
            None => PanelDistance::Unknown,
        },
    }
}

/// The pixel pitch of a detector group, from `x_pixel_size`.
pub open spec fn pixel_size_of<V>(detector: DetectorGroup<V>) -> PixelSize<V> {
    match number_of(detector.x_pixel_size) {
        Some(metres) => PixelSize::Measured { metres },
        None => PixelSize::Nominal,
    }
}

/// One coordinate of the beam centre, from its dataset or else the middle of
/// the detector's extent along that axis.
pub open spec fn beam_coordinate_of<V>(dataset: Option<Dataset<V>>, extent: u64) -> BeamCoordinate<
    V,
> {
    match number_of(dataset) {
        Some(pixels) => BeamCoordinate::Measured { pixels },
        None => BeamCoordinate::Middle { extent },
    }
}

/// The count cutoff that the `detectorSpecific` subgroup gives.
pub open spec fn count_cutoff_of<V>(detector: DetectorGroup<V>) -> Option<V> {
    match detector.detector_specific {
        Some(specific) => number_of(specific.countrate_correction_count_cutoff),
        None => None,
    }
}

/// The trusted maximum of a detector group: the count cutoff, else
/// `saturation_value`.
pub open spec fn trusted_range_max_of<V>(detector: DetectorGroup<V>) -> TrustedRangeMax<V> {
    match count_cutoff_of(detector) {
        Some(counts) => TrustedRangeMax::Measured { counts },
        None => match number_of(detector.saturation_value) {
            Some(counts) => TrustedRangeMax::Measured { counts },
            None => TrustedRangeMax::Ceiling,
        },
    }
}

/// The beam energy of a file: `incident_energy` if the beam group gives it,
/// else `incident_wavelength` in the unit its attribute names.
pub open spec fn beam_energy_of<V>(beam: Option<BeamGroup<V>>) -> BeamEnergy<V> {
    match beam {
        None => BeamEnergy::Absent,
        Some(group) => match number_of(group.incident_energy) {
            Some(electronvolts) => BeamEnergy::Energy { electronvolts },
            None => match number_of(group.incident_wavelength) {
                Some(raw) => BeamEnergy::Wavelength {
                    raw,
                    unit: WavelengthUnit::named(group.incident_wavelength->0.units.text()),
                },
                None => BeamEnergy::Absent,
            },
        },
    }
}

/// A detector group none of whose datasets is there.
pub open spec fn missing_detector<V>() -> DetectorGroup<V> {
    DetectorGroup {
        distance: None,
        detector_distance: None,
        x_pixel_size: None,
        beam_center_x: None,
        beam_center_y: None,
        saturation_value: None,
        detector_specific: None,
    }
}

/// The detector group of a file. A file without the group is read as one
/// whose group holds nothing: every field of the detector is optional.
pub open spec fn detector_of<V>(detector: Option<DetectorGroup<V>>) -> DetectorGroup<V> {
    match detector {
        Some(group) => group,
        None => missing_detector(),
    }
}

/// The record of a file whose image stack has the given shape.
pub open spec fn record_of<V>(
    shape: StackShape,
    detector: DetectorGroup<V>,
    beam: Option<BeamGroup<V>>,
) -> ImageMetadata<V> {
    ImageMetadata {
        panel_distance: panel_distance_of(detector),
        beam_center: BeamCenter {
            fast: beam_coordinate_of(detector.beam_center_x, shape.width as u64),
            slow: beam_coordinate_of(detector.beam_center_y, shape.height as u64),
        },
        pixel_size: pixel_size_of(detector),
        panel_size_fast_slow: PanelSize { fast: shape.width as u64, slow: shape.height as u64 },
        image_depth_bits: IMAGE_DEPTH_BITS,
        trusted_range_max: trusted_range_max_of(detector),
        beam_energy: beam_energy_of(beam),
    }
}

/// The metadata of a file. Only the image stack can make it fail: the stack
/// must be there and have rank three. Every field of the record has a value
/// whatever else the file holds or lacks, the detector group included.
pub open spec fn metadata_of<V>(contents: NexusContents<V>) -> Result<
    ImageMetadata<V>,
    ReaderError,
> {
    match stack_shape(contents.stack) {
        Err(e) => Err(e),
        Ok(shape) => Ok(record_of(shape, detector_of(contents.detector), contents.beam)),
    }
}

/// The one element of an array that was read, if it has exactly one.
fn single_element<V: Copy>(array: &Option<Vec<V>>) -> (r: Option<V>)
    ensures
        r == single(*array),
{
    match array {
        Some(a) => if a.len() == 1 {
            Some(a[0])
        } else {
            None
        },
        None => None,
    }
}

impl<V: Copy> Reading<V> {
    /// The number the reading gives.
    pub fn value(&self) -> (r: Option<V>)
        ensures
            r == self.number(),
    {
        match self.scalar_f64 {
            Some(v) => Some(v),
            None => match self.scalar_f32 {
                Some(v) => Some(v),
                None => match single_element(&self.array_f64) {
                    Some(v) => Some(v),
                    None => single_element(&self.array_f32),
                },
            },
        }
    }
}

/// Reads the number of a dataset of a group, if the dataset is there and
/// gives one.
pub fn read_scalar<V: Copy>(dataset: &Option<Dataset<V>>) -> (r: Option<V>)
    ensures
        r == number_of(*dataset),
{
    match dataset {
        None => None,
        Some(d) => d.reading.value(),
    }
}

/// Reads the number of a dataset that is a length, with its unit.
fn read_length<V: Copy>(dataset: &Option<Dataset<V>>) -> (r: Option<(V, LengthUnit)>)
    ensures
        match r {
            Some((raw, unit)) => number_of(*dataset) == Some(raw) && unit == LengthUnit::named(
                dataset->0.units.text(),
            ),
            None => number_of(*dataset) is None,
        },
{
    match read_scalar(dataset) {
        None => None,
        Some(raw) => {
            let unit = match dataset {
                Some(d) => LengthUnit::parse(d.units.decode()),
                None => LengthUnit::Metre,
            };
            Some((raw, unit))
        },
    }
}

/// Resolves the distance from sample to detector.
pub fn resolve_panel_distance<V: Copy>(detector: &DetectorGroup<V>) -> (r: PanelDistance<V>)
    ensures
        r == panel_distance_of(*detector),
{
    match read_length(&detector.distance) {
        Some((raw, unit)) => PanelDistance::Measured { raw, unit },
        None => match read_length(&detector.detector_distance) {
            Some((raw, unit)) => PanelDistance::Measured { raw, unit },
            None => PanelDistance::Unknown,
        },
    }
}

/// Resolves the pixel pitch.
pub fn resolve_pixel_size<V: Copy>(detector: &DetectorGroup<V>) -> (r: PixelSize<V>)
    ensures
        r == pixel_size_of(*detector),
{
    match read_scalar(&detector.x_pixel_size) {
        Some(metres) => PixelSize::Measured { metres },
        None => PixelSize::Nominal,
    }
}

/// Resolves one coordinate of the beam centre on a detector of the given
/// extent along that axis.
pub fn resolve_beam_coordinate<V: Copy>(dataset: &Option<Dataset<V>>, extent: u64) -> (r:
    BeamCoordinate<V>)
    ensures
        r == beam_coordinate_of(*dataset, extent),
{
    match read_scalar(dataset) {
        Some(pixels) => BeamCoordinate::Measured { pixels },
        None => BeamCoordinate::Middle { extent },
    }
}

/// Resolves the trusted maximum.
pub fn resolve_trusted_range_max<V: Copy>(detector: &DetectorGroup<V>) -> (r: TrustedRangeMax<V>)
    ensures
        r == trusted_range_max_of(*detector),
{
    let cutoff = match &detector.detector_specific {
        Some(specific) => read_scalar(&specific.countrate_correction_count_cutoff),
        None => None,
    };
    match cutoff {
        Some(counts) => TrustedRangeMax::Measured { counts },
        None => match read_scalar(&detector.saturation_value) {
            Some(counts) => TrustedRangeMax::Measured { counts },
            None => TrustedRangeMax::Ceiling,
        },
    }
}

/// Resolves the beam energy.
pub fn resolve_beam_energy<V: Copy>(beam: &Option<BeamGroup<V>>) -> (r: BeamEnergy<V>)
    ensures
        r == beam_energy_of(*beam),
{
    match beam {
        None => BeamEnergy::Absent,
        Some(group) => match read_scalar(&group.incident_energy) {
            Some(electronvolts) => BeamEnergy::Energy { electronvolts },
            None => match read_scalar(&group.incident_wavelength) {
                None => BeamEnergy::Absent,
                Some(raw) => {
                    let unit = match &group.incident_wavelength {
                        Some(d) => WavelengthUnit::parse(d.units.decode()),
                        None => WavelengthUnit::Angstrom,
                    };
                    BeamEnergy::Wavelength { raw, unit }
                },
            },
        },
    }
}

impl<V: Copy> DetectorGroup<V> {
    /// A detector group none of whose datasets is there.
    pub fn missing() -> (group: DetectorGroup<V>)
        ensures
            group == missing_detector::<V>(),
    {
        DetectorGroup {
            distance: None,
            detector_distance: None,
            x_pixel_size: None,
            beam_center_x: None,
            beam_center_y: None,
            saturation_value: None,
            detector_specific: None,
        }
    }
}

/// Builds the record of a file whose image stack has the given shape.
fn record<V: Copy>(shape: StackShape, detector: &DetectorGroup<V>, beam: &Option<BeamGroup<V>>)
    -> (r: ImageMetadata<V>)
    ensures
        r == record_of(shape, *detector, *beam),
{
    let width: u64 = shape.width as u64;
    let height: u64 = shape.height as u64;
    ImageMetadata {
        panel_distance: resolve_panel_distance(detector),
        beam_center: BeamCenter {
            fast: resolve_beam_coordinate(&detector.beam_center_x, width),
            slow: resolve_beam_coordinate(&detector.beam_center_y, height),
        },
        pixel_size: resolve_pixel_size(detector),
        panel_size_fast_slow: PanelSize { fast: width, slow: height },
        image_depth_bits: IMAGE_DEPTH_BITS,
        trusted_range_max: resolve_trusted_range_max(detector),
        beam_energy: resolve_beam_energy(beam),
    }
}

/// Decodes the metadata of a file from what the file holds.
pub fn read_nxs_metadata<V: Copy>(contents: &NexusContents<V>) -> (r: Result<
    ImageMetadata<V>,
    ReaderError,
>)
    ensures
        r == metadata_of(*contents),
{
    let shape = match StackShape::of_stack(&contents.stack) {
        Ok(shape) => shape,
        Err(e) => { return Err(e); },
    };
    match &contents.detector {
        Some(detector) => Ok(record(shape, detector, &contents.beam)),
        None => {
            let detector = DetectorGroup::missing();
            Ok(record(shape, &detector, &contents.beam))
        },
    }
}

/// Only the image stack can make the metadata of a file fail. With the stack
/// in place and of rank three, every other dataset and group may be missing
/// or unreadable, the detector group too: the record is there, its depth is
/// 16 bits and its panel size is the width and height of the stack.
pub proof fn lemma_metadata_fails_on_structure_only<V>(contents: NexusContents<V>)
    ensures
        metadata_of(contents) is Ok <==> contents.stack is Some && contents.stack->0@.len() == 3,
        metadata_of(contents) matches Ok(metadata) ==> {
            &&& metadata.image_depth_bits == 16
            &&& metadata.panel_size_fast_slow.fast == contents.stack->0@[2]
            &&& metadata.panel_size_fast_slow.slow == contents.stack->0@[1]
        },
        metadata_of(contents) matches Err(e) ==> e is InvalidLayout,
{
}

/// A detector group without the beam centre has it in the middle of the
/// panel; one without distance, pixel size or trusted maximum has the
/// defaults; a file without a beam group has no beam energy. A file without
/// the detector group has all the defaults of the detector at once.
pub proof fn lemma_missing_fields_take_defaults<V>(contents: NexusContents<V>)
    requires
        metadata_of(contents) is Ok,
    ensures
        ({
            let detector = detector_of(contents.detector);
            let metadata = metadata_of(contents)->Ok_0;
            &&& detector.beam_center_x is None ==> metadata.beam_center.fast
                == BeamCoordinate::<V>::Middle { extent: metadata.panel_size_fast_slow.fast }
            &&& detector.beam_center_y is None ==> metadata.beam_center.slow
                == BeamCoordinate::<V>::Middle { extent: metadata.panel_size_fast_slow.slow }
            &&& detector.distance is None && detector.detector_distance is None
                ==> metadata.panel_distance == PanelDistance::<V>::Unknown
            &&& detector.x_pixel_size is None ==> metadata.pixel_size == PixelSize::<V>::Nominal
            &&& detector.detector_specific is None && detector.saturation_value is None
                ==> metadata.trusted_range_max == TrustedRangeMax::<V>::Ceiling
            &&& contents.beam is None ==> metadata.beam_energy == BeamEnergy::<V>::Absent
        }),
        contents.detector is None ==> ({
            let metadata = metadata_of(contents)->Ok_0;
            &&& metadata.panel_distance == PanelDistance::<V>::Unknown
            &&& metadata.pixel_size == PixelSize::<V>::Nominal
            &&& metadata.beam_center.fast == BeamCoordinate::<V>::Middle {
                extent: metadata.panel_size_fast_slow.fast,
            }
            &&& metadata.beam_center.slow == BeamCoordinate::<V>::Middle {
                extent: metadata.panel_size_fast_slow.slow,
            }
            &&& metadata.trusted_range_max == TrustedRangeMax::<V>::Ceiling
        }),
{
}

} // verus!
