//! Units of the lengths and wavelengths a file may store, and the text
//! attributes that name them.

use vstd::prelude::*;

verus! {

/// The lower-case form of a text.
pub uninterp spec fn lowercase(text: Seq<char>) -> Seq<char>;

/// `str::to_lowercase` of the standard library. The contract claims only
/// that the result is a function of the text: the Unicode lower-casing that
/// the standard library documents, under the name `lowercase`.
#[verifier::external_body]
pub(crate) fn to_lowercase(text: &str) -> (lowered: String)
    ensures
        lowered@ == lowercase(text@),
{
    text.to_lowercase()
}

/// Whether two texts hold the same characters.
pub(crate) fn same_text(a: &str, b: &str) -> (same: bool)
    ensures
        same == (a@ == b@),
{
    let left: String = a.to_owned();
    let right: String = b.to_owned();
    left == right
}

/// A text attribute as read under each of the three encodings a file may use
/// for it. An encoding under which the attribute does not parse, or an
/// attribute that is absent, gives `None`.
#[derive(Debug, Clone, PartialEq, Eq)]
pub struct TextAttribute {
    /// Read as variable-length Unicode.
    pub var_unicode: Option<String>,
    /// Read as variable-length ASCII.
    pub var_ascii: Option<String>,
    /// Read as fixed-length ASCII of 64 bytes.
    pub fixed_ascii: Option<String>,
}

impl TextAttribute {
    /// The text of the attribute: the first encoding that parsed, tried in
    /// the order Unicode, variable ASCII, fixed ASCII.
    pub open spec fn text(self) -> Option<Seq<char>> {
        match self.var_unicode {
            Some(t) => Some(t@),
            None => match self.var_ascii {
                Some(t) => Some(t@),
                None => match self.fixed_ascii {
                    Some(t) => Some(t@),
                    None => None,
                },
            },
        }
    }

    /// An attribute that is absent.
    pub fn absent() -> (a: TextAttribute)
        ensures
            a.text() is None,
            a.var_unicode is None,
            a.var_ascii is None,
            a.fixed_ascii is None,
    {
        TextAttribute { var_unicode: None, var_ascii: None, fixed_ascii: None }
    }

    /// Decodes the attribute.
    pub fn decode(&self) -> (r: Option<&str>)
        ensures
            match r {
                Some(t) => self.text() == Some(t@),
                None => self.text() is None,
            },
    {
        match &self.var_unicode {
            Some(t) => Some(t.as_str()),
            None => match &self.var_ascii {
                Some(t) => Some(t.as_str()),
                None => match &self.fixed_ascii {
                    Some(t) => Some(t.as_str()),
                    None => None,
                },
            },
        }
    }
}

/// The unit a distance is stored in.
#[derive(Debug, Clone, Copy, PartialEq, Eq, Structural)]
pub enum LengthUnit {
    Millimetre,
    Centimetre,
    Metre,
}

impl LengthUnit {
    /// The unit that a lower-case name stands for: `mm` and `cm` are
    /// themselves, every other name is the metre.
    pub open spec fn of_lowercase(name: Seq<char>) -> LengthUnit {
        if name == "mm"@ {
            LengthUnit::Millimetre
        } else if name == "cm"@ {
            LengthUnit::Centimetre
        } else {
            LengthUnit::Metre
        }
    }

    /// The unit that a units attribute names, whatever its case; an absent
    /// attribute means metres.
    pub open spec fn named(units: Option<Seq<char>>) -> LengthUnit {
        match units {
            Some(name) => LengthUnit::of_lowercase(lowercase(name)),
            None => LengthUnit::Metre,
        }
    }

    /// How many millimetres one unit is.
    pub open spec fn millimetres(self) -> nat {
        match self {
            LengthUnit::Millimetre => 1,
            LengthUnit::Centimetre => 10,
            LengthUnit::Metre => 1000,
        }
    }

    /// The unit that a lower-case name stands for.
    pub fn from_lowercase(name: &str) -> (unit: LengthUnit)
        ensures
            unit == LengthUnit::of_lowercase(name@),
    {
        if same_text(name, "mm") {
            LengthUnit::Millimetre
        } else if same_text(name, "cm") {
            LengthUnit::Centimetre
        } else {
            LengthUnit::Metre
        }
    }

    /// The unit that a units attribute names.
    pub fn parse(units: Option<&str>) -> (unit: LengthUnit)
        ensures
            unit == LengthUnit::named(
                match units {
                    Some(name) => Some(name@),
                    None => None,
                },
            ),
    {
        match units {
            Some(name) => {
                let lowered: String = to_lowercase(name);
                LengthUnit::from_lowercase(lowered.as_str())
            },
            None => LengthUnit::Metre,
        }
    }

    /// The factor that turns a length in this unit into millimetres.
    pub fn millimetres_per_unit(self) -> (factor: u64)
        ensures
            factor == self.millimetres(),
    {
        match self {
            LengthUnit::Millimetre => 1,
            LengthUnit::Centimetre => 10,
            LengthUnit::Metre => 1000,
        }
    }
}

/// The unit a wavelength is stored in.
#[derive(Debug, Clone, Copy, PartialEq, Eq, Structural)]
pub enum WavelengthUnit {
    Angstrom,
    Nanometre,
    Metre,
}

impl WavelengthUnit {
    /// The unit that a lower-case name stands for: `nm` and `m` are
    /// themselves, every other name is the angstrom.
    pub open spec fn of_lowercase(name: Seq<char>) -> WavelengthUnit {
        if name == "nm"@ {
            WavelengthUnit::Nanometre
        } else if name == "m"@ {
            WavelengthUnit::Metre
        } else {
            WavelengthUnit::Angstrom
        }
    }

    /// The unit that a units attribute names, whatever its case; an absent
    /// attribute means angstrom.
    pub open spec fn named(units: Option<Seq<char>>) -> WavelengthUnit {
        match units {
            Some(name) => WavelengthUnit::of_lowercase(lowercase(name)),
            None => WavelengthUnit::Angstrom,
        }
    }

    /// How many angstrom one unit is.
    pub open spec fn angstroms(self) -> nat {
        match self {
            WavelengthUnit::Angstrom => 1,
            WavelengthUnit::Nanometre => 10,
            WavelengthUnit::Metre => 10_000_000_000,
        }
    }

    /// The unit that a lower-case name stands for.
    pub fn from_lowercase(name: &str) -> (unit: WavelengthUnit)
        ensures
            unit == WavelengthUnit::of_lowercase(name@),
    {
        if same_text(name, "nm") {
            WavelengthUnit::Nanometre
        } else if same_text(name, "m") {
            WavelengthUnit::Metre
        } else {
            WavelengthUnit::Angstrom
        }
    }

    /// The unit that a units attribute names.
    pub fn parse(units: Option<&str>) -> (unit: WavelengthUnit)
        ensures
            unit == WavelengthUnit::named(
                match units {
                    Some(name) => Some(name@),
                    None => None,
                },
            ),
    {
        match units {
            Some(name) => {
                let lowered: String = to_lowercase(name);
                WavelengthUnit::from_lowercase(lowered.as_str())
            },
            None => WavelengthUnit::Angstrom,
        }
    }

    /// The factor that turns a wavelength in this unit into angstrom.
    pub fn angstroms_per_unit(self) -> (factor: u64)
        ensures
            factor == self.angstroms(),
    {
        match self {
            WavelengthUnit::Angstrom => 1,
            WavelengthUnit::Nanometre => 10,
            WavelengthUnit::Metre => 10_000_000_000,
        }
    }
}

} // verus!
