//! Named paper sizes.

use vstd::prelude::*;
use crate::geom::{Length, Size};
use crate::text::str_eq;

verus! {

/// The family a paper size belongs to.
#[derive(Clone, Copy, Debug, PartialEq, Eq, Structural)]
pub enum PaperClass {
    Custom,
    Base,
    US,
    Newspaper,
    Book,
}

/// A paper size known by name.
#[derive(Clone, Copy, Debug, PartialEq, Eq, Structural)]
pub struct Paper {
    pub class: PaperClass,
    /// The width, in hundredths of a millimetre.
    pub width: u32,
    /// The height, in hundredths of a millimetre.
    pub height: u32,
}

/// How many length units make one hundredth of a millimetre.
pub const UNITS_PER_CENTI_MM: i64 = 36;

/// A paper of the ISO and related families, from whole millimetres.
pub open spec fn base(width_mm: int, height_mm: int) -> Paper {
    Paper { class: PaperClass::Base, width: (width_mm * 100) as u32, height: (height_mm * 100) as u32 }
}

/// A paper of the North American family, from hundredths of a millimetre.
pub open spec fn us(width: int, height: int) -> Paper {
    Paper { class: PaperClass::US, width: width as u32, height: height as u32 }
}

impl Paper {
    /// The paper that a name denotes, if it denotes one.
    pub open spec fn spec_from_name(name: Seq<char>) -> Option<Paper> {
        if name == "a0"@ {
            Some(base(841, 1189))
        } else if name == "a1"@ {
            Some(base(594, 841))
        } else if name == "a2"@ {
            Some(base(420, 594))
        } else if name == "a3"@ {
            Some(base(297, 420))
        } else if name == "a4"@ {
            Some(base(210, 297))
        } else if name == "a5"@ {
            Some(base(148, 210))
        } else if name == "a6"@ {
            Some(base(105, 148))
        } else if name == "a7"@ {
            Some(base(74, 105))
        } else if name == "a8"@ {
            Some(base(52, 74))
        } else if name == "a9"@ {
            Some(base(37, 52))
        } else if name == "a10"@ {
            Some(base(26, 37))
        } else if name == "us-letter"@ {
            Some(us(21590, 27940))
        } else if name == "us-legal"@ {
            Some(us(21590, 35560))
        } else if name == "us-tabloid"@ {
            Some(us(27940, 43180))
        } else if name == "us-executive"@ {
            Some(us(18415, 26670))
        } else {
            None
        }
    }

    /// The size of the paper as lengths.
    pub open spec fn spec_size(self) -> Size {
        Size {
            w: Length { raw: (self.width * UNITS_PER_CENTI_MM) as i64 },
            h: Length { raw: (self.height * UNITS_PER_CENTI_MM) as i64 },
        }
    }

    /// The paper that a name denotes, if it denotes one.
    pub fn from_name(name: &str) -> (r: Option<Paper>)
        ensures
            r == Paper::spec_from_name(name@),
    {
        if str_eq(name, "a0") {
            Some(Paper { class: PaperClass::Base, width: 84100, height: 118900 })
        } else if str_eq(name, "a1") {
            Some(Paper { class: PaperClass::Base, width: 59400, height: 84100 })
        } else if str_eq(name, "a2") {
            Some(Paper { class: PaperClass::Base, width: 42000, height: 59400 })
        } else if str_eq(name, "a3") {
            Some(Paper { class: PaperClass::Base, width: 29700, height: 42000 })
        } else if str_eq(name, "a4") {
            Some(Paper { class: PaperClass::Base, width: 21000, height: 29700 })
        } else if str_eq(name, "a5") {
            Some(Paper { class: PaperClass::Base, width: 14800, height: 21000 })
        } else if str_eq(name, "a6") {
            Some(Paper { class: PaperClass::Base, width: 10500, height: 14800 })
        } else if str_eq(name, "a7") {
            Some(Paper { class: PaperClass::Base, width: 7400, height: 10500 })
        } else if str_eq(name, "a8") {
            Some(Paper { class: PaperClass::Base, width: 5200, height: 7400 })
        } else if str_eq(name, "a9") {
            Some(Paper { class: PaperClass::Base, width: 3700, height: 5200 })
        } else if str_eq(name, "a10") {
            Some(Paper { class: PaperClass::Base, width: 2600, height: 3700 })
        } else if str_eq(name, "us-letter") {
            Some(Paper { class: PaperClass::US, width: 21590, height: 27940 })
        } else if str_eq(name, "us-legal") {
            Some(Paper { class: PaperClass::US, width: 21590, height: 35560 })
        } else if str_eq(name, "us-tabloid") {
            Some(Paper { class: PaperClass::US, width: 27940, height: 43180 })
        } else if str_eq(name, "us-executive") {
            Some(Paper { class: PaperClass::US, width: 18415, height: 26670 })
        } else {
            None
        }
    }

    /// The family of the paper.
    pub fn class(self) -> (r: PaperClass)
        ensures
            r == self.class,
    {
        self.class
    }

    /// The size of the paper as lengths.
    #[verifier::when_used_as_spec(spec_size)]
    pub fn size(self) -> (r: Size)
        ensures
            r == self.spec_size(),
    {
        let w: i64 = self.width as i64;
        let h: i64 = self.height as i64;
        Size { w: Length { raw: w * UNITS_PER_CENTI_MM }, h: Length { raw: h * UNITS_PER_CENTI_MM } }
    }
}

} // verus!
