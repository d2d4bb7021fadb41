//! The section header indices under which an image keeps its code and data.

use vstd::prelude::*;
use crate::error::SectionType;

verus! {

/// The indices of the four sections that symbols are looked for in.
#[derive(Clone, Copy, Debug, PartialEq, Eq, Structural)]
pub struct SectionIndices {
    pub text: usize,
    pub rodata: usize,
    pub data: usize,
    pub bss: usize,
}

impl SectionIndices {
    /// The type of the section with index `ndx`, if it is one of the four.
    /// Where indices coincide, the order is text, rodata, data, bss.
    pub open spec fn type_of(self, ndx: usize) -> Option<SectionType> {
        if ndx == self.text {
            Some(SectionType::Text)
        } else if ndx == self.rodata {
            Some(SectionType::Rodata)
        } else if ndx == self.data {
            Some(SectionType::Data)
        } else if ndx == self.bss {
            Some(SectionType::Bss)
        } else {
            None
        }
    }

    /// The type of the section with index `ndx`, if it is one of the four.
    pub fn classify(&self, ndx: usize) -> (typ: Option<SectionType>)
        ensures
            typ == self.type_of(ndx),
    {
        if ndx == self.text {
            Some(SectionType::Text)
        } else if ndx == self.rodata {
            Some(SectionType::Rodata)
        } else if ndx == self.data {
            Some(SectionType::Data)
        } else if ndx == self.bss {
            Some(SectionType::Bss)
        } else {
            None
        }
    }
}

/// The indices found so far while the headers of an image are read.
#[derive(Clone, Copy, Debug, PartialEq, Eq, Structural)]
pub struct FoundIndices {
    pub text: Option<usize>,
    pub rodata: Option<usize>,
    pub data: Option<usize>,
    pub bss: Option<usize>,
}

impl FoundIndices {
    /// Nothing found yet.
    pub open spec fn none() -> FoundIndices {
        FoundIndices { text: None, rodata: None, data: None, bss: None }
    }

    /// Whether all four indices are known.
    pub open spec fn complete(self) -> bool {
        self.text is Some && self.rodata is Some && self.data is Some && self.bss is Some
    }

    /// The type of the first section whose index is unknown, in the order
    /// text, rodata, data, bss.
    pub open spec fn first_missing(self) -> Option<SectionType> {
        if self.text is None {
            Some(SectionType::Text)
        } else if self.rodata is None {
            Some(SectionType::Rodata)
        } else if self.data is None {
            Some(SectionType::Data)
        } else if self.bss is None {
            Some(SectionType::Bss)
        } else {
            None
        }
    }

    /// The four indices, once all are known.
    pub open spec fn indices(self) -> SectionIndices
        recommends
            self.complete(),
    {
        SectionIndices {
            text: self.text.unwrap(),
            rodata: self.rodata.unwrap(),
            data: self.data.unwrap(),
            bss: self.bss.unwrap(),
        }
    }

    /// The indices with that of the section of type `typ` set to `ndx`.
    pub open spec fn with(self, typ: SectionType, ndx: usize) -> FoundIndices {
        match typ {
            SectionType::Text => FoundIndices { text: Some(ndx), ..self },
            SectionType::Rodata => FoundIndices { rodata: Some(ndx), ..self },
            SectionType::Data => FoundIndices { data: Some(ndx), ..self },
            SectionType::Bss => FoundIndices { bss: Some(ndx), ..self },
        }
    }

    /// Records `ndx` as the index of the section of type `typ`.
    pub fn set(&mut self, typ: SectionType, ndx: usize)
        ensures
            *final(self) == old(self).with(typ, ndx),
    {
        match typ {
            SectionType::Text => {
                self.text = Some(ndx);
            },
            SectionType::Rodata => {
                self.rodata = Some(ndx);
            },
            SectionType::Data => {
                self.data = Some(ndx);
            },
            SectionType::Bss => {
                self.bss = Some(ndx);
            },
        }
    }

    /// Nothing found yet.
    pub fn new() -> (found: Self)
        ensures
            found == FoundIndices::none(),
    {
        FoundIndices { text: None, rodata: None, data: None, bss: None }
    }

    /// Whether all four indices are known.
    pub fn is_complete(&self) -> (complete: bool)
        ensures
            complete == self.complete(),
    {
        self.text.is_some() && self.rodata.is_some() && self.data.is_some() && self.bss.is_some()
    }

    /// The four indices, or the type of the first section that has none.
    pub fn finish(&self) -> (indices: Result<SectionIndices, SectionType>)
        ensures
            match self.first_missing() {
                Some(typ) => indices == Err::<SectionIndices, SectionType>(typ),
                None => indices == Ok::<SectionIndices, SectionType>(self.indices()),
            },
    {
        let text = match self.text {
            Some(text) => text,
            None => {
                return Err(SectionType::Text);
            },
        };
        let rodata = match self.rodata {
            Some(rodata) => rodata,
            None => {
                return Err(SectionType::Rodata);
            },
        };
        let data = match self.data {
            Some(data) => data,
            None => {
                return Err(SectionType::Data);
            },
        };
        let bss = match self.bss {
            Some(bss) => bss,
            None => {
                return Err(SectionType::Bss);
            },
        };
        Ok(SectionIndices { text, rodata, data, bss })
    }
}

} // verus!
