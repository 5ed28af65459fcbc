use vstd::prelude::*;

verus! {

/// One successfully extracted set of occupancy percentages, one field per
/// tracked facility area. A value of this type always carries all three
/// fields: a partially populated reading is represented as an error instead.
#[derive(Clone, Copy, Debug, PartialEq, Eq, Structural)]
pub struct Occupancy {
    pub thermalbad: u8,
    pub saunawelt: u8,
    pub parkhaus: u8,
}

/// The ways a structural extraction can fail. Extraction is all-or-nothing:
/// whichever of these comes back, no partial reading is produced.
#[derive(Debug)]
pub enum ExtractError {
    /// A tracked facility-area label was never seen on the page.
    OccupancyValueNotFound(String),
    /// An item block lacks the named child tag.
    TagNotFound(String),
    /// The named child tag is present but has no text node.
    TagHasNoText(String),
    /// The named tag's text (carried verbatim) is not of the expected form.
    TagHasUnexpectedText(String, String),
}

/// Mathematical image of an `ExtractError`, with each carried string as a
/// character sequence.
pub enum ExtractErrorView {
    OccupancyValueNotFound(Seq<char>),
    TagNotFound(Seq<char>),
    TagHasNoText(Seq<char>),
    TagHasUnexpectedText(Seq<char>, Seq<char>),
}

impl View for ExtractError {
    type V = ExtractErrorView;

    open spec fn view(&self) -> ExtractErrorView {
        match self {
            ExtractError::OccupancyValueNotFound(l) => ExtractErrorView::OccupancyValueNotFound(
                l@,
            ),
            ExtractError::TagNotFound(t) => ExtractErrorView::TagNotFound(t@),
            ExtractError::TagHasNoText(t) => ExtractErrorView::TagHasNoText(t@),
            ExtractError::TagHasUnexpectedText(t, raw) => ExtractErrorView::TagHasUnexpectedText(
                t@,
                raw@,
            ),
        }
    }
}

impl ExtractError {
    /// A short description of the failure, usable in a log line.
    pub fn message(&self) -> (r: String)
        ensures
            r@ == match self@ {
                ExtractErrorView::OccupancyValueNotFound(l) => "Could not find occupancy value '"@
                    + l + "'"@,
                ExtractErrorView::TagNotFound(t) => "Could not find tag '"@ + t + "'"@,
                ExtractErrorView::TagHasNoText(t) => "Tag '"@ + t + "' has no text"@,
                ExtractErrorView::TagHasUnexpectedText(t, raw) => "Tag '"@ + t
                    + "' has unexpected text '"@ + raw + "'"@,
            },
    {
        match self {
            ExtractError::OccupancyValueNotFound(l) => {
                let mut m = String::from_str("Could not find occupancy value '");
                m.append(l.as_str());
                m.append("'");
                m
            },
            ExtractError::TagNotFound(t) => {
                let mut m = String::from_str("Could not find tag '");
                m.append(t.as_str());
                m.append("'");
                m
            },
            ExtractError::TagHasNoText(t) => {
                let mut m = String::from_str("Tag '");
                m.append(t.as_str());
                m.append("' has no text");
                m
            },
            ExtractError::TagHasUnexpectedText(t, raw) => {
                let mut m = String::from_str("Tag '");
                m.append(t.as_str());
                m.append("' has unexpected text '");
                m.append(raw.as_str());
                m.append("'");
                m
            },
        }
    }
}

/// The image of a fallible extraction step: the reading on success, the
/// error's view on failure.
pub open spec fn view_result(r: Result<Occupancy, ExtractError>) -> Result<
    Occupancy,
    ExtractErrorView,
> {
    match r {
        Ok(o) => Ok(o),
        Err(e) => Err(e@),
    }
}

/// The transient label-to-value mapping built while scanning a page's item
/// blocks. Only the three tracked labels are retained; a value written under
/// any other label would never be read, so it is discarded at insertion.
/// Within a tracked label, the last write wins.
#[derive(Clone, Copy, Debug, PartialEq, Eq, Structural)]
pub struct RawExtractionMap {
    pub thermalbad: Option<u8>,
    pub saunawelt: Option<u8>,
    pub parkhaus: Option<u8>,
}

/// The map updated by one `label -> value` insertion: a tracked label
/// overwrites its slot, any other label leaves the map unchanged.
pub open spec fn spec_insert(m: RawExtractionMap, label: Seq<char>, value: u8) -> RawExtractionMap {
    if label == "Thermalbad"@ {
        RawExtractionMap { thermalbad: Some(value), ..m }
    } else if label == "Saunawelt"@ {
        RawExtractionMap { saunawelt: Some(value), ..m }
    } else if label == "Parkhaus"@ {
        RawExtractionMap { parkhaus: Some(value), ..m }
    } else {
        m
    }
}

/// The reading assembled from a finished map: all three tracked labels must
/// be present; otherwise the first missing one, in the fixed order
/// Thermalbad, Saunawelt, Parkhaus, is reported.
pub open spec fn spec_from_map(m: RawExtractionMap) -> Result<Occupancy, ExtractErrorView> {
    if m.thermalbad is None {
        Err(ExtractErrorView::OccupancyValueNotFound("Thermalbad"@))
    } else if m.saunawelt is None {
        Err(ExtractErrorView::OccupancyValueNotFound("Saunawelt"@))
    } else if m.parkhaus is None {
        Err(ExtractErrorView::OccupancyValueNotFound("Parkhaus"@))
    } else {
        Ok(
            Occupancy {
                thermalbad: m.thermalbad->Some_0,
                saunawelt: m.saunawelt->Some_0,
                parkhaus: m.parkhaus->Some_0,
            },
        )
    }
}

impl RawExtractionMap {
    /// A map with no label seen yet.
    pub fn new() -> (m: Self)
        ensures
            m == (RawExtractionMap { thermalbad: None, saunawelt: None, parkhaus: None }),
    {
        RawExtractionMap { thermalbad: None, saunawelt: None, parkhaus: None }
    }

    /// Records `label -> value`; an untracked label is discarded.
    pub fn insert(&mut self, label: &String, value: u8)
        ensures
            *final(self) == spec_insert(*old(self), label@, value),
    {
        if *label == String::from_str("Thermalbad") {
            self.thermalbad = Some(value);
        } else if *label == String::from_str("Saunawelt") {
            self.saunawelt = Some(value);
        } else if *label == String::from_str("Parkhaus") {
            self.parkhaus = Some(value);
        }
    }
}

impl Occupancy {
    /// Turns a finished label-to-value map into a reading; fails with
    /// `OccupancyValueNotFound` naming the first missing tracked label, in
    /// the fixed order Thermalbad, Saunawelt, Parkhaus.
    pub fn from_hashmap(map: &RawExtractionMap) -> (r: Result<Occupancy, ExtractError>)
        ensures
            view_result(r) == spec_from_map(*map),
    {
        let thermalbad = match map.thermalbad {
            Some(v) => v,
            None => {
                return Err(
                    ExtractError::OccupancyValueNotFound(String::from_str("Thermalbad")),
                );
            },
        };
        let saunawelt = match map.saunawelt {
            Some(v) => v,
            None => {
                return Err(ExtractError::OccupancyValueNotFound(String::from_str("Saunawelt")));
            },
        };
        let parkhaus = match map.parkhaus {
            Some(v) => v,
            None => {
                return Err(ExtractError::OccupancyValueNotFound(String::from_str("Parkhaus")));
            },
        };
        Ok(Occupancy { thermalbad, saunawelt, parkhaus })
    }
}

} // verus!
