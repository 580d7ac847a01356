//! The band allocations tab: the frequency allocations of the amateur bands
//! and the band chart that the tab draws.

use vstd::prelude::*;

verus! {

/// The set of band allocations a tab shows.
#[derive(Debug, Clone, Copy, PartialEq, Eq, Structural)]
pub enum BandAllocations {
    UnitedStates,
    OtherPlace,
}

/// One band: its name and the frequency range, both ends included.
#[derive(Debug, Clone, Copy)]
pub struct BandAllocation {
    /// The name of the band
    pub name: &'static str,
    /// The lowest frequency of the band, in Hz
    pub start: u64,
    /// The highest frequency of the band, in Hz
    pub end: u64,
}

impl BandAllocations {
    /// The bands of the allocation set. Only the United States set is
    /// defined.
    pub fn band_allocations_iter(&self) -> (v: Vec<BandAllocation>)
        requires
            *self == BandAllocations::UnitedStates,
        ensures
            v.len() == 3,
            v@[0].name@ == "20M"@ && v@[0].start == 14_000_000 && v@[0].end == 14_350_000,
            v@[1].name@ == "40M"@ && v@[1].start == 7_000_000 && v@[1].end == 7_300_000,
            v@[2].name@ == "80M"@ && v@[2].start == 3_500_000 && v@[2].end == 4_000_000,
    {
        let v = vec![
            BandAllocation { name: "20M", start: 14_000_000, end: 14_350_000 },
            BandAllocation { name: "40M", start: 7_000_000, end: 7_300_000 },
            BandAllocation { name: "80M", start: 3_500_000, end: 4_000_000 },
        ];
        v
    }
}

/// The frequency allocations chart tab
#[derive(Debug, Clone, Copy)]
pub struct BandAllocationsTab {
    /// The selected band allocations
    pub selected_band_allocations: BandAllocations,
}

impl Default for BandAllocationsTab {
    /// Shows the United States allocations.
    fn default() -> (t: BandAllocationsTab)
        ensures
            t.selected_band_allocations == BandAllocations::UnitedStates,
    {
        BandAllocationsTab { selected_band_allocations: BandAllocations::UnitedStates }
    }
}

impl BandAllocationsTab {
    /// The source of the tab's ID.
    pub fn id_source(&self) -> (r: &'static str)
        ensures
            r@ == "band_allocations_tab"@,
    {
        "band_allocations_tab"
    }

    /// The title of the tab.
    pub fn title(&self) -> (r: &'static str)
        ensures
            r@ == "Band Allocations"@,
    {
        "Band Allocations"
    }
}

/// An allocated part of a band, drawn in a colour (RGBA).
#[derive(Debug, Clone, Copy)]
pub struct BandChunk {
    /// The start frequency of the chunk
    pub start: u64,
    /// The end frequency of the chunk
    pub end: u64,
    /// The color of the chunk
    pub color: [u8; 4],
}

/// A frequency of interest in a band.
#[derive(Debug, Clone, Copy)]
pub struct BandMarker {
    /// The frequency of the marker
    pub freq: u64,
    /// The description of the marker
    pub text: &'static str,
}

/// A band as the chart draws it.
#[derive(Debug, Clone)]
pub struct Band {
    /// The name of the band
    pub name: &'static str,
    /// The start frequency of the band
    pub start: u64,
    /// The end frequency of the band
    pub end: u64,
    /// Allocated chunks of the band
    pub chunks: Vec<BandChunk>,
    /// The markers for the band
    pub markers: Vec<BandMarker>,
}

/// The 20 m band that the tab charts: 14.000–14.350 MHz, with two chunks
/// (red from 14.025 to 14.150 MHz, green from 14.225 to 14.350 MHz) and the
/// FT8 and digital calling frequencies.
pub fn twenty_meter_band() -> (b: Band)
    ensures
        b.name@ == "20M"@,
        b.start == 14_000_000,
        b.end == 14_350_000,
        b.chunks@ == seq![
            BandChunk { start: 14_025_000, end: 14_150_000, color: [255u8, 0u8, 0u8, 255u8] },
            BandChunk { start: 14_225_000, end: 14_350_000, color: [0u8, 255u8, 0u8, 255u8] },
        ],
        b.markers.len() == 2,
        b.markers@[0].freq == 14_074_000 && b.markers@[0].text@ == "FT8"@,
        b.markers@[1].freq == 14_070_000 && b.markers@[1].text@ == "Digital"@,
{
    let chunks = vec![
        BandChunk { start: 14_025_000, end: 14_150_000, color: [255, 0, 0, 255] },
        BandChunk { start: 14_225_000, end: 14_350_000, color: [0, 255, 0, 255] },
    ];
    let markers = vec![
        BandMarker { freq: 14_074_000, text: "FT8" },
        BandMarker { freq: 14_070_000, text: "Digital" },
    ];
    let b = Band { name: "20M", start: 14_000_000, end: 14_350_000, chunks, markers };
    assert(b.chunks@ =~= seq![
        BandChunk { start: 14_025_000, end: 14_150_000, color: [255u8, 0u8, 0u8, 255u8] },
        BandChunk { start: 14_225_000, end: 14_350_000, color: [0u8, 255u8, 0u8, 255u8] },
    ]);
    b
}

/// Which edges of `chunk` the chart labels with their frequency: the start
/// unless it is the band's start, the end unless it is the band's end.
pub fn chunk_label_edges(band_start: u64, band_end: u64, chunk: &BandChunk) -> (r: (bool, bool))
    ensures
        r == (chunk.start != band_start, chunk.end != band_end),
{
    (chunk.start != band_start, chunk.end != band_end)
}

} // verus!
