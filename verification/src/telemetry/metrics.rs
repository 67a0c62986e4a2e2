//! The instruments of the HTTP server.

use vstd::prelude::*;

verus! {

/// How an instrument is described to the meter.
#[derive(Debug, Clone, Copy)]
pub struct Instrument {
    pub name: &'static str,
    pub unit: &'static str,
    pub description: &'static str,
}

/// The instruments shared by every request.
#[derive(Debug)]
pub struct HttpInstruments {
    /// Histogram of request durations.
    pub duration: Instrument,
    /// Boundaries of that histogram, in milliseconds.
    pub duration_boundaries: Vec<u32>,
    /// Up-down counter of active requests.
    pub active: Instrument,
}

/// Semantic-convention boundaries for `http.server.request.duration`, in
/// milliseconds.
pub open spec fn conventional_boundaries() -> Seq<u32> {
    seq![5, 10, 25, 50, 75, 100, 250, 500, 750, 1000, 2500, 5000, 7500, 10000]
}

/// Boundaries past those of the conventions, because streamed inference
/// responses routinely run for minutes.
pub open spec fn streaming_boundaries() -> Seq<u32> {
    seq![30000, 60000, 120000, 300000]
}

impl HttpInstruments {
    pub fn new() -> (instruments: Self)
        ensures
            instruments.duration.name@ == "http.server.request.duration"@,
            instruments.duration.unit@ == "s"@,
            instruments.duration.description@
                == "Duration of HTTP server requests, from receipt to the end of the response body."@,
            instruments.duration_boundaries@ == conventional_boundaries() + streaming_boundaries(),
            instruments.duration_boundaries@ == seq![
                5u32,
                10,
                25,
                50,
                75,
                100,
                250,
                500,
                750,
                1000,
                2500,
                5000,
                7500,
                10000,
                30000,
                60000,
                120000,
                300000,
            ],
            forall|i: int, j: int|
                0 <= i < j < instruments.duration_boundaries@.len()
                    ==> instruments.duration_boundaries@[i] < instruments.duration_boundaries@[j],
            instruments.active.name@ == "http.server.active_requests"@,
            instruments.active.unit@ == "{request}"@,
            instruments.active.description@ == "Number of HTTP requests currently being served."@,
    {
        let duration_boundaries: Vec<u32> = vec![
            5,
            10,
            25,
            50,
            75,
            100,
            250,
            500,
            750,
            1000,
            2500,
            5000,
            7500,
            10000,
            30000,
            60000,
            120000,
            300000,
        ];
        assert(duration_boundaries@ =~= conventional_boundaries() + streaming_boundaries());
        HttpInstruments {
            duration: Instrument {
                name: "http.server.request.duration",
                unit: "s",
                description: "Duration of HTTP server requests, from receipt to the end of the response body.",
            },
            duration_boundaries,
            active: Instrument {
                name: "http.server.active_requests",
                unit: "{request}",
                description: "Number of HTTP requests currently being served.",
            },
        }
    }
}

} // verus!
