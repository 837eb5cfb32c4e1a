//! The batch orchestrator: for each decoded source, run the per-rendition
//! pipeline over the whole catalog; a source that failed to decode is marked
//! and the rest of the batch is unaffected. Skipped rendition names are
//! collected in order for the ledger.

use vstd::prelude::*;
use crate::encoder::{adaptive_outcome_ok, encode_adaptive, EncodeError, EncodeOutcome};
use crate::naming::{rendition_name, rendition_name_spec};
use crate::profile::ResizeProfile;
use crate::raster::{lanczos3_rgba, Raster};

verus! {

/// The pixels of the rendition that profile `p` asks of a source raster.
pub open spec fn rendition_data(src: Raster, p: ResizeProfile) -> Seq<u8> {
    lanczos3_rgba(src.data@, src.width, src.height, p.width, p.height)
}

/// One (source, profile) pair's result: the rendition's deterministic name,
/// and how its encode ended.
#[derive(Debug)]
pub struct RenditionRecord {
    pub name: String,
    pub result: Result<EncodeOutcome, EncodeError>,
}

/// What the pipeline promises of one record: the name is the deterministic
/// output name for this source and profile, the encode came to a decision —
/// the error channel is for codec failure only, which a well-formed raster
/// cannot provoke — and that decision obeys the adaptive policy for the
/// resized pixels.
pub open spec fn rendition_record_ok(
    rec: RenditionRecord,
    src: Raster,
    base: Seq<char>,
    p: ResizeProfile,
    ceiling: u64,
) -> bool {
    &&& rec.name@ == rendition_name_spec(base, p.width, p.height, p.dpi)
    &&& match rec.result {
        Ok(o) => adaptive_outcome_ok(o, rendition_data(src, p), p.width, p.height, ceiling, rec.name@),
        Err(_) => false,
    }
}

/// Resize and adaptively encode one decoded source against every profile of
/// the catalog, in catalog order, one record per profile; no single rendition
/// blocks the rest of the catalog.
#[verifier::loop_isolation(false)]
pub fn process_raster(
    raster: &Raster,
    base: &str,
    profiles: &Vec<ResizeProfile>,
    ceiling: u64,
) -> (out: Vec<RenditionRecord>)
    requires
        raster.wf(),
        forall|i: int| 0 <= i < profiles@.len() ==> (#[trigger] profiles@[i]).wf(),
    ensures
        out@.len() == profiles@.len(),
        forall|i: int|
            0 <= i < out@.len() ==> rendition_record_ok(
                #[trigger] out@[i],
                *raster,
                base@,
                profiles@[i],
                ceiling,
            ),
{
    let mut out: Vec<RenditionRecord> = Vec::new();
    let mut i: usize = 0;
    while i < profiles.len()
        invariant
            i <= profiles@.len(),
            out@.len() == i,
            forall|j: int|
                0 <= j < i ==> rendition_record_ok(
                    #[trigger] out@[j],
                    *raster,
                    base@,
                    profiles@[j],
                    ceiling,
                ),
        decreases profiles@.len() - i,
    {
        let p = profiles[i];
        let resized = raster.resize(p.width, p.height);
        let name = rendition_name(base, p.width, p.height, p.dpi);
        let named = String::from_str(name.as_str());
        let result = encode_adaptive(&resized, name, ceiling);
        out.push(RenditionRecord { name: named, result });
        i = i + 1;
    }
    out
}

/// Everything the orchestrator did for one source file.
#[derive(Debug)]
pub struct FileReport {
    /// Whether the source decoded; a source that did not gets no renditions
    /// and the batch moves on.
    pub decoded: bool,
    /// One record per catalog profile, in catalog order; empty when the
    /// source did not decode.
    pub renditions: Vec<RenditionRecord>,
}

/// What the orchestrator promises of one source's report.
pub open spec fn file_report_ok(
    rep: FileReport,
    base: Seq<char>,
    src: Option<Raster>,
    profiles: Seq<ResizeProfile>,
    ceiling: u64,
) -> bool {
    match src {
        Some(raster) => {
            &&& rep.decoded
            &&& rep.renditions@.len() == profiles.len()
            &&& forall|j: int|
                0 <= j < profiles.len() ==> rendition_record_ok(
                    #[trigger] rep.renditions@[j],
                    raster,
                    base,
                    profiles[j],
                    ceiling,
                )
        },
        None => !rep.decoded && rep.renditions@.len() == 0,
    }
}

/// How many sources of the batch failed to decode.
pub open spec fn unreadable_count(sources: Seq<(String, Option<Raster>)>) -> nat
    decreases sources.len(),
{
    if sources.len() == 0 {
        0
    } else {
        unreadable_count(sources.drop_last()) + if sources.last().1 is None {
            1nat
        } else {
            0nat
        }
    }
}

/// Drive the whole batch over the decode outcome of every discovered source:
/// a decoded source gets the full catalog of renditions, an unreadable one is
/// marked as exactly one decode failure, and no source's outcome influences
/// any other's report.
#[verifier::loop_isolation(false)]
pub fn run_batch(
    sources: &Vec<(String, Option<Raster>)>,
    profiles: &Vec<ResizeProfile>,
    ceiling: u64,
) -> (reports: Vec<FileReport>)
    requires
        forall|i: int| 0 <= i < profiles@.len() ==> (#[trigger] profiles@[i]).wf(),
        forall|k: int|
            0 <= k < sources@.len() ==> ((#[trigger] sources@[k].1) matches Some(raster)
                ==> raster.wf()),
    ensures
        reports@.len() == sources@.len(),
        forall|k: int|
            0 <= k < sources@.len() ==> file_report_ok(
                #[trigger] reports@[k],
                sources@[k].0@,
                sources@[k].1,
                profiles@,
                ceiling,
            ),
{
    let mut reports: Vec<FileReport> = Vec::new();
    let mut i: usize = 0;
    while i < sources.len()
        invariant
            i <= sources@.len(),
            reports@.len() == i,
            forall|k: int|
                0 <= k < i ==> file_report_ok(
                    #[trigger] reports@[k],
                    sources@[k].0@,
                    sources@[k].1,
                    profiles@,
                    ceiling,
                ),
        decreases sources@.len() - i,
    {
        let entry = &sources[i];
        let rep = match &entry.1 {
            Some(raster) => {
                let renditions = process_raster(raster, entry.0.as_str(), profiles, ceiling);
                FileReport { decoded: true, renditions }
            },
            None => FileReport { decoded: false, renditions: Vec::new() },
        };
        reports.push(rep);
        i = i + 1;
    }
    reports
}

/// The ledger lines owed for a run of records: exactly one line, holding the
/// rendition's name, per skipped rendition, in order; accepted and failed
/// renditions contribute nothing.
pub open spec fn skipped_names(recs: Seq<RenditionRecord>) -> Seq<Seq<char>>
    decreases recs.len(),
{
    if recs.len() == 0 {
        Seq::<Seq<char>>::empty()
    } else {
        skipped_names(recs.drop_last()) + (match recs.last().result {
            Ok(EncodeOutcome::Skipped { name }) => seq![name@],
            _ => Seq::<Seq<char>>::empty(),
        })
    }
}

/// Gather the ledger lines for one source's records, in catalog order.
#[verifier::loop_isolation(false)]
pub fn collect_skips(recs: &Vec<RenditionRecord>) -> (lines: Vec<String>)
    ensures
        lines@.map_values(|s: String| s@) == skipped_names(recs@),
{
    let mut lines: Vec<String> = Vec::new();
    let mut i: usize = 0;
    while i < recs.len()
        invariant
            i <= recs@.len(),
            lines@.map_values(|s: String| s@) == skipped_names(recs@.subrange(0, i as int)),
        decreases recs@.len() - i,
    {
        match &recs[i].result {
            Ok(EncodeOutcome::Skipped { name }) => {
                lines.push(String::from_str(name.as_str()));
            },
            _ => {},
        }
        proof {
            assert(recs@.subrange(0, i + 1).drop_last() =~= recs@.subrange(0, i as int));
            assert(recs@.subrange(0, i + 1).last() == recs@[i as int]);
            assert(lines@.map_values(|s: String| s@) =~= skipped_names(
                recs@.subrange(0, i + 1),
            ));
        }
        i = i + 1;
    }
    proof {
        assert(recs@.subrange(0, recs@.len() as int) =~= recs@);
    }
    lines
}

/// How many reports of the batch mark a decode failure.
pub open spec fn failed_report_count(reports: Seq<FileReport>) -> nat
    decreases reports.len(),
{
    if reports.len() == 0 {
        0
    } else {
        failed_report_count(reports.drop_last()) + if reports.last().decoded {
            0nat
        } else {
            1nat
        }
    }
}

/// Count the decode failures that a batch reported.
#[verifier::loop_isolation(false)]
pub fn decode_failure_count(reports: &Vec<FileReport>) -> (n: usize)
    ensures
        n == failed_report_count(reports@),
{
    let mut n: usize = 0;
    let mut i: usize = 0;
    while i < reports.len()
        invariant
            i <= reports@.len(),
            n <= i,
            n == failed_report_count(reports@.subrange(0, i as int)),
        decreases reports@.len() - i,
    {
        if !reports[i].decoded {
            n = n + 1;
        }
        proof {
            assert(reports@.subrange(0, i + 1).drop_last() =~= reports@.subrange(0, i as int));
            assert(reports@.subrange(0, i + 1).last() == reports@[i as int]);
        }
        i = i + 1;
    }
    proof {
        assert(reports@.subrange(0, reports@.len() as int) =~= reports@);
    }
    n
}

/// Batch isolation, counted: a batch that meets the orchestrator's contract
/// reports exactly one decode failure per unreadable source, however the
/// readable sources around them came out.
pub proof fn lemma_decode_failures_counted(
    reports: Seq<FileReport>,
    sources: Seq<(String, Option<Raster>)>,
    profiles: Seq<ResizeProfile>,
    ceiling: u64,
)
    requires
        reports.len() == sources.len(),
        forall|k: int|
            0 <= k < sources.len() ==> file_report_ok(
                #[trigger] reports[k],
                sources[k].0@,
                sources[k].1,
                profiles,
                ceiling,
            ),
    ensures
        failed_report_count(reports) == unreadable_count(sources),
    decreases sources.len(),
{
    if sources.len() > 0 {
        assert(forall|k: int|
            0 <= k < sources.drop_last().len() ==> file_report_ok(
                #[trigger] reports.drop_last()[k],
                sources.drop_last()[k].0@,
                sources.drop_last()[k].1,
                profiles,
                ceiling,
            ));
        lemma_decode_failures_counted(reports.drop_last(), sources.drop_last(), profiles, ceiling);
        assert(file_report_ok(
            reports[sources.len() - 1],
            sources[sources.len() - 1].0@,
            sources[sources.len() - 1].1,
            profiles,
            ceiling,
        ));
    }
}

} // verus!
