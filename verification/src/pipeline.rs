//! The per-record logic of a per-CPU poller.
//!
//! Each poller owns one ring segment and hands every raw record it drains
//! to the decoder, then the filter engine, then the formatter, strictly in
//! that order and strictly per record. Within one segment the lines come
//! out in exactly the order the records went in; drops are counted, never
//! retried, and a corrupt record never stops the stream.

use vstd::prelude::*;
use crate::codec::{decode_event, decodes_to, spec_decodable, spec_decoded, lemma_decode_unique};
use crate::filter::{filter_keep, spec_keep, FilterConfig};
use crate::format::{format_event, spec_line};

verus! {

/// What became of one raw record.
#[derive(Debug, PartialEq, Eq)]
pub enum RecordOutcome {
    /// The record decoded, passed the filter, and formats to this line.
    Logged(Vec<u8>),
    /// The record decoded and the filter dropped it.
    Filtered,
    /// The record did not decode; it is counted and skipped.
    Malformed,
}

/// A raw record decodes and passes the filter.
pub open spec fn spec_kept(raw: Seq<u8>, cfg: FilterConfig) -> bool {
    spec_decodable(raw) && spec_keep(spec_decoded(raw), cfg)
}

/// The log line of a raw record that decodes.
pub open spec fn spec_record_line(raw: Seq<u8>) -> Seq<u8> {
    spec_line(spec_decoded(raw))
}

/// Decides one raw record: decode, filter, format.
pub fn process_record(raw: &[u8], cfg: &FilterConfig) -> (r: RecordOutcome)
    ensures
        r is Malformed <==> !spec_decodable(raw@),
        r is Filtered <==> spec_decodable(raw@) && !spec_keep(spec_decoded(raw@), *cfg),
        r is Logged <==> spec_kept(raw@, *cfg),
        r is Logged ==> (r->Logged_0)@ == spec_record_line(raw@),
{
    match decode_event(raw) {
        None => RecordOutcome::Malformed,
        Some(ev) => {
            proof {
                assert(decodes_to(raw@, ev));
                lemma_decode_unique(raw@, ev, spec_decoded(raw@));
            }
            if filter_keep(&ev, cfg) {
                RecordOutcome::Logged(format_event(&ev))
            } else {
                RecordOutcome::Filtered
            }
        },
    }
}

/// The views of a sequence of byte vectors.
pub open spec fn views_of(s: Seq<Vec<u8>>) -> Seq<Seq<u8>> {
    s.map_values(|v: Vec<u8>| v@)
}

/// The lines a batch of raw records produces, in the order the records
/// arrived: exactly the kept records' lines, nothing else.
pub open spec fn spec_batch_lines(raws: Seq<Seq<u8>>, cfg: FilterConfig) -> Seq<Seq<u8>>
    decreases raws.len(),
{
    if raws.len() == 0 {
        Seq::empty()
    } else {
        spec_batch_lines(raws.drop_last(), cfg) + if spec_kept(raws.last(), cfg) {
            seq![spec_record_line(raws.last())]
        } else {
            Seq::<Seq<u8>>::empty()
        }
    }
}

/// How many records of a batch decode but are dropped by the filter.
pub open spec fn spec_count_filtered(raws: Seq<Seq<u8>>, cfg: FilterConfig) -> nat
    decreases raws.len(),
{
    if raws.len() == 0 {
        0
    } else {
        spec_count_filtered(raws.drop_last(), cfg) + if spec_decodable(raws.last())
            && !spec_keep(spec_decoded(raws.last()), cfg) {
            1nat
        } else {
            0nat
        }
    }
}

/// How many records of a batch do not decode.
pub open spec fn spec_count_malformed(raws: Seq<Seq<u8>>) -> nat
    decreases raws.len(),
{
    if raws.len() == 0 {
        0
    } else {
        spec_count_malformed(raws.drop_last()) + if spec_decodable(raws.last()) {
            0nat
        } else {
            1nat
        }
    }
}

/// What draining one batch produced: the lines to commit, in order, and
/// the observable drop counts.
pub struct BatchResult {
    /// One formatted line per kept record, in arrival order.
    pub lines: Vec<Vec<u8>>,
    /// Records the filter dropped.
    pub filtered: usize,
    /// Records that did not decode.
    pub malformed: usize,
}

/// Drains one batch of raw records, strictly per record and in order:
/// the lines come out exactly in the order their records went in.
pub fn process_batch(records: &Vec<Vec<u8>>, cfg: &FilterConfig) -> (r: BatchResult)
    ensures
        views_of(r.lines@) == spec_batch_lines(views_of(records@), *cfg),
        r.filtered as nat == spec_count_filtered(views_of(records@), *cfg),
        r.malformed as nat == spec_count_malformed(views_of(records@)),
{
    let ghost rws = views_of(records@);
    let mut lines: Vec<Vec<u8>> = Vec::new();
    let mut filtered: usize = 0;
    let mut malformed: usize = 0;
    let mut i: usize = 0;
    proof {
        assert(rws.take(0) =~= Seq::<Seq<u8>>::empty());
        assert(views_of(lines@) =~= Seq::<Seq<u8>>::empty());
    }
    while i < records.len()
        invariant
            i <= records@.len(),
            rws == views_of(records@),
            rws.len() == records@.len(),
            views_of(lines@) == spec_batch_lines(rws.take(i as int), *cfg),
            filtered as nat == spec_count_filtered(rws.take(i as int), *cfg),
            malformed as nat == spec_count_malformed(rws.take(i as int)),
            filtered <= i,
            malformed <= i,
        decreases records@.len() - i,
    {
        proof {
            assert(rws.take(i + 1).drop_last() =~= rws.take(i as int));
            assert(rws.take(i + 1).last() == records@[i as int]@);
        }
        match process_record(records[i].as_slice(), cfg) {
            RecordOutcome::Logged(line) => {
                let ghost old_lines = lines@;
                lines.push(line);
                proof {
                    assert(views_of(lines@) =~= views_of(old_lines).push(line@));
                    assert(views_of(lines@) =~= spec_batch_lines(rws.take(i + 1), *cfg));
                }
            },
            RecordOutcome::Filtered => {
                filtered = filtered + 1;
            },
            RecordOutcome::Malformed => {
                malformed = malformed + 1;
            },
        }
        i = i + 1;
    }
    proof {
        assert(rws.take(records@.len() as int) =~= rws);
    }
    BatchResult { lines, filtered, malformed }
}

} // verus!
