use vstd::prelude::*;

verus! {

/// One row of the diary export.
pub struct InputRecord {
    pub title: String,
    pub year: String,
    pub watched_date: String,
}

/// One result of a title and year search.
pub struct SearchCandidate {
    pub external_id: u64,
    pub title: String,
    pub release_date: String,
}

/// Full metadata of one movie, fetched after a unique match.
pub struct MovieDetails {
    pub external_id: u64,
    pub title: String,
    pub release_date: String,
    pub runtime_minutes: u64,
}

/// An enriched diary row.
pub struct OutputRecord {
    pub external_id: u64,
    pub title: String,
    pub release_date: String,
    pub runtime_minutes: u64,
    pub watched_date: String,
}

/// The row built from the details of a match and the entry it was found for.
pub open spec fn merged(d: MovieDetails, r: InputRecord) -> OutputRecord {
    OutputRecord {
        external_id: d.external_id,
        title: d.title,
        release_date: d.release_date,
        runtime_minutes: d.runtime_minutes,
        watched_date: r.watched_date,
    }
}

/// Merges fetched details with the watched date of the diary entry.
pub fn merge(details: MovieDetails, record: &InputRecord) -> (out: OutputRecord)
    ensures
        out == merged(details, *record),
{
    OutputRecord {
        external_id: details.external_id,
        title: details.title,
        release_date: details.release_date,
        runtime_minutes: details.runtime_minutes,
        watched_date: record.watched_date.clone(),
    }
}

} // verus!
