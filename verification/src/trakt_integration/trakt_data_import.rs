//! The messages exchanged with the worker that imports the shows of a Trakt
//! account.

use vstd::prelude::*;

use crate::trakt_integration::TraktShow;

verus! {

/// A series read from a Trakt account, in the form the database keeps it:
/// its name and id, the episodes watched, and whether it is tracked.
#[derive(Debug, Clone)]
pub struct ImportedSeries {
    pub name: String,
    pub id: u32,
    /// The watched episodes, as `(season number, episode number)`.
    pub watched_episodes: Vec<(u32, u32)>,
    pub is_tracked: bool,
}

/// The series unchanged but marked as tracked.
pub open spec fn marked_tracked(series: ImportedSeries) -> ImportedSeries {
    ImportedSeries { is_tracked: true, ..series }
}

impl ImportedSeries {
    pub fn mark_tracked(&mut self)
        ensures
            *final(self) == marked_tracked(*old(self)),
    {
        self.is_tracked = true;
    }
}

/// Each imported series under its id, marked as tracked.
pub open spec fn all_marked_tracked(imports: Seq<(u32, ImportedSeries)>) -> Seq<(u32, ImportedSeries)> {
    imports.map_values(|entry: (u32, ImportedSeries)| (entry.0, marked_tracked(entry.1)))
}

/// Marks every imported series as tracked, keeping the ids and the order.
pub fn mark_all_tracked(imports: &mut Vec<(u32, ImportedSeries)>)
    ensures
        final(imports)@ == all_marked_tracked(old(imports)@),
{
    let n = imports.len();
    let mut i: usize = 0;
    while i < n
        invariant
            i <= n,
            n == old(imports)@.len(),
            imports@.len() == n,
            forall|j: int| 0 <= j < i ==> #[trigger] imports@[j] == (old(imports)@[j].0, marked_tracked(old(imports)@[j].1)),
            forall|j: int| i <= j < n ==> #[trigger] imports@[j] == old(imports)@[j],
        decreases n - i,
    {
        imports[i].1.mark_tracked();
        i = i + 1;
    }
    proof {
        assert(imports@ =~= all_marked_tracked(old(imports)@));
    }
}

/// What the import worker reports.
#[derive(Debug)]
pub enum Event {
    /// The worker is ready to take an import request.
    Ready,
    /// The import is over: each imported series under its id, and the shows
    /// that could not be imported; or the error that stopped it.
    WorkFinished(Result<(Vec<(u32, ImportedSeries)>, Vec<TraktShow>), String>),
    /// `(total number of imports, number of the current import)`.
    Progressing(usize, usize),
}

/// What is sent to the import worker: the client id and the slug of the user.
#[derive(Debug, Clone)]
pub struct Input {
    pub client_id: String,
    pub slug: String,
}

impl Input {
    pub fn new(client_id: String, slug: String) -> (i: Self)
        ensures
            i.client_id == client_id,
            i.slug == slug,
    {
        Self { client_id, slug }
    }
}

} // verus!
