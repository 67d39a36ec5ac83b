//! The plain request and queue shapes the HTTP layer exchanges with its
//! clients; the layer itself, and the shared state it guards, live outside
//! the library.

use vstd::prelude::*;

verus! {

/// One queued song request from a party guest.
#[derive(Clone, Debug)]
pub struct QueueEntry {
    pub id: u64,
    pub song_id: String,
    pub song_title: String,
    pub song_artist: String,
    pub submitter: String,
}

/// The body of a request to queue a song.
#[derive(Clone, Debug)]
pub struct AddToQueueRequest {
    pub song_id: String,
    pub submitter: String,
}

/// The query string of a song search.
#[derive(Clone, Debug)]
pub struct SearchQuery {
    pub q: String,
}

/// The first queue position holding the entry id, or the queue's length.
pub open spec fn spec_find_entry(q: Seq<QueueEntry>, entry_id: u64) -> int
    decreases q.len(),
{
    if q.len() == 0 {
        0
    } else if q[0].id == entry_id {
        0
    } else {
        1 + spec_find_entry(q.drop_first(), entry_id)
    }
}

/// The first queue position whose entry requests the song, or the queue's
/// length.
pub open spec fn spec_find_song_entry(q: Seq<QueueEntry>, song_id: Seq<char>) -> int
    decreases q.len(),
{
    if q.len() == 0 {
        0
    } else if q[0].song_id@ == song_id {
        0
    } else {
        1 + spec_find_song_entry(q.drop_first(), song_id)
    }
}

proof fn lemma_find_entry(q: Seq<QueueEntry>, entry_id: u64)
    ensures
        0 <= spec_find_entry(q, entry_id) <= q.len(),
        spec_find_entry(q, entry_id) < q.len() ==> q[spec_find_entry(q, entry_id)].id == entry_id,
        forall|i: int| 0 <= i < spec_find_entry(q, entry_id) ==> q[i].id != entry_id,
    decreases q.len(),
{
    if q.len() > 0 && q[0].id != entry_id {
        lemma_find_entry(q.drop_first(), entry_id);
        assert forall|i: int| 0 <= i < spec_find_entry(q, entry_id) implies q[i].id != entry_id by {
            if i > 0 {
                assert(q.drop_first()[i - 1] == q[i]);
            }
        }
    }
}

proof fn lemma_find_song_entry(q: Seq<QueueEntry>, song_id: Seq<char>)
    ensures
        0 <= spec_find_song_entry(q, song_id) <= q.len(),
        spec_find_song_entry(q, song_id) < q.len() ==> q[spec_find_song_entry(q, song_id)].song_id@
            == song_id,
        forall|i: int| 0 <= i < spec_find_song_entry(q, song_id) ==> q[i].song_id@ != song_id,
    decreases q.len(),
{
    if q.len() > 0 && q[0].song_id@ != song_id {
        lemma_find_song_entry(q.drop_first(), song_id);
        assert forall|i: int|
            0 <= i < spec_find_song_entry(q, song_id) implies q[i].song_id@ != song_id by {
            if i > 0 {
                assert(q.drop_first()[i - 1] == q[i]);
            }
        }
    }
}

/// Remove the first queue entry with the given id; whether one was there
/// is the answer, and nothing else moves.
pub fn remove_entry_by_id(queue: &mut Vec<QueueEntry>, entry_id: u64) -> (r: bool)
    ensures
        ({
            let i = spec_find_entry(old(queue)@, entry_id);
            if i < old(queue)@.len() {
                r && final(queue)@ == old(queue)@.remove(i)
            } else {
                !r && final(queue)@ == old(queue)@
            }
        }),
{
    proof {
        lemma_find_entry(queue@, entry_id);
    }
    let mut i: usize = 0;
    while i < queue.len()
        invariant
            i <= queue@.len(),
            forall|j: int| 0 <= j < i ==> queue@[j].id != entry_id,
            queue@ == old(queue)@,
        decreases queue.len() - i,
    {
        if queue[i].id == entry_id {
            proof {
                assert(spec_find_entry(queue@, entry_id) == i) by {
                    lemma_find_entry(queue@, entry_id);
                }
            }
            queue.remove(i);
            return true;
        }
        i += 1;
    }
    false
}

/// Remove the first queue entry requesting the given song, as when that
/// song is played.
pub fn remove_entry_by_song(queue: &mut Vec<QueueEntry>, song_id: &str) -> (r: bool)
    ensures
        ({
            let i = spec_find_song_entry(old(queue)@, song_id@);
            if i < old(queue)@.len() {
                r && final(queue)@ == old(queue)@.remove(i)
            } else {
                !r && final(queue)@ == old(queue)@
            }
        }),
{
    proof {
        lemma_find_song_entry(queue@, song_id@);
    }
    let target = crate::text::to_chars(song_id);
    let mut i: usize = 0;
    while i < queue.len()
        invariant
            i <= queue@.len(),
            target@ == song_id@,
            forall|j: int| 0 <= j < i ==> queue@[j].song_id@ != song_id@,
            queue@ == old(queue)@,
        decreases queue.len() - i,
    {
        let entry_song = crate::text::to_chars(queue[i].song_id.as_str());
        let matches_it = crate::text::eq_str(&entry_song, song_id);
        if matches_it {
            proof {
                assert(spec_find_song_entry(queue@, song_id@) == i) by {
                    lemma_find_song_entry(queue@, song_id@);
                }
            }
            queue.remove(i);
            return true;
        }
        i += 1;
    }
    false
}

} // verus!
