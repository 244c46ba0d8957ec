use std::collections::HashMap;
use vstd::prelude::*;
use vstd::seq_lib::*;
use vstd::std_specs::hash::*;
use vstd::std_specs::iter::IteratorSpec;
use crate::media::source::{is_fresh_id, optional_view, Playlist, PlaylistView};
use crate::utils::text::texts;

verus! {

/// What happens when the current track ends or the last entry is passed.
#[derive(Clone, Copy, Debug, PartialEq, Eq, Structural)]
pub enum RepeatState {
    /// Playback ends with the list.
    Off,
    /// After the last entry the list starts over.
    All,
    /// The current track is played again.
    One,
}

/// The longest elapsed time, in milliseconds, at which skipping backward
/// still goes to the previous entry instead of restarting the current one.
pub const RESTART_THRESHOLD: u64 = 3000;

/// The state that follows `state` in the cycle off, all, one, off.
pub open spec fn next_repeat(state: RepeatState) -> RepeatState {
    match state {
        RepeatState::Off => RepeatState::All,
        RepeatState::All => RepeatState::One,
        RepeatState::One => RepeatState::Off,
    }
}

/// The sources of a navigation list, none where there is no list.
pub open spec fn sources_of(list: Option<PlaylistView>) -> Seq<Seq<char>> {
    match list {
        Some(playlist) => playlist.sources,
        None => Seq::empty(),
    }
}

/// The source that skipping forward moves to and plays, or `None` where
/// playback stays stopped: on an empty list, and at the last entry unless
/// the list repeats. The current source is found by its first occurrence; a
/// source that the list does not hold is played again as it is.
pub open spec fn forward_target(list: Seq<Seq<char>>, now_playing: Seq<char>, repeat: RepeatState) -> Option<Seq<char>> {
    if list.len() == 0 {
        None
    } else if list.last() == now_playing {
        if repeat == RepeatState::All {
            Some(list[0])
        } else {
            None
        }
    } else {
        match list.index_of_first(now_playing) {
            Some(at) => Some(list[at + 1]),
            None => Some(now_playing),
        }
    }
}

/// The source that skipping backward leaves selected: the entry before the
/// first occurrence of the current one, where there is one and no more than
/// `RESTART_THRESHOLD` milliseconds have elapsed; else the current source.
pub open spec fn backward_target(list: Seq<Seq<char>>, now_playing: Seq<char>, elapsed: nat) -> Seq<char> {
    match list.index_of_first(now_playing) {
        Some(at) => if at > 0 && elapsed <= RESTART_THRESHOLD {
            list[at - 1]
        } else {
            now_playing
        },
        None => now_playing,
    }
}

/// Whether `list` is what turning shuffle on makes of `before`: a new,
/// unnamed playlist under a fresh identifier that holds each source of
/// `before` as often as `before` does.
pub open spec fn is_shuffle_of(list: PlaylistView, before: Option<PlaylistView>) -> bool {
    &&& list.name == Seq::<char>::empty()
    &&& is_fresh_id(list.id)
    &&& list.sources.to_multiset() == sources_of(before).to_multiset()
}

/// The state after one press of the repeat toggle.
pub fn cycle_repeat(state: RepeatState) -> (next: RepeatState)
    ensures
        next == next_repeat(state),
{
    match state {
        RepeatState::Off => RepeatState::All,
        RepeatState::All => RepeatState::One,
        RepeatState::One => RepeatState::Off,
    }
}

/// The position of the first occurrence of `source` among `sources`.
pub fn position(sources: &Vec<String>, source: &String) -> (found: Option<usize>)
    ensures
        match found {
            Some(at) => texts(sources@).index_of_first(source@) == Some(at as int),
            None => texts(sources@).index_of_first(source@) is None,
        },
{
    let mut index: usize = 0;
    while index < sources.len()
        invariant
            index <= sources.len(),
            forall|j: int| 0 <= j < index ==> texts(sources@)[j] != source@,
        decreases sources.len() - index,
    {
        if sources[index] == *source {
            proof {
                assert(texts(sources@)[index as int] == source@);
                texts(sources@).index_of_first_ensures(source@);
            }
            return Some(index);
        }
        index += 1;
    }
    proof {
        assert(!texts(sources@).contains(source@));
        texts(sources@).index_of_first_ensures(source@);
    }
    None
}

/// Where skipping forward from `now_playing` leads on `playlist`.
pub fn skip_forward_target(playlist: &Playlist, now_playing: &String, repeat: RepeatState) -> (target: Option<String>)
    ensures
        target is Some <==> forward_target(playlist@.sources, now_playing@, repeat) is Some,
        target is Some ==> target->0@ == forward_target(playlist@.sources, now_playing@, repeat)->0,
{
    let sources = match playlist.get_sources() {
        Some(sources) => sources,
        None => Vec::new(),
    };
    let count = sources.len();
    if count == 0 {
        return None;
    }
    assert(texts(sources@).last() == sources[count - 1]@);
    if sources[count - 1] == *now_playing {
        match repeat {
            RepeatState::All => {
                assert(texts(sources@)[0] == sources[0]@);
                Some(sources[0].clone())
            },
            _ => None,
        }
    } else {
        proof {
            texts(sources@).index_of_first_ensures(now_playing@);
        }
        match position(&sources, now_playing) {
            Some(at) => {
                assert(texts(sources@)[at + 1] == sources[at + 1]@);
                Some(sources[at + 1].clone())
            },
            None => Some(now_playing.clone()),
        }
    }
}

/// Where skipping backward from `now_playing` leads on `playlist`, after
/// `elapsed` milliseconds of the current track.
pub fn skip_backward_target(playlist: &Playlist, now_playing: &String, elapsed: u64) -> (target: String)
    ensures
        target@ == backward_target(playlist@.sources, now_playing@, elapsed as nat),
{
    let sources = match playlist.get_sources() {
        Some(sources) => sources,
        None => Vec::new(),
    };
    proof {
        texts(sources@).index_of_first_ensures(now_playing@);
    }
    match position(&sources, now_playing) {
        Some(at) => {
            if at > 0 && elapsed <= RESTART_THRESHOLD {
                assert(texts(sources@)[at - 1] == sources[at - 1]@);
                sources[at - 1].clone()
            } else {
                now_playing.clone()
            }
        },
        None => now_playing.clone(),
    }
}


/// The set of the first `n` indices has `n` elements.
proof fn lemma_prefix_set_len(n: nat)
    requires
        n <= usize::MAX + 1,
    ensures
        Set::new(|k: usize| k < n).finite(),
        Set::new(|k: usize| k < n).len() == n,
    decreases n,
{
    let s = Set::new(|k: usize| k < n);
    if n == 0 {
        assert(s =~= Set::<usize>::empty());
    } else {
        lemma_prefix_set_len((n - 1) as nat);
        let t = Set::new(|k: usize| k < (n - 1) as nat);
        assert(s =~= t.insert((n - 1) as usize));
    }
}

/// Reading `src` at the positions `picks`, where `picks` names every
/// position exactly once, gives the items of `src` in another order.
proof fn lemma_picks_permute<A>(picks: Seq<int>, src: Seq<A>, out: Seq<A>)
    requires
        picks.len() == src.len(),
        out.len() == src.len(),
        picks.no_duplicates(),
        forall|i: int| 0 <= i < picks.len() ==> 0 <= #[trigger] picks[i] < src.len(),
        forall|k: int| 0 <= k < src.len() ==> picks.contains(k),
        forall|i: int| 0 <= i < out.len() ==> #[trigger] out[i] == src[picks[i]],
    ensures
        out.to_multiset() == src.to_multiset(),
    decreases src.len(),
{
    if src.len() == 0 {
        assert(out =~= src);
    } else {
        let last = src.len() - 1;
        assert(picks.contains(last));
        let at = choose|i: int| 0 <= i < picks.len() && picks[i] == last;
        let picks1 = picks.remove(at);
        let out1 = out.remove(at);
        let src1 = src.drop_last();
        assert forall|k: int| 0 <= k < src1.len() implies picks1.contains(k) by {
            assert(picks.contains(k));
            let j = choose|j: int| 0 <= j < picks.len() && picks[j] == k;
            if j < at {
                assert(picks1[j] == k);
            } else {
                assert(picks1[j - 1] == k);
            }
        }
        lemma_picks_permute(picks1, src1, out1);
        assert(out =~= out1.insert(at, out[at]));
        to_multiset_insert(out1, at, out[at]);
        assert(src =~= src1.push(src[last]));
        to_multiset_build(src1, src[last]);
    }
}

/// The sources of `sources` in the order in which a hash map keyed by their
/// positions hands them out: each source as often as before, in an order
/// that nothing here fixes.
fn reordered(sources: &Vec<String>) -> (out: Vec<String>)
    ensures
        texts(out@).to_multiset() == texts(sources@).to_multiset(),
{
    broadcast use group_hash_axioms;
    let mut slots: HashMap<usize, String> = HashMap::new();
    let mut index: usize = 0;
    while index < sources.len()
        invariant
            index <= sources.len(),
            forall|k: usize| slots@.contains_key(k) <==> k < index,
            forall|k: usize| k < index ==> slots@[k]@ == #[trigger] sources[k as int]@,
        decreases sources.len() - index,
    {
        slots.insert(index, sources[index].clone());
        index += 1;
    }
    proof {
        lemma_prefix_set_len(index as nat);
        assert(slots@.dom() =~= Set::new(|k: usize| k < index as nat));
    }
    let mut out: Vec<String> = Vec::new();
    for pair in it: slots.iter()
        invariant
            out.len() == it.index(),
            it.seq() == spec_hash_map_iter(&slots).remaining(),
            it.seq().no_duplicates(),
            forall|j: int| 0 <= j < out.len() ==> out[j]@ == (*it.seq()[j].1)@,
    {
        out.push(pair.1.clone());
    }
    proof {
        let pairs = spec_hash_map_iter(&slots).remaining();
        let picks = Seq::new(pairs.len(), |i: int| *pairs[i].0 as int);
        assert forall|i: int, j: int| 0 <= i < picks.len() && 0 <= j < picks.len() && i != j implies picks[i] != picks[j] by {
            assert(slots@[*pairs[i].0] == *pairs[i].1);
            assert(slots@[*pairs[j].0] == *pairs[j].1);
            if picks[i] == picks[j] {
                assert(pairs[i] == pairs[j]);
            }
        }
        assert forall|i: int| 0 <= i < picks.len() implies 0 <= #[trigger] picks[i] < sources.len() by {
            assert(slots@.contains_key(*pairs[i].0));
        }
        assert forall|k: int| 0 <= k < sources.len() implies picks.contains(k) by {
            let key = k as usize;
            assert(slots@.contains_key(key));
            assert(pairs.contains((&key, &slots@[key])));
            let i = choose|i: int| 0 <= i < pairs.len() && pairs[i] == (&key, &slots@[key]);
            assert(picks[i] == k);
        }
        assert forall|i: int| 0 <= i < out.len() implies #[trigger] texts(out@)[i] == texts(sources@)[picks[i]] by {
            assert(slots@.contains_key(*pairs[i].0));
            assert(slots@[*pairs[i].0] == *pairs[i].1);
        }
        lemma_picks_permute(picks, texts(sources@), texts(out@));
    }
    out
}


/// The playlist that turning shuffle on puts in the place of `list`.
pub fn shuffled(list: &Option<Playlist>) -> (playlist: Playlist)
    ensures
        is_shuffle_of(playlist@, optional_view(*list)),
{
    let mut playlist = Playlist::new(String::new());
    let sources = match list {
        Some(current) => match current.get_sources() {
            Some(sources) => sources,
            None => Vec::new(),
        },
        None => Vec::new(),
    };
    assert(texts(sources@) =~= sources_of(optional_view(*list)));
    let order = reordered(&sources);
    let mut index: usize = 0;
    assert(texts(order@).take(0) =~= Seq::<Seq<char>>::empty());
    while index < order.len()
        invariant
            index <= order.len(),
            playlist@.sources == texts(order@).take(index as int),
            playlist@.name == Seq::<char>::empty(),
            is_fresh_id(playlist@.id),
        decreases order.len() - index,
    {
        playlist.add_source(Some(order[index].clone()));
        assert(texts(order@).take(index + 1) =~= texts(order@).take(index as int).push(order[index as int]@));
        index += 1;
    }
    assert(texts(order@).take(index as int) =~= texts(order@));
    playlist
}

} // verus!
