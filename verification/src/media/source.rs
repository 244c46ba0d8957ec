use vstd::prelude::*;
use rand::{rng, Rng};
use rand_distr::Alphanumeric;
use crate::utils::text::{clone_strings, texts};

verus! {

/// The number of characters in a freshly drawn playlist identifier.
pub const ID_LEN: usize = 16;

/// An ordered list of sources with a stable identifier and a display name.
/// A source may occur more than once; the order of insertion is the order
/// of playback.
#[derive(Debug)]
pub struct Playlist {
    sources: Vec<String>,
    id: String,
    name: String,
}

/// What a playlist holds, as mathematical values.
pub struct PlaylistView {
    pub sources: Seq<Seq<char>>,
    pub id: Seq<char>,
    pub name: Seq<char>,
}

impl View for Playlist {
    type V = PlaylistView;

    closed spec fn view(&self) -> PlaylistView {
        PlaylistView { sources: texts(self.sources@), id: self.id@, name: self.name@ }
    }
}

/// What an optional playlist holds, where there is one.
pub open spec fn optional_view(list: Option<Playlist>) -> Option<PlaylistView> {
    match list {
        Some(playlist) => Some(playlist@),
        None => None,
    }
}

/// Whether `b` is an ASCII letter or digit.
pub open spec fn is_alphanumeric(b: u8) -> bool {
    ||| 0x30 <= b <= 0x39
    ||| 0x41 <= b <= 0x5a
    ||| 0x61 <= b <= 0x7a
}

/// Whether `id` has the shape of a freshly drawn identifier: sixteen
/// characters, each an ASCII letter or digit.
pub open spec fn is_fresh_id(id: Seq<char>) -> bool {
    &&& id.len() == ID_LEN
    &&& forall|i: int| 0 <= i < id.len() ==> (#[trigger] id[i]) as u32 <= 0x7f && is_alphanumeric(id[i] as u8)
}

/// Calls `Rng::sample` on `rand::rng()`, the thread-local generator, with
/// the distribution `Alphanumeric`, which picks one byte among `a-z`, `A-Z`
/// and `0-9`. Nothing is claimed about which of them comes back.
#[verifier::external_body]
fn sample_alphanumeric() -> (b: u8)
    ensures
        is_alphanumeric(b),
{
    rng().sample(Alphanumeric)
}

impl Clone for Playlist {
    fn clone(&self) -> (copy: Self)
        ensures
            copy@ == self@,
    {
        Playlist {
            sources: clone_strings(&self.sources),
            id: self.id.clone(),
            name: self.name.clone(),
        }
    }
}

impl Playlist {
    /// The identifier.
    pub fn get_id(&self) -> (id: Option<String>)
        ensures
            id is Some,
            id->0@ == self@.id,
    {
        Some(self.id.clone())
    }

    /// The display name.
    pub fn get_name(&self) -> (name: Option<String>)
        ensures
            name is Some,
            name->0@ == self@.name,
    {
        Some(self.name.clone())
    }

    /// The source at `index`, or `None` past the end.
    pub fn get_source(&self, index: usize) -> (source: Option<String>)
        ensures
            index < self@.sources.len() ==> source is Some && source->0@ == self@.sources[index as int],
            index >= self@.sources.len() ==> source is None,
    {
        if index < self.sources.len() {
            Some(self.sources[index].clone())
        } else {
            None
        }
    }

    /// All sources, in playback order.
    pub fn get_sources(&self) -> (sources: Option<Vec<String>>)
        ensures
            sources is Some,
            texts(sources->0@) == self@.sources,
    {
        Some(clone_strings(&self.sources))
    }

    /// The number of sources.
    pub fn len(&self) -> (n: usize)
        ensures
            n == self@.sources.len(),
    {
        self.sources.len()
    }

    /// Appends `source` to the end of the list.
    pub fn add_source(&mut self, source: Option<String>)
        requires
            source is Some,
        ensures
            final(self)@.sources == old(self)@.sources.push(source->0@),
            final(self)@.id == old(self)@.id,
            final(self)@.name == old(self)@.name,
    {
        if let Some(entry) = source {
            self.sources.push(entry);
            assert(texts(self.sources@) =~= texts(old(self).sources@).push(entry@));
        }
    }

    /// Whether the list holds no source.
    pub fn is_empty(&self) -> (empty: bool)
        ensures
            empty == (self@.sources.len() == 0),
    {
        self.sources.is_empty()
    }

    /// An empty playlist called `name`, under a freshly drawn identifier.
    pub fn new(name: String) -> (playlist: Self)
        ensures
            playlist@.sources == Seq::<Seq<char>>::empty(),
            playlist@.name == name@,
            is_fresh_id(playlist@.id),
    {
        let mut id = String::new();
        let mut drawn: usize = 0;
        while drawn < ID_LEN
            invariant
                drawn <= ID_LEN,
                id@.len() == drawn,
                forall|i: int| 0 <= i < id@.len() ==> (#[trigger] id@[i]) as u32 <= 0x7f && is_alphanumeric(id@[i] as u8),
            decreases ID_LEN - drawn,
        {
            let byte = sample_alphanumeric();
            id.push(byte as char);
            drawn += 1;
        }
        let playlist = Playlist { sources: Vec::new(), id, name };
        assert(texts(playlist.sources@) =~= Seq::<Seq<char>>::empty());
        playlist
    }

    /// Removes every occurrence of `source`, keeping the others in order.
    pub fn remove_source(&mut self, source: String)
        ensures
            final(self)@.sources == old(self)@.sources.filter(|s: Seq<char>| s != source@),
            final(self)@.id == old(self)@.id,
            final(self)@.name == old(self)@.name,
    {
        let ghost keep = |s: Seq<char>| s != source@;
        let ghost before = texts(self.sources@);
        let mut kept: Vec<String> = Vec::new();
        let mut index: usize = 0;
        proof {
            assert(before.take(0) =~= Seq::<Seq<char>>::empty());
            reveal(Seq::filter);
        }
        while index < self.sources.len()
            invariant
                index <= self.sources.len(),
                before == texts(self.sources@),
                keep == |s: Seq<char>| s != source@,
                texts(kept@) == before.take(index as int).filter(keep),
            decreases self.sources.len() - index,
        {
            proof {
                assert(before.take(index + 1) =~= before.take(index as int).push(before[index as int]));
                before.take(index as int).lemma_filter_push(before[index as int], keep);
            }
            if self.sources[index] != source {
                let ghost earlier = kept@;
                kept.push(self.sources[index].clone());
                assert(texts(kept@) =~= texts(earlier).push(before[index as int]));
            }
            index += 1;
        }
        assert(before.take(index as int) =~= before);
        self.sources = kept;
    }

    /// Replaces the identifier.
    pub fn set_id(&mut self, id: String)
        ensures
            final(self)@.id == id@,
            final(self)@.sources == old(self)@.sources,
            final(self)@.name == old(self)@.name,
    {
        self.id = id;
    }

    /// Replaces the display name.
    pub fn set_name(&mut self, name: String)
        ensures
            final(self)@.name == name@,
            final(self)@.sources == old(self)@.sources,
            final(self)@.id == old(self)@.id,
    {
        self.name = name;
    }
}

} // verus!
