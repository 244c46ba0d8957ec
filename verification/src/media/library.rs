use vstd::prelude::*;
use crate::media::source::{is_fresh_id, optional_view, Playlist, PlaylistView};

verus! {

/// What each playlist of `playlists` holds, in order.
pub open spec fn views_of(playlists: Seq<Playlist>) -> Seq<PlaylistView> {
    Seq::new(playlists.len(), |i: int| playlists[i]@)
}

/// The identifier of each playlist of `playlists`, in order.
pub open spec fn ids_of(playlists: Seq<PlaylistView>) -> Seq<Seq<char>> {
    Seq::new(playlists.len(), |i: int| playlists[i].id)
}

/// The collection after `playlist` was saved into it: every entry under
/// the identifier of `playlist` is replaced by it, the others stay. Saving
/// nothing leaves no entry behind.
pub open spec fn after_save(playlists: Seq<PlaylistView>, playlist: Option<PlaylistView>) -> Seq<PlaylistView> {
    match playlist {
        Some(edited) => Seq::new(
            playlists.len(),
            |i: int| if playlists[i].id == edited.id { edited } else { playlists[i] },
        ),
        None => Seq::empty(),
    }
}

/// The collection after `playlist` was deleted from it: the entries under
/// other identifiers, in order. Deleting nothing leaves no entry behind.
pub open spec fn after_delete(playlists: Seq<PlaylistView>, playlist: Option<PlaylistView>) -> Seq<PlaylistView> {
    match playlist {
        Some(deleted) => playlists.filter(|entry: PlaylistView| entry.id != deleted.id),
        None => Seq::empty(),
    }
}

/// Saves `playlist` into `playlists` under its identifier.
pub fn save_playlists(playlists: &mut Vec<Playlist>, playlist: Option<Playlist>)
    ensures
        views_of(final(playlists)@) == after_save(views_of(old(playlists)@), optional_view(playlist)),
{
    let mut saved: Vec<Playlist> = Vec::new();
    if let Some(edited) = &playlist {
        let edited_id = match edited.get_id() {
            Some(id) => id,
            None => String::new(),
        };
        let mut index: usize = 0;
        while index < playlists.len()
            invariant
                index <= playlists.len(),
                saved.len() == index,
                edited_id@ == edited@.id,
                forall|i: int| 0 <= i < index ==> (#[trigger] saved[i])@ == if playlists[i]@.id == edited@.id {
                    edited@
                } else {
                    playlists[i]@
                },
            decreases playlists.len() - index,
        {
            let entry_id = match playlists[index].get_id() {
                Some(id) => id,
                None => String::new(),
            };
            if edited_id == entry_id {
                saved.push(edited.clone());
            } else {
                saved.push(playlists[index].clone());
            }
            index += 1;
        }
    }
    assert(views_of(saved@) =~= after_save(views_of(old(playlists)@), optional_view(playlist)));
    *playlists = saved;
}

/// Deletes `playlist` from `playlists` by its identifier.
pub fn remove_playlist(playlists: &mut Vec<Playlist>, playlist: &Option<Playlist>)
    ensures
        views_of(final(playlists)@) == after_delete(views_of(old(playlists)@), optional_view(*playlist)),
{
    let mut kept: Vec<Playlist> = Vec::new();
    if let Some(deleted) = playlist {
        let deleted_id = match deleted.get_id() {
            Some(id) => id,
            None => String::new(),
        };
        let ghost before = views_of(playlists@);
        let ghost keep = |entry: PlaylistView| entry.id != deleted@.id;
        let mut index: usize = 0;
        proof {
            assert(before.take(0) =~= Seq::<PlaylistView>::empty());
            reveal(Seq::filter);
        }
        while index < playlists.len()
            invariant
                index <= playlists.len(),
                before == views_of(playlists@),
                deleted_id@ == deleted@.id,
                keep == |entry: PlaylistView| entry.id != deleted@.id,
                views_of(kept@) == before.take(index as int).filter(keep),
            decreases playlists.len() - index,
        {
            proof {
                assert(before.take(index + 1) =~= before.take(index as int).push(before[index as int]));
                before.take(index as int).lemma_filter_push(before[index as int], keep);
            }
            let entry_id = match playlists[index].get_id() {
                Some(id) => id,
                None => String::new(),
            };
            if entry_id != deleted_id {
                let ghost earlier = kept@;
                kept.push(playlists[index].clone());
                assert(views_of(kept@) =~= views_of(earlier).push(before[index as int]));
            }
            index += 1;
        }
        assert(before.take(index as int) =~= before);
    } else {
        assert(views_of(kept@) =~= Seq::<PlaylistView>::empty());
    }
    *playlists = kept;
}

/// Appends a new, empty playlist called `name` under a fresh identifier.
pub fn add_playlist(playlists: &mut Vec<Playlist>, name: String)
    ensures
        final(playlists)@.len() == old(playlists)@.len() + 1,
        views_of(final(playlists)@).drop_last() == views_of(old(playlists)@),
        views_of(final(playlists)@).last().name == name@,
        views_of(final(playlists)@).last().sources == Seq::<Seq<char>>::empty(),
        is_fresh_id(views_of(final(playlists)@).last().id),
{
    playlists.push(Playlist::new(name));
    assert(views_of(playlists@).drop_last() =~= views_of(old(playlists)@));
}

/// The playlist that an edit of `edited` saves under the name `name`: the
/// identifier and the sources of `edited`. Where nothing was being
/// edited, a new, empty playlist under a fresh identifier.
pub fn renamed(edited: &Option<Playlist>, name: String) -> (playlist: Playlist)
    ensures
        playlist@.name == name@,
        match *edited {
            Some(before) => playlist@.id == before@.id && playlist@.sources == before@.sources,
            None => is_fresh_id(playlist@.id) && playlist@.sources == Seq::<Seq<char>>::empty(),
        },
{
    match edited {
        Some(before) => {
            let mut playlist = before.clone();
            playlist.set_name(name);
            playlist
        },
        None => Playlist::new(name),
    }
}

} // verus!
