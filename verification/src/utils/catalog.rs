use vstd::prelude::*;
use crate::media::source::{is_fresh_id, Playlist};
use crate::utils::text::{clone_strings, texts};

verus! {

/// How many levels of a directory a scan looks into: the directory itself,
/// its folders, and the folders of those.
pub const SCAN_DEPTH: u8 = 3;

/// One child of a listed directory: a file, or a folder with its own
/// children in the order of the listing.
#[derive(Debug)]
pub struct Entry {
    pub path: String,
    pub is_file: bool,
    pub children: Vec<Entry>,
}

/// The files that a scan finds among `entries`, looking `depth` levels
/// deep: every file in its place, and in the place of every folder the
/// files found in it one level less deep.
pub open spec fn files_in(entries: Seq<Entry>, depth: nat) -> Seq<Seq<char>>
    decreases depth, entries.len(),
{
    if depth == 0 || entries.len() == 0 {
        Seq::empty()
    } else if entries.last().is_file {
        files_in(entries.drop_last(), depth).push(entries.last().path@)
    } else {
        files_in(entries.drop_last(), depth) + files_in(entries.last().children@, (depth - 1) as nat)
    }
}

/// Adds to `found` the files among `entries`, looking `depth` levels deep.
fn collect(found: &mut Playlist, entries: &Vec<Entry>, depth: u8)
    ensures
        final(found)@.sources == old(found)@.sources + files_in(entries@, depth as nat),
        final(found)@.id == old(found)@.id,
        final(found)@.name == old(found)@.name,
    decreases depth,
{
    if depth == 0 {
        assert(found@.sources =~= old(found)@.sources + files_in(entries@, depth as nat));
        return ;
    }
    let mut index: usize = 0;
    assert(entries@.take(0) =~= Seq::<Entry>::empty());
    assert(found@.sources =~= old(found)@.sources + files_in(entries@.take(0), depth as nat));
    while index < entries.len()
        invariant
            index <= entries.len(),
            depth > 0,
            found@.sources == old(found)@.sources + files_in(entries@.take(index as int), depth as nat),
            found@.id == old(found)@.id,
            found@.name == old(found)@.name,
        decreases entries.len() - index,
    {
        let ghost before = found@.sources;
        let ghost seen = entries@.take(index as int);
        let ghost next = entries@.take(index + 1);
        proof {
            assert(next.drop_last() =~= seen);
            assert(next.last() == entries[index as int]);
        }
        if entries[index].is_file {
            found.add_source(Some(entries[index].path.clone()));
            assert(found@.sources =~= old(found)@.sources + files_in(next, depth as nat));
        } else {
            collect(found, &entries[index].children, depth - 1);
            assert(found@.sources =~= old(found)@.sources + files_in(next, depth as nat));
        }
        index += 1;
    }
    assert(entries@.take(index as int) =~= entries@);
}

/// The playlist of a scanned directory, `listing` being its children in
/// the order of the listing: an unnamed playlist under a fresh identifier
/// that holds the files found `SCAN_DEPTH` levels deep.
pub fn load_sources(listing: &Vec<Entry>) -> (sources: Playlist)
    ensures
        sources@.sources == files_in(listing@, SCAN_DEPTH as nat),
        sources@.name == Seq::<char>::empty(),
        is_fresh_id(sources@.id),
{
    let mut sources = Playlist::new(String::new());
    collect(&mut sources, listing, SCAN_DEPTH);
    assert(sources@.sources =~= files_in(listing@, SCAN_DEPTH as nat));
    sources
}

/// Where the catalog stands: the directory that was chosen to browse, the
/// directory that is shown, and the folders that were entered on the way.
#[derive(Debug)]
pub struct Browser {
    dir: String,
    path: String,
    folders: Vec<String>,
}

/// A browser as mathematical values.
pub struct BrowserView {
    pub dir: Seq<char>,
    pub path: Seq<char>,
    pub folders: Seq<Seq<char>>,
}

impl BrowserView {
    /// The browser after a step back. With no folder entered, the chosen
    /// directory is shown. Otherwise the last folder entered is given up;
    /// where it was the one shown and another folder is left, that one is
    /// shown, and the chosen directory in every other case.
    pub open spec fn stepped_back(self) -> BrowserView {
        if self.folders.len() == 0 {
            BrowserView { path: self.dir, ..self }
        } else if self.folders.last() == self.path && self.folders.len() > 1 {
            BrowserView {
                path: self.folders[self.folders.len() - 2],
                folders: self.folders.drop_last(),
                ..self
            }
        } else {
            BrowserView { path: self.dir, folders: self.folders.drop_last(), ..self }
        }
    }

    /// The browser after the return to the chosen directory, which the
    /// root does not allow.
    pub open spec fn returned(self) -> BrowserView {
        if self.dir == seq!['/'] {
            self
        } else {
            BrowserView { path: self.dir, folders: Seq::empty(), ..self }
        }
    }

    /// The browser after `folder` was entered: it is shown, and remembered
    /// unless it is the chosen directory.
    pub open spec fn entered(self, folder: Seq<char>) -> BrowserView {
        if folder == self.dir {
            BrowserView { path: folder, ..self }
        } else {
            BrowserView { path: folder, folders: self.folders.push(folder), ..self }
        }
    }
}

impl View for Browser {
    type V = BrowserView;

    closed spec fn view(&self) -> BrowserView {
        BrowserView { dir: self.dir@, path: self.path@, folders: texts(self.folders@) }
    }
}

impl Browser {
    /// A browser that shows the chosen directory `dir`.
    pub fn new(dir: String) -> (browser: Self)
        ensures
            browser@ == (BrowserView { dir: dir@, path: dir@, folders: Seq::empty() }),
    {
        let browser = Browser { path: dir.clone(), dir, folders: Vec::new() };
        assert(texts(browser.folders@) =~= Seq::<Seq<char>>::empty());
        browser
    }

    /// The chosen directory.
    pub fn dir(&self) -> (dir: String)
        ensures
            dir@ == self@.dir,
    {
        self.dir.clone()
    }

    /// The directory that is shown.
    pub fn path(&self) -> (path: String)
        ensures
            path@ == self@.path,
    {
        self.path.clone()
    }

    /// The folders that were entered, the last one last.
    pub fn folders(&self) -> (folders: Vec<String>)
        ensures
            texts(folders@) == self@.folders,
    {
        clone_strings(&self.folders)
    }

    /// Whether a folder was entered, so that a step back gives one up.
    pub fn can_go_back(&self) -> (possible: bool)
        ensures
            possible == (self@.folders.len() > 0),
    {
        self.folders.len() > 0
    }

    /// Whether another directory than the chosen one is shown.
    pub fn can_go_dir(&self) -> (possible: bool)
        ensures
            possible == (self@.path != self@.dir),
    {
        self.path != self.dir
    }

    /// Steps back.
    pub fn back(&mut self)
        ensures
            final(self)@ == old(self)@.stepped_back(),
    {
        let count = self.folders.len();
        if count == 0 {
            self.path = self.dir.clone();
        } else {
            assert(texts(self.folders@).last() == self.folders[count - 1]@);
            let left = self.folders.pop();
            assert(texts(self.folders@) =~= texts(old(self).folders@).drop_last());
            let shown = match &left {
                Some(folder) => *folder == self.path,
                None => false,
            };
            if shown && count > 1 {
                assert(texts(old(self).folders@)[count - 2] == self.folders[count - 2]@);
                self.path = self.folders[count - 2].clone();
            } else {
                self.path = self.dir.clone();
            }
        }
    }

    /// Returns to the chosen directory.
    pub fn home(&mut self)
        ensures
            final(self)@ == old(self)@.returned(),
    {
        let mut root = String::new();
        root.push('/');
        assert(root@ =~= seq!['/']);
        if self.dir != root {
            self.path = self.dir.clone();
            self.folders.clear();
            assert(texts(self.folders@) =~= Seq::<Seq<char>>::empty());
        }
    }

    /// Enters `folder`.
    pub fn enter(&mut self, folder: String)
        ensures
            final(self)@ == old(self)@.entered(folder@),
    {
        self.path = folder.clone();
        if folder != self.dir {
            self.folders.push(folder);
            assert(texts(self.folders@) =~= texts(old(self).folders@).push(folder@));
        }
    }

    /// Chooses `dir` as the directory to browse and shows it.
    pub fn change_dir(&mut self, dir: String)
        ensures
            final(self)@ == (BrowserView { dir: dir@, path: dir@, ..old(self)@ }),
    {
        self.path = dir.clone();
        self.dir = dir;
    }
}

} // verus!
