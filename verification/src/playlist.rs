//! Choosing what to show of a playlist: the titles to pick a playlist from,
//! and the public videos of the one that was picked.
//!
//! The types hold what a listing of the video service gives for a playlist
//! and for an entry of one, as plain optional strings.
use vstd::prelude::*;

verus! {

/// A playlist of the user.
pub struct Playlist {
    pub id: Option<String>,
    pub title: Option<String>,
}

/// An entry of a playlist.
pub struct PlaylistItem {
    pub title: Option<String>,
    pub video_id: Option<String>,
    pub privacy_status: Option<String>,
}

/// A public video: its title and its id.
pub struct PublicVideo {
    pub title: String,
    pub video_id: String,
}

impl PublicVideo {
    /// The title and the id, as sequences of characters.
    pub open spec fn entry(self) -> (Seq<char>, Seq<char>) {
        (self.title@, self.video_id@)
    }
}

impl PlaylistItem {
    /// The entry's privacy status is `public`.
    pub open spec fn is_public(self) -> bool {
        self.privacy_status matches Some(status) && status@ == "public"@
    }

    /// The entry can be listed: its privacy status is known and, if it is
    /// public, so are its title and its video id.
    pub open spec fn is_listable(self) -> bool {
        &&& self.privacy_status is Some
        &&& self.is_public() ==> self.title is Some && self.video_id is Some
    }

    /// The title and the id, as sequences of characters.
    pub open spec fn entry(self) -> (Seq<char>, Seq<char>)
        recommends
            self.title is Some,
            self.video_id is Some,
    {
        (self.title->0@, self.video_id->0@)
    }

    /// Is the entry's privacy status `public`? An entry without a status is
    /// not.
    pub fn public(&self) -> (public: bool)
        ensures
            public == self.is_public(),
    {
        match &self.privacy_status {
            Some(status) => *status == "public".to_owned(),
            None => false,
        }
    }

    /// Can the entry be listed?
    pub fn listable(&self) -> (listable: bool)
        ensures
            listable == self.is_listable(),
    {
        if self.privacy_status.is_none() {
            false
        } else if self.public() {
            self.title.is_some() && self.video_id.is_some()
        } else {
            true
        }
    }
}

/// Every playlist has a title.
pub open spec fn all_titled(playlists: Seq<Playlist>) -> bool {
    forall|i: int| 0 <= i < playlists.len() ==> (#[trigger] playlists[i]).title is Some
}

/// Every entry can be listed.
pub open spec fn all_listable(items: Seq<PlaylistItem>) -> bool {
    forall|i: int| 0 <= i < items.len() ==> (#[trigger] items[i]).is_listable()
}

/// The public entries among `items`, in their order, each as title and id.
pub open spec fn public_entries(items: Seq<PlaylistItem>) -> Seq<(Seq<char>, Seq<char>)>
    decreases items.len(),
{
    if items.len() == 0 {
        Seq::empty()
    } else if items.last().is_public() {
        public_entries(items.drop_last()).push(items.last().entry())
    } else {
        public_entries(items.drop_last())
    }
}

/// Does every playlist have a title?
pub fn has_all_titles(playlists: &Vec<Playlist>) -> (titled: bool)
    ensures
        titled == all_titled(playlists@),
{
    let mut i: usize = 0;
    while i < playlists.len()
        invariant
            i <= playlists.len(),
            forall|k: int| 0 <= k < i ==> (#[trigger] playlists@[k]).title is Some,
        decreases playlists.len() - i,
    {
        if playlists[i].title.is_none() {
            return false;
        }
        i += 1;
    }
    true
}

/// The titles of the playlists, in their order: what the user picks from.
pub fn titles(playlists: &Vec<Playlist>) -> (titles: Vec<String>)
    requires
        all_titled(playlists@),
    ensures
        titles@.len() == playlists@.len(),
        forall|i: int| 0 <= i < titles@.len() ==> (#[trigger] titles@[i])@ == playlists@[i].title->0@,
{
    let mut titles: Vec<String> = Vec::new();
    let mut i: usize = 0;
    while i < playlists.len()
        invariant
            i <= playlists.len(),
            all_titled(playlists@),
            titles@.len() == i,
            forall|k: int| 0 <= k < i ==> (#[trigger] titles@[k])@ == playlists@[k].title->0@,
        decreases playlists.len() - i,
    {
        titles.push(playlists[i].title.as_ref().unwrap().clone());
        i += 1;
    }
    titles
}

/// Can every entry be listed?
pub fn can_list(items: &Vec<PlaylistItem>) -> (listable: bool)
    ensures
        listable == all_listable(items@),
{
    let mut i: usize = 0;
    while i < items.len()
        invariant
            i <= items.len(),
            forall|k: int| 0 <= k < i ==> (#[trigger] items@[k]).is_listable(),
        decreases items.len() - i,
    {
        if !items[i].listable() {
            return false;
        }
        i += 1;
    }
    true
}

/// The public videos of a playlist, in the playlist's order.
pub fn public_videos(items: &Vec<PlaylistItem>) -> (videos: Vec<PublicVideo>)
    requires
        all_listable(items@),
    ensures
        videos@.len() == public_entries(items@).len(),
        forall|k: int|
            0 <= k < videos@.len() ==> (#[trigger] videos@[k]).entry() == public_entries(
                items@,
            )[k],
{
    let mut videos: Vec<PublicVideo> = Vec::new();
    let mut i: usize = 0;
    while i < items.len()
        invariant
            i <= items.len(),
            all_listable(items@),
            videos@.len() == public_entries(items@.take(i as int)).len(),
            forall|k: int|
                0 <= k < videos@.len() ==> (#[trigger] videos@[k]).entry() == public_entries(
                    items@.take(i as int),
                )[k],
        decreases items.len() - i,
    {
        proof {
            assert(items@.take(i + 1).drop_last() =~= items@.take(i as int));
            assert(items@.take(i + 1).last() == items@[i as int]);
            assert(items@[i as int].is_listable());
        }
        if items[i].public() {
            let title = items[i].title.as_ref().unwrap().clone();
            let video_id = items[i].video_id.as_ref().unwrap().clone();
            videos.push(PublicVideo { title, video_id });
        }
        i += 1;
    }
    assert(items@.take(items@.len() as int) =~= items@);
    videos
}

} // verus!
