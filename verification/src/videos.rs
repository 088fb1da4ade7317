//! Videos: which files of a folder are shown, and in what order.
use crate::error::Error;
use crate::paths::{is_video_path, FilePath, FilePathView};
use crate::{paths, text};
use vstd::prelude::*;

verus! {

/// A video of the chosen folder.
#[derive(Debug)]
pub struct Video {
    pub name: String,
    pub path: FilePath,
}

/// The model of a `Video`.
#[verifier::ext_equal]
pub struct VideoView {
    pub name: Seq<char>,
    pub path: FilePathView,
}

impl View for Video {
    type V = VideoView;

    open spec fn view(&self) -> VideoView {
        VideoView { name: self.name@, path: self.path@ }
    }
}

/// The models of a row of videos.
pub open spec fn video_views(videos: Seq<Video>) -> Seq<VideoView> {
    videos.map_values(|video: Video| video@)
}

/// What the file system says of one entry of a folder.
#[derive(Debug)]
pub enum FolderEntry {
    /// The entry has this path, and is a file or not.
    Found { path: FilePath, is_file: bool },
    /// The entry could not be read.
    Unreadable { error: Error },
}

/// What the file system says of a folder.
#[derive(Debug)]
pub enum FolderListing {
    /// The folder's entries, in the order in which they were listed.
    Entries { entries: Vec<FolderEntry> },
    /// There is no such folder.
    NotFound,
    /// The folder could not be listed.
    Unreadable { error: Error },
}

/// The message of the first entry that could not be read.
pub open spec fn first_failure(entries: Seq<FolderEntry>) -> Option<Seq<char>>
    decreases entries.len(),
{
    if entries.len() == 0 {
        None
    } else {
        match first_failure(entries.drop_last()) {
            Some(message) => Some(message),
            None => match entries.last() {
                FolderEntry::Found { .. } => None,
                FolderEntry::Unreadable { error } => Some(error@),
            },
        }
    }
}

/// The video that an entry is, if it is one: a file whose name says so.
pub open spec fn video_of(entry: FolderEntry) -> Option<VideoView> {
    match entry {
        FolderEntry::Found { path, is_file } => if is_file && paths::is_video_name(
            path@.file_name,
        ) {
            Some(VideoView { name: path@.file_name->0, path: path@ })
        } else {
            None
        },
        FolderEntry::Unreadable { .. } => None,
    }
}

/// The videos among some entries, in the order of the entries.
pub open spec fn videos_of(entries: Seq<FolderEntry>) -> Seq<VideoView>
    decreases entries.len(),
{
    if entries.len() == 0 {
        Seq::empty()
    } else {
        match video_of(entries.last()) {
            Some(video) => videos_of(entries.drop_last()).push(video),
            None => videos_of(entries.drop_last()),
        }
    }
}

/// `video` put into an ordered row, behind all that do not come after it.
pub open spec fn inserted(ordered: Seq<VideoView>, video: VideoView) -> Seq<VideoView>
    decreases ordered.len(),
{
    if ordered.len() > 0 && text::precedes(video.name, ordered.last().name) {
        inserted(ordered.drop_last(), video).push(ordered.last())
    } else {
        ordered.push(video)
    }
}

/// Some videos in the order of their names. Videos of one name keep their order.
pub open spec fn by_name(videos: Seq<VideoView>) -> Seq<VideoView>
    decreases videos.len(),
{
    if videos.len() == 0 {
        Seq::empty()
    } else {
        inserted(by_name(videos.drop_last()), videos.last())
    }
}

/// Whether no video of a row has a name that comes before an earlier one's.
pub open spec fn is_ordered(videos: Seq<VideoView>) -> bool {
    forall|i: int, j: int|
        0 <= i < j < videos.len() ==> !text::precedes(
            (#[trigger] videos[j]).name,
            (#[trigger] videos[i]).name,
        )
}

/// Puts `video` into the ordered row of videos.
fn insert_by_name(videos: &mut Vec<Video>, video: Video)
    ensures
        video_views(final(videos)@) == inserted(video_views(old(videos)@), video@),
{
    let ghost before = video_views(videos@);
    let mut position: usize = videos.len();
    assert(before.take(position as int) =~= before);
    assert(before.skip(position as int) =~= Seq::<VideoView>::empty());
    assert(inserted(before, video@) =~= inserted(before.take(position as int), video@)
        + before.skip(position as int));
    while position > 0 && text::comes_before(&video.name, &videos[position - 1].name)
        invariant
            position <= videos@.len(),
            before == video_views(videos@),
            inserted(before, video@) == inserted(before.take(position as int), video@)
                + before.skip(position as int),
        decreases position,
    {
        proof {
            let row = before.take(position as int);
            assert(row.drop_last() =~= before.take(position - 1));
            assert(row.last() == before[position - 1]);
            assert(before[position - 1] == videos@[position - 1]@);
            assert(inserted(row, video@) == inserted(before.take(position - 1), video@).push(
                before[position - 1],
            ));
            assert(inserted(before, video@) =~= inserted(before.take(position - 1), video@)
                + before.skip(position - 1));
        }
        position = position - 1;
    }
    proof {
        let row = before.take(position as int);
        if position > 0 {
            assert(row.last() == videos@[position - 1]@);
        }
        assert(inserted(row, video@) == row.push(video@));
    }
    let ghost model = video@;
    videos.insert(position, video);
    assert(video_views(videos@) =~= before.take(position as int).push(model) + before.skip(
        position as int,
    ));
}

/// Puts videos in the order of their names. Videos of one name keep their order.
pub fn sort_by_name(videos: Vec<Video>) -> (result: Vec<Video>)
    ensures
        video_views(result@) == by_name(video_views(videos@)),
{
    let ghost all = video_views(videos@);
    let mut rest = videos;
    let mut waiting: Vec<Video> = Vec::new();
    while rest.len() > 0
        invariant
            all.len() == rest@.len() + waiting@.len(),
            all.take(rest@.len() as int) =~= video_views(rest@),
            forall|i: int|
                0 <= i < waiting@.len() ==> (#[trigger] waiting@[i])@ == all[all.len() - 1 - i],
        decreases rest@.len(),
    {
        let ghost before = rest@;
        match rest.pop() {
            None => {},
            Some(video) => {
                assert(video@ == video_views(before)[before.len() - 1]);
                assert(video@ == all.take(before.len() as int)[before.len() - 1]);
                assert(all.take(rest@.len() as int) =~= video_views(rest@)) by {
                    assert(video_views(rest@) =~= video_views(before).drop_last());
                }
                waiting.push(video);
            },
        }
    }
    let mut result: Vec<Video> = Vec::new();
    assert(video_views(result@) =~= by_name(all.take(0)));
    while waiting.len() > 0
        invariant
            waiting@.len() <= all.len(),
            forall|i: int|
                0 <= i < waiting@.len() ==> (#[trigger] waiting@[i])@ == all[all.len() - 1 - i],
            video_views(result@) == by_name(all.take(all.len() - waiting@.len())),
        decreases waiting@.len(),
    {
        let ghost done = all.len() - waiting@.len();
        match waiting.pop() {
            None => {},
            Some(video) => {
                assert(video@ == all[done]);
                assert(all.take(done + 1).drop_last() =~= all.take(done));
                insert_by_name(&mut result, video);
            },
        }
    }
    assert(all.take(all.len() as int) =~= all);
    result
}

/// The videos of a folder by name, or the message of the failure to list them. A folder that is
/// missing has none; the first failure to read an entry is the outcome of the whole.
pub open spec fn listed_videos(listing: FolderListing) -> Result<Seq<VideoView>, Seq<char>> {
    match listing {
        FolderListing::NotFound => Ok(Seq::empty()),
        FolderListing::Unreadable { error } => Err(error@),
        FolderListing::Entries { entries } => match first_failure(entries@) {
            Some(message) => Err(message),
            None => Ok(by_name(videos_of(entries@))),
        },
    }
}

/// Lists the videos of a folder by name.
pub fn read_videos(listing: FolderListing) -> (result: Result<Vec<Video>, Error>)
    ensures
        match result {
            Ok(videos) => listed_videos(listing) == Ok::<Seq<VideoView>, Seq<char>>(
                video_views(videos@),
            ),
            Err(error) => listed_videos(listing) == Err::<Seq<VideoView>, Seq<char>>(error@),
        },
        match listing {
            FolderListing::NotFound => result matches Ok(videos) && videos@.len() == 0,
            FolderListing::Unreadable { error } => result matches Err(failure) && failure@
                == error@,
            FolderListing::Entries { entries } => match first_failure(entries@) {
                Some(message) => result matches Err(failure) && failure@ == message,
                None => result matches Ok(videos) && video_views(videos@) == by_name(
                    videos_of(entries@),
                ),
            },
        },
{
    let entries = match listing {
        FolderListing::NotFound => {
            let none: Vec<Video> = Vec::new();
            assert(video_views(none@) =~= Seq::empty());
            return Ok(none);
        },
        FolderListing::Unreadable { error } => {
            return Err(error);
        },
        FolderListing::Entries { entries } => entries,
    };
    let mut videos: Vec<Video> = Vec::new();
    let mut position: usize = 0;
    assert(video_views(videos@) =~= videos_of(entries@.take(0)));
    while position < entries.len()
        invariant
            position <= entries@.len(),
            listing == (FolderListing::Entries { entries }),
            first_failure(entries@.take(position as int)) is None,
            video_views(videos@) == videos_of(entries@.take(position as int)),
        decreases entries@.len() - position,
    {
        let ghost longer = entries@.take(position + 1);
        assert(longer.drop_last() =~= entries@.take(position as int));
        assert(longer.last() == entries@[position as int]);
        match &entries[position] {
            FolderEntry::Unreadable { error } => {
                proof {
                    lemma_first_failure_stays(entries@, position + 1);
                }
                return Err(Error::new(&error.message));
            },
            FolderEntry::Found { path, is_file } => {
                if *is_file && is_video_path(path) {
                    match &path.file_name {
                        None => {},
                        Some(name) => {
                            let ghost before = videos@;
                            let video = Video { name: name.clone(), path: path.copy() };
                            let ghost model = video@;
                            videos.push(video);
                            assert(video_views(videos@) =~= video_views(before).push(model));
                        },
                    }
                }
            },
        }
        position = position + 1;
    }
    assert(entries@.take(position as int) =~= entries@);
    Ok(sort_by_name(videos))
}

/// A failure among the first entries is the first failure of all.
proof fn lemma_first_failure_stays(entries: Seq<FolderEntry>, length: int)
    requires
        0 <= length <= entries.len(),
        first_failure(entries.take(length)) is Some,
    ensures
        first_failure(entries) == first_failure(entries.take(length)),
    decreases entries.len() - length,
{
    if length == entries.len() {
        assert(entries.take(length) =~= entries);
    } else {
        assert(entries.take(length + 1).drop_last() =~= entries.take(length));
        lemma_first_failure_stays(entries, length + 1);
    }
}

/// What is put into a row is in it, with what was there before, and nothing else is.
proof fn lemma_inserted_elements(ordered: Seq<VideoView>, video: VideoView, index: int)
    requires
        0 <= index < inserted(ordered, video).len(),
    ensures
        inserted(ordered, video)[index] == video || ordered.contains(
            inserted(ordered, video)[index],
        ),
    decreases ordered.len(),
{
    if ordered.len() > 0 && text::precedes(video.name, ordered.last().name) {
        let shorter = inserted(ordered.drop_last(), video);
        if index < shorter.len() {
            lemma_inserted_elements(ordered.drop_last(), video, index);
            if ordered.drop_last().contains(shorter[index]) {
                let i = choose|i: int|
                    0 <= i < ordered.drop_last().len() && ordered.drop_last()[i] == shorter[index];
                assert(ordered[i] == shorter[index]);
            }
        } else {
            assert(ordered[ordered.len() - 1] == ordered.last());
        }
    } else if index < ordered.len() {
        assert(inserted(ordered, video)[index] == ordered[index]);
    }
}

/// Putting a video into an ordered row leaves it ordered.
proof fn lemma_inserted_ordered(ordered: Seq<VideoView>, video: VideoView)
    requires
        is_ordered(ordered),
    ensures
        is_ordered(inserted(ordered, video)),
    decreases ordered.len(),
{
    let row = inserted(ordered, video);
    if ordered.len() > 0 && text::precedes(video.name, ordered.last().name) {
        let shorter = inserted(ordered.drop_last(), video);
        assert(is_ordered(ordered.drop_last())) by {
            assert forall|i: int, j: int|
                0 <= i < j < ordered.drop_last().len() implies !text::precedes(
                (#[trigger] ordered.drop_last()[j]).name,
                (#[trigger] ordered.drop_last()[i]).name,
            ) by {
                assert(!text::precedes(ordered[j].name, ordered[i].name));
            }
        }
        lemma_inserted_ordered(ordered.drop_last(), video);
        assert forall|i: int, j: int| 0 <= i < j < row.len() implies !text::precedes(
            (#[trigger] row[j]).name,
            (#[trigger] row[i]).name,
        ) by {
            assert(row[i] == shorter[i]);
            if j < shorter.len() {
                assert(row[j] == shorter[j]);
            } else {
                lemma_inserted_elements(ordered.drop_last(), video, i);
                if shorter[i] == video {
                    text::lemma_precedes_total(video.name, ordered.last().name);
                } else {
                    let k = choose|k: int|
                        0 <= k < ordered.drop_last().len() && ordered.drop_last()[k] == shorter[i];
                    assert(ordered[k] == shorter[i]);
                    assert(!text::precedes(ordered[ordered.len() - 1].name, ordered[k].name));
                }
            }
        }
    } else {
        assert forall|i: int, j: int| 0 <= i < j < row.len() implies !text::precedes(
            (#[trigger] row[j]).name,
            (#[trigger] row[i]).name,
        ) by {
            if j < ordered.len() {
                assert(!text::precedes(ordered[j].name, ordered[i].name));
            } else {
                let last = ordered[ordered.len() - 1];
                if i < ordered.len() - 1 {
                    assert(!text::precedes(last.name, ordered[i].name));
                    text::lemma_precedes_total(last.name, ordered[i].name);
                    if text::precedes(video.name, ordered[i].name) && text::precedes(
                        ordered[i].name,
                        last.name,
                    ) {
                        text::lemma_precedes_transitive(video.name, ordered[i].name, last.name);
                    }
                }
            }
        }
    }
}

/// Videos are shown in the order of their names.
pub proof fn law_by_name_is_ordered(videos: Seq<VideoView>)
    ensures
        is_ordered(by_name(videos)),
    decreases videos.len(),
{
    if videos.len() > 0 {
        law_by_name_is_ordered(videos.drop_last());
        lemma_inserted_ordered(by_name(videos.drop_last()), videos.last());
    }
}

/// Putting a video into a row adds that video and changes nothing else.
proof fn lemma_inserted_keeps(ordered: Seq<VideoView>, video: VideoView)
    ensures
        inserted(ordered, video).to_multiset() == ordered.to_multiset().insert(video),
    decreases ordered.len(),
{
    broadcast use vstd::seq_lib::group_to_multiset_ensures;

    if ordered.len() > 0 && text::precedes(video.name, ordered.last().name) {
        lemma_inserted_keeps(ordered.drop_last(), video);
        assert(ordered =~= ordered.drop_last().push(ordered.last()));
        assert(ordered.to_multiset() =~= ordered.drop_last().to_multiset().insert(ordered.last()));
        assert(inserted(ordered, video).to_multiset() =~= ordered.to_multiset().insert(video));
    }
}

/// Ordering neither loses nor adds a video.
pub proof fn law_by_name_keeps_videos(videos: Seq<VideoView>)
    ensures
        by_name(videos).to_multiset() == videos.to_multiset(),
    decreases videos.len(),
{
    broadcast use vstd::seq_lib::group_to_multiset_ensures;

    if videos.len() > 0 {
        law_by_name_keeps_videos(videos.drop_last());
        lemma_inserted_keeps(by_name(videos.drop_last()), videos.last());
        assert(videos =~= videos.drop_last().push(videos.last()));
    }
}

/// The videos of one name, in the order of the row.
pub open spec fn with_name(videos: Seq<VideoView>, name: Seq<char>) -> Seq<VideoView> {
    videos.filter(|video: VideoView| video.name == name)
}

/// One more video at the end of a row is one more of its name at the end.
proof fn lemma_with_name_push(videos: Seq<VideoView>, video: VideoView, name: Seq<char>)
    ensures
        with_name(videos.push(video), name) == (if video.name == name {
            with_name(videos, name).push(video)
        } else {
            with_name(videos, name)
        }),
{
    reveal(Seq::filter);
    assert(videos.push(video).drop_last() =~= videos);
}

/// A video put into an ordered row is the last of its name.
proof fn lemma_inserted_with_name(ordered: Seq<VideoView>, video: VideoView, name: Seq<char>)
    ensures
        with_name(inserted(ordered, video), name) == with_name(ordered.push(video), name),
    decreases ordered.len(),
{
    if ordered.len() > 0 && text::precedes(video.name, ordered.last().name) {
        let last = ordered.last();
        let shorter = ordered.drop_last();
        lemma_inserted_with_name(shorter, video, name);
        lemma_with_name_push(inserted(shorter, video), last, name);
        lemma_with_name_push(shorter, video, name);
        assert(ordered =~= shorter.push(last));
        lemma_with_name_push(shorter, last, name);
        lemma_with_name_push(ordered, video, name);
        text::lemma_precedes_irreflexive(last.name);
    }
}

/// Videos of one name keep the order in which they were listed.
pub proof fn law_by_name_is_stable(videos: Seq<VideoView>, name: Seq<char>)
    ensures
        with_name(by_name(videos), name) == with_name(videos, name),
    decreases videos.len(),
{
    if videos.len() > 0 {
        law_by_name_is_stable(videos.drop_last(), name);
        let row = by_name(videos.drop_last());
        lemma_inserted_with_name(row, videos.last(), name);
        lemma_with_name_push(row, videos.last(), name);
        lemma_with_name_push(videos.drop_last(), videos.last(), name);
        assert(videos =~= videos.drop_last().push(videos.last()));
    }
}

/// Whether some entry of a folder is this video.
pub open spec fn is_video_among(entries: Seq<FolderEntry>, video: VideoView) -> bool {
    exists|i: int| 0 <= i < entries.len() && video_of(#[trigger] entries[i]) == Some(video)
}

/// The videos among some entries are all of them and nothing else.
proof fn lemma_videos_of_contains(entries: Seq<FolderEntry>, video: VideoView)
    ensures
        videos_of(entries).contains(video) <==> is_video_among(entries, video),
    decreases entries.len(),
{
    if entries.len() > 0 {
        let earlier = entries.drop_last();
        lemma_videos_of_contains(earlier, video);
        if is_video_among(earlier, video) {
            let i = choose|i: int|
                0 <= i < earlier.len() && video_of(#[trigger] earlier[i]) == Some(video);
            assert(entries[i] == earlier[i]);
        }
        if is_video_among(entries, video) && !is_video_among(earlier, video) {
            let i = choose|i: int|
                0 <= i < entries.len() && video_of(#[trigger] entries[i]) == Some(video);
            if i < earlier.len() {
                assert(earlier[i] == entries[i]);
            }
        }
        assert(entries[entries.len() - 1] == entries.last());
        match video_of(entries.last()) {
            Some(last) => {
                let shorter = videos_of(earlier);
                assert(videos_of(entries)[shorter.len() as int] == last);
                assert forall|i: int| 0 <= i < shorter.len() implies #[trigger] shorter[i]
                    == videos_of(entries)[i] by {}
            },
            None => {},
        }
    }
}

/// What a folder shows is every file of it that is taken for a video, and nothing else.
pub proof fn law_folder_shows_its_videos(entries: Seq<FolderEntry>, video: VideoView)
    ensures
        by_name(videos_of(entries)).contains(video) <==> is_video_among(entries, video),
{
    broadcast use vstd::seq_lib::group_to_multiset_ensures;

    law_by_name_keeps_videos(videos_of(entries));
    lemma_videos_of_contains(entries, video);
    assert(by_name(videos_of(entries)).to_multiset().count(video) == videos_of(
        entries,
    ).to_multiset().count(video));
}

/// Every video that a folder shows is named as its file is, and the name ends in `.mp4`, in
/// capitals or not.
pub proof fn law_videos_are_named_as_files(entries: Seq<FolderEntry>, video: VideoView)
    requires
        by_name(videos_of(entries)).contains(video),
    ensures
        video.path.file_name == Some(video.name),
        paths::is_video_name(Some(video.name)),
{
    law_folder_shows_its_videos(entries, video);
}

/// What a folder shows is told by its entries alone: a video is shown exactly if some entry is a
/// file whose name is a video's, and it has that name and that path.
pub proof fn law_shown_videos_are_files(entries: Seq<FolderEntry>, video: VideoView)
    ensures
        by_name(videos_of(entries)).contains(video) <==> exists|i: int|
            0 <= i < entries.len() && ((#[trigger] entries[i]) matches FolderEntry::Found {
                path,
                is_file,
            } && is_file && paths::is_video_name(path@.file_name) && path@ == video.path
                && path@.file_name == Some(video.name)),
{
    law_folder_shows_its_videos(entries, video);
    if is_video_among(entries, video) {
        let i = choose|i: int|
            0 <= i < entries.len() && video_of(#[trigger] entries[i]) == Some(video);
        assert(entries[i] is Found);
    }
    assert forall|i: int|
        0 <= i < entries.len() && ((#[trigger] entries[i]) matches FolderEntry::Found {
            path,
            is_file,
        } && is_file && paths::is_video_name(path@.file_name) && path@ == video.path
            && path@.file_name == Some(video.name)) implies is_video_among(entries, video) by {
        assert(video_of(entries[i]) == Some(video));
    }
}

/// One more entry adds one video if it is one, and none if it is not, and ordering changes no
/// number.
pub proof fn law_entries_are_counted_once(entries: Seq<FolderEntry>, entry: FolderEntry)
    ensures
        videos_of(Seq::empty()).len() == 0,
        videos_of(entries.push(entry)).len() == videos_of(entries).len() + (if (
        entry matches FolderEntry::Found { path, is_file } && is_file && paths::is_video_name(
            path@.file_name,
        )) {
            1int
        } else {
            0int
        }),
        by_name(videos_of(entries)).len() == videos_of(entries).len(),
{
    broadcast use vstd::seq_lib::group_to_multiset_ensures;

    assert(entries.push(entry).drop_last() =~= entries);
    law_by_name_keeps_videos(videos_of(entries));
    assert(by_name(videos_of(entries)).to_multiset().len() == videos_of(
        entries,
    ).to_multiset().len());
}

/// Whether the entry at `index` could not be read, with this message, and all before it could.
pub open spec fn fails_first_at(
    entries: Seq<FolderEntry>,
    index: int,
    message: Seq<char>,
) -> bool {
    &&& 0 <= index < entries.len()
    &&& entries[index] matches FolderEntry::Unreadable { error } && error@ == message
    &&& forall|i: int| 0 <= i < index ==> (#[trigger] entries[i]) is Found
}

/// The failure to list some entries is that of the first which could not be read, and there is
/// none where all could.
pub proof fn law_first_failure_counts(entries: Seq<FolderEntry>, message: Seq<char>)
    ensures
        first_failure(entries) == Some(message) <==> exists|index: int|
            #[trigger] fails_first_at(entries, index, message),
        first_failure(entries) is None <==> forall|i: int|
            0 <= i < entries.len() ==> (#[trigger] entries[i]) is Found,
    decreases entries.len(),
{
    if entries.len() > 0 {
        let earlier = entries.drop_last();
        let count = earlier.len() as int;
        law_first_failure_counts(earlier, message);
        assert forall|i: int| 0 <= i < count implies #[trigger] earlier[i] == entries[i] by {}
        assert(entries[count] == entries.last());
        assert forall|index: int| #[trigger] fails_first_at(earlier, index, message) implies
            fails_first_at(entries, index, message) by {
            assert forall|i: int| 0 <= i < index implies (#[trigger] entries[i]) is Found by {
                assert(earlier[i] is Found);
            }
        }
        assert forall|index: int| #[trigger] fails_first_at(entries, index, message) && index
            < count implies fails_first_at(earlier, index, message) by {
            assert forall|i: int| 0 <= i < index implies (#[trigger] earlier[i]) is Found by {
                assert(entries[i] is Found);
            }
        }
        if first_failure(earlier) is None {
            assert forall|i: int| 0 <= i < count implies (#[trigger] entries[i]) is Found by {
                assert(earlier[i] is Found);
            }
            if first_failure(entries) == Some(message) {
                assert(fails_first_at(entries, count, message));
            }
        } else {
            if first_failure(entries) == Some(message) {
                let index = choose|index: int| #[trigger] fails_first_at(earlier, index, message);
                assert(fails_first_at(entries, index, message));
            }
            if forall|i: int| 0 <= i < entries.len() ==> (#[trigger] entries[i]) is Found {
                assert forall|i: int| 0 <= i < count implies (#[trigger] earlier[i]) is Found by {
                    assert(entries[i] is Found);
                }
            }
            assert(!fails_first_at(entries, count, message)) by {
                if fails_first_at(entries, count, message) {
                    assert forall|i: int| 0 <= i < count implies (
                    #[trigger] earlier[i]) is Found by {
                        assert(entries[i] is Found);
                    }
                }
            }
        }
    }
}

} // verus!
